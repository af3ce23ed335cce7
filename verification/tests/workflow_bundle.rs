use base64::Engine;
use clusterflux_coordinator::automated_run::{
    CompiledWorkflowBundle, CompilerIdentity, TrustedDependency, WorkflowCompilationRequest,
    WorkflowSource,
};
use clusterflux_coordinator::duplicate::TextList;
use clusterflux_coordinator::service_error::CoordinatorServiceError;
use clusterflux_coordinator::workflow_bundle::{
    compiled_entrypoint_export, descriptor_records, task_descriptors, validate_compiled_module,
    BundleChecks, BundleRules,
};

fn leb_u32(mut value: u32) -> Vec<u8> {
    let mut encoded = Vec::new();
    loop {
        let mut byte = (value & 0x7f) as u8;
        value >>= 7;
        if value != 0 {
            byte |= 0x80;
        }
        encoded.push(byte);
        if value == 0 {
            return encoded;
        }
    }
}

fn module(section_name: &str, records: &[&str]) -> Vec<u8> {
    let mut section = leb_u32(section_name.len() as u32);
    section.extend_from_slice(section_name.as_bytes());
    for record in records {
        section.extend_from_slice(record.as_bytes());
        section.push(b'\n');
    }
    let mut module = b"\0asm\x01\0\0\0".to_vec();
    module.push(0);
    module.extend(leb_u32(section.len() as u32));
    module.extend(section);
    module
}

fn encoded(module: &[u8]) -> String {
    base64::engine::general_purpose::STANDARD.encode(module)
}

fn entrypoint(name: &str, export: &str) -> String {
    let mut record = serde_json::Map::new();
    record.insert("kind".to_owned(), serde_json::Value::from("entrypoint"));
    record.insert("name".to_owned(), serde_json::Value::from(name));
    record.insert("export".to_owned(), serde_json::Value::from(export));
    record.insert("default".to_owned(), serde_json::Value::from(true));
    serde_json::to_string(&serde_json::Value::Object(record)).unwrap()
}

fn protest<T>(result: Result<T, CoordinatorServiceError>) -> String {
    match result {
        Err(CoordinatorServiceError::Protocol(text)) => text,
        Err(_) => panic!("another error"),
        Ok(_) => panic!("no error"),
    }
}

#[test]
fn automated_launch_uses_the_compiled_descriptor_export_not_its_public_name() {
    let record = entrypoint("main", "clusterflux_entry_v1_compiled_identity");
    let module = encoded(&module("clusterflux.entrypoints", &[&record]));

    match compiled_entrypoint_export(&module, "main") {
        Ok(export) => assert_eq!(export, "clusterflux_entry_v1_compiled_identity"),
        Err(_) => panic!("the entrypoint has an export"),
    }
}

#[test]
fn entrypoints_that_are_absent_or_malformed_are_told_apart() {
    let record = entrypoint("main", "clusterflux_entry_v1");
    let known = encoded(&module("clusterflux.entrypoints", &[&record]));
    assert_eq!(
        protest(compiled_entrypoint_export(&known, "other")),
        "bundle has no entrypoint named `other`"
    );
    assert!(protest(compiled_entrypoint_export("not base64!", "main"))
        .starts_with("compiled workflow module is not valid base64: Invalid symbol"));
    let torn = encoded(&module("clusterflux.entrypoints", &["{"]));
    assert!(matches!(
        compiled_entrypoint_export(&torn, "main"),
        Err(CoordinatorServiceError::Json(text)) if text.starts_with("EOF while parsing")
    ));
}

#[test]
fn descriptors_hold_what_their_records_say() {
    let module = module(
        "clusterflux.tasks",
        &[
            r#"{"name":"build","export":"e","abi_version":3,"required_capabilities":["network",7]}"#,
            "",
            r#"{"name":"check","restart_compatibility_hash":"sha256:abc"}"#,
        ],
    );
    let records = match descriptor_records(&module, "clusterflux.tasks") {
        Ok(records) => records,
        Err(_) => panic!("the records are objects"),
    };
    assert_eq!(records.len(), 2);
    assert_eq!(records[0].name.as_deref(), Some("build"));
    assert_eq!(records[0].export.as_deref(), Some("e"));
    assert_eq!(records[0].abi_version, Some(3));
    assert_eq!(
        records[0].required_capabilities,
        Some(vec![Some("network".to_owned()), None])
    );
    assert_eq!(records[1].abi_version, None);
    assert_eq!(records[1].restart_compatibility.as_deref(), Some("\"sha256:abc\""));
    let tasks = match task_descriptors(&module) {
        Ok(tasks) => tasks,
        Err(_) => panic!("the tasks have names"),
    };
    assert_eq!(tasks.len(), 2);
    assert!(tasks.contains_key(&"check".to_owned()));
    let none = match descriptor_records(&module, "clusterflux.entrypoints") {
        Ok(records) => records,
        Err(_) => panic!("the section is absent"),
    };
    assert!(none.is_empty());
}

#[test]
fn a_task_without_a_name_and_a_module_that_is_none_are_refused() {
    let unnamed = module("clusterflux.tasks", &[r#"{"export":"e"}"#]);
    assert_eq!(protest(task_descriptors(&unnamed)), "task descriptor omitted its name");
    assert!(protest(task_descriptors(&b"\0asm\x01\0\0\0\0\x7f".to_vec()))
        .starts_with("parse coordinator main bundle: "));
}

fn source() -> WorkflowSource {
    WorkflowSource {
        trigger_id: "trigger".to_owned(),
        repository_id: "repository".to_owned(),
        commit_sha: "commit".to_owned(),
        tree_digest: "sha256:tree".to_owned(),
        manifest_digest: "sha256:manifest".to_owned(),
        environments: Vec::new(),
        total_bytes: 1,
        content: String::new(),
    }
}

fn compilation() -> WorkflowCompilationRequest {
    WorkflowCompilationRequest {
        run_id: "run-1".to_owned(),
        source: source(),
        compiler_profile: "profile".to_owned(),
        compiler_image: "sha256:image".to_owned(),
        compiler_sdk: "sha256:sdk".to_owned(),
        rust_toolchain: "1.90".to_owned(),
        max_output_bytes: 1,
        wall_clock_seconds: 1,
        content: String::new(),
    }
}

fn texts(items: &[&str]) -> TextList {
    TextList { items: items.iter().map(|item| (*item).to_owned()).collect() }
}

fn bundle(module: &[u8]) -> CompiledWorkflowBundle {
    CompiledWorkflowBundle {
        bundle_digest: "sha256:bundle".to_owned(),
        source_tree_digest: "sha256:tree".to_owned(),
        manifest_digest: "sha256:manifest".to_owned(),
        execution_module_digest: "sha256:module".to_owned(),
        sdk_abi_version: 1,
        module_base64: encoded(module),
        debug_metadata_base64: String::new(),
        default_entrypoint: "main".to_owned(),
        entrypoints: texts(&["main"]),
        task_definitions: TextList::empty(),
        environments: Vec::new(),
        compiler_identity: CompilerIdentity {
            hosted_sandbox: true,
            sdk_digest: "sha256:sdk".to_owned(),
            sandbox_image_digest: Some("sha256:image".to_owned()),
            rustc_version: "1.90".to_owned(),
            target: "wasm32-unknown-unknown".to_owned(),
            sdk_version: "0.1".to_owned(),
            flags: texts(&[
                "-Copt-level=1",
                "-Cdebuginfo=2",
                "-Cstrip=none",
                "-Cpanic=abort",
                "--remap-path-prefix=/workspace=.clusterflux",
            ]),
            trusted_dependencies: vec![TrustedDependency {
                package: "serde".to_owned(),
                version: "1.0".to_owned(),
                features: texts(&["derive"]),
                digest: "sha256:serde".to_owned(),
            }],
        },
    }
}

fn validate(bundle: &CompiledWorkflowBundle) -> Result<(), CoordinatorServiceError> {
    validate_compiled_module(
        bundle,
        &Some("sha256:tree".to_owned()),
        &Some(compilation()),
        &BundleRules {
            sdk_version: "0.1".to_owned(),
            abi_version: 1,
            max_module_bytes: 1_024,
            serde_version: "1.0".to_owned(),
        },
        BundleChecks {
            metadata: Ok(()),
            module_digest: "sha256:module".to_owned(),
            dependency_digest_valid: true,
            manifest: Ok(Vec::new()),
        },
    )
}

#[test]
fn a_bundle_is_what_its_compilation_asked_for() {
    let record = entrypoint("main", "clusterflux_entry_v1");
    let good = module("clusterflux.entrypoints", &[&record]);
    assert!(validate(&bundle(&good)).is_ok());

    let mut other = bundle(&good);
    other.source_tree_digest = "sha256:else".to_owned();
    assert_eq!(
        protest(validate(&other)),
        "compiled bundle source digest does not match its run"
    );
    let mut other = bundle(&good);
    other.manifest_digest = "sha256:else".to_owned();
    assert_eq!(
        protest(validate(&other)),
        "compiled bundle manifest digest does not match its run"
    );
    let mut other = bundle(&good);
    other.compiler_identity.hosted_sandbox = false;
    assert_eq!(
        protest(validate(&other)),
        "compiled bundle compiler, SDK, or sandbox identity does not match its assignment"
    );
    let mut other = bundle(&good);
    other.sdk_abi_version = 9;
    assert_eq!(protest(validate(&other)), "compiled bundle ABI 9 is unsupported");
    let mut other = bundle(&good);
    other.execution_module_digest = "sha256:else".to_owned();
    assert_eq!(
        protest(validate(&other)),
        "compiled workflow module is oversized or has the wrong digest"
    );
    let mut other = bundle(&good);
    other.compiler_identity.trusted_dependencies = Vec::new();
    assert_eq!(
        protest(validate(&other)),
        "compiled bundle trusted dependency identity does not match this release"
    );
    let mut other = bundle(&good);
    other.entrypoints = texts(&["main", "second"]);
    assert_eq!(
        protest(validate(&other)),
        "compiled workflow descriptors do not match the returned bundle metadata"
    );
}

#[test]
fn a_bundle_holds_a_module_that_is_valid() {
    let mut broken = module("clusterflux.entrypoints", &[]);
    broken.extend_from_slice(&[3, 2, 1, 0]);
    assert!(protest(validate(&bundle(&broken)))
        .starts_with("compiled workflow module is invalid Wasm: "));
    assert!(protest(validate(&bundle(b"no module")))
        .starts_with("compiled workflow module is invalid Wasm: "));
}
