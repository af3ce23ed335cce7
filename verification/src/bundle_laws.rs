//! What a compiled workflow is taken for: what its run asked for, from the compiler of the release, with the
//! tasks and environments that its module itself names.
use vstd::prelude::*;

use crate::automated_run::{CompiledWorkflowBundleModel, EnvironmentResource, WorkflowCompilationRequestModel};
use crate::automation::by_name;
use crate::duplicate::option_view;
use crate::ordered_map::{OrderedMap, ascending, lemma_lookup_found, lemma_lookup_put, lemma_put_ascending, lookup};
use crate::service_error::CoordinatorServiceError;
use crate::text::trimmed;
use crate::workflow_bundle::{BundleChecks, BundleRules, DescriptorFault, DescriptorModel, base64_bytes, bundle_checked, cut, environment_section, environments_read, export_selected, is_named_first, module_descriptors, module_parts, module_tasks, named_descriptors, names_agree, names_in, names_repeat, part_tasks, records, wasm_error};

verus! {

/// A bundle is taken only where it was compiled from the source of its run, as that asked, and holds what it
/// says: the module of its digest, no larger than allowed and valid, with the entrypoints and the tasks that
/// it lists and no other.
pub proof fn bundles_are_what_their_run_asked_for(
    bundle: CompiledWorkflowBundleModel,
    expected_source: Option<Seq<char>>,
    request: Option<WorkflowCompilationRequestModel>,
    rules: BundleRules,
    checks: BundleChecks,
    name: Seq<char>,
)
    requires
        bundle_checked(bundle, expected_source, request, rules, checks, Ok(())),
    ensures
        checks.metadata is Ok,
        expected_source == Some(bundle.source_tree_digest@),
        request matches Some(asked) && {
            &&& asked.source.manifest_digest@ == bundle.manifest_digest@
            &&& bundle.compiler_identity.hosted_sandbox
            &&& bundle.compiler_identity.sdk_digest@ == asked.compiler_sdk@
            &&& option_view(bundle.compiler_identity.sandbox_image_digest) == Some(
                asked.compiler_image@,
            )
            &&& bundle.compiler_identity.rustc_version@ == asked.rust_toolchain@
            &&& bundle.compiler_identity.target@ == "wasm32-unknown-unknown"@
            &&& bundle.compiler_identity.sdk_version@ == rules.sdk_version@
        },
        bundle.sdk_abi_version == rules.abi_version,
        bundle.execution_module_digest@ == checks.module_digest@,
        bundle.compiler_identity.trusted_dependencies.len() == 1,
        checks.dependency_digest_valid,
        base64_bytes(bundle.module_base64@) matches Ok(module) && {
            &&& wasm_error(module) is None
            &&& module.len() <= rules.max_module_bytes
            &&& module_descriptors(module, "clusterflux.entrypoints"@) matches Ok(entries)
            &&& module_descriptors(module, "clusterflux.tasks"@) matches Ok(tasks)
            &&& bundle.entrypoints.contains(name) <==> exists|i: int|
                0 <= i < entries.len() && (#[trigger] entries[i]).name == Some(name)
            &&& bundle.task_definitions.contains(name) <==> exists|i: int|
                0 <= i < tasks.len() && (#[trigger] tasks[i]).name == Some(name)
            &&& environment_section(module) is Ok
            &&& environment_section(module)->Ok_0 is Some ==> checks.manifest is Ok
        },
{
    let module = base64_bytes(bundle.module_base64@)->Ok_0;
    let entries = names_in(module, "clusterflux.entrypoints"@);
    let tasks = names_in(module, "clusterflux.tasks"@);
    assert(entries.contains(name) <==> bundle.entrypoints.contains(name));
    assert(tasks.contains(name) <==> bundle.task_definitions.contains(name));
}

proof fn lemma_cut(a: Seq<u8>, sep: u8, b: Seq<u8>)
    requires
        sep == 10 || sep == 0,
    ensures
        cut(a.push(sep) + b).0 == records(a) + cut(b).0,
        cut(a.push(sep) + b).1 == cut(b).1,
    decreases b.len(),
{
    let whole = a.push(sep) + b;
    if b.len() == 0 {
        assert(whole =~= a.push(sep));
        assert(a.push(sep).drop_last() =~= a);
        assert(records(a) + Seq::<Seq<u8>>::empty() =~= records(a));
    } else {
        lemma_cut(a, sep, b.drop_last());
        assert(whole.drop_last() =~= a.push(sep) + b.drop_last());
        assert(whole.last() == b.last());
        let (done, rest) = cut(b.drop_last());
        assert((records(a) + done).push(rest) =~= records(a) + done.push(rest));
    }
}

/// A section is cut into records at its line ends and zero bytes: what stands before one is read before what
/// stands behind it, and no record is lost or joined with another.
pub proof fn sections_are_cut_into_records(a: Seq<u8>, sep: u8, b: Seq<u8>)
    requires
        sep == 10 || sep == 0,
    ensures
        records(a.push(sep) + b) == records(a) + records(b),
{
    lemma_cut(a, sep, b);
    let (done, rest) = cut(b);
    if rest.len() > 0 {
        assert((records(a) + done).push(rest) =~= records(a) + done.push(rest));
    }
}

/// Bytes hold no line end and no zero byte.
pub open spec fn is_one_line(bytes: Seq<u8>) -> bool {
    forall|j: int| 0 <= j < bytes.len() ==> (#[trigger] bytes[j]) != 10 && bytes[j] != 0
}

proof fn lemma_cut_clean(a: Seq<u8>)
    ensures
        forall|i: int|
            0 <= i < cut(a).0.len() ==> is_one_line(#[trigger] cut(a).0[i]) && cut(a).0[i].len() > 0,
        is_one_line(cut(a).1),
        is_one_line(a) ==> cut(a).0.len() == 0 && cut(a).1 == a,
    decreases a.len(),
{
    if a.len() > 0 {
        let head = a.drop_last();
        lemma_cut_clean(head);
        let (done, rest) = cut(head);
        if a.last() == 10 || a.last() == 0 {
            if rest.len() > 0 {
                let all = done.push(rest);
                assert(cut(a).0 == all);
                assert forall|i: int| 0 <= i < all.len() implies is_one_line(#[trigger] all[i]) && all[i].len()
                    > 0 by {
                    if i < done.len() {
                        assert(all[i] == done[i]);
                    } else {
                        assert(all[i] == rest);
                    }
                }
            }
            if is_one_line(a) {
                assert(a[a.len() - 1] != 10);
            }
        } else if is_one_line(a) {
            assert forall|j: int| 0 <= j < head.len() implies (#[trigger] head[j]) != 10 && head[j]
                != 0 by {
                assert(head[j] == a[j]);
            }
            assert(rest.push(a.last()) =~= a);
        }
    }
}

/// No record is empty or holds a line end or a zero byte; bytes without either are one record.
pub proof fn records_are_whole(a: Seq<u8>, i: int)
    ensures
        0 <= i < records(a).len() ==> records(a)[i].len() > 0 && is_one_line(records(a)[i]),
        is_one_line(a) && a.len() > 0 ==> records(a) == seq![a],
        a.len() == 0 ==> records(a).len() == 0,
{
    lemma_cut_clean(a);
    let (done, rest) = cut(a);
    if 0 <= i < records(a).len() {
        if i < done.len() {
            assert(records(a)[i] == done[i]);
        } else {
            assert(records(a)[i] == rest);
        }
    }
    if is_one_line(a) && a.len() > 0 {
        assert(records(a) =~= seq![a]);
    }
}

proof fn lemma_named(list: Seq<DescriptorModel>, name: Seq<char>)
    ensures
        ascending(named_descriptors(list)),
        lookup(named_descriptors(list), name) matches Some(d) ==> exists|i: int|
            0 <= i < list.len() && (#[trigger] list[i]) == d && d.name->Some_0 == name,
        forall|i: int|
            0 <= i < list.len() && (#[trigger] list[i]).name->Some_0 == name ==> lookup(
                named_descriptors(list),
                name,
            ) is Some,
        list.len() > 0 && list.last().name->Some_0 == name ==> lookup(named_descriptors(list), name)
            == Some(list.last()),
    decreases list.len(),
{
    broadcast use lemma_lookup_put;

    if list.len() == 0 {
        reveal(ascending);
        lemma_lookup_found(named_descriptors(list), name);
    } else {
        let rest = list.drop_last();
        lemma_named(rest, name);
        lemma_put_ascending(named_descriptors(rest), list.last().name->Some_0, list.last());
        if lookup(named_descriptors(list), name) is Some {
            let d = lookup(named_descriptors(list), name)->Some_0;
            if list.last().name->Some_0 == name {
                assert(list[list.len() - 1] == d);
            } else {
                let i = choose|i: int|
                    0 <= i < rest.len() && (#[trigger] rest[i]) == d && d.name->Some_0 == name;
                assert(list[i] == d);
            }
        }
        assert forall|i: int|
            0 <= i < list.len() && (#[trigger] list[i]).name->Some_0 == name implies lookup(
            named_descriptors(list),
            name,
        ) is Some by {
            if i < rest.len() {
                assert(rest[i] == list[i]);
            }
        }
    }
}

/// A task is found in a module exactly where a descriptor of it has that name; of two the later counts.
pub proof fn tasks_are_found_by_their_name(module: Seq<u8>, list: Seq<DescriptorModel>, name: Seq<char>)
    requires
        part_tasks(Seq::empty(), module_parts(module)) == Ok::<
            Seq<DescriptorModel>,
            DescriptorFault,
        >(list),
    ensures
        module_tasks(module) matches Ok(tasks) && {
            &&& lookup(tasks, name) matches Some(d) ==> exists|i: int|
                0 <= i < list.len() && (#[trigger] list[i]) == d && d.name->Some_0 == name
            &&& forall|i: int|
                0 <= i < list.len() && (#[trigger] list[i]).name->Some_0 == name ==> lookup(
                    tasks,
                    name,
                ) is Some
            &&& list.len() > 0 && list.last().name->Some_0 == name ==> lookup(tasks, name) == Some(
                list.last(),
            )
        },
{
    lemma_named(list, name);
}

/// The entry of a bundle is what the first descriptor of its name exports, where that exports something.
pub proof fn entrypoints_are_selected_by_name(
    list: Seq<DescriptorModel>,
    name: Seq<char>,
    r: Result<String, CoordinatorServiceError>,
    i: int,
)
    requires
        export_selected(list, name, r),
    ensures
        (forall|j: int| 0 <= j < list.len() ==> (#[trigger] list[j]).name != Some(name)) ==> r is Err,
        (0 <= i < list.len() && list[i].name == Some(name) && forall|j: int|
            0 <= j < i ==> (#[trigger] list[j]).name != Some(name)) ==> {
            &&& r is Ok <==> (list[i].export matches Some(export) && trimmed(export).len() > 0)
            &&& r matches Ok(found) ==> list[i].export == Some(found@)
        },
{
    if exists|k: int| is_named_first(list, name, k) {
        let k = choose|k: int| is_named_first(list, name, k);
        assert(list[k].name == Some(name));
        if 0 <= i < list.len() && list[i].name == Some(name) && forall|j: int|
            0 <= j < i ==> (#[trigger] list[j]).name != Some(name) {
            if k < i {
                assert(list[k].name != Some(name));
            }
            if i < k {
                assert(list[i].name != Some(name));
            }
            assert(i == k);
        }
    } else {
        if 0 <= i < list.len() && list[i].name == Some(name) && forall|j: int|
            0 <= j < i ==> (#[trigger] list[j]).name != Some(name) {
            assert(is_named_first(list, name, i));
        }
    }
}

proof fn lemma_by_name(list: Seq<EnvironmentResource>, name: Seq<char>)
    ensures
        ascending(by_name(list)),
        lookup(by_name(list), name) matches Some(e) ==> exists|i: int|
            0 <= i < list.len() && (#[trigger] list[i]) == e && e.name@ == name,
        forall|i: int|
            0 <= i < list.len() && (#[trigger] list[i]).name@ == name ==> lookup(
                by_name(list),
                name,
            ) is Some,
    decreases list.len(),
{
    broadcast use lemma_lookup_put;

    if list.len() == 0 {
        reveal(ascending);
        lemma_lookup_found(by_name(list), name);
    } else {
        let rest = list.drop_last();
        lemma_by_name(rest, name);
        lemma_put_ascending(by_name(rest), list.last().name@, list.last());
        if lookup(by_name(list), name) is Some {
            let e = lookup(by_name(list), name)->Some_0;
            if list.last().name@ == name {
                assert(list[list.len() - 1] == e);
            } else {
                let i = choose|i: int|
                    0 <= i < rest.len() && (#[trigger] rest[i]) == e && e.name@ == name;
                assert(list[i] == e);
            }
        }
        assert forall|i: int|
            0 <= i < list.len() && (#[trigger] list[i]).name@ == name implies lookup(
            by_name(list),
            name,
        ) is Some by {
            if i < rest.len() {
                assert(rest[i] == list[i]);
            }
        }
    }
}

/// The environments of a module are those of its manifest, each under its own name, and none where the module
/// has no manifest. A manifest that names two alike is refused.
pub proof fn environments_are_those_of_the_manifest(
    module: Seq<u8>,
    manifest: Vec<EnvironmentResource>,
    r: Result<OrderedMap<String, EnvironmentResource>, CoordinatorServiceError>,
    name: Seq<char>,
    i: int,
    j: int,
)
    requires
        environments_read(module, Ok(manifest), r),
    ensures
        r matches Ok(found) ==> {
            &&& environment_section(module) == Ok::<Option<Seq<u8>>, Seq<char>>(None) ==> lookup(
                found@,
                name,
            ) is None
            &&& lookup(found@, name) matches Some(e) ==> exists|k: int|
                0 <= k < manifest@.len() && (#[trigger] manifest@[k]) == e && e.name@ == name
            &&& (environment_section(module) matches Ok(Some(bytes))) && 0 <= i < manifest@.len()
                ==> lookup(found@, manifest@[i].name@) is Some
            &&& (environment_section(module) matches Ok(Some(bytes))) && 0 <= i < j
                < manifest@.len() ==> manifest@[i].name@ != manifest@[j].name@
        },
{
    lemma_by_name(manifest@, name);
    if 0 <= i < manifest@.len() {
        lemma_by_name(manifest@, manifest@[i].name@);
    }
    if 0 <= i < j < manifest@.len() && manifest@[i].name@ == manifest@[j].name@ {
        assert(names_agree(manifest@, i, j));
        assert(names_repeat(manifest@));
    }
    if r is Ok && environment_section(module) == Ok::<Option<Seq<u8>>, Seq<char>>(None) {
        lemma_lookup_found(r->Ok_0@, name);
    }
}

} // verus!
