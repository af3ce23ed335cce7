//! Compiled workflows: what their modules hold, and when one is accepted as the result of a
//! compilation.
use base64::Engine;
use vstd::prelude::*;
use vstd::string::*;

use crate::automated_run::{CompiledWorkflowBundle, CompiledWorkflowBundleModel, CompilerIdentityModel, EnvironmentResource, TrustedDependencyModel, WorkflowCompilationRequest, WorkflowCompilationRequestModel, environment_resource_alike};
use crate::automation::{by_name, environments_by_name};
use crate::duplicate::{Duplicate, TextList, option_view, views};
use crate::ids::Digest;
use crate::ordered::OrderedKey;
use crate::ordered_map::{OrderedMap, binds, lookup, put};
use crate::ordered_set::{OrderedSet, enumerates};
use crate::service_error::{CoordinatorServiceError, protocol};
use crate::text::{concat2, concat3, decimal, decimal_text, is_blank, text_eq, trimmed};

verus! {

/// The section of a module that holds its entrypoints.
pub open spec fn entrypoint_section() -> Seq<char> {
    "clusterflux.entrypoints"@
}

/// The section of a module that holds its tasks.
pub open spec fn task_section() -> Seq<char> {
    "clusterflux.tasks"@
}

/// What `decode` of the standard base64 engine gives for a text: the bytes, or the text of its
/// error.
pub uninterp spec fn base64_bytes(text: Seq<char>) -> Result<Seq<u8>, Seq<char>>;

/// What the parser of `wasmparser` reads from a module, in order: the name and the contents of
/// each custom section, nothing for another part, and at last perhaps the text of an error.
pub uninterp spec fn module_parts(module: Seq<u8>) -> Seq<Result<Option<(Seq<char>, Seq<u8>)>, Seq<char>>>;

/// The text of the error with which the validator of `wasmparser` refuses a module, if it does.
pub uninterp spec fn wasm_error(module: Seq<u8>) -> Option<Seq<char>>;

/// The text of the error with which `serde_json::from_slice` refuses a record, if it does.
pub uninterp spec fn json_error(record: Seq<u8>) -> Option<Seq<char>>;

/// The text that a record holds under a key, as `Value::get` and `Value::as_str` give it.
pub uninterp spec fn json_text(record: Seq<u8>, key: Seq<char>) -> Option<Seq<char>>;

/// The array that a record holds under a key, as `Value::get` and `Value::as_array` give it; an
/// item that is no text is `None`.
pub uninterp spec fn json_texts(record: Seq<u8>, key: Seq<char>) -> Option<Seq<Option<Seq<char>>>>;

/// The number that a record holds under a key, as `Value::get` and `Value::as_u64` give it.
pub uninterp spec fn json_number(record: Seq<u8>, key: Seq<char>) -> Option<u64>;

/// What a record holds under a key, as text, by `Value::get` and `Value::to_string`.
pub uninterp spec fn json_part(record: Seq<u8>, key: Seq<char>) -> Option<Seq<char>>;

/// The bytes or the error that a result holds.
pub open spec fn bytes_view(r: Result<Vec<u8>, String>) -> Result<Seq<u8>, Seq<char>> {
    match r {
        Ok(bytes) => Ok(bytes@),
        Err(text) => Err(text@),
    }
}

/// One part of a module.
pub open spec fn part_view(part: Result<Option<(String, Vec<u8>)>, String>) -> Result<
    Option<(Seq<char>, Seq<u8>)>,
    Seq<char>,
> {
    match part {
        Ok(Some(section)) => Ok(Some((section.0@, section.1@))),
        Ok(None) => Ok(None),
        Err(text) => Err(text@),
    }
}

/// The parts of a module.
pub open spec fn parts_view(parts: Seq<Result<Option<(String, Vec<u8>)>, String>>) -> Seq<
    Result<Option<(Seq<char>, Seq<u8>)>, Seq<char>>,
> {
    parts.map_values(|part: Result<Option<(String, Vec<u8>)>, String>| part_view(part))
}

/// Decodes a text with `Engine::decode` of `base64::engine::general_purpose::STANDARD`. The bytes,
/// or the text of the error, depend on the text alone.
#[verifier::external_body]
pub(crate) fn decode_base64(text: &str) -> (r: Result<Vec<u8>, String>)
    ensures
        bytes_view(r) == base64_bytes(text@),
{
    base64::engine::general_purpose::STANDARD.decode(text).map_err(|error| error.to_string())
}

/// Reads a module with `wasmparser::Parser::parse_all`. The parts and the text of an error depend on
/// the bytes alone.
#[verifier::external_body]
fn read_parts(module: &Vec<u8>) -> (r: Vec<Result<Option<(String, Vec<u8>)>, String>>)
    ensures
        parts_view(r@) == module_parts(module@),
{
    wasmparser::Parser::new(0).parse_all(module).map(|part| match part {
        Ok(wasmparser::Payload::CustomSection(section)) => Ok(
            Some((section.name().to_owned(), section.data().to_vec())),
        ),
        Ok(_) => Ok(None),
        Err(error) => Err(error.to_string()),
    }).collect()
}

/// Validates a module with `wasmparser::Validator::validate_all`. Whether it is refused, and the
/// text of the error, depend on the bytes alone.
#[verifier::external_body]
fn check_wasm(module: &Vec<u8>) -> (r: Option<String>)
    ensures
        option_view(r) == wasm_error(module@),
{
    wasmparser::Validator::new().validate_all(module).err().map(|error| error.to_string())
}

/// Parses a record with `serde_json::from_slice`. Whether it is refused, and the text of the error,
/// depend on the bytes alone.
#[verifier::external_body]
fn check_json(record: &Vec<u8>) -> (r: Option<String>)
    ensures
        option_view(r) == json_error(record@),
{
    serde_json::from_slice::<serde_json::Value>(record).err().map(|error| error.to_string())
}

/// The text under a key of a record that `serde_json` parses to an object, by `Value::get` and
/// `Value::as_str`.
#[verifier::external_body]
fn read_text(record: &Vec<u8>, key: &str) -> (r: Option<String>)
    ensures
        option_view(r) == json_text(record@, key@),
{
    let value: serde_json::Value = serde_json::from_slice(record).ok()?;
    value.get(key).and_then(serde_json::Value::as_str).map(str::to_owned)
}

/// The texts in an array.
pub open spec fn items_view(items: Seq<Option<String>>) -> Seq<Option<Seq<char>>> {
    items.map_values(|item: Option<String>| option_view(item))
}

/// The texts in an array, where there is one.
pub open spec fn list_view(list: Option<Vec<Option<String>>>) -> Option<Seq<Option<Seq<char>>>> {
    match list {
        Some(items) => Some(items_view(items@)),
        None => None,
    }
}

/// The array under a key of a record that `serde_json` parses to an object, by `Value::get` and
/// `Value::as_array`; its items by `Value::as_str`.
#[verifier::external_body]
fn read_texts(record: &Vec<u8>, key: &str) -> (r: Option<Vec<Option<String>>>)
    ensures
        list_view(r) == json_texts(record@, key@),
{
    let value: serde_json::Value = serde_json::from_slice(record).ok()?;
    let items = value.get(key)?.as_array()?;
    Some(items.iter().map(|item| item.as_str().map(str::to_owned)).collect())
}

/// The number under a key of a record that `serde_json` parses to an object, by `Value::get` and
/// `Value::as_u64`.
#[verifier::external_body]
fn read_number(record: &Vec<u8>, key: &str) -> (r: Option<u64>)
    ensures
        r == json_number(record@, key@),
{
    let value: serde_json::Value = serde_json::from_slice(record).ok()?;
    value.get(key)?.as_u64()
}

/// What stands under a key of a record that `serde_json` parses to an object, by `Value::get`, as
/// the text that `Value::to_string` makes of it.
#[verifier::external_body]
fn read_part(record: &Vec<u8>, key: &str) -> (r: Option<String>)
    ensures
        option_view(r) == json_part(record@, key@),
{
    let value: serde_json::Value = serde_json::from_slice(record).ok()?;
    value.get(key).map(|part| part.to_string())
}

/// What stands between records.
pub open spec fn parts_records(byte: u8) -> bool {
    byte == 10 || byte == 0
}

/// The records that end within some bytes, and the bytes after the last of them.
pub open spec fn cut(bytes: Seq<u8>) -> (Seq<Seq<u8>>, Seq<u8>)
    decreases bytes.len(),
{
    if bytes.len() == 0 {
        (Seq::empty(), Seq::empty())
    } else {
        let (records, rest) = cut(bytes.drop_last());
        if !parts_records(bytes.last()) {
            (records, rest.push(bytes.last()))
        } else if rest.len() == 0 {
            (records, rest)
        } else {
            (records.push(rest), Seq::empty())
        }
    }
}

/// The records of a section: its bytes, divided at each line end or zero; empty ones do not count.
pub open spec fn records(bytes: Seq<u8>) -> Seq<Seq<u8>> {
    let (whole, rest) = cut(bytes);
    if rest.len() == 0 {
        whole
    } else {
        whole.push(rest)
    }
}

/// The contents of byte vectors.
pub open spec fn byte_views(lists: Seq<Vec<u8>>) -> Seq<Seq<u8>> {
    lists.map_values(|list: Vec<u8>| list@)
}

fn split_records(bytes: &Vec<u8>) -> (r: Vec<Vec<u8>>)
    ensures
        byte_views(r@) == records(bytes@),
{
    let mut whole: Vec<Vec<u8>> = Vec::new();
    let mut rest: Vec<u8> = Vec::new();
    let n: usize = bytes.len();
    let mut i: usize = 0;
    assert(bytes@.take(0) =~= Seq::<u8>::empty());
    assert(byte_views(whole@) =~= Seq::<Seq<u8>>::empty());
    while i < n
        invariant
            n == bytes@.len(),
            0 <= i <= n,
            byte_views(whole@) == cut(bytes@.take(i as int)).0,
            rest@ == cut(bytes@.take(i as int)).1,
        decreases n - i,
    {
        let byte: u8 = bytes[i];
        let ghost longer = bytes@.take(i + 1);
        assert(longer.drop_last() =~= bytes@.take(i as int));
        assert(longer.last() == byte);
        let ghost earlier = whole@;
        if byte == 10 || byte == 0 {
            if rest.len() > 0 {
                let mut record: Vec<u8> = Vec::new();
                std::mem::swap(&mut record, &mut rest);
                let ghost shown = record@;
                whole.push(record);
                assert(byte_views(whole@) =~= byte_views(earlier).push(shown));
            }
        } else {
            rest.push(byte);
        }
        i = i + 1;
    }
    assert(bytes@.take(n as int) =~= bytes@);
    if rest.len() > 0 {
        let ghost earlier = whole@;
        let ghost shown = rest@;
        whole.push(rest);
        assert(byte_views(whole@) =~= byte_views(earlier).push(shown));
    }
    whole
}

/// What a section of a module says of a task or an entrypoint.
pub struct Descriptor {
    pub name: Option<String>,
    pub export: Option<String>,
    pub required_capabilities: Option<Vec<Option<String>>>,
    pub abi_version: Option<u64>,
    pub restart_compatibility: Option<String>,
}

/// The model of [`Descriptor`].
#[verifier::ext_equal]
pub struct DescriptorModel {
    pub name: Option<Seq<char>>,
    pub export: Option<Seq<char>>,
    pub required_capabilities: Option<Seq<Option<Seq<char>>>>,
    pub abi_version: Option<u64>,
    pub restart_compatibility: Option<Seq<char>>,
}

impl View for Descriptor {
    type V = DescriptorModel;

    open spec fn view(&self) -> DescriptorModel {
        DescriptorModel {
            name: option_view(self.name),
            export: option_view(self.export),
            required_capabilities: list_view(self.required_capabilities),
            abi_version: self.abi_version,
            restart_compatibility: option_view(self.restart_compatibility),
        }
    }
}

/// What a record says.
pub open spec fn descriptor_of(record: Seq<u8>) -> DescriptorModel {
    DescriptorModel {
        name: json_text(record, "name"@),
        export: json_text(record, "export"@),
        required_capabilities: json_texts(record, "required_capabilities"@),
        abi_version: json_number(record, "abi_version"@),
        restart_compatibility: json_part(record, "restart_compatibility_hash"@),
    }
}

fn read_descriptor(record: &Vec<u8>) -> (r: Descriptor)
    ensures
        r@ == descriptor_of(record@),
{
    Descriptor {
        name: read_text(record, "name"),
        export: read_text(record, "export"),
        required_capabilities: read_texts(record, "required_capabilities"),
        abi_version: read_number(record, "abi_version"),
        restart_compatibility: read_part(record, "restart_compatibility_hash"),
    }
}

/// Why the descriptors of a module cannot be read.
pub enum DescriptorFault {
    Module(Seq<char>),
    Record(Seq<char>),
    Unnamed,
}

/// The descriptors that records hold.
pub open spec fn record_descriptors(found: Seq<DescriptorModel>, records: Seq<Seq<u8>>) -> Result<
    Seq<DescriptorModel>,
    DescriptorFault,
>
    decreases records.len(),
{
    if records.len() == 0 {
        Ok(found)
    } else {
        match json_error(records[0]) {
            Some(text) => Err(DescriptorFault::Record(text)),
            None => record_descriptors(found.push(descriptor_of(records[0])), records.skip(1)),
        }
    }
}

/// The descriptors that the sections of the given name hold, in order.
pub open spec fn section_descriptors(
    found: Seq<DescriptorModel>,
    parts: Seq<Result<Option<(Seq<char>, Seq<u8>)>, Seq<char>>>,
    section: Seq<char>,
) -> Result<Seq<DescriptorModel>, DescriptorFault>
    decreases parts.len(),
{
    if parts.len() == 0 {
        Ok(found)
    } else {
        match parts[0] {
            Err(text) => Err(DescriptorFault::Module(text)),
            Ok(None) => section_descriptors(found, parts.skip(1), section),
            Ok(Some(custom)) => if custom.0 != section {
                section_descriptors(found, parts.skip(1), section)
            } else {
                match record_descriptors(found, records(custom.1)) {
                    Err(fault) => Err(fault),
                    Ok(more) => section_descriptors(more, parts.skip(1), section),
                }
            },
        }
    }
}

/// The descriptors in the sections of a module that have the given name.
pub open spec fn module_descriptors(module: Seq<u8>, section: Seq<char>) -> Result<
    Seq<DescriptorModel>,
    DescriptorFault,
> {
    section_descriptors(Seq::empty(), module_parts(module), section)
}

impl CoordinatorServiceError {
    /// The error for descriptors that cannot be read.
    pub open spec fn reports(&self, fault: DescriptorFault) -> bool {
        match fault {
            DescriptorFault::Module(text) => self.protests("parse coordinator main bundle: "@ + text),
            DescriptorFault::Record(text) => *self matches CoordinatorServiceError::Json(detail)
                && detail@ == text,
            DescriptorFault::Unnamed => self.protests("task descriptor omitted its name"@),
        }
    }
}

fn add_records(found: &mut Vec<Descriptor>, data: &Vec<u8>) -> (r: Result<
    (),
    CoordinatorServiceError,
>)
    ensures
        match record_descriptors(views(old(found)@), records(data@)) {
            Ok(more) => r is Ok && views(final(found)@) == more,
            Err(fault) => r matches Err(error) && error.reports(fault),
        },
{
    let lines: Vec<Vec<u8>> = split_records(data);
    let ghost shown = byte_views(lines@);
    let ghost start = views(found@);
    let m: usize = lines.len();
    let mut j: usize = 0;
    assert(shown.skip(0) =~= shown);
    while j < m
        invariant
            m == lines@.len(),
            shown == byte_views(lines@),
            shown == records(data@),
            start == views(old(found)@),
            0 <= j <= m,
            record_descriptors(views(found@), shown.skip(j as int)) == record_descriptors(
                start,
                shown,
            ),
        decreases m - j,
    {
        assert(shown.skip(j as int).skip(1) =~= shown.skip(j + 1));
        assert(shown.skip(j as int)[0] == lines@[j as int]@);
        match check_json(&lines[j]) {
            Some(text) => {
                return Err(CoordinatorServiceError::Json(text));
            },
            None => {},
        }
        let descriptor: Descriptor = read_descriptor(&lines[j]);
        let ghost earlier = found@;
        let ghost one = descriptor@;
        found.push(descriptor);
        assert(views(found@) =~= views(earlier).push(one));
        j = j + 1;
    }
    assert(shown.skip(m as int).len() == 0);
    Ok(())
}

/// Reads the descriptors in the sections of a module that have the given name.
pub fn descriptor_records(module: &Vec<u8>, section: &str) -> (r: Result<
    Vec<Descriptor>,
    CoordinatorServiceError,
>)
    ensures
        match module_descriptors(module@, section@) {
            Ok(found) => r matches Ok(list) && views(list@) == found,
            Err(fault) => r matches Err(error) && error.reports(fault),
        },
{
    let parts: Vec<Result<Option<(String, Vec<u8>)>, String>> = read_parts(module);
    let ghost all = module_parts(module@);
    let mut found: Vec<Descriptor> = Vec::new();
    let n: usize = parts.len();
    let mut i: usize = 0;
    assert(all.skip(0) =~= all);
    assert(views(found@) =~= Seq::<DescriptorModel>::empty());
    while i < n
        invariant
            n == parts@.len(),
            all == parts_view(parts@),
            all == module_parts(module@),
            0 <= i <= n,
            section_descriptors(views(found@), all.skip(i as int), section@)
                == section_descriptors(Seq::empty(), all, section@),
        decreases n - i,
    {
        assert(all.skip(i as int).skip(1) =~= all.skip(i + 1));
        assert(all.skip(i as int)[0] == part_view(parts@[i as int]));
        match &parts[i] {
            Err(text) => {
                return Err(
                    CoordinatorServiceError::Protocol(
                        concat2("parse coordinator main bundle: ", text.as_str()),
                    ),
                );
            },
            Ok(None) => {},
            Ok(Some(custom)) => {
                if text_eq(custom.0.as_str(), section) {
                    match add_records(&mut found, &custom.1) {
                        Ok(_) => {},
                        Err(error) => {
                            return Err(error);
                        },
                    }
                }
            },
        }
        i = i + 1;
    }
    assert(all.skip(n as int).len() == 0);
    Ok(found)
}

/// The tasks that descriptors describe, by their names; of two with one name the later counts.
pub open spec fn named_descriptors(list: Seq<DescriptorModel>) -> Seq<(Seq<char>, DescriptorModel)>
    decreases list.len(),
{
    if list.len() == 0 {
        Seq::empty()
    } else {
        put(named_descriptors(list.drop_last()), list.last().name->Some_0, list.last())
    }
}

/// The descriptors that records hold, up to the first fault; each has a name.
pub open spec fn record_tasks(found: Seq<DescriptorModel>, records: Seq<Seq<u8>>) -> Result<
    Seq<DescriptorModel>,
    DescriptorFault,
>
    decreases records.len(),
{
    if records.len() == 0 {
        Ok(found)
    } else {
        match json_error(records[0]) {
            Some(text) => Err(DescriptorFault::Record(text)),
            None => if descriptor_of(records[0]).name is None {
                Err(DescriptorFault::Unnamed)
            } else {
                record_tasks(found.push(descriptor_of(records[0])), records.skip(1))
            },
        }
    }
}

/// The descriptors of the tasks in the parts of a module, up to the first fault.
pub open spec fn part_tasks(
    found: Seq<DescriptorModel>,
    parts: Seq<Result<Option<(Seq<char>, Seq<u8>)>, Seq<char>>>,
) -> Result<Seq<DescriptorModel>, DescriptorFault>
    decreases parts.len(),
{
    if parts.len() == 0 {
        Ok(found)
    } else {
        match parts[0] {
            Err(text) => Err(DescriptorFault::Module(text)),
            Ok(None) => part_tasks(found, parts.skip(1)),
            Ok(Some(custom)) => if custom.0 != task_section() {
                part_tasks(found, parts.skip(1))
            } else {
                match record_tasks(found, records(custom.1)) {
                    Err(fault) => Err(fault),
                    Ok(more) => part_tasks(more, parts.skip(1)),
                }
            },
        }
    }
}

/// The tasks of a module by their names, or why they cannot be read.
pub open spec fn module_tasks(module: Seq<u8>) -> Result<Seq<(Seq<char>, DescriptorModel)>, DescriptorFault> {
    match part_tasks(Seq::empty(), module_parts(module)) {
        Ok(list) => Ok(named_descriptors(list)),
        Err(fault) => Err(fault),
    }
}

fn add_tasks(
    tasks: &mut OrderedMap<String, Descriptor>,
    data: &Vec<u8>,
    Ghost(found): Ghost<Seq<DescriptorModel>>,
) -> (r: Result<(), CoordinatorServiceError>)
    requires
        old(tasks)@ == named_descriptors(found),
    ensures
        match record_tasks(found, records(data@)) {
            Ok(more) => r is Ok && final(tasks)@ == named_descriptors(more),
            Err(fault) => r matches Err(error) && error.reports(fault),
        },
{
    let lines: Vec<Vec<u8>> = split_records(data);
    let ghost shown = byte_views(lines@);
    let ghost mut list = found;
    let m: usize = lines.len();
    let mut j: usize = 0;
    assert(shown.skip(0) =~= shown);
    while j < m
        invariant
            m == lines@.len(),
            shown == byte_views(lines@),
            shown == records(data@),
            0 <= j <= m,
            tasks@ == named_descriptors(list),
            record_tasks(list, shown.skip(j as int)) == record_tasks(found, shown),
        decreases m - j,
    {
        assert(shown.skip(j as int).skip(1) =~= shown.skip(j + 1));
        assert(shown.skip(j as int)[0] == lines@[j as int]@);
        match check_json(&lines[j]) {
            Some(text) => {
                return Err(CoordinatorServiceError::Json(text));
            },
            None => {},
        }
        let descriptor: Descriptor = read_descriptor(&lines[j]);
        let name: String = match &descriptor.name {
            Some(name) => name.clone(),
            None => {
                return Err(protocol("task descriptor omitted its name"));
            },
        };
        assert(name.key() == name@);
        proof {
            let longer = list.push(descriptor@);
            assert(longer.drop_last() =~= list);
            list = longer;
        }
        tasks.insert(name, descriptor);
        j = j + 1;
    }
    assert(shown.skip(m as int).len() == 0);
    Ok(())
}

/// Reads the tasks that a module describes, by their names.
pub fn task_descriptors(module: &Vec<u8>) -> (r: Result<
    OrderedMap<String, Descriptor>,
    CoordinatorServiceError,
>)
    ensures
        match module_tasks(module@) {
            Ok(found) => r matches Ok(tasks) && tasks@ == found,
            Err(fault) => r matches Err(error) && error.reports(fault),
        },
{
    let parts: Vec<Result<Option<(String, Vec<u8>)>, String>> = read_parts(module);
    let ghost all = module_parts(module@);
    let ghost mut list = Seq::<DescriptorModel>::empty();
    let mut tasks: OrderedMap<String, Descriptor> = OrderedMap::new();
    let n: usize = parts.len();
    let mut i: usize = 0;
    assert(all.skip(0) =~= all);
    while i < n
        invariant
            n == parts@.len(),
            all == parts_view(parts@),
            all == module_parts(module@),
            0 <= i <= n,
            tasks@ == named_descriptors(list),
            part_tasks(list, all.skip(i as int)) == part_tasks(Seq::empty(), all),
        decreases n - i,
    {
        assert(all.skip(i as int).skip(1) =~= all.skip(i + 1));
        assert(all.skip(i as int)[0] == part_view(parts@[i as int]));
        match &parts[i] {
            Err(text) => {
                return Err(
                    CoordinatorServiceError::Protocol(
                        concat2("parse coordinator main bundle: ", text.as_str()),
                    ),
                );
            },
            Ok(None) => {},
            Ok(Some(custom)) => {
                if text_eq(custom.0.as_str(), "clusterflux.tasks") {
                    let ghost start = list;
                    match add_tasks(&mut tasks, &custom.1, Ghost(list)) {
                        Ok(_) => {
                            proof {
                                list = record_tasks(start, records(custom.1@))->Ok_0;
                            }
                        },
                        Err(error) => {
                            return Err(error);
                        },
                    }
                }
            },
        }
        i = i + 1;
    }
    assert(all.skip(n as int).len() == 0);
    Ok(tasks)
}

/// The first section of a module with the given name, or the text of the error that the parser
/// meets before it.
pub open spec fn first_section(
    parts: Seq<Result<Option<(Seq<char>, Seq<u8>)>, Seq<char>>>,
    section: Seq<char>,
) -> Result<Option<Seq<u8>>, Seq<char>>
    decreases parts.len(),
{
    if parts.len() == 0 {
        Ok(None)
    } else {
        match parts[0] {
            Err(text) => Err(text),
            Ok(Some(custom)) => if custom.0 == section {
                Ok(Some(custom.1))
            } else {
                first_section(parts.skip(1), section)
            },
            Ok(None) => first_section(parts.skip(1), section),
        }
    }
}

/// The section of a module that describes its environments.
pub open spec fn environment_section(module: Seq<u8>) -> Result<Option<Seq<u8>>, Seq<char>> {
    first_section(module_parts(module), "clusterflux.environments"@)
}

/// The contents of a byte vector that may be absent.
pub open spec fn optional_bytes(bytes: Option<Vec<u8>>) -> Option<Seq<u8>> {
    match bytes {
        Some(bytes) => Some(bytes@),
        None => None,
    }
}

fn copy_bytes(bytes: &Vec<u8>) -> (r: Vec<u8>)
    ensures
        r@ == bytes@,
{
    let mut out: Vec<u8> = Vec::new();
    let mut i: usize = 0;
    while i < bytes.len()
        invariant
            0 <= i <= bytes@.len(),
            out@ == bytes@.take(i as int),
        decreases bytes@.len() - i,
    {
        out.push(bytes[i]);
        assert(bytes@.take(i + 1) =~= bytes@.take(i as int).push(bytes@[i as int]));
        i = i + 1;
    }
    assert(bytes@.take(i as int) =~= bytes@);
    out
}

/// The manifest of the environments that a module holds, as it stands there.
pub fn environment_manifest(module: &Vec<u8>) -> (r: Result<Option<Vec<u8>>, CoordinatorServiceError>)
    ensures
        match environment_section(module@) {
            Ok(found) => r matches Ok(bytes) && optional_bytes(bytes) == found,
            Err(text) => r matches Err(error) && error.protests(
                "parse coordinator main environment manifest: "@ + text,
            ),
        },
{
    let parts: Vec<Result<Option<(String, Vec<u8>)>, String>> = read_parts(module);
    let ghost all = module_parts(module@);
    let ghost name = "clusterflux.environments"@;
    let n: usize = parts.len();
    let mut i: usize = 0;
    assert(all.skip(0) =~= all);
    while i < n
        invariant
            n == parts@.len(),
            all == parts_view(parts@),
            all == module_parts(module@),
            name == "clusterflux.environments"@,
            0 <= i <= n,
            first_section(all.skip(i as int), name) == first_section(all, name),
        decreases n - i,
    {
        assert(all.skip(i as int).skip(1) =~= all.skip(i + 1));
        assert(all.skip(i as int)[0] == part_view(parts@[i as int]));
        match &parts[i] {
            Err(text) => {
                return Err(
                    CoordinatorServiceError::Protocol(
                        concat2("parse coordinator main environment manifest: ", text.as_str()),
                    ),
                );
            },
            Ok(None) => {},
            Ok(Some(custom)) => {
                if text_eq(custom.0.as_str(), "clusterflux.environments") {
                    return Ok(Some(copy_bytes(&custom.1)));
                }
            },
        }
        i = i + 1;
    }
    assert(all.skip(n as int).len() == 0);
    Ok(None)
}

/// Whether two environments have one name.
pub open spec fn names_repeat(list: Seq<EnvironmentResource>) -> bool {
    exists|i: int, j: int| 0 <= i < j < list.len() && #[trigger] names_agree(list, i, j)
}

/// Whether two environments have one name.
pub open spec fn names_agree(list: Seq<EnvironmentResource>, i: int, j: int) -> bool {
    list[i].name@ == list[j].name@
}

/// What comes of reading the environments of a module, where `manifest` is what its section holds.
pub open spec fn environments_read(
    module: Seq<u8>,
    manifest: Result<Vec<EnvironmentResource>, String>,
    r: Result<OrderedMap<String, EnvironmentResource>, CoordinatorServiceError>,
) -> bool {
    match environment_section(module) {
        Err(text) => r matches Err(error) && error.protests(
            "parse coordinator main environment manifest: "@ + text,
        ),
        Ok(None) => r matches Ok(found) && found@ == Seq::<(Seq<char>, EnvironmentResource)>::empty(),
        Ok(Some(_)) => match manifest {
            Err(text) => r matches Err(error) && error.protests(
                "bundle environment manifest is invalid: "@ + text@,
            ),
            Ok(list) => if names_repeat(list@) {
                r matches Err(error) && error.protests(
                    "bundle environment manifest contains duplicate names"@,
                )
            } else {
                r matches Ok(found) && found@ == by_name(list@)
            },
        },
    }
}

proof fn lemma_by_name(list: Seq<EnvironmentResource>, name: Seq<char>)
    ensures
        lookup(by_name(list), name) is Some <==> exists|i: int|
            0 <= i < list.len() && (#[trigger] list[i]).name@ == name,
        crate::ordered_map::ascending(by_name(list)),
    decreases list.len(),
{
    if list.len() == 0 {
        reveal(crate::ordered_map::ascending);
        reveal(lookup);
        assert(!binds(by_name(list), name));
    } else {
        let shorter = list.drop_last();
        lemma_by_name(shorter, name);
        crate::ordered_map::lemma_put_ascending(by_name(shorter), list.last().name@, list.last());
        crate::ordered_map::lemma_lookup_put(
            by_name(shorter),
            list.last().name@,
            list.last(),
            name,
        );
        if list.last().name@ == name {
            assert(list[list.len() - 1].name@ == name);
        } else {
            if exists|i: int| 0 <= i < shorter.len() && (#[trigger] shorter[i]).name@ == name {
                let i = choose|i: int|
                    0 <= i < shorter.len() && (#[trigger] shorter[i]).name@ == name;
                assert(list[i].name@ == name);
            }
            if exists|i: int| 0 <= i < list.len() && (#[trigger] list[i]).name@ == name {
                let i = choose|i: int| 0 <= i < list.len() && (#[trigger] list[i]).name@ == name;
                assert(shorter[i].name@ == name);
            }
        }
    }
}

/// The environments of a module by their names. `manifest` is what the manifest of the module
/// holds, and counts only where the module has one.
pub fn bundle_environments(
    module: &Vec<u8>,
    manifest: Result<Vec<EnvironmentResource>, String>,
) -> (r: Result<OrderedMap<String, EnvironmentResource>, CoordinatorServiceError>)
    ensures
        environments_read(module@, manifest, r),
{
    match environment_manifest(module) {
        Err(error) => {
            return Err(error);
        },
        Ok(None) => {
            return Ok(OrderedMap::new());
        },
        Ok(Some(_)) => {},
    }
    let list: Vec<EnvironmentResource> = match manifest {
        Ok(list) => list,
        Err(text) => {
            return Err(
                CoordinatorServiceError::Protocol(
                    concat2("bundle environment manifest is invalid: ", text.as_str()),
                ),
            );
        },
    };
    let mut found: OrderedMap<String, EnvironmentResource> = OrderedMap::new();
    let n: usize = list.len();
    let mut i: usize = 0;
    assert(list@.take(0) =~= Seq::empty());
    while i < n
        invariant
            n == list@.len(),
            0 <= i <= n,
            manifest == Ok::<Vec<EnvironmentResource>, String>(list),
            environment_section(module@) matches Ok(Some(_)),
            found@ == by_name(list@.take(i as int)),
            forall|a: int, b: int| 0 <= a < b < i ==> !#[trigger] names_agree(list@, a, b),
        decreases n - i,
    {
        let ghost shorter = list@.take(i as int);
        assert(list@.take(i + 1).drop_last() =~= shorter);
        let name: String = list[i].name.clone();
        assert(name.key() == list@[i as int].name@);
        proof {
            lemma_by_name(shorter, name@);
        }
        if found.contains_key(&name) {
            proof {
                let j = choose|j: int|
                    0 <= j < shorter.len() && (#[trigger] shorter[j]).name@ == name@;
                assert(names_agree(list@, j, i as int));
            }
            return Err(protocol("bundle environment manifest contains duplicate names"));
        }
        assert forall|a: int, b: int| 0 <= a < b < i + 1 implies !#[trigger] names_agree(
            list@,
            a,
            b,
        ) by {
            if b == i {
                assert(shorter[a].name@ != name@);
            }
        }
        found.insert(name, list[i].duplicate());
        i = i + 1;
    }
    assert(list@.take(n as int) =~= list@);
    Ok(found)
}

/// Descriptor `i` is the first with the given name.
pub open spec fn is_named_first(list: Seq<DescriptorModel>, name: Seq<char>, i: int) -> bool {
    &&& 0 <= i < list.len()
    &&& list[i].name == Some(name)
    &&& forall|j: int| 0 <= j < i ==> (#[trigger] list[j]).name != Some(name)
}

/// The export that a descriptor names, where it names one that is not blank.
pub open spec fn named_export(descriptor: DescriptorModel) -> Option<Seq<char>> {
    match descriptor.export {
        Some(export) => if trimmed(export).len() > 0 {
            Some(export)
        } else {
            None
        },
        None => None,
    }
}

/// What comes of looking for the export of an entrypoint among descriptors.
pub open spec fn export_selected(
    list: Seq<DescriptorModel>,
    name: Seq<char>,
    r: Result<String, CoordinatorServiceError>,
) -> bool {
    if exists|i: int| is_named_first(list, name, i) {
        match named_export(list[choose|i: int| is_named_first(list, name, i)]) {
            Some(export) => r matches Ok(found) && found@ == export,
            None => r matches Err(error) && error.protests(
                "entrypoint `"@ + name + "` descriptor omitted its Wasm export"@,
            ),
        }
    } else {
        r matches Err(error) && error.protests("bundle has no entrypoint named `"@ + name + "`"@)
    }
}

/// The export of the entrypoint with the given name.
pub fn select_entrypoint_export(descriptors: &Vec<Descriptor>, name: &str) -> (r: Result<
    String,
    CoordinatorServiceError,
>)
    ensures
        export_selected(views(descriptors@), name@, r),
{
    let ghost list = views(descriptors@);
    let n: usize = descriptors.len();
    let mut i: usize = 0;
    while i < n
        invariant
            n == descriptors@.len(),
            list == views(descriptors@),
            0 <= i <= n,
            forall|j: int| 0 <= j < i ==> (#[trigger] list[j]).name != Some(name@),
        decreases n - i,
    {
        assert(list[i as int] == descriptors@[i as int]@);
        let same: bool = match &descriptors[i].name {
            Some(found) => text_eq(found.as_str(), name),
            None => false,
        };
        if same {
            proof {
                assert(is_named_first(list, name@, i as int));
                let j = choose|j: int| is_named_first(list, name@, j);
                assert(is_named_first(list, name@, j));
                assert(j == i) by {
                    if j < i {
                        assert(list[j].name != Some(name@));
                    }
                    if i < j {
                        assert(list[i as int].name != Some(name@));
                    }
                }
            }
            return match &descriptors[i].export {
                Some(export) => {
                    if is_blank(export.as_str()) {
                        Err(
                            CoordinatorServiceError::Protocol(
                                concat3(
                                    "entrypoint `",
                                    name,
                                    "` descriptor omitted its Wasm export",
                                ),
                            ),
                        )
                    } else {
                        Ok(export.clone())
                    }
                },
                None => Err(
                    CoordinatorServiceError::Protocol(
                        concat3("entrypoint `", name, "` descriptor omitted its Wasm export"),
                    ),
                ),
            };
        }
        i = i + 1;
    }
    assert(!exists|j: int| is_named_first(list, name@, j));
    Err(CoordinatorServiceError::Protocol(concat3("bundle has no entrypoint named `", name, "`")))
}

/// The export of the default entrypoint of a module that is given in base64.
pub fn compiled_entrypoint_export(module_base64: &str, default_entrypoint: &str) -> (r: Result<
    String,
    CoordinatorServiceError,
>)
    ensures
        match base64_bytes(module_base64@) {
            Err(text) => r matches Err(error) && error.protests(
                "compiled workflow module is not valid base64: "@ + text,
            ),
            Ok(module) => match module_descriptors(module, entrypoint_section()) {
                Err(fault) => r matches Err(error) && error.reports(fault),
                Ok(list) => export_selected(list, default_entrypoint@, r),
            },
        },
{
    let module: Vec<u8> = match decode_base64(module_base64) {
        Ok(module) => module,
        Err(text) => {
            return Err(
                CoordinatorServiceError::Protocol(
                    concat2("compiled workflow module is not valid base64: ", text.as_str()),
                ),
            );
        },
    };
    match descriptor_records(&module, "clusterflux.entrypoints") {
        Ok(descriptors) => select_entrypoint_export(&descriptors, default_entrypoint),
        Err(error) => Err(error),
    }
}

/// What a release fixes of compiled workflows.
pub struct BundleRules {
    pub sdk_version: String,
    pub abi_version: u32,
    pub max_module_bytes: u64,
    pub serde_version: String,
}

/// What is computed of a bundle outside: what the check of its metadata gave, the digest of its
/// module, whether the digest of its dependency has the form of one, and what the manifest in its
/// module holds.
pub struct BundleChecks {
    pub metadata: Result<(), String>,
    pub module_digest: Digest,
    pub dependency_digest_valid: bool,
    pub manifest: Result<Vec<EnvironmentResource>, String>,
}

/// The flags with which workflows are compiled.
pub open spec fn compiler_flags() -> Seq<Seq<char>> {
    seq![
        "-Copt-level=1"@,
        "-Cdebuginfo=2"@,
        "-Cstrip=none"@,
        "-Cpanic=abort"@,
        "--remap-path-prefix=/workspace=.clusterflux"@,
    ]
}

/// Whether a bundle was compiled as a request asks.
pub open spec fn compiled_as_asked(
    compiler: CompilerIdentityModel,
    request: WorkflowCompilationRequestModel,
    rules: BundleRules,
) -> bool {
    &&& compiler.hosted_sandbox
    &&& compiler.sdk_digest@ == request.compiler_sdk@
    &&& option_view(compiler.sandbox_image_digest) == Some(request.compiler_image@)
    &&& compiler.rustc_version@ == request.rust_toolchain@
    &&& compiler.target@ == "wasm32-unknown-unknown"@
    &&& compiler.sdk_version@ == rules.sdk_version@
    &&& compiler.flags == compiler_flags()
}

/// Whether the dependencies of a bundle are those of the release.
pub open spec fn dependencies_fit(
    dependencies: Seq<TrustedDependencyModel>,
    rules: BundleRules,
    digest_valid: bool,
) -> bool {
    &&& dependencies.len() == 1
    &&& dependencies[0].package@ == "serde"@
    &&& dependencies[0].version@ == rules.serde_version@
    &&& dependencies[0].features == seq!["derive"@]
    &&& digest_valid
}

/// Why a bundle is refused before its module is read, if it is.
pub open spec fn metadata_refusal(
    bundle: CompiledWorkflowBundleModel,
    expected_source: Option<Seq<char>>,
    request: Option<WorkflowCompilationRequestModel>,
    rules: BundleRules,
    metadata: Result<(), String>,
) -> Option<Seq<char>> {
    if metadata is Err {
        Some(metadata->Err_0@)
    } else if expected_source != Some(bundle.source_tree_digest@) {
        Some("compiled bundle source digest does not match its run"@)
    } else if request is None || request->Some_0.source.manifest_digest@ != bundle.manifest_digest@ {
        Some("compiled bundle manifest digest does not match its run"@)
    } else if !compiled_as_asked(bundle.compiler_identity, request->Some_0, rules) {
        Some("compiled bundle compiler, SDK, or sandbox identity does not match its assignment"@)
    } else if bundle.sdk_abi_version != rules.abi_version {
        Some(
            "compiled bundle ABI "@ + decimal(bundle.sdk_abi_version as nat) + " is unsupported"@,
        )
    } else {
        None
    }
}

/// Why the module of a bundle is refused before its sections are read, if it is.
pub open spec fn module_refusal(
    bundle: CompiledWorkflowBundleModel,
    rules: BundleRules,
    checks: BundleChecks,
) -> Option<Seq<char>> {
    match base64_bytes(bundle.module_base64@) {
        Err(text) => Some("compiled workflow module is not valid base64: "@ + text),
        Ok(module) => if wasm_error(module) is Some {
            Some("compiled workflow module is invalid Wasm: "@ + wasm_error(module)->Some_0)
        } else if module.len() > rules.max_module_bytes || checks.module_digest@
            != bundle.execution_module_digest@ {
            Some("compiled workflow module is oversized or has the wrong digest"@)
        } else if !dependencies_fit(
            bundle.compiler_identity.trusted_dependencies,
            rules,
            checks.dependency_digest_valid,
        ) {
            Some("compiled bundle trusted dependency identity does not match this release"@)
        } else {
            None
        },
    }
}

/// The names that descriptors hold.
pub open spec fn descriptor_names(list: Seq<DescriptorModel>) -> Set<Seq<char>> {
    Set::new(
        |name: Seq<char>|
            exists|i: int| 0 <= i < list.len() && (#[trigger] list[i]).name == Some(name),
    )
}

/// Whether every descriptor has a name.
pub open spec fn all_named(list: Seq<DescriptorModel>) -> bool {
    forall|i: int| 0 <= i < list.len() ==> (#[trigger] list[i]).name is Some
}

/// What comes of reading the names in a section of a module.
pub open spec fn names_read(
    module: Seq<u8>,
    section: Seq<char>,
    r: Result<OrderedSet<String>, CoordinatorServiceError>,
) -> bool {
    match module_descriptors(module, section) {
        Err(fault) => r matches Err(error) && error.reports(fault),
        Ok(list) => if all_named(list) {
            r matches Ok(names) && names@ == descriptor_names(list)
        } else {
            r matches Err(error) && error.protests(
                "compiled workflow "@ + section + " descriptor omitted its name"@,
            )
        },
    }
}

fn section_names(module: &Vec<u8>, section: &str) -> (r: Result<
    OrderedSet<String>,
    CoordinatorServiceError,
>)
    ensures
        names_read(module@, section@, r),
{
    let descriptors: Vec<Descriptor> = match descriptor_records(module, section) {
        Ok(descriptors) => descriptors,
        Err(error) => {
            return Err(error);
        },
    };
    let ghost list = views(descriptors@);
    let mut names: OrderedSet<String> = OrderedSet::new();
    let n: usize = descriptors.len();
    let mut i: usize = 0;
    assert(names@ =~= descriptor_names(list.take(0)));
    while i < n
        invariant
            n == descriptors@.len(),
            list == views(descriptors@),
            module_descriptors(module@, section@) == Ok::<Seq<DescriptorModel>, DescriptorFault>(
                list,
            ),
            0 <= i <= n,
            forall|j: int| 0 <= j < i ==> (#[trigger] list[j]).name is Some,
            names@ == descriptor_names(list.take(i as int)),
        decreases n - i,
    {
        assert(list[i as int] == descriptors@[i as int]@);
        let name: String = match &descriptors[i].name {
            Some(name) => name.clone(),
            None => {
                return Err(
                    CoordinatorServiceError::Protocol(
                        concat3("compiled workflow ", section, " descriptor omitted its name"),
                    ),
                );
            },
        };
        assert(name.key() == name@);
        let ghost shorter = list.take(i as int);
        let ghost longer = list.take(i + 1);
        let ghost earlier = names@;
        let ghost one = name@;
        let _new: bool = names.insert(name);
        assert(names@ =~= descriptor_names(longer)) by {
            assert forall|x: Seq<char>| names@.contains(x) <==> descriptor_names(longer).contains(
                x,
            ) by {
                if x == one {
                    assert(longer[i as int].name == Some(x));
                }
                if descriptor_names(shorter).contains(x) {
                    let j = choose|j: int|
                        0 <= j < shorter.len() && (#[trigger] shorter[j]).name == Some(x);
                    assert(longer[j].name == Some(x));
                }
                if descriptor_names(longer).contains(x) && x != one {
                    let j = choose|j: int|
                        0 <= j < longer.len() && (#[trigger] longer[j]).name == Some(x);
                    assert(j != i);
                    assert(shorter[j].name == Some(x));
                }
            }
        }
        i = i + 1;
    }
    assert(list.take(n as int) =~= list);
    Ok(names)
}

/// Whether a list holds the members of a set, in ascending order.
fn lists_names(names: &OrderedSet<String>, list: &TextList) -> (r: bool)
    ensures
        r == enumerates(list@, names@),
{
    let n: usize = names.count();
    let ghost items = names.items();
    let m: usize = list.items.len();
    if n != m {
        proof {
            if enumerates(list@, names@) {
                crate::ordered_set::lemma_enumerates_len(list@, names@);
            }
        }
        return false;
    }
    let mut i: usize = 0;
    while i < n
        invariant
            n == items.len(),
            n == list@.len(),
            items == names.items(),
            enumerates(items, names@),
            0 <= i <= n,
            forall|j: int| 0 <= j < i ==> #[trigger] items[j] == list@[j],
        decreases n - i,
    {
        let item: &String = names.item(i);
        assert(item.key() == item@);
        if !text_eq(item.as_str(), list.items[i].as_str()) {
            proof {
                if enumerates(list@, names@) {
                    crate::ordered_set::lemma_enumerates_same(items, list@, names@);
                }
            }
            return false;
        }
        i = i + 1;
    }
    assert(items =~= list@);
    true
}

/// Whether the flags are those with which workflows are compiled.
fn flags_fit(flags: &TextList) -> (r: bool)
    ensures
        r == (flags@ == compiler_flags()),
{
    let ghost wanted = compiler_flags();
    if flags.items.len() != 5 {
        assert(flags@.len() != wanted.len());
        return false;
    }
    let r: bool = text_eq(flags.items[0].as_str(), "-Copt-level=1") && text_eq(
        flags.items[1].as_str(),
        "-Cdebuginfo=2",
    ) && text_eq(flags.items[2].as_str(), "-Cstrip=none") && text_eq(
        flags.items[3].as_str(),
        "-Cpanic=abort",
    ) && text_eq(flags.items[4].as_str(), "--remap-path-prefix=/workspace=.clusterflux");
    proof {
        if r {
            assert(flags@ =~= wanted);
        } else if flags@ == wanted {
            assert(flags@[0] == wanted[0] && flags@[1] == wanted[1] && flags@[2] == wanted[2]
                && flags@[3] == wanted[3] && flags@[4] == wanted[4]);
        }
    }
    r
}

/// What comes of checking a bundle.
pub open spec fn bundle_checked(
    bundle: CompiledWorkflowBundleModel,
    expected_source: Option<Seq<char>>,
    request: Option<WorkflowCompilationRequestModel>,
    rules: BundleRules,
    checks: BundleChecks,
    r: Result<(), CoordinatorServiceError>,
) -> bool {
    match metadata_refusal(bundle, expected_source, request, rules, checks.metadata) {
        Some(reason) => r matches Err(error) && error.protests(reason),
        None => match module_refusal(bundle, rules, checks) {
            Some(reason) => r matches Err(error) && error.protests(reason),
            None => sections_checked(
                bundle,
                base64_bytes(bundle.module_base64@)->Ok_0,
                checks.manifest,
                r,
            ),
        },
    }
}

/// Why reading the names in a section of a module fails, if it does.
pub open spec fn names_fault(
    module: Seq<u8>,
    section: Seq<char>,
    r: Result<(), CoordinatorServiceError>,
) -> bool {
    match module_descriptors(module, section) {
        Err(fault) => r matches Err(error) && error.reports(fault),
        Ok(list) => !all_named(list) && (r matches Err(error) && error.protests(
            "compiled workflow "@ + section + " descriptor omitted its name"@,
        )),
    }
}

/// Whether the names in a section of a module can be read.
pub open spec fn has_names(module: Seq<u8>, section: Seq<char>) -> bool {
    module_descriptors(module, section) matches Ok(list) && all_named(list)
}

/// The names in a section of a module.
pub open spec fn names_in(module: Seq<u8>, section: Seq<char>) -> Set<Seq<char>> {
    descriptor_names(module_descriptors(module, section)->Ok_0)
}

/// What comes of comparing the sections of a module with what its bundle says of them.
pub open spec fn sections_checked(
    bundle: CompiledWorkflowBundleModel,
    module: Seq<u8>,
    manifest: Result<Vec<EnvironmentResource>, String>,
    r: Result<(), CoordinatorServiceError>,
) -> bool {
    if !has_names(module, entrypoint_section()) {
        names_fault(module, entrypoint_section(), r)
    } else if !enumerates(bundle.entrypoints, names_in(module, entrypoint_section())) {
        r matches Err(error) && error.protests(
            "compiled workflow descriptors do not match the returned bundle metadata"@,
        )
    } else if !has_names(module, task_section()) {
        names_fault(module, task_section(), r)
    } else if !enumerates(bundle.task_definitions, names_in(module, task_section())) {
        r matches Err(error) && error.protests(
            "compiled workflow descriptors do not match the returned bundle metadata"@,
        )
    } else {
        environments_checked(bundle, module, manifest, r)
    }
}

/// What comes of comparing the environments in a module with what its bundle says of them.
pub open spec fn environments_checked(
    bundle: CompiledWorkflowBundleModel,
    module: Seq<u8>,
    manifest: Result<Vec<EnvironmentResource>, String>,
    r: Result<(), CoordinatorServiceError>,
) -> bool {
    match environment_section(module) {
        Err(text) => r matches Err(error) && error.protests(
            "parse coordinator main environment manifest: "@ + text,
        ),
        Ok(section) => if section is Some && manifest is Err {
            r matches Err(error) && error.protests(
                "bundle environment manifest is invalid: "@ + manifest->Err_0@,
            )
        } else if section is Some && names_repeat(manifest->Ok_0@) {
            r matches Err(error) && error.protests(
                "bundle environment manifest contains duplicate names"@,
            )
        } else {
            let embedded = if section is Some {
                by_name(manifest->Ok_0@)
            } else {
                Seq::empty()
            };
            if entries_alike(embedded, by_name(bundle.environments)) {
                r is Ok
            } else {
                r matches Err(error) && error.protests(
                    "compiled workflow embedded environments do not match the returned identities"@,
                )
            }
        },
    }
}

/// Whether two maps bind the same names to the same environments.
pub open spec fn entries_alike(
    a: Seq<(Seq<char>, EnvironmentResource)>,
    b: Seq<(Seq<char>, EnvironmentResource)>,
) -> bool {
    &&& a.len() == b.len()
    &&& forall|i: int| 0 <= i < a.len() ==> #[trigger] entry_alike(a[i], b[i])
}

/// Whether two entries bind the same name to the same environment.
pub open spec fn entry_alike(a: (Seq<char>, EnvironmentResource), b: (Seq<char>, EnvironmentResource)) -> bool {
    a.0 == b.0 && environment_resource_alike(a.1, b.1)
}

fn same_environments(
    a: &OrderedMap<String, EnvironmentResource>,
    b: &OrderedMap<String, EnvironmentResource>,
) -> (r: bool)
    ensures
        r == entries_alike(a@, b@),
{
    let n: usize = a.len();
    if n != b.len() {
        return false;
    }
    let mut i: usize = 0;
    while i < n
        invariant
            n == a@.len(),
            n == b@.len(),
            0 <= i <= n,
            forall|j: int| 0 <= j < i ==> #[trigger] entry_alike(a@[j], b@[j]),
        decreases n - i,
    {
        let x: &String = a.key_at(i);
        let y: &String = b.key_at(i);
        assert(x.key() == x@ && y.key() == y@);
        if !text_eq(x.as_str(), y.as_str()) || !a.value_at(i).same_as(b.value_at(i)) {
            assert(!entry_alike(a@[i as int], b@[i as int]));
            return false;
        }
        i = i + 1;
    }
    true
}

fn check_metadata(
    bundle: &CompiledWorkflowBundle,
    expected_source: &Option<Digest>,
    request: &Option<WorkflowCompilationRequest>,
    rules: &BundleRules,
    metadata: &Result<(), String>,
) -> (r: Result<(), CoordinatorServiceError>)
    ensures
        match metadata_refusal(
            bundle@,
            option_view(*expected_source),
            option_view(*request),
            *rules,
            *metadata,
        ) {
            Some(reason) => r matches Err(error) && error.protests(reason),
            None => r is Ok,
        },
{
    match metadata {
        Err(reason) => {
            return Err(CoordinatorServiceError::Protocol(reason.clone()));
        },
        Ok(_) => {},
    }
    let source_fits: bool = match expected_source {
        Some(digest) => text_eq(digest.as_str(), bundle.source_tree_digest.as_str()),
        None => false,
    };
    if !source_fits {
        return Err(protocol("compiled bundle source digest does not match its run"));
    }
    let request: &WorkflowCompilationRequest = match request {
        Some(request) => request,
        None => {
            return Err(protocol("compiled bundle manifest digest does not match its run"));
        },
    };
    if !text_eq(request.source.manifest_digest.as_str(), bundle.manifest_digest.as_str()) {
        return Err(protocol("compiled bundle manifest digest does not match its run"));
    }
    let image_fits: bool = match &bundle.compiler_identity.sandbox_image_digest {
        Some(digest) => text_eq(digest.as_str(), request.compiler_image.as_str()),
        None => false,
    };
    if !bundle.compiler_identity.hosted_sandbox || !text_eq(
        bundle.compiler_identity.sdk_digest.as_str(),
        request.compiler_sdk.as_str(),
    ) || !image_fits || !text_eq(
        bundle.compiler_identity.rustc_version.as_str(),
        request.rust_toolchain.as_str(),
    ) || !text_eq(bundle.compiler_identity.target.as_str(), "wasm32-unknown-unknown") || !text_eq(
        bundle.compiler_identity.sdk_version.as_str(),
        rules.sdk_version.as_str(),
    ) || !flags_fit(&bundle.compiler_identity.flags) {
        return Err(
            protocol(
                "compiled bundle compiler, SDK, or sandbox identity does not match its assignment",
            ),
        );
    }
    if bundle.sdk_abi_version != rules.abi_version {
        let version: String = decimal_text(bundle.sdk_abi_version as u64);
        return Err(
            CoordinatorServiceError::Protocol(
                concat3("compiled bundle ABI ", version.as_str(), " is unsupported"),
            ),
        );
    }
    Ok(())
}

fn check_module(bundle: &CompiledWorkflowBundle, rules: &BundleRules, checks: &BundleChecks) -> (r:
    Result<Vec<u8>, CoordinatorServiceError>)
    ensures
        match module_refusal(bundle@, *rules, *checks) {
            Some(reason) => r matches Err(error) && error.protests(reason),
            None => r matches Ok(module) && base64_bytes(bundle.module_base64@) == Ok::<
                Seq<u8>,
                Seq<char>,
            >(module@),
        },
{
    let module: Vec<u8> = match decode_base64(bundle.module_base64.as_str()) {
        Ok(module) => module,
        Err(text) => {
            return Err(
                CoordinatorServiceError::Protocol(
                    concat2("compiled workflow module is not valid base64: ", text.as_str()),
                ),
            );
        },
    };
    match check_wasm(&module) {
        Some(text) => {
            return Err(
                CoordinatorServiceError::Protocol(
                    concat2("compiled workflow module is invalid Wasm: ", text.as_str()),
                ),
            );
        },
        None => {},
    }
    if module.len() as u64 > rules.max_module_bytes || !text_eq(
        checks.module_digest.as_str(),
        bundle.execution_module_digest.as_str(),
    ) {
        return Err(protocol("compiled workflow module is oversized or has the wrong digest"));
    }
    let dependencies = &bundle.compiler_identity.trusted_dependencies;
    let mut fits: bool = false;
    if dependencies.len() == 1 {
        let one = &dependencies[0];
        assert(views(dependencies@)[0] == one@);
        let features_fit: bool = one.features.items.len() == 1 && text_eq(
            one.features.items[0].as_str(),
            "derive",
        );
        proof {
            let wanted = seq!["derive"@];
            if features_fit {
                assert(one.features@ =~= wanted);
            } else if one.features@ == wanted {
                assert(one.features@[0] == wanted[0]);
                assert(one.features@.len() == 1);
            }
        }
        fits = text_eq(one.package.as_str(), "serde") && text_eq(
            one.version.as_str(),
            rules.serde_version.as_str(),
        ) && features_fit && checks.dependency_digest_valid;
    }
    if !fits {
        return Err(
            protocol("compiled bundle trusted dependency identity does not match this release"),
        );
    }
    Ok(module)
}

/// Checks that a bundle is the result of the compilation that was asked for.
pub fn validate_compiled_module(
    bundle: &CompiledWorkflowBundle,
    expected_source: &Option<Digest>,
    request: &Option<WorkflowCompilationRequest>,
    rules: &BundleRules,
    checks: BundleChecks,
) -> (r: Result<(), CoordinatorServiceError>)
    ensures
        bundle_checked(
            bundle@,
            option_view(*expected_source),
            option_view(*request),
            *rules,
            checks,
            r,
        ),
{
    match check_metadata(bundle, expected_source, request, rules, &checks.metadata) {
        Ok(_) => {},
        Err(error) => {
            return Err(error);
        },
    }
    let module: Vec<u8> = match check_module(bundle, rules, &checks) {
        Ok(module) => module,
        Err(error) => {
            return Err(error);
        },
    };
    let entrypoints: OrderedSet<String> = match section_names(&module, "clusterflux.entrypoints") {
        Ok(names) => names,
        Err(error) => {
            return Err(error);
        },
    };
    if !lists_names(&entrypoints, &bundle.entrypoints) {
        return Err(
            protocol("compiled workflow descriptors do not match the returned bundle metadata"),
        );
    }
    let tasks: OrderedSet<String> = match section_names(&module, "clusterflux.tasks") {
        Ok(names) => names,
        Err(error) => {
            return Err(error);
        },
    };
    if !lists_names(&tasks, &bundle.task_definitions) {
        return Err(
            protocol("compiled workflow descriptors do not match the returned bundle metadata"),
        );
    }
    let embedded: OrderedMap<String, EnvironmentResource> = match bundle_environments(
        &module,
        checks.manifest,
    ) {
        Ok(embedded) => embedded,
        Err(error) => {
            return Err(error);
        },
    };
    assert(views(bundle.environments@) =~= bundle.environments@);
    let returned: OrderedMap<String, EnvironmentResource> = environments_by_name(
        &bundle.environments,
    );
    if !same_environments(&embedded, &returned) {
        return Err(
            protocol("compiled workflow embedded environments do not match the returned identities"),
        );
    }
    Ok(())
}

} // verus!
