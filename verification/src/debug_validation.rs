//! Checks of what debuggers and debugged tasks report.
use vstd::prelude::*;
use vstd::string::*;

use crate::debug_registry::{DebugAcknowledgementState, DebugEpochRuntime, DebugEpochRuntimeModel, NamedValue, SourceLocation};
use crate::duplicate::TextList;
use crate::keys::{TaskControlKey, TaskText};
use crate::ordered::OrderedKey;
use crate::ordered_map::lookup;
use crate::ordered_set::{OrderedSet, enumerates, list_texts};
use crate::service_error::{CoordinatorServiceError, protocol};
use crate::text::{byte_len, chars_of, concat3, decimal, is_blank, text_len, trimmed, wide_decimal_text};

verus! {

/// Whether all who are to answer have answered so.
pub open spec fn all_in_state(runtime: DebugEpochRuntimeModel, state: DebugAcknowledgementState) -> bool {
    &&& runtime.expected != Set::<TaskText>::empty()
    &&& forall|key: TaskText| #[trigger]
        runtime.expected.contains(key) ==> answered(runtime, key, state)
}

/// Whether a participant has answered so.
pub open spec fn answered(runtime: DebugEpochRuntimeModel, key: TaskText, state: DebugAcknowledgementState) -> bool {
    lookup(runtime.acknowledgements, key) matches Some(answer) && answer.state == state
}

/// Whether all who are to answer have answered so.
pub fn runtime_all_in_state(runtime: &DebugEpochRuntime, state: DebugAcknowledgementState) -> (r: bool)
    ensures
        r == all_in_state(runtime@, state),
{
    if runtime.expected.is_empty() {
        return false;
    }
    let n: usize = runtime.expected.count();
    let ghost items = runtime.expected.items();
    let mut i: usize = 0;
    while i < n
        invariant
            n == items.len(),
            items == runtime.expected.items(),
            enumerates(items, runtime.expected@),
            0 <= i <= n,
            forall|j: int| 0 <= j < i ==> answered(runtime@, #[trigger] items[j], state),
        decreases n - i,
    {
        let key: &TaskControlKey = runtime.expected.item(i);
        let fits: bool = match runtime.acknowledgements.get(key) {
            Some(answer) => answer.state == state,
            None => false,
        };
        if !fits {
            assert(runtime.expected@.contains(key.key()));
            assert(!answered(runtime@, key.key(), state));
            return false;
        }
        i = i + 1;
    }
    assert forall|key: TaskText| #[trigger] runtime@.expected.contains(key) implies answered(
        runtime@,
        key,
        state,
    ) by {
        assert(items.contains(key));
        let j = choose|j: int| 0 <= j < items.len() && items[j] == key;
        assert(answered(runtime@, items[j], state));
    }
    true
}

/// A character that a probe symbol can hold.
pub open spec fn is_symbol_char(c: char) -> bool {
    ||| 'a' <= c <= 'z'
    ||| 'A' <= c <= 'Z'
    ||| '0' <= c <= '9'
    ||| c == '.'
    ||| c == '_'
    ||| c == ':'
    ||| c == '-'
    ||| c == '/'
}

/// Whether a text is a probe symbol.
pub open spec fn is_probe_symbol(symbol: Seq<char>) -> bool {
    &&& trimmed(symbol).len() > 0
    &&& byte_len(symbol) <= 256
    &&& forall|i: int| 0 <= i < symbol.len() ==> is_symbol_char(#[trigger] symbol[i])
}

/// Whether all texts are probe symbols.
pub open spec fn are_probe_symbols(symbols: Seq<Seq<char>>) -> bool {
    forall|i: int| 0 <= i < symbols.len() ==> is_probe_symbol(#[trigger] symbols[i])
}

/// Why probe symbols are refused, if they are.
pub open spec fn probe_refusal(symbols: Seq<Seq<char>>) -> Option<Seq<char>> {
    if symbols.len() > 128 {
        Some("debug breakpoint request exceeds 128 probe symbols"@)
    } else if !are_probe_symbols(symbols) {
        Some("debug breakpoint probe symbol is invalid"@)
    } else {
        None
    }
}

fn check_symbol(symbol: &String) -> (r: bool)
    ensures
        r == is_probe_symbol(symbol@),
{
    if is_blank(symbol.as_str()) || text_len(symbol.as_str()) > 256 {
        return false;
    }
    let chars: Vec<char> = chars_of(symbol.as_str());
    let n: usize = chars.len();
    let mut i: usize = 0;
    while i < n
        invariant
            n == chars@.len(),
            chars@ == symbol@,
            0 <= i <= n,
            forall|j: int| 0 <= j < i ==> is_symbol_char(#[trigger] symbol@[j]),
        decreases n - i,
    {
        let c: char = chars[i];
        let fits: bool = ('a' <= c && c <= 'z') || ('A' <= c && c <= 'Z') || ('0' <= c && c <= '9')
            || c == '.' || c == '_' || c == ':' || c == '-' || c == '/';
        if !fits {
            assert(!is_symbol_char(symbol@[i as int]));
            return false;
        }
        i = i + 1;
    }
    true
}

/// Checks probe symbols, and puts them in order without repetition.
pub fn validate_probe_symbols(probe_symbols: TextList) -> (r: Result<
    TextList,
    CoordinatorServiceError,
>)
    ensures
        match probe_refusal(probe_symbols@) {
            Some(reason) => r matches Err(error) && error.protests(reason),
            None => r matches Ok(list) && enumerates(list@, probe_symbols@.to_set()),
        },
{
    let n: usize = probe_symbols.items.len();
    if n > 128 {
        return Err(protocol("debug breakpoint request exceeds 128 probe symbols"));
    }
    let ghost all = probe_symbols@;
    let mut unique: OrderedSet<String> = OrderedSet::new();
    let mut i: usize = 0;
    assert(all.take(0).to_set() =~= Set::empty());
    while i < n
        invariant
            n == probe_symbols.items@.len(),
            n <= 128,
            all == probe_symbols@,
            0 <= i <= n,
            forall|j: int| 0 <= j < i ==> is_probe_symbol(#[trigger] all[j]),
            unique@ == all.take(i as int).to_set(),
        decreases n - i,
    {
        assert(all[i as int] == probe_symbols.items@[i as int]@);
        if !check_symbol(&probe_symbols.items[i]) {
            assert(!is_probe_symbol(all[i as int]));
            return Err(protocol("debug breakpoint probe symbol is invalid"));
        }
        let symbol: String = probe_symbols.items[i].clone();
        assert(symbol.key() == all[i as int]);
        let _new: bool = unique.insert(symbol);
        assert(unique@ =~= all.take(i + 1).to_set()) by {
            let longer = all.take(i + 1);
            let shorter = all.take(i as int);
            assert forall|x: Seq<char>| longer.contains(x) <==> shorter.contains(x) || x
                == all[i as int] by {
                if longer.contains(x) {
                    let j = choose|j: int| 0 <= j < longer.len() && longer[j] == x;
                    if j < i {
                        assert(shorter[j] == x);
                    }
                }
                if shorter.contains(x) {
                    let j = choose|j: int| 0 <= j < shorter.len() && shorter[j] == x;
                    assert(longer[j] == x);
                }
                assert(longer[i as int] == all[i as int]);
            }
        }
        i = i + 1;
    }
    assert(all.take(n as int) =~= all);
    Ok(list_texts(&unique))
}

/// The bytes of some texts.
pub open spec fn text_bytes(list: Seq<Seq<char>>) -> nat
    decreases list.len(),
{
    if list.len() == 0 {
        0
    } else {
        text_bytes(list.drop_last()) + byte_len(list.last())
    }
}

/// The bytes of some names and values.
pub open spec fn pair_bytes(list: Seq<NamedValue>) -> nat
    decreases list.len(),
{
    if list.len() == 0 {
        0
    } else {
        pair_bytes(list.drop_last()) + byte_len(list.last().name@) + byte_len(list.last().value@)
    }
}

fn sum_texts(list: &TextList) -> (r: u128)
    requires
        list@.len() <= 128,
    ensures
        r == text_bytes(list@),
        r <= 128 * u64::MAX,
{
    let n: usize = list.items.len();
    let mut sum: u128 = 0;
    let mut i: usize = 0;
    while i < n
        invariant
            n == list.items@.len(),
            n == list@.len(),
            n <= 128,
            0 <= i <= n,
            sum == text_bytes(list@.take(i as int)),
            sum <= i * u64::MAX,
        decreases n - i,
    {
        let ghost longer = list@.take(i + 1);
        assert(longer.drop_last() =~= list@.take(i as int));
        let bytes: usize = text_len(list.items[i].as_str());
        assert(bytes <= u64::MAX);
        sum = sum + bytes as u128;
        i = i + 1;
    }
    assert(list@.take(n as int) =~= list@);
    sum
}

fn sum_pairs(list: &Vec<NamedValue>) -> (r: u128)
    requires
        list@.len() <= 128,
    ensures
        r == pair_bytes(list@),
        r <= 256 * u64::MAX,
{
    let n: usize = list.len();
    let mut sum: u128 = 0;
    let mut i: usize = 0;
    while i < n
        invariant
            n == list@.len(),
            n <= 128,
            0 <= i <= n,
            sum == pair_bytes(list@.take(i as int)),
            sum <= 2 * i * u64::MAX,
        decreases n - i,
    {
        let ghost longer = list@.take(i + 1);
        assert(longer.drop_last() =~= list@.take(i as int));
        let name: usize = text_len(list[i].name.as_str());
        let value: usize = text_len(list[i].value.as_str());
        assert(name <= u64::MAX && value <= u64::MAX);
        sum = sum + name as u128 + value as u128;
        i = i + 1;
    }
    assert(list@.take(n as int) =~= list@);
    sum
}

/// What a task reports of itself when it stops.
pub struct DebugSnapshot {
    pub stack_frames: TextList,
    pub local_values: Vec<NamedValue>,
    pub task_args: Vec<NamedValue>,
    pub handles: Vec<NamedValue>,
    pub command_status: Option<String>,
    pub recent_output: TextList,
    pub message: Option<String>,
    pub current_source_location: Option<SourceLocation>,
}

/// The bytes of a text that may be absent.
pub open spec fn optional_bytes(text: Option<String>) -> nat {
    match text {
        Some(text) => byte_len(text@),
        None => 0,
    }
}

/// The bytes of a snapshot.
pub open spec fn snapshot_bytes(s: DebugSnapshot) -> nat {
    text_bytes(s.stack_frames@) + pair_bytes(s.local_values@) + pair_bytes(s.task_args@)
        + pair_bytes(s.handles@) + text_bytes(s.recent_output@) + optional_bytes(s.command_status)
        + optional_bytes(s.message) + match s.current_source_location {
        Some(location) => byte_len(location.source_path@) + byte_len(location.probe_id@) + 16,
        None => 0nat,
    }
}

/// Whether two dots stand between slashes or ends at place `i` of a path.
pub open spec fn climbs_at(path: Seq<char>, i: int) -> bool {
    &&& 0 <= i
    &&& i + 1 < path.len()
    &&& path[i] == '.'
    &&& path[i + 1] == '.'
    &&& i == 0 || path[i - 1] == '/'
    &&& i + 2 == path.len() || path[i + 2] == '/'
}

/// Whether a part of a path is two dots.
pub open spec fn climbs(path: Seq<char>) -> bool {
    exists|i: int| #[trigger] climbs_at(path, i)
}

/// Whether a place in the source can be one.
pub open spec fn is_location(location: SourceLocation) -> bool {
    &&& location.source_path@.len() > 0
    &&& byte_len(location.source_path@) <= 512
    &&& location.source_path@[0] != '/'
    &&& !climbs(location.source_path@)
    &&& location.line != 0
    &&& location.column != Some(0u32)
    &&& trimmed(location.probe_id@).len() > 0
    &&& byte_len(location.probe_id@) <= 256
}

/// Why a snapshot is refused, if it is.
pub open spec fn snapshot_refusal(s: DebugSnapshot) -> Option<Seq<char>> {
    if s.stack_frames@.len() > 128 || s.local_values@.len() > 128 || s.task_args@.len() > 128
        || s.handles@.len() > 128 || s.recent_output@.len() > 128 {
        Some("debug participant snapshot exceeds the 128-item field limit"@)
    } else if snapshot_bytes(s) > 16384 {
        Some(
            "debug participant snapshot is "@ + decimal(snapshot_bytes(s))
                + " bytes; maximum is 16384"@,
        )
    } else if s.current_source_location is Some && !is_location(s.current_source_location->Some_0) {
        Some("debug participant source location is invalid"@)
    } else {
        None
    }
}

fn path_climbs(path: &Vec<char>) -> (r: bool)
    ensures
        r == climbs(path@),
{
    let n: usize = path.len();
    let mut i: usize = 0;
    while i < n
        invariant
            n == path@.len(),
            0 <= i <= n,
            forall|j: int| 0 <= j < i ==> !#[trigger] climbs_at(path@, j),
        decreases n - i,
    {
        let hit: bool = i + 1 < n && path[i] == '.' && path[i + 1] == '.' && (i == 0 || path[i - 1]
            == '/') && (i + 2 == n || path[i + 2] == '/');
        if hit {
            assert(climbs_at(path@, i as int));
            return true;
        }
        assert(!climbs_at(path@, i as int));
        i = i + 1;
    }
    false
}

fn check_location(location: &SourceLocation) -> (r: bool)
    ensures
        r == is_location(*location),
{
    let chars: Vec<char> = chars_of(location.source_path.as_str());
    if chars.len() == 0 || text_len(location.source_path.as_str()) > 512 || chars[0] == '/' {
        return false;
    }
    if path_climbs(&chars) || location.line == 0 {
        return false;
    }
    match location.column {
        Some(column) => {
            if column == 0 {
                return false;
            }
        },
        None => {},
    }
    !is_blank(location.probe_id.as_str()) && text_len(location.probe_id.as_str()) <= 256
}

fn optional_len(text: &Option<String>) -> (r: u128)
    ensures
        r == optional_bytes(*text),
        r <= u64::MAX,
{
    match text {
        Some(text) => text_len(text.as_str()) as u128,
        None => 0,
    }
}

/// Checks what a task reports of itself when it stops.
pub fn validate_debug_snapshot(snapshot: &DebugSnapshot) -> (r: Result<(), CoordinatorServiceError>)
    ensures
        match snapshot_refusal(*snapshot) {
            Some(reason) => r matches Err(error) && error.protests(reason),
            None => r is Ok,
        },
{
    if snapshot.stack_frames.items.len() > 128 || snapshot.local_values.len() > 128
        || snapshot.task_args.len() > 128 || snapshot.handles.len() > 128
        || snapshot.recent_output.items.len() > 128 {
        return Err(protocol("debug participant snapshot exceeds the 128-item field limit"));
    }
    let place: u128 = match &snapshot.current_source_location {
        Some(location) => {
            let path: usize = text_len(location.source_path.as_str());
            let probe: usize = text_len(location.probe_id.as_str());
            path as u128 + probe as u128 + 16
        },
        None => 0,
    };
    let bytes: u128 = sum_texts(&snapshot.stack_frames) + sum_pairs(&snapshot.local_values)
        + sum_pairs(&snapshot.task_args) + sum_pairs(&snapshot.handles) + sum_texts(
        &snapshot.recent_output,
    ) + optional_len(&snapshot.command_status) + optional_len(&snapshot.message) + place;
    if bytes > 16384 {
        let number: String = wide_decimal_text(bytes);
        return Err(
            CoordinatorServiceError::Protocol(
                concat3(
                    "debug participant snapshot is ",
                    number.as_str(),
                    " bytes; maximum is 16384",
                ),
            ),
        );
    }
    match &snapshot.current_source_location {
        Some(location) => {
            if !check_location(location) {
                return Err(protocol("debug participant source location is invalid"));
            }
        },
        None => {},
    }
    Ok(())
}

} // verus!
