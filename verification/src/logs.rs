//! What tasks print, how they end, and what their ends do to their processes.
use vstd::prelude::*;
use vstd::string::*;

use crate::artifact_registry::{ArtifactFlush, ArtifactRegistryModel, after_evictions, after_flush, consumed_by, evicts, flush_eviction, links_expired, needs_room, released, well_formed};
use crate::configuration::{MAX_RECENT_LOG_CHUNK_BYTES, MAX_TASK_LOG_TAIL_BYTES};
use crate::coordinator::{ActiveProcess, ActiveProcessModel, CoordinatorError, CoordinatorModel, outside_scope, processes_in};
use crate::debug_registry::{DebugRegistryModel, process_cleared};
use crate::duplicate::{Duplicate, TextList, copy_option, copy_text, option_view, texts, views};
use crate::ids::{ArtifactId, Digest, NodeId, ProcessId, ProjectId, TaskDefinitionId, TaskInstanceId, TenantId};
use crate::main_runtime::{CoordinatorMainRuntimeModel, is_notice};
use crate::automation::ProcessFinalResult;
use crate::keys::{ProcessControlKey, ProcessText, TaskControlKey, artifact_id_from_path, mapped_name, process_control_key, task_control_key};
use crate::sequences::copy_items;
use crate::ordered::OrderedKey;
use crate::ordered_map::{ascending, delete, lemma_lookup_delete, lookup};
use crate::ordered_set::OrderedSet;
use crate::restart::path_fault;
use crate::service::{CoordinatorService, CoordinatorServiceModel};
use crate::service_error::{CoordinatorServiceError, protocol, unauthorized};
use crate::tasks::{TaskAttempt, TaskAttemptState, TaskBoundaryValue, TaskCompletionEvent, TaskCompletionEventModel, TaskCompletionOrigin, TaskExecutor, TaskFailurePolicy, TaskJoinResult, TaskJoinState, TaskLogStream, TaskTerminalState};
use crate::text::{byte_len, byte_tail, concat2, concat3, concat4, decimal, decimal_text, tail_within, text_eq, text_len, trim_text, trimmed};

verus! {

/// The most of the source that a part of a stream may stand for.
pub const MAX_RECENT_LOG_SOURCE_BYTES: u64 = 65_536;

/// A line for the recent logs of a task.
pub struct LogLine {
    pub text: String,
    pub truncated: bool,
}

/// A line, by its text.
pub open spec fn line(text: Seq<char>, truncated: bool) -> (Seq<char>, bool) {
    (text, truncated)
}

impl View for LogLine {
    type V = (Seq<char>, bool);

    open spec fn view(&self) -> (Seq<char>, bool) {
        (self.text@, self.truncated)
    }
}

/// How far a stream of a task has been taken in: the bytes of the source that were accounted for,
/// and whether it was cut at the quota of the project or at the source.
#[derive(Clone, Copy, Debug, PartialEq, Eq, Structural)]
pub struct LogStreamState {
    pub accounted: u64,
    pub quota_truncated: bool,
    pub source_truncated: bool,
}

/// A part of a stream.
pub struct LogChunk {
    pub offset: u64,
    pub source_bytes: u64,
    pub text: String,
    pub truncated: bool,
}

/// What became of a part of a stream: the lines that are to be kept, in order, whether the answer
/// names the place of the last of them, and where the next part is to begin.
pub struct LogChunkRecord {
    pub lines: Vec<LogLine>,
    pub sequenced: bool,
    pub next_offset: u64,
}

impl LogChunk {
    /// Where the part ends in the source.
    pub open spec fn end(&self) -> int {
        self.offset + self.source_bytes
    }

    /// The part says only that something was cut.
    pub open spec fn is_marker(&self) -> bool {
        self.source_bytes == 0 && self.truncated
    }

    /// The part brings nothing new.
    pub open spec fn is_known(&self, state: LogStreamState) -> bool {
        self.end() < state.accounted || (self.end() == state.accounted && !self.is_marker())
    }

    /// The text of the part.
    pub open spec fn shown(&self) -> Seq<char> {
        if self.is_marker() && self.text@.len() == 0 {
            cut_at_source_text()
        } else {
            self.text@
        }
    }
}

/// What stands for output that was cut at the source.
pub open spec fn cut_at_source_text() -> Seq<char> {
    "[some output was unavailable or truncated at source]"@
}

/// What stands for output that was cut at the quota.
pub open spec fn cut_at_quota_text() -> Seq<char> {
    "[log output truncated at project log quota]"@
}

/// The larger of two numbers.
pub open spec fn larger(a: int, b: int) -> int {
    if a >= b {
        a
    } else {
        b
    }
}

/// What is charged for a part of a stream. Nothing is charged for a part that is known, or once the
/// stream was cut at the quota.
pub open spec fn chunk_charge(state: LogStreamState, chunk: LogChunk) -> Option<int> {
    if chunk.is_known(state) || state.quota_truncated {
        None
    } else {
        Some(chunk.end() - state.accounted)
    }
}

/// What stands in for a gap before a part of a stream, or for what of it is known.
pub open spec fn gap_lines(state: LogStreamState, chunk: LogChunk) -> Seq<(Seq<char>, bool)> {
    if chunk.offset > state.accounted {
        seq![
            line(
                "[log output lost: "@ + decimal((chunk.offset - state.accounted) as nat)
                    + " bytes]"@,
                true,
            ),
        ]
    } else if chunk.offset < state.accounted {
        seq![
            line(
                "[log output overlap omitted: "@ + decimal((chunk.end() - state.accounted) as nat)
                    + " new source bytes]"@,
                true,
            ),
        ]
    } else {
        Seq::empty()
    }
}

/// The text of a part of a stream is kept.
pub open spec fn chunk_kept(state: LogStreamState, chunk: LogChunk) -> bool {
    &&& chunk.shown().len() > 0
    &&& chunk.offset >= state.accounted
    &&& !chunk.is_marker() || !state.source_truncated
}

/// What becomes of a part of a stream.
pub open spec fn chunk_recorded(
    before: LogStreamState,
    after: LogStreamState,
    chunk: LogChunk,
    granted: bool,
    r: LogChunkRecord,
) -> bool {
    if chunk.is_known(before) {
        &&& after == before
        &&& views(r.lines@) == Seq::<(Seq<char>, bool)>::empty()
        &&& !r.sequenced
        &&& r.next_offset == before.accounted
    } else if before.quota_truncated {
        &&& after == (LogStreamState { accounted: chunk.end() as u64, ..before })
        &&& views(r.lines@) == Seq::<(Seq<char>, bool)>::empty()
        &&& !r.sequenced
        &&& r.next_offset == chunk.end()
    } else if !granted {
        &&& after == (LogStreamState {
            accounted: chunk.end() as u64,
            quota_truncated: true,
            ..before
        })
        &&& views(r.lines@) == seq![line(cut_at_quota_text(), true)]
        &&& r.sequenced
        &&& r.next_offset == chunk.end()
    } else {
        &&& after == (LogStreamState {
            accounted: chunk.end() as u64,
            source_truncated: before.source_truncated || chunk.truncated,
            ..before
        })
        &&& views(r.lines@) == gap_lines(before, chunk) + (if chunk_kept(before, chunk) {
            seq![line(chunk.shown(), chunk.truncated)]
        } else {
            Seq::empty()
        })
        &&& r.sequenced == chunk_kept(before, chunk)
        &&& r.next_offset == chunk.end()
    }
}

impl LogStreamState {
    /// A stream of which nothing was taken in.
    pub fn new() -> (r: Self)
        ensures
            r == (LogStreamState { accounted: 0, quota_truncated: false, source_truncated: false }),
    {
        LogStreamState { accounted: 0, quota_truncated: false, source_truncated: false }
    }

    fn knows(&self, chunk: &LogChunk, end: u64) -> (r: bool)
        requires
            end == chunk.end(),
        ensures
            r == chunk.is_known(*self),
    {
        end < self.accounted || (end == self.accounted && !(chunk.source_bytes == 0
            && chunk.truncated))
    }

    /// What is charged for a part of the stream.
    pub fn chunk_charge(&self, chunk: &LogChunk) -> (r: Option<u64>)
        requires
            chunk.end() <= u64::MAX,
        ensures
            r is Some <==> chunk_charge(*self, *chunk) is Some,
            r matches Some(bytes) ==> chunk_charge(*self, *chunk) == Some(bytes as int),
    {
        let end: u64 = chunk.offset + chunk.source_bytes;
        if self.knows(chunk, end) || self.quota_truncated {
            None
        } else {
            Some(end - self.accounted)
        }
    }

    /// Takes in a part of the stream. `granted` is whether what is charged for it was granted.
    pub fn record_chunk(&mut self, chunk: &LogChunk, granted: bool) -> (r: LogChunkRecord)
        requires
            chunk.end() <= u64::MAX,
        ensures
            chunk_recorded(*old(self), *final(self), *chunk, granted, r),
    {
        let end: u64 = chunk.offset + chunk.source_bytes;
        let mut lines: Vec<LogLine> = Vec::new();
        assert(views(lines@) =~= Seq::empty());
        if self.knows(chunk, end) {
            return LogChunkRecord { lines, sequenced: false, next_offset: self.accounted };
        }
        let expected: u64 = self.accounted;
        let ghost before = *self;
        self.accounted = end;
        if self.quota_truncated {
            return LogChunkRecord { lines, sequenced: false, next_offset: end };
        }
        if !granted {
            self.quota_truncated = true;
            lines.push(
                LogLine {
                    text: "[log output truncated at project log quota]".to_owned(),
                    truncated: true,
                },
            );
            assert(views(lines@) =~= seq![line(cut_at_quota_text(), true)]);
            return LogChunkRecord { lines, sequenced: true, next_offset: end };
        }
        if chunk.offset > expected {
            let lost: String = decimal_text(chunk.offset - expected);
            lines.push(
                LogLine {
                    text: concat3("[log output lost: ", lost.as_str(), " bytes]"),
                    truncated: true,
                },
            );
        } else if chunk.offset < expected {
            let fresh: String = decimal_text(end - expected);
            lines.push(
                LogLine {
                    text: concat3(
                        "[log output overlap omitted: ",
                        fresh.as_str(),
                        " new source bytes]",
                    ),
                    truncated: true,
                },
            );
        }
        assert(views(lines@) =~= gap_lines(before, *chunk));
        let marker: bool = chunk.source_bytes == 0 && chunk.truncated;
        let was_truncated: bool = self.source_truncated;
        if chunk.truncated {
            self.source_truncated = true;
        }
        let bare: bool = text_eq(chunk.text.as_str(), "");
        proof {
            reveal_strlit("");
            reveal_strlit("[some output was unavailable or truncated at source]");
            if chunk.text@.len() == 0 {
                assert(chunk.text@ =~= ""@);
            }
        }
        let kept: bool = (marker || !bare) && chunk.offset >= expected && (!marker
            || !was_truncated);
        let ghost gap = lines@;
        if kept {
            let text: String = if marker && bare {
                "[some output was unavailable or truncated at source]".to_owned()
            } else {
                chunk.text.clone()
            };
            assert(text@ == chunk.shown());
            lines.push(LogLine { text, truncated: chunk.truncated });
            assert(views(lines@) =~= views(gap).push(line(chunk.shown(), chunk.truncated)));
        }
        assert(kept == chunk_kept(before, *chunk));
        assert(views(gap) + Seq::empty() =~= views(gap));
        assert(views(gap).push(line(chunk.shown(), chunk.truncated)) =~= views(gap) + seq![
            line(chunk.shown(), chunk.truncated),
        ]);
        LogChunkRecord { lines, sequenced: kept, next_offset: end }
    }
}

/// What the end of a stream comes to: whether it was kept, how long the stream was at its source,
/// and whether it was cut there.
#[derive(Clone, Copy, Debug, PartialEq, Eq, Structural)]
pub struct FinalLogStreamAcceptance {
    pub retained: bool,
    pub total_source_bytes: u64,
    pub source_truncated: bool,
}

/// The lines for what a stream held beyond what was accounted for, and whether they show that some
/// of it is missing.
pub open spec fn missing_lines(state: LogStreamState, total: u64, tail: Seq<char>, cut: bool) -> (
    Seq<(Seq<char>, bool)>,
    bool,
)
    recommends
        total > state.accounted,
{
    let missing = total - state.accounted;
    let length = byte_len(tail);
    if tail.len() == 0 {
        (
            seq![
                line(
                    "[log output unavailable: "@ + decimal(missing as nat) + " source bytes]"@,
                    true,
                ),
            ],
            true,
        )
    } else if length <= total {
        let lost = state.accounted < total - length;
        let suffix = byte_tail(tail, missing as nat);
        let before = if lost {
            seq![
                line(
                    "[log output lost before final tail: "@ + decimal((missing - length) as nat)
                        + " source bytes]"@,
                    true,
                ),
            ]
        } else {
            Seq::empty()
        };
        if suffix.len() == 0 {
            (before, lost)
        } else {
            (before + seq![line(suffix, cut || lost)], cut || lost)
        }
    } else if state.accounted == 0 {
        (seq![line(tail, cut)], cut)
    } else {
        (
            seq![
                line(
                    "["@ + decimal(missing as nat)
                        + " additional source bytes could not be merged without duplicating redacted output]"@,
                    true,
                ),
            ],
            true,
        )
    }
}

/// What becomes of the end of a stream that is kept.
pub open spec fn stream_reconciled(state: LogStreamState, total: u64, tail: Seq<char>, cut: bool) -> (
    Seq<(Seq<char>, bool)>,
    LogStreamState,
) {
    let (lines, visible) = if total > state.accounted {
        missing_lines(state, total, tail, cut)
    } else {
        (Seq::empty(), false)
    };
    let marked = (cut || visible) && !state.source_truncated;
    (
        if marked && !visible {
            lines + seq![line(cut_at_source_text(), true)]
        } else {
            lines
        },
        LogStreamState {
            accounted: larger(total as int, state.accounted as int) as u64,
            source_truncated: state.source_truncated || cut || visible,
            ..state
        },
    )
}

/// What becomes of the end of a stream. A count that falls behind what was accounted for is raised
/// to it, and the stream then counts as cut at its source.
pub open spec fn stream_finished(
    state: LogStreamState,
    reported: u64,
    tail: Seq<char>,
    cut: bool,
    granted: bool,
) -> (Seq<(Seq<char>, bool)>, LogStreamState, FinalLogStreamAcceptance) {
    let total = larger(reported as int, state.accounted as int) as u64;
    let truncated = cut || reported < state.accounted;
    if state.quota_truncated {
        (
            Seq::empty(),
            LogStreamState { accounted: total, ..state },
            FinalLogStreamAcceptance {
                retained: false,
                total_source_bytes: total,
                source_truncated: truncated,
            },
        )
    } else if !granted {
        (
            seq![line(cut_at_quota_text(), true)],
            LogStreamState { accounted: total, quota_truncated: true, ..state },
            FinalLogStreamAcceptance {
                retained: false,
                total_source_bytes: total,
                source_truncated: truncated,
            },
        )
    } else {
        let (lines, after) = stream_reconciled(state, total, tail, truncated);
        (
            lines,
            after,
            FinalLogStreamAcceptance {
                retained: true,
                total_source_bytes: total,
                source_truncated: truncated,
            },
        )
    }
}

/// What is charged for the end of a stream.
pub open spec fn final_charge(state: LogStreamState, reported: u64) -> Option<int> {
    if state.quota_truncated {
        None
    } else {
        Some(larger(reported as int, state.accounted as int) - state.accounted)
    }
}

/// The end of a text takes no more bytes than the text.
pub proof fn lemma_whole_tail(s: Seq<char>, n: nat)
    requires
        byte_len(s) <= n,
    ensures
        byte_tail(s, n) == s,
{
}

impl LogStreamState {
    /// What is charged for the end of the stream.
    pub fn final_charge(&self, reported: u64) -> (r: Option<u64>)
        ensures
            r is Some <==> final_charge(*self, reported) is Some,
            r matches Some(bytes) ==> final_charge(*self, reported) == Some(bytes as int),
    {
        if self.quota_truncated {
            None
        } else if reported >= self.accounted {
            Some(reported - self.accounted)
        } else {
            Some(0)
        }
    }

    fn missing_lines(&self, total: u64, tail: &str, cut: bool, lines: &mut Vec<LogLine>) -> (visible: bool)
        requires
            total > self.accounted,
            old(lines)@.len() == 0,
        ensures
            (views(final(lines)@), visible) == missing_lines(*self, total, tail@, cut),
    {
        let missing: u64 = total - self.accounted;
        let length: usize = text_len(tail);
        let bare: bool = text_eq(tail, "");
        proof {
            reveal_strlit("");
            if tail@.len() == 0 {
                assert(tail@ =~= ""@);
            }
        }
        if bare {
            let count: String = decimal_text(missing);
            lines.push(
                LogLine {
                    text: concat3("[log output unavailable: ", count.as_str(), " source bytes]"),
                    truncated: true,
                },
            );
            assert(views(lines@) =~= missing_lines(*self, total, tail@, cut).0);
            return true;
        }
        if length as u64 <= total {
            let tail_start: u64 = total - length as u64;
            let lost: bool = self.accounted < tail_start;
            if lost {
                let count: String = decimal_text(tail_start - self.accounted);
                lines.push(
                    LogLine {
                        text: concat3(
                            "[log output lost before final tail: ",
                            count.as_str(),
                            " source bytes]",
                        ),
                        truncated: true,
                    },
                );
            }
            let ghost before = lines@;
            let wanted: usize = if missing >= length as u64 {
                length
            } else {
                missing as usize
            };
            let suffix: String = tail_within(tail, wanted);
            proof {
                if missing >= length {
                    lemma_whole_tail(tail@, missing as nat);
                    lemma_whole_tail(tail@, length as nat);
                }
                assert(suffix@ == byte_tail(tail@, missing as nat));
                assert(missing - length == tail_start - self.accounted);
            }
            let empty: bool = text_eq(suffix.as_str(), "");
            proof {
                if suffix@.len() == 0 {
                    assert(suffix@ =~= ""@);
                }
            }
            if empty {
                assert(views(lines@) =~= missing_lines(*self, total, tail@, cut).0);
                return lost;
            }
            lines.push(LogLine { text: suffix, truncated: cut || lost });
            assert(views(lines@) =~= missing_lines(*self, total, tail@, cut).0);
            return cut || lost;
        }
        if self.accounted == 0 {
            lines.push(LogLine { text: tail.to_owned(), truncated: cut });
            assert(views(lines@) =~= missing_lines(*self, total, tail@, cut).0);
            return cut;
        }
        let count: String = decimal_text(missing);
        lines.push(
            LogLine {
                text: concat3(
                    "[",
                    count.as_str(),
                    " additional source bytes could not be merged without duplicating redacted output]",
                ),
                truncated: true,
            },
        );
        assert(views(lines@) =~= missing_lines(*self, total, tail@, cut).0);
        true
    }

    /// Takes in the end of a stream that is kept, and hands back the lines for it.
    pub fn reconcile_final_log_stream(&mut self, total_source_bytes: u64, final_tail: &str, source_truncated: bool) -> (r:
        Vec<LogLine>)
        ensures
            (views(r@), *final(self)) == stream_reconciled(
                *old(self),
                total_source_bytes,
                final_tail@,
                source_truncated,
            ),
    {
        let ghost before = *self;
        let mut lines: Vec<LogLine> = Vec::new();
        let mut visible: bool = false;
        assert(views(lines@) =~= Seq::empty());
        if total_source_bytes > self.accounted {
            visible =
            self.missing_lines(total_source_bytes, final_tail, source_truncated, &mut lines);
            self.accounted = total_source_bytes;
        }
        let marked: bool = (source_truncated || visible) && !self.source_truncated;
        if marked {
            self.source_truncated = true;
        }
        let ghost known = lines@;
        if marked && !visible {
            lines.push(
                LogLine {
                    text: "[some output was unavailable or truncated at source]".to_owned(),
                    truncated: true,
                },
            );
            assert(views(lines@) =~= views(known) + seq![line(cut_at_source_text(), true)]);
        }
        lines
    }

    /// Takes in the end of the stream. `granted` is whether what is charged for it was granted.
    pub fn accept_final_log_stream(
        &mut self,
        reported: u64,
        final_tail: &str,
        source_truncated: bool,
        granted: bool,
    ) -> (r: (Vec<LogLine>, FinalLogStreamAcceptance))
        ensures
            (views(r.0@), *final(self), r.1) == stream_finished(
                *old(self),
                reported,
                final_tail@,
                source_truncated,
                granted,
            ),
    {
        let underreported: bool = reported < self.accounted;
        let total_source_bytes: u64 = if underreported {
            self.accounted
        } else {
            reported
        };
        let source_truncated: bool = source_truncated || underreported;
        let mut lines: Vec<LogLine> = Vec::new();
        assert(views(lines@) =~= Seq::empty());
        if self.quota_truncated {
            self.accounted = total_source_bytes;
            return (
                lines,
                FinalLogStreamAcceptance { retained: false, total_source_bytes, source_truncated },
            );
        }
        if !granted {
            self.accounted = total_source_bytes;
            self.quota_truncated = true;
            lines.push(
                LogLine {
                    text: "[log output truncated at project log quota]".to_owned(),
                    truncated: true,
                },
            );
            assert(views(lines@) =~= seq![line(cut_at_quota_text(), true)]);
            return (
                lines,
                FinalLogStreamAcceptance { retained: false, total_source_bytes, source_truncated },
            );
        }
        let kept: Vec<LogLine> = self.reconcile_final_log_stream(
            total_source_bytes,
            final_tail,
            source_truncated,
        );
        (kept, FinalLogStreamAcceptance { retained: true, total_source_bytes, source_truncated })
    }
}

/// What was accounted for never falls, whatever a worker that was started anew reports: a part of a
/// stream leaves it as it is or raises it.
pub proof fn parts_never_lower_the_count(before: LogStreamState, after: LogStreamState, chunk: LogChunk, granted: bool, r: LogChunkRecord)
    requires
        chunk.end() <= u64::MAX,
        chunk_recorded(before, after, chunk, granted, r),
    ensures
        after.accounted >= before.accounted,
        r.next_offset == after.accounted,
{
}

/// What was accounted for never falls at the end of a stream, and the end counts as cut at its
/// source where it reports less.
pub proof fn the_end_never_lowers_the_count(state: LogStreamState, reported: u64, tail: Seq<char>, cut: bool, granted: bool)
    ensures
        ({
            let (lines, after, end) = stream_finished(state, reported, tail, cut, granted);
            &&& after.accounted >= state.accounted
            &&& after.accounted >= reported
            &&& end.total_source_bytes == after.accounted
            &&& reported < state.accounted ==> end.source_truncated
        }),
{
}

/// Once a stream was cut at the quota, it stays so, and no further line is kept of it.
pub proof fn a_stream_cut_at_the_quota_stays_silent(
    before: LogStreamState,
    after: LogStreamState,
    chunk: LogChunk,
    reported: u64,
    tail: Seq<char>,
    cut: bool,
    granted: bool,
    r: LogChunkRecord,
)
    requires
        before.quota_truncated,
        chunk_recorded(before, after, chunk, granted, r),
    ensures
        after.quota_truncated && views(r.lines@).len() == 0,
        stream_finished(before, reported, tail, cut, granted).1.quota_truncated,
        stream_finished(before, reported, tail, cut, granted).0.len() == 0,
        !stream_finished(before, reported, tail, cut, granted).2.retained,
{
}

/// A stream that is reported in full once more at its end, with nothing cut, is kept without a
/// further line.
pub proof fn an_end_that_is_known_adds_nothing(state: LogStreamState, tail: Seq<char>)
    requires
        !state.quota_truncated,
    ensures
        stream_finished(state, state.accounted, tail, false, true).0 == Seq::<
            (Seq<char>, bool),
        >::empty(),
        stream_finished(state, state.accounted, tail, false, true).1 == state,
{
}

/// Why the end of a stream is refused, if it is too long.
pub open spec fn tail_refused(kind: Seq<char>, value: Seq<char>, error: CoordinatorServiceError) -> bool {
    error matches CoordinatorServiceError::InvalidTaskLogTail(text) && text@ == kind + " is "@ + decimal(
        byte_len(value),
    ) + " bytes; max is 262144"@
}

/// Checks the length of the end of a stream.
pub fn validate_task_log_tail(kind: &str, value: &str) -> (r: Result<(), CoordinatorServiceError>)
    ensures
        r is Ok <==> byte_len(value@) <= MAX_TASK_LOG_TAIL_BYTES,
        r matches Err(error) ==> tail_refused(kind@, value@, error),
{
    let length: usize = text_len(value);
    if length > MAX_TASK_LOG_TAIL_BYTES {
        let count: String = decimal_text(length as u64);
        return Err(
            CoordinatorServiceError::InvalidTaskLogTail(
                concat4(kind, " is ", count.as_str(), " bytes; max is 262144"),
            ),
        );
    }
    Ok(())
}

/// Keeps the end of a text that is too long, and says so.
pub fn bounded_log_tail(value: String, truncated: &mut bool) -> (r: String)
    ensures
        r@ == byte_tail(value@, MAX_TASK_LOG_TAIL_BYTES as nat),
        *final(truncated) == (*old(truncated) || byte_len(value@) > MAX_TASK_LOG_TAIL_BYTES),
{
    if text_len(value.as_str()) <= MAX_TASK_LOG_TAIL_BYTES {
        return value;
    }
    *truncated = true;
    tail_within(value.as_str(), MAX_TASK_LOG_TAIL_BYTES)
}

/// How a task that ended is joined.
pub open spec fn joined_as(terminal: TaskTerminalState) -> TaskJoinState {
    match terminal {
        TaskTerminalState::Completed => TaskJoinState::Completed,
        TaskTerminalState::Failed => TaskJoinState::Failed,
        TaskTerminalState::Cancelled => TaskJoinState::Cancelled,
    }
}

/// How a task that ended is joined.
pub fn join_state_for_terminal(terminal: TaskTerminalState) -> (r: TaskJoinState)
    ensures
        r == joined_as(terminal),
{
    match terminal {
        TaskTerminalState::Completed => TaskJoinState::Completed,
        TaskTerminalState::Failed => TaskJoinState::Failed,
        TaskTerminalState::Cancelled => TaskJoinState::Cancelled,
    }
}

/// What a task that joins is told of the end of another.
pub open spec fn join_text(terminal: TaskTerminalState, stderr: Seq<char>) -> Seq<char> {
    match terminal {
        TaskTerminalState::Completed => "joined result from signed node task_completed event"@,
        TaskTerminalState::Failed => if trimmed(stderr).len() == 0 {
            "remote task failed"@
        } else {
            "remote task failed: "@ + trimmed(stderr)
        },
        TaskTerminalState::Cancelled => "remote task was cancelled"@,
    }
}

/// What a task that joins is told of the end of another.
pub fn join_message_for_event(event: &TaskCompletionEvent) -> (r: String)
    ensures
        r@ == join_text(event.terminal_state, event.stderr_tail@),
{
    match event.terminal_state {
        TaskTerminalState::Completed => {
            "joined result from signed node task_completed event".to_owned()
        },
        TaskTerminalState::Failed => {
            let stderr: String = trim_text(event.stderr_tail.as_str());
            proof {
                reveal_strlit("");
                if stderr@.len() == 0 {
                    assert(stderr@ =~= ""@);
                }
            }
            if text_eq(stderr.as_str(), "") {
                "remote task failed".to_owned()
            } else {
                concat2("remote task failed: ", stderr.as_str())
            }
        },
        TaskTerminalState::Cancelled => "remote task was cancelled".to_owned(),
    }
}

/// An attempt has not ended.
pub open spec fn attempt_goes_on(state: TaskAttemptState) -> bool {
    state is Queued || state is Running || state is FailedAwaitingAction
}

/// A task is not to be joined yet.
pub open spec fn is_pending_join(r: TaskJoinResult, process: Seq<char>, task: Seq<char>, message: Seq<char>) -> bool {
    &&& r.process@ == process
    &&& r.task@ == task
    &&& r.node is None
    &&& r.state is Pending
    &&& r.result is None
    &&& r.status_code is None
    &&& r.message@ == message
}

/// A task is joined with how it ended.
pub open spec fn is_ended_join(r: TaskJoinResult, event: TaskCompletionEventModel) -> bool {
    &&& r.process@ == event.process@
    &&& r.task@ == event.task@
    &&& r.node matches Some(node)
    &&& node@ == event.node@
    &&& r.state == joined_as(event.terminal_state)
    &&& option_view(r.result) == event.result
    &&& r.status_code == event.status_code
    &&& r.message@ == join_text(event.terminal_state, event.stderr_tail@)
}

/// What comes of joining a task, by the state of its attempt, how it last ended, and whether it is
/// known at all.
pub open spec fn is_join(
    r: TaskJoinResult,
    process: Seq<char>,
    task: Seq<char>,
    attempt: Option<TaskAttemptState>,
    event: Option<TaskCompletionEventModel>,
    known: bool,
) -> bool {
    if attempt matches Some(state) && attempt_goes_on(state) {
        is_pending_join(
            r,
            process,
            task,
            "logical task is still running or awaiting operator action"@,
        )
    } else {
        match event {
            Some(event) => is_ended_join(r, event),
            None => is_pending_join(
                r,
                process,
                task,
                if known {
                    "waiting for signed node task_completed event before join returns"@
                } else {
                    "no signed node completion event has been observed for this "@ + "task"@
                },
            ),
        }
    }
}

fn pending_join(process: &ProcessId, task: &TaskInstanceId, message: &str) -> (r: TaskJoinResult)
    ensures
        is_pending_join(r, process@, task@, message@),
{
    TaskJoinResult {
        process: process.clone(),
        task: task.clone(),
        node: None,
        state: TaskJoinState::Pending,
        result: None,
        status_code: None,
        message: message.to_owned(),
    }
}

/// Joins a task.
pub fn task_join_result(
    process: &ProcessId,
    task: &TaskInstanceId,
    attempt: Option<TaskAttemptState>,
    event: Option<&TaskCompletionEvent>,
    known: bool,
) -> (r: TaskJoinResult)
    ensures
        is_join(
            r,
            process@,
            task@,
            attempt,
            match event {
                Some(event) => Some(event@),
                None => None,
            },
            known,
        ),
{
    let goes_on: bool = match attempt {
        Some(TaskAttemptState::Queued) | Some(TaskAttemptState::Running) | Some(
            TaskAttemptState::FailedAwaitingAction,
        ) => true,
        _ => false,
    };
    if goes_on {
        return pending_join(
            process,
            task,
            "logical task is still running or awaiting operator action",
        );
    }
    match event {
        Some(event) => TaskJoinResult {
            process: event.process.clone(),
            task: event.task.clone(),
            node: Some(event.node.clone()),
            state: join_state_for_terminal(event.terminal_state),
            result: copy_option(&event.result),
            status_code: event.status_code,
            message: join_message_for_event(event),
        },
        None => {
            if known {
                pending_join(
                    process,
                    task,
                    "waiting for signed node task_completed event before join returns",
                )
            } else {
                let message: String = concat2(
                    "no signed node completion event has been observed for this ",
                    "task",
                );
                pending_join(process, task, message.as_str())
            }
        },
    }
}

/// A node may act on a process: it is enrolled, and the process is active or is being stopped.
pub open spec fn node_may(s: CoordinatorServiceModel, key: ProcessText, node: Seq<char>, stopping: bool) -> bool {
    &&& lookup(s.coordinator.durable.node_identities, (key.0, key.1, node)) is Some
    &&& stopping || lookup(s.coordinator.active_processes, key) is Some
}

/// Why a node may not act on a process.
pub open spec fn node_turned_away(
    s: CoordinatorServiceModel,
    key: ProcessText,
    node: Seq<char>,
    error: CoordinatorServiceError,
) -> bool {
    if lookup(s.coordinator.durable.node_identities, (key.0, key.1, node)) is None {
        error matches CoordinatorServiceError::Coordinator(CoordinatorError::UnknownNode)
    } else {
        error.denies("virtual process is not active in coordinator memory"@)
    }
}

/// Why a part of a stream is refused before it is looked at, if it is.
pub open spec fn chunk_refused(chunk: LogChunk, error: CoordinatorServiceError) -> bool {
    if byte_len(chunk.text@) > MAX_RECENT_LOG_CHUNK_BYTES {
        error matches CoordinatorServiceError::InvalidTaskLogTail(text) && text@
            == "live log chunk is "@ + decimal(byte_len(chunk.text@)) + " bytes; max is 16384"@
    } else if chunk.source_bytes == 0 && chunk.text@.len() > 0 && !chunk.truncated {
        error.protests("live log chunk source_bytes must describe non-empty text"@)
    } else {
        error.protests("live log chunk source_bytes exceeds the bounded chunk allowance"@)
    }
}

/// A part of a stream has a shape that is taken in.
pub open spec fn chunk_fits(chunk: LogChunk) -> bool {
    &&& byte_len(chunk.text@) <= MAX_RECENT_LOG_CHUNK_BYTES
    &&& chunk.source_bytes > 0 || chunk.text@.len() == 0 || chunk.truncated
    &&& chunk.source_bytes <= MAX_RECENT_LOG_SOURCE_BYTES
}

/// Why a part of a stream of a task is refused.
pub open spec fn chunk_turned_away(
    s: CoordinatorServiceModel,
    key: ProcessText,
    node: Seq<char>,
    stopping: bool,
    chunk: LogChunk,
    error: CoordinatorServiceError,
) -> bool {
    if !chunk_fits(chunk) {
        chunk_refused(chunk, error)
    } else if !node_may(s, key, node, stopping) {
        node_turned_away(s, key, node, error)
    } else {
        error.protests("live log chunk offset exceeds the supported range"@)
    }
}

/// A part of a stream of a task is taken in.
pub open spec fn chunk_taken(
    s: CoordinatorServiceModel,
    key: ProcessText,
    node: Seq<char>,
    stopping: bool,
    chunk: LogChunk,
) -> bool {
    chunk_fits(chunk) && node_may(s, key, node, stopping) && chunk.end() <= u64::MAX
}

fn check_chunk(chunk: &LogChunk) -> (r: Result<(), CoordinatorServiceError>)
    ensures
        r is Ok <==> chunk_fits(*chunk),
        r matches Err(error) ==> chunk_refused(*chunk, error),
{
    let length: usize = text_len(chunk.text.as_str());
    if length > MAX_RECENT_LOG_CHUNK_BYTES {
        let count: String = decimal_text(length as u64);
        return Err(
            CoordinatorServiceError::InvalidTaskLogTail(
                concat3("live log chunk is ", count.as_str(), " bytes; max is 16384"),
            ),
        );
    }
    let bare: bool = text_eq(chunk.text.as_str(), "");
    proof {
        reveal_strlit("");
        if chunk.text@.len() == 0 {
            assert(chunk.text@ =~= ""@);
        }
    }
    if chunk.source_bytes == 0 && !bare && !chunk.truncated {
        return Err(protocol("live log chunk source_bytes must describe non-empty text"));
    }
    if chunk.source_bytes > MAX_RECENT_LOG_SOURCE_BYTES {
        return Err(protocol("live log chunk source_bytes exceeds the bounded chunk allowance"));
    }
    Ok(())
}

impl CoordinatorService {
    /// Lets an enrolled node act on a process that is active, or that is being stopped.
    pub fn authorize_node_for_process_or_termination(
        &self,
        node: &NodeId,
        tenant: &TenantId,
        project: &ProjectId,
        process: &ProcessId,
        stopping: bool,
    ) -> (r: Result<(), CoordinatorServiceError>)
        ensures
            ({
                let key = (tenant@, project@, process@);
                &&& r is Ok <==> node_may(self@, key, node@, stopping)
                &&& r matches Err(error) ==> node_turned_away(self@, key, node@, error)
            }),
    {
        if stopping {
            if self.coordinator.node_identity(tenant, project, node).is_none() {
                return Err(CoordinatorServiceError::Coordinator(CoordinatorError::UnknownNode));
            }
            return Ok(());
        }
        match self.coordinator.authorize_node_for_process(node, tenant, project, process) {
            Ok(_) => Ok(()),
            Err(error) => Err(CoordinatorServiceError::Coordinator(error)),
        }
    }

    fn let_chunk_in(
        &self,
        tenant: &TenantId,
        project: &ProjectId,
        process: &ProcessId,
        node: &NodeId,
        stopping: bool,
        chunk: &LogChunk,
    ) -> (r: Result<(), CoordinatorServiceError>)
        ensures
            ({
                let key = (tenant@, project@, process@);
                &&& r is Ok <==> chunk_taken(self@, key, node@, stopping, *chunk)
                &&& r matches Err(error) ==> chunk_turned_away(
                    self@,
                    key,
                    node@,
                    stopping,
                    *chunk,
                    error,
                )
            }),
    {
        match check_chunk(chunk) {
            Ok(_) => {},
            Err(error) => {
                return Err(error);
            },
        }
        match self.authorize_node_for_process_or_termination(
            node,
            tenant,
            project,
            process,
            stopping,
        ) {
            Ok(_) => {},
            Err(error) => {
                return Err(error);
            },
        }
        if chunk.offset > u64::MAX - chunk.source_bytes {
            return Err(protocol("live log chunk offset exceeds the supported range"));
        }
        Ok(())
    }

    /// What is charged for a part of a stream of a task, if it is taken in.
    pub fn log_chunk_charge(
        &self,
        tenant: &TenantId,
        project: &ProjectId,
        process: &ProcessId,
        node: &NodeId,
        stopping: bool,
        state: &LogStreamState,
        chunk: &LogChunk,
    ) -> (r: Result<Option<u64>, CoordinatorServiceError>)
        ensures
            ({
                let key = (tenant@, project@, process@);
                match r {
                    Err(error) => {
                        &&& !chunk_taken(self@, key, node@, stopping, *chunk)
                        &&& chunk_turned_away(self@, key, node@, stopping, *chunk, error)
                    },
                    Ok(charge) => {
                        &&& chunk_taken(self@, key, node@, stopping, *chunk)
                        &&& charge is Some <==> chunk_charge(*state, *chunk) is Some
                        &&& charge matches Some(bytes) ==> chunk_charge(*state, *chunk) == Some(
                            bytes as int,
                        )
                    },
                }
            }),
    {
        match self.let_chunk_in(tenant, project, process, node, stopping, chunk) {
            Ok(_) => Ok(state.chunk_charge(chunk)),
            Err(error) => Err(error),
        }
    }

    /// Takes in a part of a stream of a task. `granted` is whether what is charged for it was granted.
    pub fn handle_report_task_log_chunk(
        &self,
        tenant: &TenantId,
        project: &ProjectId,
        process: &ProcessId,
        node: &NodeId,
        stopping: bool,
        state: &mut LogStreamState,
        chunk: &LogChunk,
        granted: bool,
    ) -> (r: Result<LogChunkRecord, CoordinatorServiceError>)
        ensures
            ({
                let key = (tenant@, project@, process@);
                match r {
                    Err(error) => {
                        &&& !chunk_taken(self@, key, node@, stopping, *chunk)
                        &&& chunk_turned_away(self@, key, node@, stopping, *chunk, error)
                        &&& *final(state) == *old(state)
                    },
                    Ok(record) => {
                        &&& chunk_taken(self@, key, node@, stopping, *chunk)
                        &&& chunk_recorded(*old(state), *final(state), *chunk, granted, record)
                    },
                }
            }),
    {
        match self.let_chunk_in(tenant, project, process, node, stopping, chunk) {
            Ok(_) => Ok(state.record_chunk(chunk, granted)),
            Err(error) => Err(error),
        }
    }
}

/// The artifacts that a task that is checkpointed, or that waits to be launched, requires.
pub struct ArtifactClaim {
    pub tenant: TenantId,
    pub project: ProjectId,
    pub required_artifacts: TextList,
}

/// The artifacts of a project that are required.
pub open spec fn pinned_by(claims: Seq<ArtifactClaim>, tenant: Seq<char>, project: Seq<char>) -> Set<
    (Seq<char>, Seq<char>, Seq<char>),
>
    decreases claims.len(),
{
    if claims.len() == 0 {
        Set::empty()
    } else {
        let rest = pinned_by(claims.drop_last(), tenant, project);
        let claim = claims.last();
        if claim.tenant@ == tenant && claim.project@ == project {
            rest.union(scoped(claim.required_artifacts@, tenant, project))
        } else {
            rest
        }
    }
}

/// Artifacts of a project, by their names.
pub open spec fn scoped(names: Seq<Seq<char>>, tenant: Seq<char>, project: Seq<char>) -> Set<
    (Seq<char>, Seq<char>, Seq<char>),
> {
    names.map_values(|name: Seq<char>| (tenant, project, name)).to_set()
}

/// The active processes of a project, by their names.
pub open spec fn protected_in(s: CoordinatorModel, tenant: Seq<char>, project: Seq<char>) -> Set<Seq<char>> {
    processes_in(s.active_processes, tenant, project).map_values(
        |p: ActiveProcessModel| p.id@,
    ).to_set()
}

fn pin_all(pinned: &mut OrderedSet<(TenantId, ProjectId, ArtifactId)>, names: &TextList, tenant: &TenantId, project: &ProjectId)
    ensures
        final(pinned)@ == old(pinned)@.union(scoped(names@, tenant@, project@)),
{
    let ghost start = pinned@;
    let ghost all = names@.map_values(|name: Seq<char>| (tenant@, project@, name));
    let mut i: usize = 0;
    assert(start.union(all.take(0).to_set()) =~= start);
    while i < names.items.len()
        invariant
            0 <= i <= names.items@.len(),
            all == names@.map_values(|name: Seq<char>| (tenant@, project@, name)),
            names@ == texts(names.items@),
            pinned@ == start.union(all.take(i as int).to_set()),
        decreases names.items@.len() - i,
    {
        let key: (TenantId, ProjectId, ArtifactId) = (
            tenant.clone(),
            project.clone(),
            names.items[i].clone(),
        );
        assert(key.key() == (tenant@, project@, names.items@[i as int]@));
        assert(key.key() == all[i as int]);
        pinned.insert(key);
        proof {
            let before = all.take(i as int);
            let after = all.take(i + 1);
            assert(after =~= before.push(all[i as int]));
            assert forall|k: (Seq<char>, Seq<char>, Seq<char>)|
                after.to_set().contains(k) <==> before.to_set().contains(k) || k == all[i as int] by {
                if before.contains(k) {
                    let j = choose|j: int| 0 <= j < before.len() && before[j] == k;
                    assert(after[j] == k);
                }
                if k == all[i as int] {
                    assert(after[i as int] == k);
                }
                if after.contains(k) {
                    let j = choose|j: int| 0 <= j < after.len() && after[j] == k;
                    if j < i {
                        assert(before[j] == k);
                    }
                }
            }
            assert(pinned@ =~= start.union(after.to_set()));
        }
        i = i + 1;
    }
    assert(all.take(all.len() as int) =~= all);
}

impl CoordinatorService {
    /// The artifacts of a project that are required, and its active processes.
    pub fn artifact_retention_guards_for_project(&self, tenant: &TenantId, project: &ProjectId, claims: &Vec<ArtifactClaim>) -> (r:
        (OrderedSet<(TenantId, ProjectId, ArtifactId)>, OrderedSet<ProcessId>))
        ensures
            r.0@ == pinned_by(claims@, tenant@, project@),
            r.1@ == protected_in(self@.coordinator, tenant@, project@),
    {
        let mut pinned: OrderedSet<(TenantId, ProjectId, ArtifactId)> = OrderedSet::new();
        let mut i: usize = 0;
        while i < claims.len()
            invariant
                0 <= i <= claims@.len(),
                pinned@ == pinned_by(claims@.take(i as int), tenant@, project@),
            decreases claims@.len() - i,
        {
            let claim: &ArtifactClaim = &claims[i];
            assert(claims@.take(i + 1).drop_last() =~= claims@.take(i as int));
            if claim.tenant == *tenant && claim.project == *project {
                pin_all(&mut pinned, &claim.required_artifacts, tenant, project);
            }
            i = i + 1;
        }
        assert(claims@.take(claims@.len() as int) =~= claims@);
        let active: Vec<ActiveProcess> = self.coordinator.active_processes_for_project(
            tenant,
            project,
        );
        let ghost ids = views(active@).map_values(|p: ActiveProcessModel| p.id@);
        let mut protected: OrderedSet<ProcessId> = OrderedSet::new();
        let mut j: usize = 0;
        assert(protected@ =~= ids.take(0).to_set());
        while j < active.len()
            invariant
                0 <= j <= active@.len(),
                ids == views(active@).map_values(|p: ActiveProcessModel| p.id@),
                protected@ == ids.take(j as int).to_set(),
            decreases active@.len() - j,
        {
            let id: ProcessId = active[j].id.clone();
            assert(ids[j as int] == id@);
            assert(id.key() == id@);
            protected.insert(id);
            proof {
                let before = ids.take(j as int);
                let after = ids.take(j + 1);
                assert(after =~= before.push(ids[j as int]));
                assert forall|k: Seq<char>|
                    after.to_set().contains(k) <==> before.to_set().contains(k) || k == ids[j as int] by {
                    if before.contains(k) {
                        let i = choose|i: int| 0 <= i < before.len() && before[i] == k;
                        assert(after[i] == k);
                    }
                    if k == ids[j as int] {
                        assert(after[j as int] == k);
                    }
                    if after.contains(k) {
                        let i = choose|i: int| 0 <= i < after.len() && after[i] == k;
                        if i < j {
                            assert(before[i] == k);
                        }
                    }
                }
                assert(protected@ =~= after.to_set());
            }
            j = j + 1;
        }
        assert(ids.take(ids.len() as int) =~= ids);
        (pinned, protected)
    }

    /// Records an artifact that a task left. Links that have run out end first.
    pub fn flush_artifact_metadata(&mut self, flush: ArtifactFlush, claims: &Vec<ArtifactClaim>, now: u64) -> (r: Result<
        (),
        CoordinatorServiceError,
    >)
        ensures
            artifact_flushed(old(self)@, final(self)@, flush, claims@, now, r),
            well_formed(old(self)@.artifacts) ==> well_formed(final(self)@.artifacts),
    {
        self.artifact_registry.expire_download_links(now);
        let (pinned, protected) = self.artifact_retention_guards_for_project(
            &flush.tenant,
            &flush.project,
            claims,
        );
        match self.artifact_registry.flush_metadata_with_protected_processes(
            flush,
            &pinned,
            &protected,
        ) {
            Ok(_) => Ok(()),
            Err(text) => Err(CoordinatorServiceError::Protocol(text)),
        }
    }
}

/// What comes of recording an artifact.
pub open spec fn artifact_flushed(
    before: CoordinatorServiceModel,
    after: CoordinatorServiceModel,
    flush: ArtifactFlush,
    claims: Seq<ArtifactClaim>,
    now: u64,
    r: Result<(), CoordinatorServiceError>,
) -> bool {
    let expired = links_expired(before.artifacts, now);
    let pinned = pinned_by(claims, flush.tenant@, flush.project@);
    let protected = protected_in(before.coordinator, flush.tenant@, flush.project@);
    if needs_room(expired, flush) && flush_eviction(expired, flush, pinned, protected) is None {
        &&& r matches Err(error)
        &&& error.protests(
            "artifact metadata capacity of 1024 is exhausted by active or retained artifacts"@,
        )
        &&& after == (CoordinatorServiceModel { artifacts: expired, ..before })
    } else {
        &&& r is Ok
        &&& after == (CoordinatorServiceModel {
            artifacts: after_flush(expired, flush, pinned, protected),
            ..before
        })
    }
}

/// What a node reports of the streams of a task.
pub struct TaskLogReport {
    pub stdout_bytes: u64,
    pub stderr_bytes: u64,
    pub stdout_tail: String,
    pub stderr_tail: String,
    pub stdout_truncated: bool,
    pub stderr_truncated: bool,
}

/// What became of the streams of a task: what the node is told, and the lines that are to be kept.
pub struct TaskLogRecord {
    pub stdout_bytes: u64,
    pub stderr_bytes: u64,
    pub stdout_tail: String,
    pub stderr_tail: String,
    pub stdout_lines: Vec<LogLine>,
    pub stderr_lines: Vec<LogLine>,
}

/// What a node is told of the end of a stream.
pub open spec fn told_tail(end: FinalLogStreamAcceptance, tail: Seq<char>) -> Seq<char> {
    if !end.retained {
        cut_at_quota_text()
    } else if end.source_truncated {
        tail + "\n... truncated"@
    } else {
        tail
    }
}

fn tell_tail(end: FinalLogStreamAcceptance, tail: &String) -> (r: String)
    ensures
        r@ == told_tail(end, tail@),
{
    if !end.retained {
        "[log output truncated at project log quota]".to_owned()
    } else if end.source_truncated {
        concat2(tail.as_str(), "\n... truncated")
    } else {
        tail.clone()
    }
}

/// The ends of both streams are short enough.
pub open spec fn tails_fit(stdout: Seq<char>, stderr: Seq<char>) -> bool {
    byte_len(stdout) <= MAX_TASK_LOG_TAIL_BYTES && byte_len(stderr) <= MAX_TASK_LOG_TAIL_BYTES
}

/// Why the ends of the streams are refused.
pub open spec fn tails_refused(stdout: Seq<char>, stderr: Seq<char>, error: CoordinatorServiceError) -> bool {
    if byte_len(stdout) > MAX_TASK_LOG_TAIL_BYTES {
        tail_refused("stdout_tail"@, stdout, error)
    } else {
        tail_refused("stderr_tail"@, stderr, error)
    }
}

fn check_tails(stdout: &str, stderr: &str) -> (r: Result<(), CoordinatorServiceError>)
    ensures
        r is Ok <==> tails_fit(stdout@, stderr@),
        r matches Err(error) ==> tails_refused(stdout@, stderr@, error),
{
    match validate_task_log_tail("stdout_tail", stdout) {
        Ok(_) => validate_task_log_tail("stderr_tail", stderr),
        Err(error) => Err(error),
    }
}

/// What the report of the end of both streams of a task comes to.
pub open spec fn log_reported(
    s: CoordinatorServiceModel,
    tenant: TenantId,
    project: ProjectId,
    process: ProcessId,
    node: NodeId,
    stopping: bool,
    report: TaskLogReport,
    stdout_before: LogStreamState,
    stdout_after: LogStreamState,
    stderr_before: LogStreamState,
    stderr_after: LogStreamState,
    stdout_granted: bool,
    stderr_granted: bool,
    r: Result<TaskLogRecord, CoordinatorServiceError>,
) -> bool {
    let key = (tenant@, project@, process@);
    let out = stream_finished(
        stdout_before,
        report.stdout_bytes,
        report.stdout_tail@,
        report.stdout_truncated,
        stdout_granted,
    );
    let err = stream_finished(
        stderr_before,
        report.stderr_bytes,
        report.stderr_tail@,
        report.stderr_truncated,
        stderr_granted,
    );
    match r {
        Err(error) => {
            &&& stdout_after == stdout_before && stderr_after == stderr_before
            &&& if !node_may(s, key, node@, stopping) {
                node_turned_away(s, key, node@, error)
            } else {
                &&& !tails_fit(report.stdout_tail@, report.stderr_tail@)
                &&& tails_refused(report.stdout_tail@, report.stderr_tail@, error)
            }
        },
        Ok(record) => {
            &&& node_may(s, key, node@, stopping)
            &&& tails_fit(report.stdout_tail@, report.stderr_tail@)
            &&& stdout_after == out.1 && stderr_after == err.1
            &&& views(record.stdout_lines@) == out.0
            &&& views(record.stderr_lines@) == err.0
            &&& record.stdout_bytes == out.2.total_source_bytes
            &&& record.stderr_bytes == err.2.total_source_bytes
            &&& record.stdout_tail@ == told_tail(out.2, report.stdout_tail@)
            &&& record.stderr_tail@ == told_tail(err.2, report.stderr_tail@)
        },
    }
}

impl CoordinatorService {
    /// Takes in the ends of the streams of a task.
    pub fn handle_report_task_log(
        &self,
        tenant: &TenantId,
        project: &ProjectId,
        process: &ProcessId,
        node: &NodeId,
        stopping: bool,
        report: &TaskLogReport,
        stdout: &mut LogStreamState,
        stderr: &mut LogStreamState,
        stdout_granted: bool,
        stderr_granted: bool,
    ) -> (r: Result<TaskLogRecord, CoordinatorServiceError>)
        ensures
            log_reported(
                self@,
                *tenant,
                *project,
                *process,
                *node,
                stopping,
                *report,
                *old(stdout),
                *final(stdout),
                *old(stderr),
                *final(stderr),
                stdout_granted,
                stderr_granted,
                r,
            ),
    {
        match self.authorize_node_for_process_or_termination(
            node,
            tenant,
            project,
            process,
            stopping,
        ) {
            Ok(_) => {},
            Err(error) => {
                return Err(error);
            },
        }
        match check_tails(report.stdout_tail.as_str(), report.stderr_tail.as_str()) {
            Ok(_) => {},
            Err(error) => {
                return Err(error);
            },
        }
        let (stdout_lines, out): (Vec<LogLine>, FinalLogStreamAcceptance) =
            stdout.accept_final_log_stream(
            report.stdout_bytes,
            report.stdout_tail.as_str(),
            report.stdout_truncated,
            stdout_granted,
        );
        let (stderr_lines, err): (Vec<LogLine>, FinalLogStreamAcceptance) =
            stderr.accept_final_log_stream(
            report.stderr_bytes,
            report.stderr_tail.as_str(),
            report.stderr_truncated,
            stderr_granted,
        );
        Ok(
            TaskLogRecord {
                stdout_bytes: out.total_source_bytes,
                stderr_bytes: err.total_source_bytes,
                stdout_tail: tell_tail(out, &report.stdout_tail),
                stderr_tail: tell_tail(err, &report.stderr_tail),
                stdout_lines,
                stderr_lines,
            },
        )
    }
}

/// The state that an attempt ends in.
pub open spec fn ended_state(terminal: TaskTerminalState, policy: TaskFailurePolicy) -> TaskAttemptState {
    match terminal {
        TaskTerminalState::Completed => TaskAttemptState::Completed,
        TaskTerminalState::Failed => if policy is AwaitOperator {
            TaskAttemptState::FailedAwaitingAction
        } else {
            TaskAttemptState::Failed
        },
        TaskTerminalState::Cancelled => TaskAttemptState::Cancelled,
    }
}

/// The name of a state that an attempt ends in.
pub open spec fn ended_name(state: TaskAttemptState) -> Seq<char> {
    match state {
        TaskAttemptState::FailedAwaitingAction => "failed_awaiting_action"@,
        TaskAttemptState::Completed => "completed"@,
        TaskAttemptState::Failed => "failed"@,
        _ => "cancelled"@,
    }
}

/// An attempt that ended.
pub open spec fn is_ended_attempt(after: TaskAttempt, before: TaskAttempt, event: TaskCompletionEventModel) -> bool {
    let state = ended_state(event.terminal_state, before.failure_policy);
    &&& option_view(after.command_state) == Some(ended_name(state))
    &&& after == (TaskAttempt {
        state,
        status_code: event.status_code,
        artifact_path: event.artifact_path,
        artifact_digest: event.artifact_digest,
        artifact_size_bytes: event.artifact_size_bytes,
        error: if trimmed(event.stderr_tail@).len() == 0 {
            None
        } else {
            Some(event.stderr_tail)
        },
        command_state: after.command_state,
        ..before
    })
}

/// What the end of a task does to its attempt.
pub open spec fn attempt_finished(
    before: Option<TaskAttempt>,
    after: Option<TaskAttempt>,
    event: TaskCompletionEventModel,
    told: TaskCompletionEventModel,
) -> bool {
    match before {
        None => after is None && told == event,
        Some(attempt) => {
            &&& after matches Some(ended)
            &&& is_ended_attempt(ended, attempt, event)
            &&& told == (TaskCompletionEventModel { attempt_id: Some(attempt.attempt_id), ..event })
        },
    }
}

/// Whether an attempt that ended awaits what an operator decides.
pub open spec fn awaits_operator(attempt: Option<TaskAttempt>, terminal: TaskTerminalState) -> bool {
    attempt matches Some(attempt) && terminal is Failed && attempt.failure_policy is AwaitOperator
}

/// Ends the attempt of a task. Tells whether it awaits what an operator decides.
pub fn finish_task_attempt(event: &mut TaskCompletionEvent, attempt: &mut Option<TaskAttempt>) -> (r: bool)
    ensures
        attempt_finished(*old(attempt), *final(attempt), old(event)@, final(event)@),
        r == awaits_operator(*old(attempt), old(event).terminal_state),
{
    match attempt.take() {
        None => false,
        Some(current) => {
            let mut ended: TaskAttempt = current;
            event.attempt_id = Some(ended.attempt_id.clone());
            ended.status_code = event.status_code;
            ended.artifact_path = copy_text(&event.artifact_path);
            ended.artifact_digest = copy_text(&event.artifact_digest);
            ended.artifact_size_bytes = event.artifact_size_bytes;
            let told: String = trim_text(event.stderr_tail.as_str());
            proof {
                reveal_strlit("");
                if told@.len() == 0 {
                    assert(told@ =~= ""@);
                }
            }
            ended.error = if text_eq(told.as_str(), "") {
                None
            } else {
                Some(event.stderr_tail.clone())
            };
            let awaits: bool = event.terminal_state == TaskTerminalState::Failed
                && ended.failure_policy == TaskFailurePolicy::AwaitOperator;
            if awaits {
                ended.state = TaskAttemptState::FailedAwaitingAction;
                ended.command_state = Some("failed_awaiting_action".to_owned());
            } else {
                match event.terminal_state {
                    TaskTerminalState::Completed => {
                        ended.state = TaskAttemptState::Completed;
                        ended.command_state = Some("completed".to_owned());
                    },
                    TaskTerminalState::Failed => {
                        ended.state = TaskAttemptState::Failed;
                        ended.command_state = Some("failed".to_owned());
                    },
                    TaskTerminalState::Cancelled => {
                        ended.state = TaskAttemptState::Cancelled;
                        ended.command_state = Some("cancelled".to_owned());
                    },
                }
            }
            *attempt = Some(ended);
            awaits
        },
    }
}

/// How the end of a task is kept: the ends of its streams are cut where they are too long.
pub open spec fn is_kept_event(kept: TaskCompletionEventModel, event: TaskCompletionEventModel) -> bool {
    &&& kept.stdout_tail@ == byte_tail(event.stdout_tail@, MAX_TASK_LOG_TAIL_BYTES as nat)
    &&& kept.stderr_tail@ == byte_tail(event.stderr_tail@, MAX_TASK_LOG_TAIL_BYTES as nat)
    &&& kept == (TaskCompletionEventModel {
        stdout_tail: kept.stdout_tail,
        stderr_tail: kept.stderr_tail,
        stdout_truncated: event.stdout_truncated || byte_len(event.stdout_tail@)
            > MAX_TASK_LOG_TAIL_BYTES,
        stderr_truncated: event.stderr_truncated || byte_len(event.stderr_tail@)
            > MAX_TASK_LOG_TAIL_BYTES,
        ..event
    })
}

/// How the end of a task is kept.
pub fn record_task_completion_event(event: TaskCompletionEvent) -> (r: TaskCompletionEvent)
    ensures
        is_kept_event(r@, event@),
{
    let mut kept: TaskCompletionEvent = event;
    let mut stdout_truncated: bool = kept.stdout_truncated;
    let mut stderr_truncated: bool = kept.stderr_truncated;
    kept.stdout_tail = bounded_log_tail(kept.stdout_tail, &mut stdout_truncated);
    kept.stderr_tail = bounded_log_tail(kept.stderr_tail, &mut stderr_truncated);
    kept.stdout_truncated = stdout_truncated;
    kept.stderr_truncated = stderr_truncated;
    kept
}

/// What a node reports of the end of a task.
pub struct TaskCompletionReport {
    pub node: NodeId,
    pub task: TaskInstanceId,
    pub terminal_state: TaskTerminalState,
    pub status_code: Option<i32>,
    pub logs: TaskLogReport,
    pub artifact_path: Option<String>,
    pub artifact_digest: Option<Digest>,
    pub artifact_size_bytes: Option<u64>,
    pub result: Option<TaskBoundaryValue>,
}

/// What is known when a task ends: who reports it, whether its process is being stopped or was
/// aborted, what it was assigned, where it was placed, what the checks of the path and of the name
/// of its artifact gave, and whether the charges for its streams were granted.
pub struct CompletionFacts {
    pub origin: TaskCompletionOrigin,
    pub stopping: bool,
    pub process_was_aborted: bool,
    pub assigned: Option<(NodeId, TaskDefinitionId)>,
    pub placement: Option<String>,
    pub path_checked: Result<(), String>,
    pub name_checked: Result<(), String>,
    pub stdout_granted: bool,
    pub stderr_granted: bool,
    pub now: u64,
}

/// What the end of a task comes to: the event, the lines to keep, whether an operator has to decide,
/// whether its checkpoint goes, and what a main that waits for it is told.
pub struct TaskCompletion {
    pub event: TaskCompletionEvent,
    pub stdout_lines: Vec<LogLine>,
    pub stderr_lines: Vec<LogLine>,
    pub awaiting_operator: bool,
    pub drop_checkpoint: bool,
    pub notice: Option<Result<TaskBoundaryValue, String>>,
}

/// Why the end of a task is not taken in.
pub open spec fn completion_refused(
    s: CoordinatorServiceModel,
    key: ProcessText,
    report: TaskCompletionReport,
    facts: CompletionFacts,
    error: CoordinatorServiceError,
) -> bool {
    if !tails_fit(report.logs.stdout_tail@, report.logs.stderr_tail@) {
        tails_refused(report.logs.stdout_tail@, report.logs.stderr_tail@, error)
    } else if report.artifact_path is Some && facts.path_checked is Err {
        &&& error matches CoordinatorServiceError::InvalidArtifactPath(text)
        &&& text@ == facts.path_checked->Err_0@
    } else if facts.origin is SignedNode && !node_may(s, key, report.node@, facts.stopping) {
        node_turned_away(s, key, report.node@, error)
    } else if facts.assigned is None {
        error.denies(
            "signed node task completion does not name a coordinator-issued task instance"@,
        )
    } else {
        error.denies(
            "signed node task completion came from a node other than the assigned node"@,
        )
    }
}

/// The end of a task is taken in.
pub open spec fn completion_taken(
    s: CoordinatorServiceModel,
    key: ProcessText,
    report: TaskCompletionReport,
    facts: CompletionFacts,
) -> bool {
    &&& tails_fit(report.logs.stdout_tail@, report.logs.stderr_tail@)
    &&& report.artifact_path is Some ==> facts.path_checked is Ok
    &&& facts.origin is SignedNode ==> node_may(s, key, report.node@, facts.stopping)
    &&& facts.assigned matches Some(assigned)
    &&& assigned.0@ == report.node@
}

/// What is kept of the end of a stream: how long it was, whether it was cut, and its end.
pub open spec fn kept_stream(end: FinalLogStreamAcceptance, tail: Seq<char>, cut: bool) -> (
    u64,
    bool,
    Seq<char>,
) {
    (
        end.total_source_bytes,
        cut || end.source_truncated || !end.retained,
        if end.retained {
            tail
        } else {
            cut_at_quota_text()
        },
    )
}

/// How the end of a task is told of, before its attempt is known.
pub open spec fn is_completion_event(
    event: TaskCompletionEventModel,
    key: ProcessText,
    report: TaskCompletionReport,
    facts: CompletionFacts,
    out: FinalLogStreamAcceptance,
    err: FinalLogStreamAcceptance,
) -> bool {
    &&& event.tenant@ == key.0
    &&& event.project@ == key.1
    &&& event.process@ == key.2
    &&& event.node@ == report.node@
    &&& event.executor is Node
    &&& facts.assigned matches Some(assigned)
    &&& event.task_definition@ == assigned.1@
    &&& event.task@ == report.task@
    &&& event.attempt_id is None
    &&& event.placement == facts.placement
    &&& event.terminal_state == report.terminal_state
    &&& event.status_code == report.status_code
    &&& (event.stdout_bytes, event.stdout_truncated, event.stdout_tail@) == kept_stream(
        out,
        report.logs.stdout_tail@,
        report.logs.stdout_truncated,
    )
    &&& (event.stderr_bytes, event.stderr_truncated, event.stderr_tail@) == kept_stream(
        err,
        report.logs.stderr_tail@,
        report.logs.stderr_truncated,
    )
    &&& event.artifact_path == report.artifact_path
    &&& event.artifact_digest == report.artifact_digest
    &&& event.artifact_size_bytes == report.artifact_size_bytes
    &&& event.result == option_view(report.result)
}

/// The artifact that a task left.
pub open spec fn is_completion_flush(flush: ArtifactFlush, key: ProcessText, report: TaskCompletionReport) -> bool {
    &&& report.artifact_path matches Some(path)
    &&& report.artifact_digest matches Some(digest)
    &&& flush.id@ == mapped_name(path@)
    &&& flush.tenant@ == key.0
    &&& flush.project@ == key.1
    &&& flush.process@ == key.2
    &&& flush.producer_task@ == report.task@
    &&& flush.retaining_node@ == report.node@
    &&& flush.digest@ == digest@
    &&& flush.size == (match report.artifact_size_bytes {
        Some(size) => size,
        None => report.logs.stdout_bytes,
    })
}

/// A task left an artifact.
pub open spec fn leaves_artifact(report: TaskCompletionReport) -> bool {
    report.artifact_path is Some && report.artifact_digest is Some
}

/// What recording the artifact that a task left comes to.
pub open spec fn completion_flushed(
    before: CoordinatorServiceModel,
    after: CoordinatorServiceModel,
    key: ProcessText,
    report: TaskCompletionReport,
    facts: CompletionFacts,
    claims: Seq<ArtifactClaim>,
    r: Result<(), CoordinatorServiceError>,
) -> bool {
    if !leaves_artifact(report) {
        r is Ok && after == before
    } else {
        match path_fault(report.artifact_path->Some_0@, facts.name_checked) {
            Some(fault) => {
                &&& r matches Err(CoordinatorServiceError::InvalidArtifactPath(text))
                &&& text@ == fault
                &&& after == before
            },
            None => exists|flush: ArtifactFlush| #[trigger]
                is_completion_flush(flush, key, report) && artifact_flushed(
                    before,
                    after,
                    flush,
                    claims,
                    facts.now,
                    r,
                ),
        }
    }
}

/// What the end of a task leaves of the service, once its artifact was recorded.
pub open spec fn after_completion(s: CoordinatorServiceModel, key: ProcessText, node: Seq<char>, task: Seq<char>, told: bool) -> CoordinatorServiceModel {
    CoordinatorServiceModel {
        debug: DebugRegistryModel {
            commands: delete(s.debug.commands, (key.0, key.1, key.2, node, task)),
            ..s.debug
        },
        artifacts: ArtifactRegistryModel {
            holds: released(s.artifacts.holds, key.0, key.1, consumed_by(key.2, task)),
            ..s.artifacts
        },
        mains: if told {
            CoordinatorMainRuntimeModel {
                join_waiters: s.mains.join_waiters.remove((key.0, key.1, key.2, task)),
                ..s.mains
            }
        } else {
            s.mains
        },
        ..s
    }
}

/// What a main that waits for a task is told.
pub open spec fn is_completion_notice(
    s: CoordinatorServiceModel,
    key: ProcessText,
    completion: TaskCompletion,
) -> bool {
    let waits = s.mains.join_waiters.contains((key.0, key.1, key.2, completion.event.task@));
    &&& completion.notice is Some <==> waits && !completion.awaiting_operator
    &&& completion.notice matches Some(notice) ==> is_notice(completion.event@, notice)
}

/// What the end of a task leaves of the service.
pub open spec fn completion_left(
    before: CoordinatorServiceModel,
    after: CoordinatorServiceModel,
    key: ProcessText,
    report: TaskCompletionReport,
    facts: CompletionFacts,
    claims: Seq<ArtifactClaim>,
    told: bool,
) -> bool {
    exists|flushed: CoordinatorServiceModel| #[trigger]
        completion_flushed(
            before,
            flushed,
            key,
            report,
            facts,
            claims,
            Ok::<(), CoordinatorServiceError>(()),
        ) && after == after_completion(flushed, key, report.node@, report.task@, told)
}

/// How the end of a task is told of.
pub open spec fn completion_told(
    key: ProcessText,
    report: TaskCompletionReport,
    facts: CompletionFacts,
    out: FinalLogStreamAcceptance,
    err: FinalLogStreamAcceptance,
    attempt: Option<TaskAttempt>,
    ended: Option<TaskAttempt>,
    told: TaskCompletionEventModel,
) -> bool {
    exists|event: TaskCompletionEventModel| #[trigger]
        is_completion_event(event, key, report, facts, out, err) && attempt_finished(
            attempt,
            ended,
            event,
            told,
        )
}

/// What comes of the end of a task that is taken in.
pub open spec fn task_completed(
    before: CoordinatorServiceModel,
    after: CoordinatorServiceModel,
    key: ProcessText,
    report: TaskCompletionReport,
    facts: CompletionFacts,
    claims: Seq<ArtifactClaim>,
    out: (Seq<(Seq<char>, bool)>, LogStreamState, FinalLogStreamAcceptance),
    err: (Seq<(Seq<char>, bool)>, LogStreamState, FinalLogStreamAcceptance),
    attempt: Option<TaskAttempt>,
    ended: Option<TaskAttempt>,
    completion: TaskCompletion,
) -> bool {
    &&& completion_left(before, after, key, report, facts, claims, !completion.awaiting_operator)
    &&& completion_told(key, report, facts, out.2, err.2, attempt, ended, completion.event@)
    &&& views(completion.stdout_lines@) == out.0
    &&& views(completion.stderr_lines@) == err.0
    &&& completion.awaiting_operator == awaits_operator(attempt, report.terminal_state)
    &&& completion.drop_checkpoint == facts.process_was_aborted
    &&& is_completion_notice(before, key, completion)
}

impl CoordinatorService {
    fn check_completion(
        &self,
        tenant: &TenantId,
        project: &ProjectId,
        process: &ProcessId,
        report: &TaskCompletionReport,
        facts: &CompletionFacts,
    ) -> (r: Result<TaskDefinitionId, CoordinatorServiceError>)
        ensures
            ({
                let key = (tenant@, project@, process@);
                match r {
                    Err(error) => {
                        &&& !completion_taken(self@, key, *report, *facts)
                        &&& completion_refused(self@, key, *report, *facts, error)
                    },
                    Ok(definition) => {
                        &&& completion_taken(self@, key, *report, *facts)
                        &&& definition@ == facts.assigned->Some_0.1@
                    },
                }
            }),
    {
        match check_tails(report.logs.stdout_tail.as_str(), report.logs.stderr_tail.as_str()) {
            Ok(_) => {},
            Err(error) => {
                return Err(error);
            },
        }
        if report.artifact_path.is_some() {
            match &facts.path_checked {
                Ok(_) => {},
                Err(text) => {
                    return Err(CoordinatorServiceError::InvalidArtifactPath(text.clone()));
                },
            }
        }
        if facts.origin == TaskCompletionOrigin::SignedNode {
            match self.authorize_node_for_process_or_termination(
                &report.node,
                tenant,
                project,
                process,
                facts.stopping,
            ) {
                Ok(_) => {},
                Err(error) => {
                    return Err(error);
                },
            }
        }
        match &facts.assigned {
            None => Err(
                unauthorized(
                    "signed node task completion does not name a coordinator-issued task instance",
                ),
            ),
            Some(assigned) => {
                if assigned.0 != report.node {
                    return Err(
                        unauthorized(
                            "signed node task completion came from a node other than the assigned node",
                        ),
                    );
                }
                Ok(assigned.1.clone())
            },
        }
    }

    fn flush_completion(
        &mut self,
        tenant: &TenantId,
        project: &ProjectId,
        process: &ProcessId,
        report: &TaskCompletionReport,
        facts: &CompletionFacts,
        claims: &Vec<ArtifactClaim>,
    ) -> (r: Result<(), CoordinatorServiceError>)
        ensures
            completion_flushed(
                old(self)@,
                final(self)@,
                (tenant@, project@, process@),
                *report,
                *facts,
                claims@,
                r,
            ),
            well_formed(old(self)@.artifacts) ==> well_formed(final(self)@.artifacts),
    {
        let ghost before = self@;
        let ghost key = (tenant@, project@, process@);
        match (&report.artifact_path, &report.artifact_digest) {
            (Some(path), Some(digest)) => {
                let checked: Result<(), String> = match &facts.name_checked {
                    Ok(unit) => Ok(*unit),
                    Err(reason) => Err(reason.clone()),
                };
                assert(checked == facts.name_checked);
                let id: ArtifactId = match artifact_id_from_path(path.as_str(), checked) {
                    Ok(id) => id,
                    Err(error) => {
                        return Err(CoordinatorServiceError::InvalidArtifactPath(error.message()));
                    },
                };
                let size: u64 = match report.artifact_size_bytes {
                    Some(size) => size,
                    None => report.logs.stdout_bytes,
                };
                let flush: ArtifactFlush = ArtifactFlush {
                    id,
                    tenant: tenant.clone(),
                    project: project.clone(),
                    process: process.clone(),
                    producer_task: report.task.clone(),
                    retaining_node: report.node.clone(),
                    digest: digest.clone(),
                    size,
                };
                let ghost given = flush;
                assert(is_completion_flush(given, key, *report));
                let r: Result<(), CoordinatorServiceError> = self.flush_artifact_metadata(
                    flush,
                    claims,
                    facts.now,
                );
                assert(artifact_flushed(before, self@, given, claims@, facts.now, r));
                r
            },
            _ => Ok(()),
        }
    }

    /// Takes in the end of a task: what its streams held, the artifact that it left, its attempt, and
    /// the main that waits for it.
    pub fn handle_task_completed(
        &mut self,
        tenant: &TenantId,
        project: &ProjectId,
        process: &ProcessId,
        report: &TaskCompletionReport,
        facts: &CompletionFacts,
        claims: &Vec<ArtifactClaim>,
        stdout: &mut LogStreamState,
        stderr: &mut LogStreamState,
        attempt: &mut Option<TaskAttempt>,
    ) -> (r: Result<TaskCompletion, CoordinatorServiceError>)
        ensures
            ({
                let key = (tenant@, project@, process@);
                let logs = report.logs;
                let out = stream_finished(
                    *old(stdout),
                    logs.stdout_bytes,
                    logs.stdout_tail@,
                    logs.stdout_truncated,
                    facts.stdout_granted,
                );
                let err = stream_finished(
                    *old(stderr),
                    logs.stderr_bytes,
                    logs.stderr_tail@,
                    logs.stderr_truncated,
                    facts.stderr_granted,
                );
                match r {
                    Err(error) => if !completion_taken(old(self)@, key, *report, *facts) {
                        &&& completion_refused(old(self)@, key, *report, *facts, error)
                        &&& final(self)@ == old(self)@
                        &&& *final(stdout) == *old(stdout) && *final(stderr) == *old(stderr)
                        &&& *final(attempt) == *old(attempt)
                    } else {
                        &&& completion_flushed(
                            old(self)@,
                            final(self)@,
                            key,
                            *report,
                            *facts,
                            claims@,
                            Err::<(), CoordinatorServiceError>(error),
                        )
                        &&& *final(stdout) == out.1 && *final(stderr) == err.1
                        &&& *final(attempt) == *old(attempt)
                    },
                    Ok(completion) => {
                        &&& completion_taken(old(self)@, key, *report, *facts)
                        &&& task_completed(
                            old(self)@,
                            final(self)@,
                            key,
                            *report,
                            *facts,
                            claims@,
                            out,
                            err,
                            *old(attempt),
                            *final(attempt),
                            completion,
                        )
                        &&& *final(stdout) == cleared_stream() && *final(stderr) == cleared_stream()
                    },
                }
            }),
            well_formed(old(self)@.artifacts) ==> well_formed(final(self)@.artifacts),
    {
        let ghost before = self@;
        let ghost key = (tenant@, project@, process@);
        let ghost attempt_before = *attempt;
        let definition: TaskDefinitionId = match self.check_completion(
            tenant,
            project,
            process,
            report,
            facts,
        ) {
            Ok(definition) => definition,
            Err(error) => {
                return Err(error);
            },
        };
        let logs: &TaskLogReport = &report.logs;
        let (stdout_lines, out): (Vec<LogLine>, FinalLogStreamAcceptance) =
            stdout.accept_final_log_stream(
            logs.stdout_bytes,
            logs.stdout_tail.as_str(),
            logs.stdout_truncated,
            facts.stdout_granted,
        );
        let (stderr_lines, err): (Vec<LogLine>, FinalLogStreamAcceptance) =
            stderr.accept_final_log_stream(
            logs.stderr_bytes,
            logs.stderr_tail.as_str(),
            logs.stderr_truncated,
            facts.stderr_granted,
        );
        let mut event: TaskCompletionEvent = TaskCompletionEvent {
            tenant: tenant.clone(),
            project: project.clone(),
            process: process.clone(),
            node: report.node.clone(),
            executor: TaskExecutor::Node,
            task_definition: definition,
            task: report.task.clone(),
            attempt_id: None,
            placement: copy_text(&facts.placement),
            terminal_state: report.terminal_state,
            status_code: report.status_code,
            stdout_bytes: out.total_source_bytes,
            stderr_bytes: err.total_source_bytes,
            stdout_tail: if out.retained {
                logs.stdout_tail.clone()
            } else {
                "[log output truncated at project log quota]".to_owned()
            },
            stderr_tail: if err.retained {
                logs.stderr_tail.clone()
            } else {
                "[log output truncated at project log quota]".to_owned()
            },
            stdout_truncated: logs.stdout_truncated || out.source_truncated || !out.retained,
            stderr_truncated: logs.stderr_truncated || err.source_truncated || !err.retained,
            artifact_path: copy_text(&report.artifact_path),
            artifact_digest: copy_text(&report.artifact_digest),
            artifact_size_bytes: report.artifact_size_bytes,
            result: copy_option(&report.result),
        };
        let ghost first = event@;
        assert(is_completion_event(first, key, *report, *facts, out, err));
        match self.flush_completion(tenant, project, process, report, facts, claims) {
            Ok(_) => {},
            Err(error) => {
                return Err(error);
            },
        }
        let ghost flushed = self@;
        assert(completion_flushed(
            before,
            flushed,
            key,
            *report,
            *facts,
            claims@,
            Ok::<(), CoordinatorServiceError>(()),
        ));
        assert(flushed.mains == before.mains);
        let command_key: TaskControlKey = task_control_key(
            tenant,
            project,
            process,
            &report.node,
            &report.task,
        );
        self.debug_registry.clear_task_command(&command_key);
        let _released: usize = self.artifact_registry.release_task_holds(
            tenant,
            project,
            process,
            &report.task,
        );
        *stdout = LogStreamState::new();
        *stderr = LogStreamState::new();
        let awaiting_operator: bool = finish_task_attempt(&mut event, attempt);
        assert(attempt_finished(attempt_before, *attempt, first, event@));
        let notice: Option<Result<TaskBoundaryValue, String>> = if awaiting_operator {
            None
        } else {
            self.main_runtime.notify_waiters(&event)
        };
        assert(self@ =~= after_completion(
            flushed,
            key,
            report.node@,
            report.task@,
            !awaiting_operator,
        ));
        assert(completion_left(
            before,
            self@,
            key,
            *report,
            *facts,
            claims@,
            !awaiting_operator,
        ));
        assert(completion_told(
            key,
            *report,
            *facts,
            out,
            err,
            attempt_before,
            *attempt,
            event@,
        ));
        Ok(
            TaskCompletion {
                event,
                stdout_lines,
                stderr_lines,
                awaiting_operator,
                drop_checkpoint: facts.process_was_aborted,
                notice,
            },
        )
    }
}

/// A stream of which nothing is known.
pub open spec fn cleared_stream() -> LogStreamState {
    LogStreamState { accounted: 0, quota_truncated: false, source_truncated: false }
}

/// An end of a task that a list is to show: one of the project, and of the process where one is named.
pub open spec fn event_listed(tenant: Seq<char>, project: Seq<char>, process: Option<Seq<char>>) -> spec_fn(
    TaskCompletionEventModel,
) -> bool {
    |event: TaskCompletionEventModel|
        event.tenant@ == tenant && event.project@ == project && (process matches Some(process)
            ==> event.process@ == process)
}

/// The attempts of a task, the oldest first.
pub struct TaskAttempts {
    pub tenant: TenantId,
    pub project: ProjectId,
    pub process: ProcessId,
    pub attempts: Vec<TaskAttempt>,
}

/// The attempts of the tasks of a process, by task, the newest of each first.
pub open spec fn snapshots_in(all: Seq<TaskAttempts>, key: ProcessText) -> Seq<TaskAttempt>
    decreases all.len(),
{
    if all.len() == 0 {
        Seq::empty()
    } else {
        let task = all.last();
        let before = snapshots_in(all.drop_last(), key);
        if task.tenant@ == key.0 && task.project@ == key.1 && task.process@ == key.2 {
            before + task.attempts@.reverse()
        } else {
            before
        }
    }
}

/// What is known of where a process was seen: in its scope, or in another one.
pub struct ProcessSightings {
    pub seen_in_scope: bool,
    pub seen_outside_scope: bool,
}

/// What happened in a process may be shown in a scope: it is active or was seen there, or it was seen
/// nowhere else.
pub open spec fn events_open(s: CoordinatorServiceModel, key: ProcessText, sightings: ProcessSightings) -> bool {
    ||| lookup(s.coordinator.active_processes, key) is Some
    ||| sightings.seen_in_scope
    ||| !(sightings.seen_outside_scope || active_elsewhere(s.coordinator, key))
}

/// A process is active in another scope.
pub open spec fn active_elsewhere(s: CoordinatorModel, key: ProcessText) -> bool {
    exists|i: int|
        0 <= i < s.active_processes.len() && outside_scope(
            #[trigger] s.active_processes[i].1,
            key.0,
            key.1,
            key.2,
        )
}

/// Why what happened in a process may not be shown.
pub open spec fn events_closed(error: CoordinatorServiceError) -> bool {
    error.denies("task event access is outside the virtual process tenant/project scope"@)
}

fn append_reversed(out: &mut Vec<TaskAttempt>, attempts: &Vec<TaskAttempt>)
    ensures
        final(out)@ == old(out)@ + attempts@.reverse(),
{
    let ghost start = out@;
    let ghost all = attempts@.reverse();
    let n: usize = attempts.len();
    let mut i: usize = 0;
    assert(start + all.take(0) =~= start);
    while i < n
        invariant
            0 <= i <= n,
            n == attempts@.len(),
            all == attempts@.reverse(),
            out@ == start + all.take(i as int),
        decreases n - i,
    {
        assert(all[i as int] == attempts@[n - 1 - i]);
        let attempt: TaskAttempt = attempts[n - 1 - i].duplicate();
        out.push(attempt);
        assert(start + all.take(i + 1) =~= (start + all.take(i as int)).push(all[i as int]));
        i = i + 1;
    }
    assert(all.take(n as int) =~= all);
}

/// What a task that joins another comes to.
pub open spec fn child_joined(
    s: CoordinatorServiceModel,
    tenant: TenantId,
    project: ProjectId,
    process: ProcessId,
    node: NodeId,
    stopping: bool,
    parent_active: bool,
    task: TaskInstanceId,
    attempt: Option<TaskAttemptState>,
    event: Option<&TaskCompletionEvent>,
    known: bool,
    r: Result<TaskJoinResult, CoordinatorServiceError>,
) -> bool {
    let key = (tenant@, project@, process@);
    if !node_may(s, key, node@, stopping) {
        r matches Err(error) && node_turned_away(s, key, node@, error)
    } else if !parent_active {
        r matches Err(error) && error.denies(
            "child task join requires a currently active parent task on the signed node"@,
        )
    } else {
        r matches Ok(join) && is_join(
            join,
            process@,
            task@,
            attempt,
            match event {
                Some(event) => Some(event@),
                None => None,
            },
            known,
        )
    }
}

/// What the report of a file that became an artifact comes to.
pub open spec fn vfs_answered(
    before: CoordinatorServiceModel,
    after: CoordinatorServiceModel,
    tenant: TenantId,
    project: ProjectId,
    process: ProcessId,
    report: VfsReport,
    stopping: bool,
    path_checked: Result<(), String>,
    name_checked: Result<(), String>,
    claims: Vec<ArtifactClaim>,
    now: u64,
    r: Result<(), CoordinatorServiceError>,
) -> bool {
    let key = (tenant@, project@, process@);
    if report.artifact_path is Some && path_checked is Err {
        &&& r matches Err(CoordinatorServiceError::InvalidArtifactPath(text))
        &&& text@ == path_checked->Err_0@
        &&& after == before
    } else if !node_may(before, key, report.node@, stopping) {
        &&& r matches Err(error)
        &&& node_turned_away(before, key, report.node@, error)
        &&& after == before
    } else {
        vfs_reported(
            before,
            after,
            key,
            report,
            name_checked,
            claims@,
            now,
            r,
        )
    }
}

impl CoordinatorService {
    /// Lets what happened in a process be shown in a scope.
    pub fn authorize_task_event_process_scope(
        &self,
        tenant: &TenantId,
        project: &ProjectId,
        process: &ProcessId,
        sightings: &ProcessSightings,
    ) -> (r: Result<(), CoordinatorServiceError>)
        ensures
            r is Ok <==> events_open(self@, (tenant@, project@, process@), *sightings),
            r matches Err(error) ==> events_closed(error),
    {
        let active: bool = self.coordinator.active_process(tenant, project, process).is_some();
        let elsewhere: bool = self.coordinator.active_process_exists_outside_scope(
            tenant,
            project,
            process,
        ) || sightings.seen_outside_scope;
        if !active && !sightings.seen_in_scope && elsewhere {
            return Err(
                unauthorized(
                    "task event access is outside the virtual process tenant/project scope",
                ),
            );
        }
        Ok(())
    }

    /// The ends of the tasks of a project, or of one process of it.
    pub fn handle_list_task_events(
        &self,
        tenant: &TenantId,
        project: &ProjectId,
        process: &Option<ProcessId>,
        events: &Vec<TaskCompletionEvent>,
        sightings: &ProcessSightings,
    ) -> (r: Result<Vec<TaskCompletionEvent>, CoordinatorServiceError>)
        ensures
            r is Ok <==> (process matches Some(process) ==> events_open(
                self@,
                (tenant@, project@, process@),
                *sightings,
            )),
            r matches Err(error) ==> events_closed(error),
            r matches Ok(found) ==> views(found@) == views(events@).filter(
                event_listed(tenant@, project@, option_view(*process)),
            ),
    {
        match process {
            Some(process) => {
                match self.authorize_task_event_process_scope(tenant, project, process, sightings) {
                    Ok(_) => {},
                    Err(error) => {
                        return Err(error);
                    },
                }
            },
            None => {},
        }
        let ghost p = event_listed(tenant@, project@, option_view(*process));
        let test = |event: &TaskCompletionEvent| -> (b: bool)
            ensures
                b == p(event@),
            {
                event.tenant == *tenant && event.project == *project && match process {
                    Some(process) => event.process == *process,
                    None => true,
                }
            };
        Ok(copy_items(events, test, Ghost(p)))
    }

    /// The attempts of the tasks of a process.
    pub fn handle_list_task_snapshots(
        &self,
        tenant: &TenantId,
        project: &ProjectId,
        process: &ProcessId,
        attempts: &Vec<TaskAttempts>,
        sightings: &ProcessSightings,
    ) -> (r: Result<Vec<TaskAttempt>, CoordinatorServiceError>)
        ensures
            r is Ok <==> events_open(self@, (tenant@, project@, process@), *sightings),
            r matches Err(error) ==> events_closed(error),
            r matches Ok(found) ==> found@ == snapshots_in(
                attempts@,
                (tenant@, project@, process@),
            ),
    {
        match self.authorize_task_event_process_scope(tenant, project, process, sightings) {
            Ok(_) => {},
            Err(error) => {
                return Err(error);
            },
        }
        let ghost key = (tenant@, project@, process@);
        let mut out: Vec<TaskAttempt> = Vec::new();
        let mut i: usize = 0;
        while i < attempts.len()
            invariant
                0 <= i <= attempts@.len(),
                key == (tenant@, project@, process@),
                out@ == snapshots_in(attempts@.take(i as int), key),
            decreases attempts@.len() - i,
        {
            let task: &TaskAttempts = &attempts[i];
            assert(attempts@.take(i + 1).drop_last() =~= attempts@.take(i as int));
            if task.tenant == *tenant && task.project == *project && task.process == *process {
                append_reversed(&mut out, &task.attempts);
            }
            i = i + 1;
        }
        assert(attempts@.take(attempts@.len() as int) =~= attempts@);
        Ok(out)
    }

    /// Joins a task for a task that runs on a node. `parent_active` is whether the joining task runs
    /// there.
    pub fn handle_join_child_task(
        &self,
        tenant: &TenantId,
        project: &ProjectId,
        process: &ProcessId,
        node: &NodeId,
        stopping: bool,
        parent_active: bool,
        task: &TaskInstanceId,
        attempt: Option<TaskAttemptState>,
        event: Option<&TaskCompletionEvent>,
        known: bool,
    ) -> (r: Result<TaskJoinResult, CoordinatorServiceError>)
        ensures
            child_joined(
                self@,
                *tenant,
                *project,
                *process,
                *node,
                stopping,
                parent_active,
                *task,
                attempt,
                event,
                known,
                r,
            ),
    {
        match self.authorize_node_for_process_or_termination(
            node,
            tenant,
            project,
            process,
            stopping,
        ) {
            Ok(_) => {},
            Err(error) => {
                return Err(error);
            },
        }
        if !parent_active {
            return Err(
                unauthorized(
                    "child task join requires a currently active parent task on the signed node",
                ),
            );
        }
        Ok(task_join_result(process, task, attempt, event, known))
    }

    /// Takes in what a node says of a file that a task left.
    pub fn handle_report_vfs_metadata(
        &mut self,
        tenant: &TenantId,
        project: &ProjectId,
        process: &ProcessId,
        report: &VfsReport,
        stopping: bool,
        path_checked: Result<(), String>,
        name_checked: Result<(), String>,
        claims: &Vec<ArtifactClaim>,
        now: u64,
    ) -> (r: Result<(), CoordinatorServiceError>)
        ensures
            vfs_answered(
                old(self)@,
                final(self)@,
                *tenant,
                *project,
                *process,
                *report,
                stopping,
                path_checked,
                name_checked,
                *claims,
                now,
                r,
            ),
            well_formed(old(self)@.artifacts) ==> well_formed(final(self)@.artifacts),
    {
        let ghost before = self@;
        let ghost key = (tenant@, project@, process@);
        if report.artifact_path.is_some() {
            match path_checked {
                Ok(_) => {},
                Err(text) => {
                    return Err(CoordinatorServiceError::InvalidArtifactPath(text));
                },
            }
        }
        match self.authorize_node_for_process_or_termination(
            &report.node,
            tenant,
            project,
            process,
            stopping,
        ) {
            Ok(_) => {},
            Err(error) => {
                return Err(error);
            },
        }
        match (&report.artifact_path, &report.artifact_digest) {
            (Some(path), Some(digest)) => {
                let id: ArtifactId = match artifact_id_from_path(path.as_str(), name_checked) {
                    Ok(id) => id,
                    Err(error) => {
                        return Err(CoordinatorServiceError::InvalidArtifactPath(error.message()));
                    },
                };
                let size: u64 = match report.artifact_size_bytes {
                    Some(size) => size,
                    None => 0,
                };
                let flush: ArtifactFlush = ArtifactFlush {
                    id,
                    tenant: tenant.clone(),
                    project: project.clone(),
                    process: process.clone(),
                    producer_task: report.task.clone(),
                    retaining_node: report.node.clone(),
                    digest: digest.clone(),
                    size,
                };
                let ghost given = flush;
                assert(is_vfs_flush(given, key, *report));
                let r: Result<(), CoordinatorServiceError> = self.flush_artifact_metadata(
                    flush,
                    claims,
                    now,
                );
                assert(artifact_flushed(before, self@, given, claims@, now, r));
                assert(vfs_reported(before, self@, key, *report, name_checked, claims@, now, r));
                r
            },
            _ => Ok(()),
        }
    }
}

/// What a node says of a file that a task left.
pub struct VfsReport {
    pub node: NodeId,
    pub task: TaskInstanceId,
    pub artifact_path: Option<String>,
    pub artifact_digest: Option<Digest>,
    pub artifact_size_bytes: Option<u64>,
}

/// The artifact that a node says a task left.
pub open spec fn is_vfs_flush(flush: ArtifactFlush, key: ProcessText, report: VfsReport) -> bool {
    &&& report.artifact_path matches Some(path)
    &&& report.artifact_digest matches Some(digest)
    &&& flush.id@ == mapped_name(path@)
    &&& flush.tenant@ == key.0
    &&& flush.project@ == key.1
    &&& flush.process@ == key.2
    &&& flush.producer_task@ == report.task@
    &&& flush.retaining_node@ == report.node@
    &&& flush.digest@ == digest@
    &&& flush.size == (match report.artifact_size_bytes {
        Some(size) => size,
        None => 0,
    })
}

/// What comes of what a node says of a file, where the node may say so.
pub open spec fn vfs_reported(
    before: CoordinatorServiceModel,
    after: CoordinatorServiceModel,
    key: ProcessText,
    report: VfsReport,
    name_checked: Result<(), String>,
    claims: Seq<ArtifactClaim>,
    now: u64,
    r: Result<(), CoordinatorServiceError>,
) -> bool {
    if report.artifact_path is None || report.artifact_digest is None {
        r is Ok && after == before
    } else {
        match path_fault(report.artifact_path->Some_0@, name_checked) {
            Some(fault) => {
                &&& r matches Err(CoordinatorServiceError::InvalidArtifactPath(text))
                &&& text@ == fault
                &&& after == before
            },
            None => exists|flush: ArtifactFlush| #[trigger]
                is_vfs_flush(flush, key, report) && artifact_flushed(
                    before,
                    after,
                    flush,
                    claims,
                    now,
                    r,
                ),
        }
    }
}

/// What is known of the tasks of a process: whether some node may still have to run one, whether its
/// main completed, whether it was cancelled, and how its tasks ended.
pub struct ProcessFacts {
    pub runnable_remote_work: bool,
    pub main_completed: bool,
    pub cancelled: bool,
    pub any_task_failed: bool,
    pub any_task_cancelled: bool,
}

/// What becomes of a process whose tasks ended: it goes on, its control is cleared, or it ends.
#[derive(Clone, Copy, Debug, PartialEq, Eq, Structural)]
pub enum ProcessRetirement {
    GoesOn,
    ControlCleared,
    Ended(ProcessFinalResult),
}

/// How a process ends.
pub open spec fn final_result(facts: ProcessFacts) -> ProcessFinalResult {
    if facts.cancelled {
        ProcessFinalResult::Cancelled
    } else if facts.any_task_failed {
        ProcessFinalResult::Failed
    } else if facts.any_task_cancelled {
        ProcessFinalResult::Cancelled
    } else {
        ProcessFinalResult::Completed
    }
}

/// What is to become of a process.
pub open spec fn retirement(s: CoordinatorServiceModel, key: ProcessText, facts: ProcessFacts) -> ProcessRetirement {
    if lookup(s.mains.controls, key) is Some || facts.runnable_remote_work || !(facts.main_completed
        || facts.cancelled) {
        ProcessRetirement::GoesOn
    } else if lookup(s.coordinator.active_processes, key) is None {
        ProcessRetirement::ControlCleared
    } else {
        ProcessRetirement::Ended(final_result(facts))
    }
}

/// What the end of a process leaves of the service: the process is no longer active, its debug state
/// is gone, and artifacts that nothing keeps any longer make room.
pub open spec fn process_retired(
    before: CoordinatorServiceModel,
    after: CoordinatorServiceModel,
    key: ProcessText,
    claims: Seq<ArtifactClaim>,
) -> bool {
    let coordinator = CoordinatorModel {
        active_processes: delete(before.coordinator.active_processes, key),
        ..before.coordinator
    };
    let pinned = pinned_by(claims, key.0, key.1);
    let protected = protected_in(coordinator, key.0, key.1);
    &&& after == (CoordinatorServiceModel {
        coordinator,
        debug: process_cleared(before.debug, key),
        artifacts: after.artifacts,
        ..before
    })
    &&& evicted_down(before.artifacts, after.artifacts, key.0, key.1, pinned, protected)
}

/// Artifacts went one by one, for as long as there were too many.
pub open spec fn evicted_down(
    before: ArtifactRegistryModel,
    after: ArtifactRegistryModel,
    tenant: Seq<char>,
    project: Seq<char>,
    pinned: Set<(Seq<char>, Seq<char>, Seq<char>)>,
    protected: Set<Seq<char>>,
) -> bool {
    exists|n: int|
        0 <= n && after == #[trigger] after_evictions(before, tenant, project, pinned, protected, n)
            && !evicts(after, tenant, project, pinned, protected) && forall|i: int|
            0 <= i < n ==> evicts(
                #[trigger] after_evictions(before, tenant, project, pinned, protected, i),
                tenant,
                project,
                pinned,
                protected,
            )
}

impl CoordinatorService {
    /// Ends a process once none of its tasks has to run any more.
    pub fn maybe_retire_terminal_process(
        &mut self,
        tenant: &TenantId,
        project: &ProjectId,
        process: &ProcessId,
        facts: &ProcessFacts,
        claims: &Vec<ArtifactClaim>,
    ) -> (r: ProcessRetirement)
        requires
            well_formed(old(self)@.artifacts),
        ensures
            r == retirement(old(self)@, (tenant@, project@, process@), *facts),
            r is Ended ==> process_retired(
                old(self)@,
                final(self)@,
                (tenant@, project@, process@),
                claims@,
            ),
            !(r is Ended) ==> final(self)@ == old(self)@,
            well_formed(final(self)@.artifacts),
    {
        let ghost before = self@;
        let ghost scope = (tenant@, project@, process@);
        let key: ProcessControlKey = process_control_key(tenant, project, process);
        assert(key.key() == scope);
        if self.main_runtime.controls.contains_key(&key) || facts.runnable_remote_work || !(
        facts.main_completed || facts.cancelled) {
            return ProcessRetirement::GoesOn;
        }
        match self.coordinator.abort_process(tenant, project, process) {
            Ok(_) => {},
            Err(_) => {
                return ProcessRetirement::ControlCleared;
            },
        }
        let result: ProcessFinalResult = if facts.cancelled {
            ProcessFinalResult::Cancelled
        } else if facts.any_task_failed {
            ProcessFinalResult::Failed
        } else if facts.any_task_cancelled {
            ProcessFinalResult::Cancelled
        } else {
            ProcessFinalResult::Completed
        };
        self.debug_registry.clear_process(tenant, project, process);
        let (pinned, protected) = self.artifact_retention_guards_for_project(
            tenant,
            project,
            claims,
        );
        let ghost artifacts = self@.artifacts;
        let _evicted: usize = self.artifact_registry.enforce_project_metadata_limit(
            tenant,
            project,
            &pinned,
            &protected,
        );
        assert(self@.artifacts == after_evictions(
            artifacts,
            tenant@,
            project@,
            pinned@,
            protected@,
            _evicted as int,
        ));
        assert(evicted_down(
            artifacts,
            self@.artifacts,
            tenant@,
            project@,
            pinned@,
            protected@,
        ));
        assert(process_retired(before, self@, scope, claims@));
        ProcessRetirement::Ended(result)
    }
}

/// A process that ended is no longer active, and every other process stays as it was.
pub proof fn a_retired_process_is_gone(
    before: CoordinatorServiceModel,
    after: CoordinatorServiceModel,
    key: ProcessText,
    other: ProcessText,
    claims: Seq<ArtifactClaim>,
)
    requires
        ascending(before.coordinator.active_processes),
        process_retired(before, after, key, claims),
    ensures
        lookup(after.coordinator.active_processes, key) is None,
        other != key ==> lookup(after.coordinator.active_processes, other) == lookup(
            before.coordinator.active_processes,
            other,
        ),
        after.coordinator.durable == before.coordinator.durable,
{
    broadcast use lemma_lookup_delete;

}

/// A line of the recent logs, with its place.
pub struct RecentLogEntry {
    pub sequence: u64,
    pub stream: TaskLogStream,
    pub line: LogLine,
}

/// A page of the recent logs: its lines, the place of the last one, and whether older ones are gone.
pub struct RecentLogs {
    pub entries: Vec<RecentLogEntry>,
    pub next_sequence: Option<u64>,
    pub history_truncated: bool,
}

impl CoordinatorService {
    /// Shows a page of the recent logs of a process.
    pub fn handle_list_recent_logs(
        &self,
        tenant: &TenantId,
        project: &ProjectId,
        process: &ProcessId,
        sightings: &ProcessSightings,
        entries: Vec<RecentLogEntry>,
        history_truncated: bool,
    ) -> (r: Result<RecentLogs, CoordinatorServiceError>)
        ensures
            r is Ok <==> events_open(self@, (tenant@, project@, process@), *sightings),
            r matches Err(error) ==> events_closed(error),
            r matches Ok(page) ==> {
                &&& page.entries == entries
                &&& page.next_sequence == (if entries@.len() == 0 {
                    None
                } else {
                    Some(entries@.last().sequence)
                })
                &&& page.history_truncated == history_truncated
            },
    {
        match self.authorize_task_event_process_scope(tenant, project, process, sightings) {
            Ok(_) => {},
            Err(error) => {
                return Err(error);
            },
        }
        let n: usize = entries.len();
        let next_sequence: Option<u64> = if n == 0 {
            None
        } else {
            Some(entries[n - 1].sequence)
        };
        Ok(RecentLogs { entries, next_sequence, history_truncated })
    }
}

} // verus!
