use clusterflux_coordinator::logs::{
    bounded_log_tail, join_state_for_terminal, task_join_result, validate_task_log_tail, LogChunk,
    LogStreamState,
};
use clusterflux_coordinator::service_error::CoordinatorServiceError;
use clusterflux_coordinator::tasks::{TaskJoinState, TaskTerminalState};

fn text(value: &str) -> String {
    value.to_owned()
}

fn chunk(offset: u64, content: &str) -> LogChunk {
    LogChunk {
        offset,
        source_bytes: content.len() as u64,
        text: text(content),
        truncated: false,
    }
}

#[test]
fn parts_are_counted_once() {
    let mut stream = LogStreamState::new();
    assert_eq!(stream.chunk_charge(&chunk(0, "hello")), Some(5));
    let first = stream.record_chunk(&chunk(0, "hello"), true);
    assert_eq!(first.next_offset, 5);
    assert_eq!(first.lines.len(), 1);
    assert_eq!(first.lines[0].text, "hello");
    let again = stream.record_chunk(&chunk(0, "hello"), true);
    assert_eq!(again.next_offset, 5);
    assert!(again.lines.is_empty());
    assert_eq!(stream.accounted, 5);
}

#[test]
fn a_stream_over_the_quota_says_so_once() {
    let mut stream = LogStreamState::new();
    let cut = stream.record_chunk(&chunk(0, "hello"), false);
    assert_eq!(cut.lines.len(), 1);
    assert_eq!(cut.lines[0].text, "[log output truncated at project log quota]");
    assert!(cut.lines[0].truncated);
    assert!(stream.quota_truncated);
    let silent = stream.record_chunk(&chunk(5, "more"), false);
    assert!(silent.lines.is_empty());
}

#[test]
fn the_end_of_a_stream_adds_what_is_new() {
    let mut stream = LogStreamState::new();
    stream.record_chunk(&chunk(0, "hello"), true);
    assert_eq!(stream.final_charge(5), Some(0));
    assert_eq!(stream.final_charge(11), Some(6));
    let (lines, end) = stream.accept_final_log_stream(11, "hello world", false, true);
    assert_eq!(end.total_source_bytes, 11);
    assert!(end.retained);
    assert_eq!(lines.iter().map(|line| line.text.as_str()).collect::<String>(), " world");
    let (lines, end) = stream.accept_final_log_stream(11, "hello world", false, true);
    assert!(lines.is_empty());
    assert_eq!(end.total_source_bytes, 11);
}

#[test]
fn tails_are_bounded() {
    assert!(validate_task_log_tail("stdout", "fine").is_ok());
    let long = "x".repeat(262_145);
    assert!(matches!(
        validate_task_log_tail("stdout", &long),
        Err(CoordinatorServiceError::InvalidTaskLogTail(reason))
            if reason == "stdout is 262145 bytes; max is 262144"
    ));
    let mut truncated = false;
    assert_eq!(bounded_log_tail(text("fine"), &mut truncated), "fine");
    assert!(!truncated);
    let kept = bounded_log_tail(long.clone(), &mut truncated);
    assert!(truncated);
    assert_eq!(kept.len(), 262_144);
}

#[test]
fn a_task_that_nothing_is_known_of_is_pending_or_unknown() {
    assert_eq!(join_state_for_terminal(TaskTerminalState::Completed), TaskJoinState::Completed);
    assert_eq!(join_state_for_terminal(TaskTerminalState::Failed), TaskJoinState::Failed);
    assert_eq!(join_state_for_terminal(TaskTerminalState::Cancelled), TaskJoinState::Cancelled);
    let known = task_join_result(&text("vp"), &text("task"), None, None, true);
    assert_eq!(known.state, TaskJoinState::Pending);
    assert_eq!(known.task, "task");
    assert!(known.result.is_none());
}
