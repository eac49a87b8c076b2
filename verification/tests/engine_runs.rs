//! A run's life: spawning, output aggregation, stopping, finishing.

use rustickers::config::{CommandContent, CommandError, CommandResult, ResultKind};
use rustickers::engine::{CmdEvent, CommandEngine, DrainInput, DrainStep, PollStatus};
use rustickers::engine::liveness_is_done;

fn engine_with_result(result: CommandResult) -> CommandEngine {
    let mut c = CommandContent::default();
    c.command = "echo hello".to_string();
    c.result = result;
    CommandEngine::new(c)
}

fn feed(eng: &mut CommandEngine, ev: CmdEvent) -> DrainStep {
    eng.drain_step(DrainInput::Event(ev))
}

#[test]
fn text_run_collects_echoed_line() {
    // command = "echo hello", format = Text, no schedule → after the run's
    // events fold in, the result is "hello\n".
    let mut eng = engine_with_result(CommandResult::Text(None));
    eng.on_spawned();
    assert!(eng.is_running());
    eng.begin_run();
    assert_eq!(feed(&mut eng, CmdEvent::Output("hello".to_string())), DrainStep::Continue);
    assert_eq!(feed(&mut eng, CmdEvent::Done), DrainStep::Finished);
    eng.finish_run();
    assert_eq!(eng.config.result, CommandResult::Text(Some("hello\n".to_string())));
    assert!(!eng.is_running());
    assert!(!eng.is_stopping());
}

#[test]
fn text_lines_interleave_in_arrival_order() {
    let mut eng = engine_with_result(CommandResult::Text(None));
    eng.on_spawned();
    eng.begin_run();
    feed(&mut eng, CmdEvent::Output("a".to_string()));
    feed(&mut eng, CmdEvent::Error("warn".to_string()));
    feed(&mut eng, CmdEvent::Output("b".to_string()));
    feed(&mut eng, CmdEvent::Done);
    eng.finish_run();
    assert_eq!(eng.config.result, CommandResult::Text(Some("a\nwarn\nb\n".to_string())));
}

#[test]
fn html_result_changes_only_at_done() {
    // For an atomic format the visible result never changes while output
    // arrives; the buffer is published exactly once, at Done.
    let mut eng = engine_with_result(CommandResult::Html(Some("old".to_string())));
    eng.on_spawned();
    eng.begin_run();
    feed(&mut eng, CmdEvent::Output("<p>".to_string()));
    assert_eq!(eng.config.result, CommandResult::Html(Some("old".to_string())));
    feed(&mut eng, CmdEvent::Error("oops".to_string()));
    assert_eq!(eng.config.result, CommandResult::Html(Some("old".to_string())));
    feed(&mut eng, CmdEvent::Done);
    assert_eq!(
        eng.config.result,
        CommandResult::Html(Some("<p>\noops\n".to_string()))
    );
}

#[test]
fn svg_result_is_published_whole_at_done() {
    let mut eng = engine_with_result(CommandResult::Svg(None));
    eng.on_spawned();
    eng.begin_run();
    feed(&mut eng, CmdEvent::Output("<svg>".to_string()));
    assert_eq!(eng.config.result, CommandResult::Svg(None));
    feed(&mut eng, CmdEvent::Done);
    assert_eq!(eng.config.result, CommandResult::Svg(Some("<svg>\n".to_string())));
}

#[test]
fn streaming_clears_the_previous_result_at_run_start() {
    // stream_result = true → the visible result is empty right after the
    // run begins, before any output has arrived.
    let mut eng = engine_with_result(CommandResult::Text(Some("before".to_string())));
    eng.config.stream_result = true;
    eng.on_spawned();
    eng.begin_run();
    assert_eq!(eng.config.result, CommandResult::Text(None));
}

#[test]
fn without_streaming_the_previous_result_stays_until_done() {
    let mut eng = engine_with_result(CommandResult::Html(Some("before".to_string())));
    eng.config.stream_result = false;
    eng.on_spawned();
    eng.begin_run();
    assert_eq!(eng.config.result, CommandResult::Html(Some("before".to_string())));
    feed(&mut eng, CmdEvent::Output("new".to_string()));
    assert_eq!(eng.config.result, CommandResult::Html(Some("before".to_string())));
    feed(&mut eng, CmdEvent::Done);
    assert_eq!(eng.config.result, CommandResult::Html(Some("new\n".to_string())));
}

#[test]
fn without_streaming_text_appends_to_the_previous_result() {
    let mut eng = engine_with_result(CommandResult::Text(Some("old\n".to_string())));
    eng.config.stream_result = false;
    eng.on_spawned();
    eng.begin_run();
    feed(&mut eng, CmdEvent::Output("new".to_string()));
    assert_eq!(eng.config.result, CommandResult::Text(Some("old\nnew\n".to_string())));
}

#[test]
fn empty_poll_waits_and_disconnect_finishes_without_publishing() {
    let mut eng = engine_with_result(CommandResult::Html(None));
    eng.on_spawned();
    eng.begin_run();
    assert_eq!(eng.drain_step(DrainInput::Empty), DrainStep::Wait);
    feed(&mut eng, CmdEvent::Output("buffered".to_string()));
    // A dead channel ends the drain without an atomic publish.
    assert_eq!(eng.drain_step(DrainInput::Disconnected), DrainStep::Finished);
    assert_eq!(eng.config.result, CommandResult::Html(None));
    eng.finish_run();
    assert!(!eng.is_running());
}

#[test]
fn atomic_done_with_no_output_publishes_an_empty_payload() {
    let mut eng = engine_with_result(CommandResult::Html(Some("old".to_string())));
    eng.on_spawned();
    eng.begin_run();
    feed(&mut eng, CmdEvent::Done);
    assert_eq!(eng.config.result, CommandResult::Html(Some("".to_string())));
}

#[test]
fn stop_marks_stopping_and_requests_a_kill() {
    // A long-running command stopped mid-execution: stopping turns true at
    // once, and turns false again when the watcher reports the exit and the
    // drain finishes.
    let mut eng = engine_with_result(CommandResult::Text(None));
    eng.on_spawned();
    eng.begin_run();
    let kill = eng.stop();
    assert!(kill);
    assert!(eng.is_stopping());
    assert!(eng.is_running());
    // The kill lands; the watcher sees the exit and the drain winds down.
    assert!(liveness_is_done(PollStatus::Exited));
    feed(&mut eng, CmdEvent::Done);
    eng.finish_run();
    assert!(!eng.is_stopping());
    assert!(!eng.is_running());
}

#[test]
fn stop_without_a_process_is_a_no_op() {
    let mut eng = engine_with_result(CommandResult::Text(None));
    let kill = eng.stop();
    assert!(!kill);
    assert!(!eng.is_stopping());
}

#[test]
fn spawn_failure_surfaces_as_the_note_error() {
    let mut eng = engine_with_result(CommandResult::Text(None));
    eng.on_spawn_failed("permission denied".to_string());
    assert_eq!(
        eng.last_error(),
        Some(&CommandError::SpawnFailed("permission denied".to_string()))
    );
    assert!(!eng.is_running());
}

#[test]
fn persist_failures_overwrite_the_error_and_success_clears_it() {
    let mut eng = engine_with_result(CommandResult::Text(None));
    eng.set_error(CommandError::SerializationFailed("bad json".to_string()));
    assert!(matches!(
        eng.last_error(),
        Some(CommandError::SerializationFailed(_))
    ));
    eng.set_error(CommandError::PersistFailed("io".to_string()));
    assert!(matches!(eng.last_error(), Some(CommandError::PersistFailed(_))));
    eng.clear_error();
    assert!(eng.last_error().is_none());
}

#[test]
fn liveness_watcher_stops_on_anything_but_still_running() {
    assert!(liveness_is_done(PollStatus::Exited));
    assert!(liveness_is_done(PollStatus::CheckFailed));
    assert!(!liveness_is_done(PollStatus::StillRunning));
}

#[test]
fn result_kind_helpers() {
    assert!(ResultKind::Text.renders_incrementally());
    assert!(ResultKind::Markdown.renders_incrementally());
    assert!(!ResultKind::Html.renders_incrementally());
    assert!(!ResultKind::Svg.renders_incrementally());
    let mut r = CommandResult::empty_of_kind(ResultKind::Markdown);
    assert_eq!(r, CommandResult::Markdown(None));
    assert_eq!(r.kind(), ResultKind::Markdown);
    r.replace_payload(Some("x".to_string()));
    assert_eq!(r.payload(), Some(&"x".to_string()));
}
