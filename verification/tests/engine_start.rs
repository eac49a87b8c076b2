//! Starting a note: outcomes and the error taxonomy.

use rustickers::config::{CommandContent, CommandError, CommandResult, Scheduler};
use rustickers::engine::{CommandEngine, StartOutcome};

fn content_with_command(cmd: &str) -> CommandContent {
    let mut c = CommandContent::default();
    c.command = cmd.to_string();
    c
}

#[test]
fn empty_command_yields_empty_command_error() {
    // command = "" → start() yields EmptyCommand, state stays idle, and no
    // plan to spawn is handed back.
    let mut eng = CommandEngine::new(content_with_command(""));
    let o = eng.start();
    assert!(matches!(o, StartOutcome::Failed));
    assert_eq!(eng.last_error(), Some(&CommandError::EmptyCommand));
    assert!(!eng.is_running());
    assert!(!eng.is_stopping());
    assert!(!eng.is_schedule_active());
}

#[test]
fn blank_command_yields_empty_command_error() {
    let mut eng = CommandEngine::new(content_with_command("   \t  "));
    let o = eng.start();
    assert!(matches!(o, StartOutcome::Failed));
    assert_eq!(eng.last_error(), Some(&CommandError::EmptyCommand));
}

#[test]
fn unknown_program_yields_program_not_found() {
    let mut eng = CommandEngine::new(content_with_command(
        "surely-no-such-program-on-any-path argument",
    ));
    let o = eng.start();
    assert!(matches!(o, StartOutcome::Failed));
    assert_eq!(
        eng.last_error(),
        Some(&CommandError::ProgramNotFound(
            "surely-no-such-program-on-any-path".to_string()
        ))
    );
    assert!(!eng.is_running());
}

#[test]
fn resolvable_command_yields_run_once_plan() {
    // The command line is split by the VC++ 2008 rules: the quoted part is
    // one argument. This fails if splitting handed the text back whole.
    let mut eng = CommandEngine::new(content_with_command("echo \"a b\" c"));
    let o = eng.start();
    match o {
        StartOutcome::RunOnce(plan) => {
            assert_eq!(plan.args, vec!["a b".to_string(), "c".to_string()]);
            assert!(plan.program.len() > 0);
            assert_eq!(plan.working_dir, None);
            assert!(plan.env.is_empty());
        }
        _ => panic!("expected a single run"),
    }
    assert!(eng.last_error().is_none());
}

#[test]
fn working_dir_and_environment_reach_the_plan() {
    let mut content = content_with_command("echo hi");
    content.working_dir = "  /tmp  ".to_string();
    content.environments = "A=1\n\n  B  \n K = spaced value \nno_eq_line".to_string();
    let mut eng = CommandEngine::new(content);
    match eng.start() {
        StartOutcome::RunOnce(plan) => {
            assert_eq!(plan.working_dir, Some("/tmp".to_string()));
            let pairs: Vec<(String, String)> = plan
                .env
                .iter()
                .map(|p| (p.key.clone(), p.value.clone()))
                .collect();
            assert_eq!(
                pairs,
                vec![
                    ("A".to_string(), "1".to_string()),
                    ("B".to_string(), "".to_string()),
                    ("K".to_string(), "spaced value".to_string()),
                    ("no_eq_line".to_string(), "".to_string()),
                ]
            );
        }
        _ => panic!("expected a single run"),
    }
}

#[test]
fn empty_cron_expression_is_rejected() {
    let mut content = content_with_command("echo hi");
    content.scheduler = Some(Scheduler::Cron("".to_string()));
    let mut eng = CommandEngine::new(content);
    let o = eng.start();
    assert!(matches!(o, StartOutcome::Failed));
    assert_eq!(eng.last_error(), Some(&CommandError::EmptyCronExpression));
    assert!(!eng.is_schedule_active());
}

#[test]
fn invalid_cron_expression_is_rejected() {
    let mut content = content_with_command("echo hi");
    content.scheduler = Some(Scheduler::Cron("not a cron at all".to_string()));
    let mut eng = CommandEngine::new(content);
    let o = eng.start();
    assert!(matches!(o, StartOutcome::Failed));
    match eng.last_error() {
        Some(CommandError::InvalidCronExpression(_)) => {}
        other => panic!("expected an invalid-cron error, got {:?}", other),
    }
    assert!(!eng.is_schedule_active());
}

#[test]
fn valid_cron_starts_a_schedule_without_immediate_run() {
    let mut content = content_with_command("echo hi");
    content.scheduler = Some(Scheduler::Cron("0 */1 * * * *".to_string()));
    content.run_immediately = false;
    let mut eng = CommandEngine::new(content);
    match eng.start() {
        StartOutcome::Scheduled(_, immediate) => {
            assert!(immediate.is_none());
        }
        _ => panic!("expected a schedule"),
    }
    assert!(eng.is_schedule_active());
    assert!(eng.last_error().is_none());
    assert!(!eng.is_running());
}

#[test]
fn valid_cron_with_run_immediately_plans_one_run() {
    let mut content = content_with_command("echo hi");
    content.scheduler = Some(Scheduler::Cron("0 */1 * * * *".to_string()));
    content.run_immediately = true;
    let mut eng = CommandEngine::new(content);
    match eng.start() {
        StartOutcome::Scheduled(_, immediate) => {
            assert!(immediate.is_some());
        }
        _ => panic!("expected a schedule"),
    }
    assert!(eng.is_schedule_active());
}

#[test]
fn starting_again_cancels_the_previous_schedule_first() {
    let mut content = content_with_command("echo hi");
    content.scheduler = Some(Scheduler::Cron("0 */1 * * * *".to_string()));
    content.run_immediately = false;
    let mut eng = CommandEngine::new(content);
    assert!(matches!(eng.start(), StartOutcome::Scheduled(_, _)));
    assert!(eng.is_schedule_active());
    // Switch to no schedule and start again: the old loop token is cleared.
    eng.config.scheduler = None;
    assert!(matches!(eng.start(), StartOutcome::RunOnce(_)));
    assert!(!eng.is_schedule_active());
    assert!(eng.next_fire_at().is_none());
}

#[test]
fn title_is_the_trimmed_command() {
    let eng = CommandEngine::new(content_with_command("  echo hello   "));
    assert_eq!(eng.title(), "echo hello");
}

#[test]
fn error_messages_match_their_variant() {
    assert_eq!(
        CommandError::EmptyCommand.message(),
        "Command cannot be empty"
    );
    assert_eq!(
        CommandError::ProgramNotFound("frobnicate".to_string()).message(),
        "Command not found: frobnicate"
    );
    assert_eq!(
        CommandError::SpawnFailed("cause".to_string()).message(),
        "Failed to start command: cause"
    );
    assert_eq!(
        CommandError::EmptyCronExpression.message(),
        "Cron expression cannot be empty"
    );
    assert_eq!(
        CommandError::InvalidCronExpression("why".to_string()).message(),
        "Invalid cron expression: why"
    );
    assert_eq!(
        CommandError::SerializationFailed("why".to_string()).message(),
        "Failed to serialize command sticker: why"
    );
    assert_eq!(
        CommandError::PersistFailed("why".to_string()).message(),
        "Failed to save command sticker: why"
    );
}

#[test]
fn default_content_matches_the_stored_form_defaults() {
    let c = CommandContent::default();
    assert_eq!(c.command, "");
    assert_eq!(c.environments, "");
    assert_eq!(c.working_dir, "");
    assert!(c.scheduler.is_none());
    assert!(c.run_immediately);
    assert!(!c.stream_result);
    assert_eq!(c.result, CommandResult::Text(None));
}
