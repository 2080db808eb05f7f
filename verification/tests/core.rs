use personaliz::model::{ApprovalStatus, EnvInfo, Level, ResolveError, RunError, RunOutcome, Status, Task};
use personaliz::runner::{
    combine_output, fold_run_output, install_plan, resolve_action, sandbox_result, search_trends,
    spawn_failure_result, unknown_action_result,
};
use personaliz::schedule::{next_occurrence, schedule_is_valid};
use personaliz::store::Core;

const DAILY_9AM: &str = "0 0 9 * * *";
const HOURLY: &str = "0 0 * * * *";

#[test]
fn schedule_validity_follows_the_parser() {
    assert!(schedule_is_valid(DAILY_9AM));
    assert!(schedule_is_valid(HOURLY));
    assert!(!schedule_is_valid("not a schedule"));
    assert!(!schedule_is_valid(""));
}

#[test]
fn next_occurrence_is_strictly_later_and_exact() {
    // 1970-01-01 00:00:00 -> same day 09:00:00.
    assert_eq!(next_occurrence(DAILY_9AM, 0), Some(9 * 3600));
    // Exactly at an occurrence, the next one is a day later.
    assert_eq!(next_occurrence(DAILY_9AM, 9 * 3600), Some(9 * 3600 + 86400));
    // Hourly: from 00:59:50 the next top of the hour.
    assert_eq!(next_occurrence(HOURLY, 3590), Some(3600));
    // A malformed expression yields nothing.
    assert_eq!(next_occurrence("bogus", 0), None);
}

#[test]
fn next_occurrence_returns_normally_on_extreme_instants() {
    // Instants at or beyond the representable calendar yield nothing rather
    // than a fault.
    assert_eq!(next_occurrence(HOURLY, i64::MAX), None);
    assert_eq!(next_occurrence(HOURLY, 8_000_000_000_000), None);
    assert_eq!(next_occurrence(HOURLY, i64::MIN), None);
    // A far-future instant inside the schedulable calendar (recurrence rules
    // cover the years up to 2100) still has a strictly later hit.
    let far: i64 = 4_000_000_000;
    match next_occurrence(HOURLY, far) {
        Some(n) => assert!(n > far),
        None => panic!("an hourly schedule always has a next occurrence before 2100"),
    }
    // Past 2100 the rule has run out of occurrences.
    assert_eq!(next_occurrence(HOURLY, 5_000_000_000), None);
}

#[test]
fn search_trends_is_nonempty_and_stable() {
    let a = search_trends();
    let b = search_trends();
    assert!(!a.is_empty());
    assert_eq!(a, b);
    assert!(a.contains("OpenClaw"));
}

#[test]
fn action_table_maps_known_references_only() {
    assert_eq!(resolve_action(&"linkedin_post".to_string()), Some("linkedin_post.cjs".to_string()));
    assert_eq!(
        resolve_action(&"linkedin_comment".to_string()),
        Some("linkedin_comment.cjs".to_string())
    );
    assert_eq!(resolve_action(&"noop".to_string()), None);
    assert_eq!(resolve_action(&"".to_string()), None);
}

#[test]
fn folded_results_never_hide_failures() {
    let ok = fold_run_output(true, "out".to_string(), String::new());
    assert!(ok.success);
    assert_eq!(ok.output, "out");
    assert_eq!(ok.error, None);

    let bad = fold_run_output(false, String::new(), "boom".to_string());
    assert!(!bad.success);
    assert_eq!(bad.error, Some("boom".to_string()));

    let spawn = spawn_failure_result("no such program".to_string());
    assert!(!spawn.success);
    assert_eq!(spawn.output, "");
    assert_eq!(spawn.error, Some("no such program".to_string()));

    let unknown = unknown_action_result();
    assert!(!unknown.success);
    assert!(unknown.error.is_some());
}

#[test]
fn sandbox_result_is_deterministic_success() {
    let a = sandbox_result();
    let b = sandbox_result();
    assert!(a.success);
    assert_eq!(a.output, b.output);
    assert_eq!(a.output, "sandbox: simulated run completed");
    assert_eq!(a.error, None);
}

#[test]
fn combined_output_keeps_both_streams() {
    assert_eq!(combine_output("out", "err"), "STDOUT:\nout\nSTDERR:\nerr");
    assert_eq!(combine_output("", ""), "STDOUT:\n\nSTDERR:\n");
}

#[test]
fn install_plan_prefers_pnpm() {
    assert_eq!(install_plan(true), ("pnpm".to_string(), "add".to_string()));
    assert_eq!(install_plan(false), ("npm".to_string(), "install".to_string()));
}

#[test]
fn env_info_derives_playwright_from_pnpm() {
    let e = EnvInfo::from_detection("linux".to_string(), true, true, false, true, true);
    assert!(e.has_playwright);
    let e = EnvInfo::from_detection("linux".to_string(), true, false, false, true, true);
    assert!(!e.has_playwright);
    let e = EnvInfo::from_detection("linux".to_string(), true, true, false, true, false);
    assert!(!e.has_playwright);
    assert_eq!(e.os, "linux");
}

#[test]
fn create_agent_assigns_ascending_ids() {
    let mut core = Core::new(30, false);
    let a = core.create_agent(
        "A".to_string(),
        Task::Direct { action: "linkedin_comment".to_string(), argument: "#x".to_string() },
        HOURLY.to_string(),
    );
    let b = core.create_agent(
        "B".to_string(),
        Task::Content { goal: "draft".to_string() },
        DAILY_9AM.to_string(),
    );
    assert_eq!((a, b), (1, 2));
    let agents = core.get_agents();
    assert_eq!(agents.len(), 2);
    assert_eq!(agents[0].id, 1);
    assert_eq!(agents[0].name, "A");
    assert_eq!(agents[0].status, Status::Active);
    assert_eq!(agents[0].last_run_at, None);
    assert_eq!(agents[1].id, 2);
}

#[test]
fn demo_agents_are_seeded_as_documented() {
    let mut core = Core::new(60, false);
    let (first, second) = core.create_demo_agents();
    assert_eq!((first, second), (1, 2));
    assert_eq!(core.agents[0].name, "Trending LinkedIn Agent");
    assert!(matches!(core.agents[0].openclaw_task, Task::Content { .. }));
    assert_eq!(core.agents[0].schedule, DAILY_9AM);
    assert_eq!(core.agents[1].name, "Hashtag Comment Agent");
    match &core.agents[1].openclaw_task {
        Task::Direct { action, argument } => {
            assert_eq!(action, "linkedin_comment");
            assert_eq!(argument, "#openclaw");
        }
        _ => panic!("second demo agent must be a direct action"),
    }
    assert_eq!(core.agents[1].schedule, HOURLY);
}

#[test]
fn mark_ran_and_record_next_are_safe_on_unknown_ids() {
    let mut core = Core::new(30, false);
    core.create_agent(
        "A".to_string(),
        Task::Content { goal: "g".to_string() },
        DAILY_9AM.to_string(),
    );
    core.mark_ran(7, 100);
    core.record_next(0, Some(100));
    assert_eq!(core.agents[0].last_run_at, None);
    assert_eq!(core.agents[0].next_run_at, None);
    core.mark_ran(1, 100);
    core.record_next(1, Some(200));
    assert_eq!(core.agents[0].last_run_at, Some(100));
    assert_eq!(core.agents[0].next_run_at, Some(200));
    // Idempotent repeat.
    core.mark_ran(1, 100);
    assert_eq!(core.agents[0].last_run_at, Some(100));
}

#[test]
fn get_logs_is_bounded_and_newest_first() {
    let mut core = Core::new(30, false);
    core.log_event(None, "first".to_string(), Level::Info, 1);
    core.log_event(None, "second".to_string(), Level::Info, 2);
    core.log_event(None, "third".to_string(), Level::Error, 3);
    let logs = core.get_logs(2);
    assert_eq!(logs.len(), 2);
    assert_eq!(logs[0].message, "third");
    assert_eq!(logs[1].message, "second");
    let all = core.get_logs(50);
    assert_eq!(all.len(), 3);
    assert_eq!(all[2].message, "first");
}

#[test]
fn pending_approvals_are_the_only_ones_listed() {
    let mut core = Core::new(30, false);
    core.create_agent(
        "A".to_string(),
        Task::Content { goal: "g".to_string() },
        DAILY_9AM.to_string(),
    );
    let first = core.enqueue_approval(1, "draft one".to_string(), 10);
    let second = core.enqueue_approval(1, "draft two".to_string(), 11);
    assert_eq!((first, second), (1, 2));
    assert_eq!(core.get_approvals().len(), 2);
    core.resolve(first, false, 12).unwrap();
    let pending = core.get_approvals();
    assert_eq!(pending.len(), 1);
    assert_eq!(pending[0].id, 2);
    assert_eq!(pending[0].status, ApprovalStatus::Pending);
}

#[test]
fn resolve_unknown_request_is_not_found() {
    let mut core = Core::new(30, false);
    assert!(matches!(core.resolve(1, true, 5), Err(ResolveError::NotFound)));
    assert_eq!(core.logs.len(), 0);
}

#[test]
fn unknown_action_reference_fails_without_running() {
    let mut core = Core::new(30, false);
    core.create_agent(
        "Oddball".to_string(),
        Task::Direct { action: "frobnicate".to_string(), argument: "x".to_string() },
        HOURLY.to_string(),
    );
    match core.run_agent_now(1, false, 5) {
        Ok(RunOutcome::Ran { result }) => {
            assert!(!result.success);
            assert!(result.error.unwrap().contains("unknown action"));
        }
        _ => panic!("expected a folded failure result"),
    }
    assert!(core
        .logs
        .iter()
        .any(|l| l.level == Level::Error && l.message.contains("Unknown action reference")));
}

#[test]
fn failed_run_result_reaches_the_audit_trail() {
    let mut core = Core::new(30, false);
    core.create_agent(
        "Pinger".to_string(),
        Task::Direct { action: "linkedin_comment".to_string(), argument: "#x".to_string() },
        HOURLY.to_string(),
    );
    let failed = fold_run_output(false, String::new(), "script exploded".to_string());
    core.complete_invocation(1, &failed, 9);
    let entry = core.logs.last().unwrap();
    assert_eq!(entry.level, Level::Error);
    assert!(entry.message.contains("script exploded"));

    let succeeded = fold_run_output(true, "all good".to_string(), String::new());
    core.complete_invocation(1, &succeeded, 10);
    let entry = core.logs.last().unwrap();
    assert_eq!(entry.level, Level::Info);
    assert!(entry.message.contains("all good"));
    assert!(!entry.message.contains("Error output:"));
}

#[test]
fn run_agent_now_refuses_unknown_agent() {
    let mut core = Core::new(30, false);
    assert!(matches!(core.run_agent_now(3, true, 5), Err(RunError::AgentNotFound)));
    assert_eq!(core.logs.len(), 0);
}

#[test]
fn llm_settings_round_trip() {
    let mut core = Core::new(30, false);
    assert_eq!(core.get_llm_settings(), None);
    core.update_llm_settings("key-123".to_string());
    assert_eq!(core.get_llm_settings(), Some("key-123".to_string()));
}
