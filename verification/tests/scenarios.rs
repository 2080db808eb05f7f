use personaliz::model::{ApprovalStatus, Level, ResolveError, RunOutcome, Status, Task};
use personaliz::runner::fold_run_output;
use personaliz::schedule::next_occurrence;
use personaliz::store::Core;

const DAILY_9AM: &str = "0 0 9 * * *";
const HOURLY: &str = "0 0 * * * *";

// 1970-01-01 08:59:50, ten seconds before the daily 09:00:00 occurrence.
const BEFORE_9AM: i64 = 9 * 3600 - 10;

#[test]
fn due_includes_active_agents_inside_the_window() {
    let mut core = Core::new(30, false);
    core.create_agent(
        "Daily".to_string(),
        Task::Content { goal: "draft".to_string() },
        DAILY_9AM.to_string(),
    );
    // Inside the window [now, now + 30): due.
    assert_eq!(core.list_due(BEFORE_9AM), vec![1]);
    // Far from the occurrence: not due.
    assert_eq!(core.list_due(0), Vec::<usize>::new());
    // Exactly at the occurrence the next one is tomorrow: not due.
    assert_eq!(core.list_due(9 * 3600), Vec::<usize>::new());
}

#[test]
fn due_excludes_paused_agents_regardless_of_schedule() {
    let mut core = Core::new(30, false);
    core.create_agent(
        "Paused one".to_string(),
        Task::Content { goal: "draft".to_string() },
        DAILY_9AM.to_string(),
    );
    core.agents[0].status = Status::Paused;
    assert_eq!(core.list_due(BEFORE_9AM), Vec::<usize>::new());
    assert_eq!(core.logs.len(), 0);
}

#[test]
fn malformed_schedule_is_skipped_with_one_error_entry_per_tick() {
    let mut core = Core::new(30, false);
    core.create_agent(
        "Broken".to_string(),
        Task::Content { goal: "draft".to_string() },
        "whenever I feel like it".to_string(),
    );
    core.create_agent(
        "Daily".to_string(),
        Task::Content { goal: "draft".to_string() },
        DAILY_9AM.to_string(),
    );
    // The malformed agent is excluded, the valid one still served.
    assert_eq!(core.list_due(BEFORE_9AM), vec![2]);
    let errors: Vec<_> = core
        .logs
        .iter()
        .filter(|l| l.agent_id == Some(1) && l.level == Level::Error)
        .collect();
    assert_eq!(errors.len(), 1);
    assert!(errors[0].message.contains("Invalid schedule expression"));
    assert!(errors[0].message.contains("Broken"));
    // A second tick records exactly one more.
    core.list_due(BEFORE_9AM + 60);
    let errors = core
        .logs
        .iter()
        .filter(|l| l.agent_id == Some(1) && l.level == Level::Error)
        .count();
    assert_eq!(errors, 2);
}

#[test]
fn content_agent_tick_creates_pending_approval() {
    // Scenario: a content-producing "Daily Digest" agent on a daily
    // schedule, with time advanced into its window.
    let mut core = Core::new(30, false);
    core.create_agent(
        "Daily Digest".to_string(),
        Task::Content { goal: "summarise the day".to_string() },
        DAILY_9AM.to_string(),
    );
    let processed = core.sandbox_tick(BEFORE_9AM);
    assert_eq!(processed, vec![1]);

    assert_eq!(core.approvals.len(), 1);
    assert_eq!(core.approvals[0].status, ApprovalStatus::Pending);
    assert_eq!(core.approvals[0].agent_id, 1);
    assert!(!core.approvals[0].content.is_empty());

    let processing = core
        .logs
        .iter()
        .position(|l| l.message == "Processing agent: Daily Digest")
        .expect("processing entry");
    let created = core
        .logs
        .iter()
        .position(|l| l.message == "Created approval request")
        .expect("approval entry");
    assert!(processing < created);
    assert_eq!(core.agents[0].last_run_at, Some(BEFORE_9AM));
}

#[test]
fn direct_agent_tick_yields_one_invocation_and_updates_last_run() {
    // Scenario: an hourly direct-action agent, time advanced into its
    // window, driven the way the embedder drives a real (non-sandbox) tick.
    let mut core = Core::new(30, false);
    core.create_agent(
        "Hourly Ping".to_string(),
        Task::Direct { action: "linkedin_comment".to_string(), argument: "#ping".to_string() },
        HOURLY.to_string(),
    );
    let now: i64 = 3590;
    let due = core.list_due(now);
    assert_eq!(due, vec![1]);

    let mut invocations = Vec::new();
    for id in due {
        match core.run_agent_now(id, false, now).expect("agent exists") {
            RunOutcome::Invoke { invocation } => {
                invocations.push(invocation);
                let result = fold_run_output(true, "pong".to_string(), String::new());
                core.complete_invocation(id, &result, now);
            }
            RunOutcome::ApprovalCreated { .. } | RunOutcome::Ran { .. } => {
                panic!("a real direct run must demand exactly one invocation")
            }
        }
        core.mark_ran(id, now);
        core.record_next(id, next_occurrence(&core.agents[id - 1].schedule, now));
    }

    // Exactly one external invocation was demanded, with the resolved script.
    assert_eq!(invocations.len(), 1);
    assert_eq!(invocations[0].script, "linkedin_comment.cjs");
    assert_eq!(invocations[0].argument, "#ping");
    assert_eq!(invocations[0].agent_id, Some(1));

    assert_eq!(core.agents[0].last_run_at, Some(now));
    assert_eq!(core.agents[0].next_run_at, Some(3600));
    assert!(core
        .logs
        .iter()
        .any(|l| l.level == Level::Info && l.message.contains("pong")));
}

#[test]
fn sandbox_tick_never_demands_an_invocation() {
    let mut core = Core::new(60, true);
    core.create_demo_agents();
    // 08:59:50: the daily 09:00 and the hourly 09:00 occurrences are both
    // inside the 60-second window.
    let processed = core.sandbox_tick(BEFORE_9AM);
    assert_eq!(processed, vec![1, 2]);

    // The content agent produced an approval, not an action.
    assert_eq!(core.approvals.len(), 1);
    // The direct agent was simulated: its entries are tagged, and the only
    // record of the run is the simulated one.
    assert!(core
        .logs
        .iter()
        .any(|l| l.agent_id == Some(2) && l.message.contains("Sandbox run - simulated actions")));
    assert!(!core.logs.iter().any(|l| l.message.contains("Running agent action script")));
    assert_eq!(core.agents[0].last_run_at, Some(BEFORE_9AM));
    assert_eq!(core.agents[1].last_run_at, Some(BEFORE_9AM));
}

#[test]
fn audit_entries_of_earlier_agents_fully_precede_later_ones() {
    // Two agents due in the same tick: every entry for id 1 precedes every
    // entry for id 2.
    let mut core = Core::new(60, false);
    core.create_demo_agents();
    core.sandbox_tick(BEFORE_9AM);
    let first_positions: Vec<usize> = core
        .logs
        .iter()
        .enumerate()
        .filter(|(_, l)| l.agent_id == Some(1))
        .map(|(i, _)| i)
        .collect();
    let second_positions: Vec<usize> = core
        .logs
        .iter()
        .enumerate()
        .filter(|(_, l)| l.agent_id == Some(2))
        .map(|(i, _)| i)
        .collect();
    assert!(!first_positions.is_empty());
    assert!(!second_positions.is_empty());
    assert!(first_positions.iter().max() < second_positions.iter().min());
}

#[test]
fn approving_fires_exactly_once_and_retries_are_refused() {
    let mut core = Core::new(30, false);
    core.create_agent(
        "Writer".to_string(),
        Task::Content { goal: "draft".to_string() },
        DAILY_9AM.to_string(),
    );
    let request = core.enqueue_approval(1, "the draft text".to_string(), 10);

    let demand = core.resolve(request, true, 11).expect("first resolution succeeds");
    let invocation = demand.expect("approval must demand exactly one invocation");
    assert_eq!(invocation.script, "linkedin_post.cjs");
    assert_eq!(invocation.argument, "the draft text");
    assert_eq!(core.approvals[0].status, ApprovalStatus::Approved);

    // Retry after the status write: refused, no state change, no new demand.
    let logs_before = core.logs.len();
    assert!(matches!(core.resolve(request, true, 12), Err(ResolveError::AlreadyResolved)));
    assert!(matches!(core.resolve(request, false, 13), Err(ResolveError::AlreadyResolved)));
    assert_eq!(core.logs.len(), logs_before);
    assert_eq!(core.approvals[0].status, ApprovalStatus::Approved);
}

#[test]
fn rejecting_never_fires_and_writes_one_entry() {
    let mut core = Core::new(30, false);
    core.create_agent(
        "Writer".to_string(),
        Task::Content { goal: "draft".to_string() },
        DAILY_9AM.to_string(),
    );
    let request = core.enqueue_approval(1, "the draft text".to_string(), 10);
    let logs_before = core.logs.len();

    let demand = core.resolve(request, false, 11).expect("rejection succeeds");
    assert!(demand.is_none());
    assert_eq!(core.approvals[0].status, ApprovalStatus::Rejected);
    assert_eq!(core.logs.len(), logs_before + 1);
    assert!(core.logs.last().unwrap().message.contains("Rejected"));

    // And the rejection is final.
    assert!(matches!(core.resolve(request, true, 12), Err(ResolveError::AlreadyResolved)));
    assert_eq!(core.approvals[0].status, ApprovalStatus::Rejected);
}
