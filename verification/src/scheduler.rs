//! The orchestrating loop's decisions: which agents are due in a polling
//! window, and what processing one due agent does — classify its task,
//! route a content draft through the approval gate, prepare or simulate a
//! direct action, and record the audit trail. Every decision is a
//! deterministic transition; the embedder only performs the returned
//! invocation demands and feeds results back.

use vstd::prelude::*;
use vstd::string::StringExecFns;

use crate::gate::spec_enqueue;
use crate::model::{
    Invocation, InvocationV, Level, OpenClawResult, OpenClawResultV, RunError, RunOutcome,
    RunOutcomeV, Status, Task, TaskV,
};
use crate::runner::{
    resolve_action, sandbox_result, search_trends, spec_resolve_action, spec_sandbox_result,
    spec_trend_content, spec_unknown_action_result, unknown_action_result,
};
use crate::schedule::{agent_due, cron_next, cron_valid, schedule_is_valid, spec_due, next_occurrence};
use crate::store::{accepts_time, inv, spec_log_event, spec_mark_ran, spec_record_next, Core, CoreV};

verus! {

/// Audit message for the start of one agent's processing.
pub open spec fn spec_processing_message(name: Seq<char>) -> Seq<char> {
    "Processing agent: "@ + name
}

/// Audit message for an active agent whose schedule expression does not
/// parse; the agent is skipped for the tick, never a crash.
pub open spec fn spec_parse_error_message(name: Seq<char>) -> Seq<char> {
    "Invalid schedule expression for agent: "@ + name
}

/// Audit message right before a real (non-sandbox) action run.
pub open spec fn spec_running_message() -> Seq<char> {
    "Running agent action script"@
}

/// Audit message for a simulated run; everything a sandbox run writes is
/// tagged as simulated by carrying this text.
pub open spec fn spec_sandbox_message() -> Seq<char> {
    "Sandbox run - simulated actions"@
}

/// Audit message for a task naming an unknown action reference.
pub open spec fn spec_unknown_action_message() -> Seq<char> {
    "Unknown action reference"@
}

/// Audit message prefix for a finished action run; the action's captured
/// output follows it.
pub open spec fn spec_finished_prefix() -> Seq<char> {
    "Agent action finished. Output: "@
}

/// Audit message infix between a finished run's output and its captured
/// error text, present exactly when the run produced error text.
pub open spec fn spec_error_infix() -> Seq<char> {
    " Error output: "@
}

/// The whole audit message for a finished action run: the captured output,
/// followed by the captured error text whenever there was any — a failed
/// run's reason reaches the audit trail, never only its (often empty)
/// output.
pub open spec fn spec_finished_message(result: OpenClawResultV) -> Seq<char> {
    spec_finished_prefix() + result.output + match result.error {
        Some(e) => spec_error_infix() + e,
        None => Seq::<char>::empty(),
    }
}

/// Identifiers of the agents due in the window starting at `now`, in
/// registration (ascending identifier) order: exactly the `Active` agents
/// whose valid recurrence rule has an occurrence inside the window.
pub open spec fn spec_due_ids(agents: Seq<crate::model::AgentV>, now: i64, period: int) -> Seq<int>
    decreases agents.len(),
{
    if agents.len() == 0 {
        Seq::<int>::empty()
    } else {
        let rest = spec_due_ids(agents.drop_last(), now, period);
        if spec_due(agents.last(), now, period) {
            rest.push(agents.last().id)
        } else {
            rest
        }
    }
}

/// State after the due scan: exactly one `Error` entry per active agent
/// whose schedule expression does not parse, in registration order; nothing
/// else moves.
pub open spec fn spec_scan_due(c: CoreV, agents: Seq<crate::model::AgentV>, now: i64) -> CoreV
    decreases agents.len(),
{
    if agents.len() == 0 {
        c
    } else {
        let c1 = spec_scan_due(c, agents.drop_last(), now);
        let a = agents.last();
        if a.status is Active && !cron_valid(a.schedule) {
            spec_log_event(c1, Some(a.id), spec_parse_error_message(a.name), Level::Error, now)
        } else {
            c1
        }
    }
}

/// A sequence of identifiers, as spec-level integers.
pub open spec fn ids_view(s: Seq<usize>) -> Seq<int> {
    s.map_values(|x: usize| x as int)
}

/// The due scan never returns more identifiers than there are agents.
pub proof fn lemma_due_ids_len(agents: Seq<crate::model::AgentV>, now: i64, period: int)
    ensures
        spec_due_ids(agents, now, period).len() <= agents.len(),
    decreases agents.len(),
{
    if agents.len() > 0 {
        lemma_due_ids_len(agents.drop_last(), now, period);
    }
}

/// Spec-level form of what `run_agent_now` returns.
pub open spec fn run_result_v(r: Result<RunOutcome, RunError>) -> Result<RunOutcomeV, RunError> {
    match r {
        Ok(o) => Ok(o@),
        Err(e) => Err(e),
    }
}

/// State and outcome of processing one agent: one processing entry is
/// logged; a content task drafts content and enqueues a `Pending` approval
/// (the action runner is not touched); a direct task with a known action is
/// either simulated (sandbox) or turned into exactly one invocation demand;
/// an unknown action reference becomes a logged failure result. An unknown
/// agent identifier refuses and moves nothing.
pub open spec fn spec_run_agent(c: CoreV, id: int, sandbox: bool, now: i64) -> (CoreV, Result<
    RunOutcomeV,
    RunError,
>) {
    if !(1 <= id <= c.agents.len()) {
        (c, Err(RunError::AgentNotFound))
    } else {
        let a = c.agents[id - 1];
        let c1 = spec_log_event(c, Some(id), spec_processing_message(a.name), Level::Info, now);
        match a.openclaw_task {
            TaskV::Content { goal } => {
                let c2 = spec_enqueue(c1, id, spec_trend_content(), now);
                (
                    c2,
                    Ok(
                        RunOutcomeV::ApprovalCreated {
                            approval_id: c.approvals.len() as int + 1,
                        },
                    ),
                )
            },
            TaskV::Direct { action, argument } => {
                match spec_resolve_action(action) {
                    None => {
                        let c2 = spec_log_event(
                            c1,
                            Some(id),
                            spec_unknown_action_message(),
                            Level::Error,
                            now,
                        );
                        (c2, Ok(RunOutcomeV::Ran { result: spec_unknown_action_result() }))
                    },
                    Some(script) => {
                        if sandbox {
                            let c2 = spec_log_event(
                                c1,
                                Some(id),
                                spec_sandbox_message(),
                                Level::Info,
                                now,
                            );
                            (c2, Ok(RunOutcomeV::Ran { result: spec_sandbox_result() }))
                        } else {
                            let c2 = spec_log_event(
                                c1,
                                Some(id),
                                spec_running_message(),
                                Level::Info,
                                now,
                            );
                            (
                                c2,
                                Ok(
                                    RunOutcomeV::Invoke {
                                        invocation: InvocationV {
                                            agent_id: Some(id),
                                            script,
                                            argument,
                                        },
                                    },
                                ),
                            )
                        }
                    },
                }
            },
        }
    }
}

/// State after processing a sequence of due agents in order, in sandbox
/// mode: each is processed, marked as run at `now`, and its advisory next
/// occurrence re-derived and cached.
pub open spec fn spec_process_due(c: CoreV, due: Seq<int>, now: i64) -> CoreV
    decreases due.len(),
{
    if due.len() == 0 {
        c
    } else {
        let c1 = spec_process_due(c, due.drop_last(), now);
        let id = due.last();
        let c2 = spec_run_agent(c1, id, true, now).0;
        let c3 = spec_mark_ran(c2, id, now);
        if 1 <= id <= c3.agents.len() {
            spec_record_next(
                c3,
                id,
                match cron_next(c3.agents[id - 1].schedule, now) {
                    Some(t) => Some(t as int),
                    None => None,
                },
            )
        } else {
            c3
        }
    }
}

/// One whole tick in sandbox mode: scan for due agents (logging schedule
/// parse errors), then process each due agent in ascending identifier
/// order.
pub open spec fn spec_sandbox_tick(c: CoreV, now: i64) -> CoreV {
    spec_process_due(
        spec_scan_due(c, c.agents, now),
        spec_due_ids(c.agents, now, c.polling_period),
        now,
    )
}

/// State after recording a finished action run: one audit entry carrying the
/// captured output, `Info` on success and `Error` on failure.
pub open spec fn spec_complete(c: CoreV, id: int, result: OpenClawResultV, now: i64) -> CoreV {
    spec_log_event(
        c,
        Some(id),
        spec_finished_message(result),
        if result.success {
            Level::Info
        } else {
            Level::Error
        },
        now,
    )
}

impl Core {
    /// Identifiers of the agents due in the window `[now, now + period)`,
    /// ascending. An active agent whose schedule expression does not parse
    /// is excluded and exactly one `Error` audit entry is recorded for it;
    /// nothing here can fail, so the scan never aborts a tick.
    pub fn list_due(&mut self, now: i64) -> (r: Vec<usize>)
        requires
            inv(old(self)@),
            accepts_time(old(self)@, now),
            old(self)@.logs.len() + old(self)@.agents.len() <= usize::MAX,
        ensures
            inv(final(self)@),
            accepts_time(final(self)@, now),
            final(self)@ =~= spec_scan_due(old(self)@, old(self)@.agents, now),
            ids_view(r@) =~= spec_due_ids(
                old(self)@.agents,
                now,
                old(self)@.polling_period,
            ),
            final(self)@.agents == old(self)@.agents,
            final(self)@.approvals == old(self)@.approvals,
            final(self)@.polling_period == old(self)@.polling_period,
            final(self)@.logs.len() <= old(self)@.logs.len() + old(self)@.agents.len(),
    {
        let mut r: Vec<usize> = Vec::new();
        let n: usize = self.agents.len();
        let mut i: usize = 0;
        while i < n
            invariant
                i <= n,
                inv(self@),
                accepts_time(self@, now),
                n as int == old(self)@.agents.len(),
                self@.agents == old(self)@.agents,
                self@.approvals == old(self)@.approvals,
                self@.llm_api_key == old(self)@.llm_api_key,
                self@.polling_period == old(self)@.polling_period,
                old(self)@.logs.len() + old(self)@.agents.len() <= usize::MAX,
                self@.logs.len() <= old(self)@.logs.len() + i as int,
                self@ =~= spec_scan_due(old(self)@, old(self)@.agents.take(i as int), now),
                ids_view(r@) =~= spec_due_ids(
                    old(self)@.agents.take(i as int),
                    now,
                    old(self)@.polling_period,
                ),
            decreases n - i,
        {
            proof {
                assert(old(self)@.agents.take(i as int + 1).drop_last() =~= old(
                    self,
                )@.agents.take(i as int));
                assert(old(self)@.agents.take(i as int + 1).last() == old(self)@.agents[i as int]);
            }
            let ghost pre = self@;
            let ghost r_pre = r@;
            let active = self.agents[i].status == Status::Active;
            if active {
                if !schedule_is_valid(self.agents[i].schedule.as_str()) {
                    let aid: usize = self.agents[i].id;
                    let message = String::from_str("Invalid schedule expression for agent: ")
                        .concat(self.agents[i].name.as_str());
                    self.log_event(Some(aid), message, Level::Error, now);
                    proof {
                        assert(aid as int == old(self)@.agents[i as int].id);
                        assert(self@ =~= spec_scan_due(
                            old(self)@,
                            old(self)@.agents.take(i as int + 1),
                            now,
                        ));
                    }
                } else {
                    if agent_due(&self.agents[i], now, self.polling_period) {
                        let aid: usize = self.agents[i].id;
                        r.push(aid);
                        proof {
                            assert(r@ =~= r_pre.push(aid));
                            assert(ids_view(r@) =~= ids_view(r_pre).push(aid as int));
                        }
                    }
                }
            }
            proof {
                assert(self@ =~= spec_scan_due(
                    old(self)@,
                    old(self)@.agents.take(i as int + 1),
                    now,
                ));
                assert(ids_view(r@) =~= spec_due_ids(
                    old(self)@.agents.take(i as int + 1),
                    now,
                    old(self)@.polling_period,
                ));
            }
            i = i + 1;
        }
        proof {
            assert(old(self)@.agents.take(n as int) =~= old(self)@.agents);
        }
        r
    }

    /// One whole scheduler tick in sandbox mode: find the due agents, then
    /// process each in ascending identifier order — log its processing,
    /// route or simulate its task without any external side effect, mark it
    /// run at `now`, and refresh its advisory next occurrence. Returns the
    /// processed identifiers.
    pub fn sandbox_tick(&mut self, now: i64) -> (r: Vec<usize>)
        requires
            inv(old(self)@),
            accepts_time(old(self)@, now),
            old(self)@.logs.len() + 3 * old(self)@.agents.len() <= usize::MAX,
            old(self)@.approvals.len() + old(self)@.agents.len() <= usize::MAX,
        ensures
            inv(final(self)@),
            accepts_time(final(self)@, now),
            ids_view(r@) =~= spec_due_ids(
                old(self)@.agents,
                now,
                old(self)@.polling_period,
            ),
            final(self)@ =~= spec_sandbox_tick(old(self)@, now),
    {
        let due = self.list_due(now);
        let ghost scanned = self@;
        let ghost due_ids = ids_view(due@);
        proof {
            lemma_due_ids_len(old(self)@.agents, now, old(self)@.polling_period);
        }
        let mut k: usize = 0;
        while k < due.len()
            invariant
                k <= due.len(),
                inv(self@),
                accepts_time(self@, now),
                due_ids == ids_view(due@),
                due_ids.len() <= old(self)@.agents.len(),
                scanned.approvals == old(self)@.approvals,
                scanned.logs.len() <= old(self)@.logs.len() + old(self)@.agents.len(),
                old(self)@.logs.len() + 3 * old(self)@.agents.len() <= usize::MAX,
                old(self)@.approvals.len() + old(self)@.agents.len() <= usize::MAX,
                self@.logs.len() <= scanned.logs.len() + 2 * k as int,
                self@.approvals.len() <= scanned.approvals.len() + k as int,
                self@ =~= spec_process_due(scanned, due_ids.take(k as int), now),
            decreases due.len() - k,
        {
            proof {
                assert(due_ids.take(k as int + 1).drop_last() =~= due_ids.take(k as int));
                assert(due_ids.take(k as int + 1).last() == due_ids[k as int]);
            }
            let ghost pre = self@;
            let id: usize = due[k];
            proof {
                assert(due_ids[k as int] == id as int);
            }
            let _ = self.run_agent_now(id, true, now);
            self.mark_ran(id, now);
            if 1 <= id && id <= self.agents.len() {
                let next = next_occurrence(self.agents[id - 1].schedule.as_str(), now);
                self.record_next(id, next);
            }
            proof {
                assert(self@ =~= spec_process_due(scanned, due_ids.take(k as int + 1), now));
            }
            k = k + 1;
        }
        proof {
            assert(due_ids.take(due@.len() as int) =~= due_ids);
        }
        due
    }

    /// Process one agent immediately, bypassing the schedule. `sandbox`
    /// decides whether a direct action is simulated or returned as an
    /// invocation demand for the embedder to perform; a content task drafts
    /// and enqueues an approval either way, since nothing external runs
    /// before the human decision.
    pub fn run_agent_now(&mut self, agent_id: usize, sandbox: bool, now: i64) -> (r: Result<
        RunOutcome,
        RunError,
    >)
        requires
            inv(old(self)@),
            accepts_time(old(self)@, now),
            old(self)@.logs.len() + 2 <= usize::MAX,
            old(self)@.approvals.len() < usize::MAX,
        ensures
            inv(final(self)@),
            accepts_time(final(self)@, now),
            final(self)@ =~= spec_run_agent(old(self)@, agent_id as int, sandbox, now).0,
            run_result_v(r) == spec_run_agent(old(self)@, agent_id as int, sandbox, now).1,
    {
        if agent_id < 1 || agent_id > self.agents.len() {
            return Err(RunError::AgentNotFound);
        }
        let idx: usize = agent_id - 1;
        let name = self.agents[idx].name.clone();
        let task = self.agents[idx].openclaw_task.clone();
        self.log_event(
            Some(agent_id),
            String::from_str("Processing agent: ").concat(name.as_str()),
            Level::Info,
            now,
        );
        match task {
            Task::Content { goal: _ } => {
                let content = search_trends();
                let approval_id = self.enqueue_approval(agent_id, content, now);
                assert(final(self)@ =~= spec_run_agent(old(self)@, agent_id as int, sandbox, now).0);
                Ok(RunOutcome::ApprovalCreated { approval_id })
            },
            Task::Direct { action, argument } => {
                match resolve_action(&action) {
                    None => {
                        self.log_event(
                            Some(agent_id),
                            String::from_str("Unknown action reference"),
                            Level::Error,
                            now,
                        );
                        assert(final(self)@ =~= spec_run_agent(
                            old(self)@,
                            agent_id as int,
                            sandbox,
                            now,
                        ).0);
                        Ok(RunOutcome::Ran { result: unknown_action_result() })
                    },
                    Some(script) => {
                        if sandbox {
                            self.log_event(
                                Some(agent_id),
                                String::from_str("Sandbox run - simulated actions"),
                                Level::Info,
                                now,
                            );
                            assert(final(self)@ =~= spec_run_agent(
                                old(self)@,
                                agent_id as int,
                                sandbox,
                                now,
                            ).0);
                            Ok(RunOutcome::Ran { result: sandbox_result() })
                        } else {
                            self.log_event(
                                Some(agent_id),
                                String::from_str("Running agent action script"),
                                Level::Info,
                                now,
                            );
                            assert(final(self)@ =~= spec_run_agent(
                                old(self)@,
                                agent_id as int,
                                sandbox,
                                now,
                            ).0);
                            Ok(
                                RunOutcome::Invoke {
                                    invocation: Invocation {
                                        agent_id: Some(agent_id),
                                        script,
                                        argument,
                                    },
                                },
                            )
                        }
                    },
                }
            },
        }
    }

    /// Record the result the embedder got from performing an invocation
    /// demand: one audit entry carrying the captured output and, when there
    /// was any, the captured error text; `Info` on success and `Error` on
    /// failure. Never refuses — every failure mode of an action arrives
    /// already folded into the result.
    pub fn complete_invocation(&mut self, agent_id: usize, result: &OpenClawResult, now: i64)
        requires
            inv(old(self)@),
            accepts_time(old(self)@, now),
            old(self)@.logs.len() < usize::MAX,
        ensures
            inv(final(self)@),
            accepts_time(final(self)@, now),
            final(self)@ =~= spec_complete(old(self)@, agent_id as int, result@, now),
    {
        let level = if result.success {
            Level::Info
        } else {
            Level::Error
        };
        let message = String::from_str("Agent action finished. Output: ").concat(
            result.output.as_str(),
        );
        let message = match &result.error {
            Some(e) => message.concat(" Error output: ").concat(e.as_str()),
            None => message,
        };
        proof {
            assert(message@ =~= spec_finished_message(result@));
        }
        self.log_event(Some(agent_id), message, level, now);
    }
}

} // verus!
