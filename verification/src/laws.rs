//! The laws the core obeys, stated over the spec-level transitions and
//! proved once and for all: approval resolution is idempotent and fires its
//! side effect at most once, sandbox runs never demand an external
//! invocation, and the due scan includes exactly the active agents whose
//! valid schedule falls in the window.

use vstd::prelude::*;

use crate::gate::{spec_post_script, spec_resolve};
use crate::model::{AgentV, ApprovalStatus, InvocationV, Level, LogV, ResolveError, RunOutcomeV, Status};
use crate::runner::{spec_resolve_action, spec_sandbox_result, spec_unknown_action_result};
use crate::schedule::{cron_valid, spec_due};
use crate::scheduler::{
    spec_due_ids, spec_parse_error_message, spec_process_due, spec_run_agent, spec_sandbox_tick,
    spec_scan_due,
};
use crate::store::{inv, spec_new_log, CoreV};

verus! {

/// Resolving a request a second time — whatever the first outcome was and
/// whatever the retry asks — refuses with `AlreadyResolved` and changes
/// nothing: no status mutation and no further invocation demand.
pub proof fn lemma_resolve_idempotent(
    c: CoreV,
    id: int,
    approved_first: bool,
    now_first: i64,
    approved_again: bool,
    now_again: i64,
)
    requires
        spec_resolve(c, id, approved_first, now_first).1 is Ok,
    ensures
        spec_resolve(
            spec_resolve(c, id, approved_first, now_first).0,
            id,
            approved_again,
            now_again,
        ).1 == Err::<Option<InvocationV>, ResolveError>(ResolveError::AlreadyResolved),
        spec_resolve(
            spec_resolve(c, id, approved_first, now_first).0,
            id,
            approved_again,
            now_again,
        ).0 == spec_resolve(c, id, approved_first, now_first).0,
{
    let c1 = spec_resolve(c, id, approved_first, now_first).0;
    assert(c1.approvals.len() == c.approvals.len());
    assert(!(c1.approvals[id - 1].status is Pending));
}

/// Exactly-once side effect on approval: approving a `Pending` request
/// yields exactly one invocation demand, carrying the request's own draft;
/// after the status write, resolving the same request again — the retry
/// after a crash between the write and the external run — yields none.
pub proof fn lemma_approval_fires_once(
    c: CoreV,
    id: int,
    now_first: i64,
    approved_again: bool,
    now_again: i64,
)
    requires
        1 <= id <= c.approvals.len(),
        c.approvals[id - 1].status is Pending,
    ensures
        spec_resolve(c, id, true, now_first).1 == Ok::<Option<InvocationV>, ResolveError>(
            Some(
                InvocationV {
                    agent_id: Some(c.approvals[id - 1].agent_id),
                    script: spec_post_script(),
                    argument: c.approvals[id - 1].content,
                },
            ),
        ),
        spec_resolve(
            spec_resolve(c, id, true, now_first).0,
            id,
            approved_again,
            now_again,
        ).1 == Err::<Option<InvocationV>, ResolveError>(ResolveError::AlreadyResolved),
{
    lemma_resolve_idempotent(c, id, true, now_first, approved_again, now_again);
}

/// Rejecting a `Pending` request yields no invocation demand at all.
pub proof fn lemma_rejection_never_fires(c: CoreV, id: int, now: i64)
    requires
        1 <= id <= c.approvals.len(),
        c.approvals[id - 1].status is Pending,
    ensures
        spec_resolve(c, id, false, now).1 == Ok::<Option<InvocationV>, ResolveError>(None),
        spec_resolve(c, id, false, now).0.approvals[id - 1].status is Rejected,
{
}

/// A sandbox run never demands a real external invocation: whatever the
/// agent and state, its outcome is an enqueued approval or a deterministic
/// folded result — the simulated success for a known action, the folded
/// failure for an unknown reference — never an `Invoke`.
pub proof fn lemma_sandbox_never_invokes(c: CoreV, id: int, now: i64)
    ensures
        spec_run_agent(c, id, true, now).1 matches Ok(o) ==> !(o is Invoke),
        spec_run_agent(c, id, true, now).1 matches Ok(RunOutcomeV::Ran { result }) ==> (result
            == spec_sandbox_result() || result == spec_unknown_action_result()),
{
}

/// Processing a content-producing agent creates exactly one `Pending`
/// request owned by that agent, holding the drafted content — and nothing is
/// run: the only path from a draft to an external action goes through a
/// human resolution.
pub proof fn lemma_content_agent_creates_pending(c: CoreV, id: int, sandbox: bool, now: i64)
    requires
        1 <= id <= c.agents.len(),
        c.agents[id - 1].openclaw_task is Content,
    ensures
        ({
            let c2 = spec_run_agent(c, id, sandbox, now).0;
            &&& c2.approvals.len() == c.approvals.len() + 1
            &&& c2.approvals.last().status is Pending
            &&& c2.approvals.last().agent_id == id
            &&& c2.approvals.last().content == crate::runner::spec_trend_content()
            &&& (forall|k: int| 0 <= k < c.approvals.len() ==> c2.approvals[k] == c.approvals[k])
        }),
        spec_run_agent(c, id, sandbox, now).1 matches Ok(o) ==> !(o is Invoke),
{
}

/// Processing a direct-action agent never touches the approval queue.
pub proof fn lemma_direct_agent_touches_no_approval(c: CoreV, id: int, sandbox: bool, now: i64)
    requires
        1 <= id <= c.agents.len(),
        c.agents[id - 1].openclaw_task is Direct,
    ensures
        spec_run_agent(c, id, sandbox, now).0.approvals == c.approvals,
{
}

/// A sandbox run of a known direct action writes exactly two audit entries —
/// the processing entry and the simulated-run tag — so everything the run
/// itself records is marked as simulated.
pub proof fn lemma_sandbox_run_is_tagged(c: CoreV, id: int, now: i64)
    requires
        1 <= id <= c.agents.len(),
        ({
            &&& c.agents[id - 1].openclaw_task matches crate::model::TaskV::Direct {
                action,
                argument,
            }
            &&& spec_resolve_action(action) is Some
        }),
    ensures
        ({
            let c2 = spec_run_agent(c, id, true, now).0;
            &&& c2.logs.len() == c.logs.len() + 2
            &&& c2.logs.last().message == crate::scheduler::spec_sandbox_message()
            &&& c2.logs.last().level is Info
            &&& c2.logs[c.logs.len() as int].message == crate::scheduler::spec_processing_message(
                c.agents[id - 1].name,
            )
        }),
{
}

/// A sequence that contains an element still contains it after a push.
proof fn lemma_push_preserves_contains(s: Seq<int>, v: int, x: int)
    requires
        s.contains(x),
    ensures
        s.push(v).contains(x),
{
    let w = choose|w: int| 0 <= w < s.len() && s[w] == x;
    assert(s.push(v)[w] == x);
}

/// Completeness of the due scan: an agent that is due — `Active`, valid
/// schedule, occurrence inside the window — is in the due list.
pub proof fn lemma_due_ids_complete(agents: Seq<AgentV>, now: i64, period: int, i: int)
    requires
        0 <= i < agents.len(),
        spec_due(agents[i], now, period),
    ensures
        spec_due_ids(agents, now, period).contains(agents[i].id),
    decreases agents.len(),
{
    let s = spec_due_ids(agents, now, period);
    if i == agents.len() - 1 {
        assert(agents.last() == agents[i]);
        assert(s.last() == agents[i].id);
        assert(s.contains(agents[i].id));
    } else {
        lemma_due_ids_complete(agents.drop_last(), now, period, i);
        let rest = spec_due_ids(agents.drop_last(), now, period);
        if spec_due(agents.last(), now, period) {
            lemma_push_preserves_contains(rest, agents.last().id, agents[i].id);
        }
    }
}

/// Soundness of the due scan: every identifier in the due list belongs to
/// some agent that really is due.
pub proof fn lemma_due_ids_sound(agents: Seq<AgentV>, now: i64, period: int, id: int)
    requires
        spec_due_ids(agents, now, period).contains(id),
    ensures
        exists|i: int|
            0 <= i < agents.len() && (#[trigger] agents[i]).id == id && spec_due(
                agents[i],
                now,
                period,
            ),
    decreases agents.len(),
{
    let s = spec_due_ids(agents, now, period);
    if agents.len() == 0 {
        assert(false);
    } else {
        let rest = spec_due_ids(agents.drop_last(), now, period);
        if spec_due(agents.last(), now, period) && id == agents.last().id {
            assert(agents[agents.len() - 1].id == id);
        } else {
            let k = choose|k: int| 0 <= k < s.len() && s[k] == id;
            if spec_due(agents.last(), now, period) {
                assert(k < rest.len());
                assert(rest[k] == id);
                assert(rest.contains(id));
            }
            lemma_due_ids_sound(agents.drop_last(), now, period, id);
            let i = choose|i: int|
                0 <= i < agents.drop_last().len() && (#[trigger] agents.drop_last()[i]).id == id
                    && spec_due(agents.drop_last()[i], now, period);
            assert(agents[i] == agents.drop_last()[i]);
        }
    }
}

/// Exclusion: when identifiers are store-assigned (position plus one, as the
/// core's invariant keeps them), an agent that is not due — not `Active`, a
/// schedule that does not parse, or no occurrence in the window — is not in
/// the due list.
pub proof fn lemma_not_due_excluded(agents: Seq<AgentV>, now: i64, period: int, i: int)
    requires
        forall|p: int| 0 <= p < agents.len() ==> (#[trigger] agents[p]).id == p + 1,
        0 <= i < agents.len(),
        !spec_due(agents[i], now, period),
    ensures
        !spec_due_ids(agents, now, period).contains(agents[i].id),
{
    if spec_due_ids(agents, now, period).contains(agents[i].id) {
        lemma_due_ids_sound(agents, now, period, agents[i].id);
        let j = choose|j: int|
            0 <= j < agents.len() && (#[trigger] agents[j]).id == agents[i].id && spec_due(
                agents[j],
                now,
                period,
            );
        assert(j == i);
        assert(false);
    }
}

/// An agent that is not `Active` is excluded from the due list regardless of
/// its schedule.
pub proof fn lemma_inactive_excluded(agents: Seq<AgentV>, now: i64, period: int, i: int)
    requires
        forall|p: int| 0 <= p < agents.len() ==> (#[trigger] agents[p]).id == p + 1,
        0 <= i < agents.len(),
        !(agents[i].status is Active),
    ensures
        !spec_due_ids(agents, now, period).contains(agents[i].id),
{
    lemma_not_due_excluded(agents, now, period, i);
}

/// An active agent with a malformed schedule expression is excluded from the
/// due list (and the due scan records exactly one `Error` entry for it).
pub proof fn lemma_malformed_excluded(agents: Seq<AgentV>, now: i64, period: int, i: int)
    requires
        forall|p: int| 0 <= p < agents.len() ==> (#[trigger] agents[p]).id == p + 1,
        0 <= i < agents.len(),
        !cron_valid(agents[i].schedule),
    ensures
        !spec_due_ids(agents, now, period).contains(agents[i].id),
{
    lemma_not_due_excluded(agents, now, period, i);
}

/// How many audit entries a given agent owns.
pub open spec fn count_for(logs: Seq<LogV>, id: int) -> int
    decreases logs.len(),
{
    if logs.len() == 0 {
        0
    } else {
        count_for(logs.drop_last(), id) + if logs.last().agent_id == Some(id) {
            1int
        } else {
            0int
        }
    }
}

/// Appending one entry raises an agent's count by one exactly when the entry
/// is its own.
proof fn lemma_count_push(logs: Seq<LogV>, l: LogV, id: int)
    ensures
        count_for(logs.push(l), id) == count_for(logs, id) + if l.agent_id == Some(id) {
            1int
        } else {
            0int
        },
{
    assert(logs.push(l).drop_last() =~= logs);
    assert(logs.push(l).last() == l);
}

/// The due scan writes nothing for an identifier that none of the scanned
/// agents has.
proof fn lemma_scan_no_entry(c: CoreV, agents: Seq<AgentV>, now: i64, id: int)
    requires
        forall|p: int| 0 <= p < agents.len() ==> (#[trigger] agents[p]).id != id,
    ensures
        count_for(spec_scan_due(c, agents, now).logs, id) == count_for(c.logs, id),
    decreases agents.len(),
{
    if agents.len() > 0 {
        assert forall|p: int|
            0 <= p < agents.drop_last().len() implies (#[trigger] agents.drop_last()[p]).id
            != id by {
            assert(agents.drop_last()[p] == agents[p]);
        }
        lemma_scan_no_entry(c, agents.drop_last(), now, id);
        let c1 = spec_scan_due(c, agents.drop_last(), now);
        let a = agents.last();
        if a.status is Active && !cron_valid(a.schedule) {
            lemma_count_push(
                c1.logs,
                spec_new_log(c1, Some(a.id), spec_parse_error_message(a.name), Level::Error, now),
                id,
            );
            assert(agents[agents.len() - 1].id != id);
        }
    }
}

/// The due scan records exactly one `Error` entry per tick for an active
/// agent whose schedule expression does not parse — and, with
/// `lemma_malformed_excluded`, excludes the agent rather than failing.
pub proof fn lemma_scan_error_once(c: CoreV, agents: Seq<AgentV>, now: i64, i: int)
    requires
        forall|p: int| 0 <= p < agents.len() ==> (#[trigger] agents[p]).id == p + 1,
        0 <= i < agents.len(),
        agents[i].status is Active,
        !cron_valid(agents[i].schedule),
    ensures
        count_for(spec_scan_due(c, agents, now).logs, agents[i].id) == count_for(
            c.logs,
            agents[i].id,
        ) + 1,
    decreases agents.len(),
{
    let a = agents.last();
    let c1 = spec_scan_due(c, agents.drop_last(), now);
    assert forall|p: int|
        0 <= p < agents.drop_last().len() implies (#[trigger] agents.drop_last()[p]).id == p
        + 1 by {
        assert(agents.drop_last()[p] == agents[p]);
    }
    if i == agents.len() - 1 {
        assert forall|p: int|
            0 <= p < agents.drop_last().len() implies (#[trigger] agents.drop_last()[p]).id
            != agents[i].id by {
            assert(agents.drop_last()[p] == agents[p]);
        }
        lemma_scan_no_entry(c, agents.drop_last(), now, agents[i].id);
        lemma_count_push(
            c1.logs,
            spec_new_log(c1, Some(a.id), spec_parse_error_message(a.name), Level::Error, now),
            agents[i].id,
        );
    } else {
        lemma_scan_error_once(c, agents.drop_last(), now, i);
        if a.status is Active && !cron_valid(a.schedule) {
            lemma_count_push(
                c1.logs,
                spec_new_log(c1, Some(a.id), spec_parse_error_message(a.name), Level::Error, now),
                agents[i].id,
            );
            assert(a.id == agents.len());
            assert(agents[i].id == i + 1);
        }
    }
}

/// Processing one agent only appends audit entries, and every appended entry
/// is owned by that agent; the registry itself does not move.
proof fn lemma_run_agent_shape(c: CoreV, id: int, sandbox: bool, now: i64)
    ensures
        ({
            let c2 = spec_run_agent(c, id, sandbox, now).0;
            &&& c2.agents == c.agents
            &&& c2.polling_period == c.polling_period
            &&& c.logs.len() <= c2.logs.len() <= c.logs.len() + 2
            &&& (forall|k: int| 0 <= k < c.logs.len() ==> c2.logs[k] == c.logs[k])
            &&& (forall|k: int|
                c.logs.len() <= k < c2.logs.len() ==> (#[trigger] c2.logs[k]).agent_id == Some(id))
        }),
{
}

/// Processing the due agents in ascending identifier order appends entries
/// whose owning identifiers never decrease: one agent's entries fully
/// precede the next one's.
proof fn lemma_process_due_grouped(c: CoreV, due: Seq<int>, now: i64)
    requires
        forall|m: int, n: int| 0 <= m <= n < due.len() ==> due[m] <= due[n],
    ensures
        ({
            let s = spec_process_due(c, due, now);
            &&& c.logs.len() <= s.logs.len()
            &&& (forall|k: int| 0 <= k < c.logs.len() ==> s.logs[k] == c.logs[k])
            &&& (forall|k: int|
                c.logs.len() <= k < s.logs.len() ==> (#[trigger] s.logs[k]).agent_id is Some
                    && due.contains(s.logs[k].agent_id->0))
            &&& (forall|k1: int, k2: int|
                c.logs.len() <= k1 <= k2 < s.logs.len() ==> (#[trigger] s.logs[k1]).agent_id->0 <= (
                #[trigger] s.logs[k2]).agent_id->0)
        }),
    decreases due.len(),
{
    if due.len() > 0 {
        assert forall|m: int, n: int|
            0 <= m <= n < due.drop_last().len() implies due.drop_last()[m]
            <= due.drop_last()[n] by {
            assert(due.drop_last()[m] == due[m]);
            assert(due.drop_last()[n] == due[n]);
        }
        lemma_process_due_grouped(c, due.drop_last(), now);
        let c1 = spec_process_due(c, due.drop_last(), now);
        let id = due.last();
        lemma_run_agent_shape(c1, id, true, now);
        let s = spec_process_due(c, due, now);
        assert(due[due.len() - 1] == id);
        assert(due.contains(id));
        assert forall|k: int|
            c.logs.len() <= k < s.logs.len() implies (#[trigger] s.logs[k]).agent_id is Some
            && due.contains(s.logs[k].agent_id->0) by {
            if k < c1.logs.len() {
                let a = c1.logs[k].agent_id->0;
                assert(due.drop_last().contains(a));
                let m = choose|m: int| 0 <= m < due.drop_last().len() && due.drop_last()[m] == a;
                assert(due[m] == a);
                assert(due.contains(a));
            }
        }
        assert forall|k1: int, k2: int|
            c.logs.len() <= k1 <= k2 < s.logs.len() implies (#[trigger] s.logs[k1]).agent_id->0 <= (
        #[trigger] s.logs[k2]).agent_id->0 by {
            if k2 < c1.logs.len() {
            } else if k1 >= c1.logs.len() {
                assert(s.logs[k1].agent_id == Some(id));
                assert(s.logs[k2].agent_id == Some(id));
            } else {
                let a1 = c1.logs[k1].agent_id->0;
                assert(due.drop_last().contains(a1));
                let m = choose|m: int| 0 <= m < due.drop_last().len() && due.drop_last()[m] == a1;
                assert(due[m] == a1);
                assert(due[m] <= due[due.len() - 1]);
                assert(s.logs[k2].agent_id == Some(id));
            }
        }
    }
}

/// The due scan moves nothing but the audit log, and every entry it appends
/// is owned by some agent that is `Active` in the scanned registry.
proof fn lemma_scan_shape(c: CoreV, agents: Seq<AgentV>, now: i64)
    ensures
        ({
            let s = spec_scan_due(c, agents, now);
            &&& s.agents == c.agents
            &&& s.approvals == c.approvals
            &&& s.polling_period == c.polling_period
            &&& c.logs.len() <= s.logs.len()
            &&& (forall|k: int| 0 <= k < c.logs.len() ==> s.logs[k] == c.logs[k])
            &&& (forall|k: int| #![trigger s.logs[k]]
                c.logs.len() <= k < s.logs.len() ==> exists|j: int|
                    0 <= j < agents.len() && (#[trigger] agents[j]).status is Active
                        && s.logs[k].agent_id == Some(agents[j].id))
        }),
    decreases agents.len(),
{
    if agents.len() > 0 {
        lemma_scan_shape(c, agents.drop_last(), now);
        let s1 = spec_scan_due(c, agents.drop_last(), now);
        let s = spec_scan_due(c, agents, now);
        assert forall|k: int| #![trigger s.logs[k]]
            c.logs.len() <= k < s.logs.len() implies exists|j: int|
            0 <= j < agents.len() && (#[trigger] agents[j]).status is Active && s.logs[k].agent_id
                == Some(agents[j].id) by {
            if k < s1.logs.len() {
                let j = choose|j: int|
                    0 <= j < agents.drop_last().len() && (#[trigger] agents.drop_last()[j]).status
                        is Active && s1.logs[k].agent_id == Some(agents.drop_last()[j].id);
                assert(agents[j] == agents.drop_last()[j]);
                assert(agents[j].status is Active && s.logs[k].agent_id == Some(agents[j].id));
            } else {
                let j = agents.len() - 1;
                assert(agents[j].status is Active && s.logs[k].agent_id == Some(agents[j].id));
            }
        }
    }
}

/// Processing a due list leaves every agent whose identifier is not on the
/// list exactly as it was.
proof fn lemma_process_preserves_other_agents(c: CoreV, due: Seq<int>, now: i64, p: int)
    requires
        0 <= p < c.agents.len(),
        !due.contains(p + 1),
    ensures
        spec_process_due(c, due, now).agents.len() == c.agents.len(),
        spec_process_due(c, due, now).agents[p] == c.agents[p],
    decreases due.len(),
{
    if due.len() > 0 {
        if due.drop_last().contains(p + 1) {
            let m = choose|m: int|
                0 <= m < due.drop_last().len() && due.drop_last()[m] == p + 1;
            assert(due[m] == p + 1);
            assert(false);
        }
        lemma_process_preserves_other_agents(c, due.drop_last(), now, p);
        let c1 = spec_process_due(c, due.drop_last(), now);
        let id = due.last();
        assert(due[due.len() - 1] == id);
        assert(due.contains(id));
        lemma_run_agent_shape(c1, id, true, now);
    }
}

/// An agent that is not `Active` is untouched by a whole tick: the tick
/// writes no audit entry owned by it, and its fields — `last_run_at`
/// included — stay exactly as they were, whatever its schedule says.
pub proof fn lemma_inactive_agent_untouched(c: CoreV, now: i64, i: int)
    requires
        inv(c),
        0 <= i < c.agents.len(),
        !(c.agents[i].status is Active),
    ensures
        ({
            let s = spec_sandbox_tick(c, now);
            &&& s.agents.len() == c.agents.len()
            &&& s.agents[i] == c.agents[i]
            &&& (forall|k: int|
                c.logs.len() <= k < s.logs.len() ==> (#[trigger] s.logs[k]).agent_id != Some(
                    c.agents[i].id,
                ))
        }),
{
    let scanned = spec_scan_due(c, c.agents, now);
    let due = spec_due_ids(c.agents, now, c.polling_period);
    let s = spec_sandbox_tick(c, now);
    lemma_scan_shape(c, c.agents, now);
    lemma_inactive_excluded(c.agents, now, c.polling_period, i);
    assert(c.agents[i].id == i + 1);
    lemma_process_preserves_other_agents(scanned, due, now, i);
    lemma_due_ids_sorted(c.agents, now, c.polling_period);
    lemma_process_due_grouped(scanned, due, now);
    assert forall|k: int|
        c.logs.len() <= k < s.logs.len() implies (#[trigger] s.logs[k]).agent_id != Some(
        c.agents[i].id,
    ) by {
        if k < scanned.logs.len() {
            assert(s.logs[k] == scanned.logs[k]);
            let j = choose|j: int|
                0 <= j < c.agents.len() && (#[trigger] c.agents[j]).status is Active
                    && scanned.logs[k].agent_id == Some(c.agents[j].id);
            if s.logs[k].agent_id == Some(c.agents[i].id) {
                assert(c.agents[j].id == c.agents[i].id);
                assert(j == i);
                assert(false);
            }
        } else {
            assert(s.logs[k].agent_id is Some && due.contains(s.logs[k].agent_id->0));
            if s.logs[k].agent_id == Some(c.agents[i].id) {
                assert(due.contains(c.agents[i].id));
                assert(false);
            }
        }
    }
}

/// With store-assigned identifiers the due list is ascending, and every
/// identifier on it names a registered agent.
pub proof fn lemma_due_ids_sorted(agents: Seq<AgentV>, now: i64, period: int)
    requires
        forall|p: int| 0 <= p < agents.len() ==> (#[trigger] agents[p]).id == p + 1,
    ensures
        ({
            let d = spec_due_ids(agents, now, period);
            &&& (forall|m: int, n: int| 0 <= m <= n < d.len() ==> d[m] <= d[n])
            &&& (forall|m: int| 0 <= m < d.len() ==> 1 <= #[trigger] d[m] <= agents.len())
        }),
    decreases agents.len(),
{
    if agents.len() > 0 {
        assert forall|p: int|
            0 <= p < agents.drop_last().len() implies (#[trigger] agents.drop_last()[p]).id == p
            + 1 by {
            assert(agents.drop_last()[p] == agents[p]);
        }
        lemma_due_ids_sorted(agents.drop_last(), now, period);
        assert(agents[agents.len() - 1].id == agents.len());
        let d = spec_due_ids(agents, now, period);
        let rest = spec_due_ids(agents.drop_last(), now, period);
        if spec_due(agents.last(), now, period) {
            assert(d == rest.push(agents.last().id));
            assert forall|m: int| 0 <= m < d.len() implies 1 <= #[trigger] d[m]
                <= agents.len() by {
                if m < rest.len() {
                    assert(d[m] == rest[m]);
                } else {
                    assert(d[m] == agents.last().id);
                }
            }
            assert forall|m: int, n: int| 0 <= m <= n < d.len() implies d[m] <= d[n] by {
                if n < rest.len() {
                    assert(d[m] == rest[m]);
                    assert(d[n] == rest[n]);
                } else {
                    assert(d[n] == agents.last().id);
                    if m < rest.len() {
                        assert(d[m] == rest[m]);
                        assert(rest[m] <= agents.drop_last().len());
                    }
                }
            }
        }
    }
}

/// Ordering within a tick: after the due scan's own entries, the entries a
/// sandbox tick appends carry non-decreasing owning identifiers — so when
/// two agents are both due, every entry from processing the lower identifier
/// precedes every entry from processing the higher one.
pub proof fn lemma_tick_processing_ordered(c: CoreV, now: i64, k1: int, k2: int)
    requires
        inv(c),
        spec_scan_due(c, c.agents, now).logs.len() <= k1,
        k1 <= k2,
        k2 < spec_sandbox_tick(c, now).logs.len(),
    ensures
        ({
            let s = spec_sandbox_tick(c, now);
            &&& s.logs[k1].agent_id is Some
            &&& s.logs[k2].agent_id is Some
            &&& s.logs[k1].agent_id->0 <= s.logs[k2].agent_id->0
        }),
{
    let scanned = spec_scan_due(c, c.agents, now);
    let due = spec_due_ids(c.agents, now, c.polling_period);
    lemma_due_ids_sorted(c.agents, now, c.polling_period);
    lemma_process_due_grouped(scanned, due, now);
}

} // verus!
