//! The core's state: agent registry, append-only audit log, approval queue
//! and settings, held as one value and mutated only through verified
//! transitions that mirror their spec-level counterparts exactly.

use vstd::prelude::*;
use vstd::string::StringExecFns;

use crate::model::{Agent, AgentV, Approval, ApprovalV, Level, Log, LogV, Status, Task, TaskV};

verus! {

/// The whole persistent state the core works over. The embedder loads it
/// from durable storage, drives transitions, and writes it back; the core
/// itself never touches storage.
pub struct Core {
    pub agents: Vec<Agent>,
    pub logs: Vec<Log>,
    pub approvals: Vec<Approval>,
    pub llm_api_key: Option<String>,
    pub polling_period: i64,
    pub sandbox_default: bool,
}

/// Spec-level view of the whole core state.
#[verifier::ext_equal]
pub struct CoreV {
    pub agents: Seq<AgentV>,
    pub logs: Seq<LogV>,
    pub approvals: Seq<ApprovalV>,
    pub llm_api_key: Option<Seq<char>>,
    pub polling_period: int,
    pub sandbox_default: bool,
}

impl View for Core {
    type V = CoreV;

    open spec fn view(&self) -> CoreV {
        CoreV {
            agents: self.agents.deep_view(),
            logs: self.logs.deep_view(),
            approvals: self.approvals.deep_view(),
            llm_api_key: match &self.llm_api_key {
                Some(k) => Some(k@),
                None => None,
            },
            polling_period: self.polling_period as int,
            sandbox_default: self.sandbox_default,
        }
    }
}

/// Well-formedness: the polling period is positive, every row's identifier
/// is its position plus one (so identifiers are unique, ascending and
/// store-assigned), and audit timestamps never decrease.
pub open spec fn inv(c: CoreV) -> bool {
    &&& c.polling_period > 0
    &&& forall|i: int| 0 <= i < c.agents.len() ==> (#[trigger] c.agents[i]).id == i + 1
    &&& forall|i: int| 0 <= i < c.logs.len() ==> (#[trigger] c.logs[i]).id == i + 1
    &&& forall|i: int| 0 <= i < c.approvals.len() ==> (#[trigger] c.approvals[i]).id == i + 1
    &&& forall|i: int, j: int|
        0 <= i <= j < c.logs.len() ==> (#[trigger] c.logs[i]).timestamp <= (#[trigger] c.logs[j]).timestamp
}

/// A new audit entry may carry this creation time: it does not precede the
/// newest entry already recorded.
pub open spec fn accepts_time(c: CoreV, now: i64) -> bool {
    c.logs.len() == 0 || c.logs.last().timestamp <= now
}

/// Spec-level form of an `Option<usize>` identifier.
pub open spec fn opt_id(o: Option<usize>) -> Option<int> {
    match o {
        Some(i) => Some(i as int),
        None => None,
    }
}

/// State after registering one new agent: it is appended with the next
/// store-assigned identifier, `Active`, and no run timestamps yet.
pub open spec fn spec_create_agent(
    c: CoreV,
    name: Seq<char>,
    description: Seq<char>,
    task: TaskV,
    schedule: Seq<char>,
) -> CoreV {
    CoreV {
        agents: c.agents.push(
            AgentV {
                id: c.agents.len() as int + 1,
                name,
                description,
                openclaw_task: task,
                schedule,
                status: Status::Active,
                last_run_at: None,
                next_run_at: None,
            },
        ),
        ..c
    }
}

/// State after `mark_ran`: the agent's `last_run_at` becomes the run time;
/// an unknown identifier changes nothing (the update is safe to repeat and
/// safe against concurrent deletion).
pub open spec fn spec_mark_ran(c: CoreV, agent_id: int, ran_at: i64) -> CoreV {
    if 1 <= agent_id <= c.agents.len() {
        CoreV {
            agents: c.agents.update(
                agent_id - 1,
                AgentV { last_run_at: Some(ran_at as int), ..c.agents[agent_id - 1] },
            ),
            ..c
        }
    } else {
        c
    }
}

/// State after `record_next`: the agent's advisory `next_run_at` cache is
/// replaced; an unknown identifier changes nothing.
pub open spec fn spec_record_next(c: CoreV, agent_id: int, next_at: Option<int>) -> CoreV {
    if 1 <= agent_id <= c.agents.len() {
        CoreV {
            agents: c.agents.update(
                agent_id - 1,
                AgentV { next_run_at: next_at, ..c.agents[agent_id - 1] },
            ),
            ..c
        }
    } else {
        c
    }
}

/// The audit entry appended by `Core::log_event`.
pub open spec fn spec_new_log(c: CoreV, agent_id: Option<int>, message: Seq<char>, level: Level, now: i64) -> LogV {
    LogV {
        id: c.logs.len() as int + 1,
        agent_id,
        timestamp: now as int,
        message,
        level,
    }
}

/// State after appending one audit entry; nothing else moves.
pub open spec fn spec_log_event(c: CoreV, agent_id: Option<int>, message: Seq<char>, level: Level, now: i64) -> CoreV {
    CoreV { logs: c.logs.push(spec_new_log(c, agent_id, message, level, now)), ..c }
}

impl Core {
    /// Make an empty core with the given polling period (seconds) and the
    /// default execution mode for unscheduled runs.
    pub fn new(polling_period: i64, sandbox_default: bool) -> (r: Core)
        requires
            polling_period > 0,
        ensures
            inv(r@),
            r@.agents =~= Seq::<AgentV>::empty(),
            r@.logs =~= Seq::<LogV>::empty(),
            r@.approvals =~= Seq::<ApprovalV>::empty(),
            r@.llm_api_key is None,
            r@.polling_period == polling_period as int,
            r@.sandbox_default == sandbox_default,
    {
        Core {
            agents: Vec::new(),
            logs: Vec::new(),
            approvals: Vec::new(),
            llm_api_key: None,
            polling_period,
            sandbox_default,
        }
    }

    /// Append one audit entry. The log is append-only: no entry is ever
    /// mutated or deleted, and this is the only way one is created.
    pub fn log_event(&mut self, agent_id: Option<usize>, message: String, level: Level, now: i64)
        requires
            inv(old(self)@),
            accepts_time(old(self)@, now),
            old(self)@.logs.len() < usize::MAX,
        ensures
            inv(final(self)@),
            accepts_time(final(self)@, now),
            final(self)@ =~= spec_log_event(old(self)@, opt_id(agent_id), message@, level, now),
    {
        let id: usize = self.logs.len() + 1;
        self.logs.push(Log { id, agent_id, timestamp: now, message, level });
        assert(self@.logs =~= old(self)@.logs.push(
            spec_new_log(old(self)@, opt_id(agent_id), self.logs@.last().message@, level, now),
        ));
    }

    /// Register a new agent with a store-assigned identifier. New agents
    /// start `Active`, with an empty description and no run timestamps.
    /// Returns the new identifier.
    pub fn create_agent(&mut self, name: String, task: Task, schedule: String) -> (id: usize)
        requires
            inv(old(self)@),
            old(self)@.agents.len() < usize::MAX,
        ensures
            inv(final(self)@),
            id == old(self)@.agents.len() + 1,
            final(self)@ =~= spec_create_agent(
                old(self)@,
                name@,
                Seq::<char>::empty(),
                task@,
                schedule@,
            ),
    {
        let id: usize = self.agents.len() + 1;
        self.agents.push(
            Agent {
                id,
                name,
                description: String::new(),
                openclaw_task: task,
                schedule,
                status: Status::Active,
                last_run_at: None,
                next_run_at: None,
            },
        );
        assert(self@.agents =~= spec_create_agent(
            old(self)@,
            self.agents@.last().name@,
            Seq::<char>::empty(),
            self.agents@.last().openclaw_task@,
            self.agents@.last().schedule@,
        ).agents);
        id
    }

    /// Seed the registry with the two demonstration agents: a
    /// content-producing trend researcher reviewed daily at 09:00, and an
    /// hourly direct commenting agent. Returns their identifiers.
    pub fn create_demo_agents(&mut self) -> (ids: (usize, usize))
        requires
            inv(old(self)@),
            old(self)@.agents.len() + 2 <= usize::MAX,
        ensures
            inv(final(self)@),
            ids.0 == old(self)@.agents.len() + 1,
            ids.1 == old(self)@.agents.len() + 2,
            final(self)@ =~= spec_create_agent(
                spec_create_agent(
                    old(self)@,
                    "Trending LinkedIn Agent"@,
                    Seq::<char>::empty(),
                    (TaskV::Content {
                        goal:
                            "Search OpenClaw trending topics and draft a LinkedIn post; request approval before posting."@,
                    }),
                    "0 0 9 * * *"@,
                ),
                "Hashtag Comment Agent"@,
                Seq::<char>::empty(),
                (TaskV::Direct { action: "linkedin_comment"@, argument: "#openclaw"@ }),
                "0 0 * * * *"@,
            ),
    {
        let first = self.create_agent(
            String::from_str("Trending LinkedIn Agent"),
            Task::Content {
                goal: String::from_str(
                    "Search OpenClaw trending topics and draft a LinkedIn post; request approval before posting.",
                ),
            },
            String::from_str("0 0 9 * * *"),
        );
        let second = self.create_agent(
            String::from_str("Hashtag Comment Agent"),
            Task::Direct {
                action: String::from_str("linkedin_comment"),
                argument: String::from_str("#openclaw"),
            },
            String::from_str("0 0 * * * *"),
        );
        (first, second)
    }

    /// Idempotent update of an agent's last-run timestamp; a no-op when no
    /// such agent exists.
    pub fn mark_ran(&mut self, agent_id: usize, ran_at: i64)
        requires
            inv(old(self)@),
        ensures
            inv(final(self)@),
            final(self)@ =~= spec_mark_ran(old(self)@, agent_id as int, ran_at),
    {
        if 1 <= agent_id && agent_id <= self.agents.len() {
            self.agents[agent_id - 1].last_run_at = Some(ran_at);
            assert(self@.agents =~= spec_mark_ran(old(self)@, agent_id as int, ran_at).agents);
        }
    }

    /// Advisory update of an agent's cached next occurrence; a no-op when no
    /// such agent exists. The cache is observational only: due decisions are
    /// always re-derived from the schedule expression.
    pub fn record_next(&mut self, agent_id: usize, next_at: Option<i64>)
        requires
            inv(old(self)@),
        ensures
            inv(final(self)@),
            final(self)@ =~= spec_record_next(
                old(self)@,
                agent_id as int,
                match next_at {
                    Some(t) => Some(t as int),
                    None => None,
                },
            ),
    {
        if 1 <= agent_id && agent_id <= self.agents.len() {
            self.agents[agent_id - 1].next_run_at = next_at;
            assert(self@.agents =~= spec_record_next(
                old(self)@,
                agent_id as int,
                match next_at {
                    Some(t) => Some(t as int),
                    None => None,
                },
            ).agents);
        }
    }

    /// All registered agents, in registration order.
    pub fn get_agents(&self) -> (r: Vec<Agent>)
        ensures
            r.deep_view() =~= self@.agents,
    {
        let mut r: Vec<Agent> = Vec::new();
        let mut i: usize = 0;
        while i < self.agents.len()
            invariant
                i <= self.agents.len(),
                r.deep_view() =~= self@.agents.take(i as int),
            decreases self.agents.len() - i,
        {
            r.push(self.agents[i].clone());
            assert(r.deep_view() =~= self@.agents.take(i as int).push(self@.agents[i as int]));
            assert(self@.agents.take(i as int).push(self@.agents[i as int]) =~= self@.agents.take(
                i as int + 1,
            ));
            i = i + 1;
        }
        assert(self@.agents.take(self.agents@.len() as int) =~= self@.agents);
        r
    }

    /// The most recent audit entries, newest first, at most `limit` of them.
    pub fn get_logs(&self, limit: usize) -> (r: Vec<Log>)
        ensures
            r.deep_view().len() == if limit <= self@.logs.len() {
                limit as int
            } else {
                self@.logs.len() as int
            },
            forall|i: int|
                0 <= i < r.deep_view().len() ==> r.deep_view()[i] == self@.logs[self@.logs.len() - 1
                    - i],
    {
        let n: usize = self.logs.len();
        let count: usize = if limit <= n {
            limit
        } else {
            n
        };
        let mut r: Vec<Log> = Vec::new();
        let mut i: usize = 0;
        while i < count
            invariant
                i <= count,
                count <= n,
                n == self@.logs.len(),
                r.deep_view().len() == i as int,
                forall|k: int|
                    0 <= k < i as int ==> r.deep_view()[k] == self@.logs[n as int - 1 - k],
            decreases count - i,
        {
            let ghost r_prev = r.deep_view();
            r.push(self.logs[n - 1 - i].clone());
            assert(r.deep_view() =~= r_prev.push(self@.logs[n as int - 1 - i as int]));
            i = i + 1;
        }
        r
    }

    /// The configured language-model key, if one was stored.
    pub fn get_llm_settings(&self) -> (r: Option<String>)
        ensures
            match r {
                Some(k) => self@.llm_api_key == Some(k@),
                None => self@.llm_api_key is None,
            },
    {
        match &self.llm_api_key {
            Some(k) => Some(k.clone()),
            None => None,
        }
    }

    /// Replace the stored language-model key.
    pub fn update_llm_settings(&mut self, key: String)
        ensures
            final(self)@ =~= (CoreV { llm_api_key: Some(key@), ..old(self)@ }),
    {
        self.llm_api_key = Some(key);
    }
}

} // verus!
