//! Data model of the scheduling core: agents, audit log entries, approval
//! requests, action results, and the spec-level views they are reasoned
//! about with.

use vstd::prelude::*;

verus! {

/// Lifecycle status of an agent.
#[derive(Clone, Copy, PartialEq, Eq, Structural, Debug)]
pub enum Status {
    Active,
    Paused,
}

/// Severity of an audit log entry.
#[derive(Clone, Copy, PartialEq, Eq, Structural, Debug)]
pub enum Level {
    Info,
    Error,
}

/// Status of an approval request. Once resolved it never changes again.
#[derive(Clone, Copy, PartialEq, Eq, Structural, Debug)]
pub enum ApprovalStatus {
    Pending,
    Approved,
    Rejected,
}

/// What an agent does when it is due: draft content that must pass the
/// approval gate, or run a named external action directly.
pub enum Task {
    Content { goal: String },
    Direct { action: String, argument: String },
}

/// Spec-level view of a `Task`.
pub enum TaskV {
    Content { goal: Seq<char> },
    Direct { action: Seq<char>, argument: Seq<char> },
}

impl View for Task {
    type V = TaskV;

    open spec fn view(&self) -> TaskV {
        match self {
            Task::Content { goal } => TaskV::Content { goal: goal@ },
            Task::Direct { action, argument } => TaskV::Direct {
                action: action@,
                argument: argument@,
            },
        }
    }
}

impl DeepView for Task {
    type V = TaskV;

    open spec fn deep_view(&self) -> TaskV {
        self@
    }
}

impl Clone for Task {
    fn clone(&self) -> (r: Self)
        ensures
            r@ == self@,
    {
        match self {
            Task::Content { goal } => Task::Content { goal: goal.clone() },
            Task::Direct { action, argument } => Task::Direct {
                action: action.clone(),
                argument: argument.clone(),
            },
        }
    }
}

/// A named, schedule-bound automation task definition.
pub struct Agent {
    pub id: usize,
    pub name: String,
    pub description: String,
    pub openclaw_task: Task,
    pub schedule: String,
    pub status: Status,
    pub last_run_at: Option<i64>,
    pub next_run_at: Option<i64>,
}

/// Spec-level view of an `Agent`.
pub struct AgentV {
    pub id: int,
    pub name: Seq<char>,
    pub description: Seq<char>,
    pub openclaw_task: TaskV,
    pub schedule: Seq<char>,
    pub status: Status,
    pub last_run_at: Option<int>,
    pub next_run_at: Option<int>,
}

impl View for Agent {
    type V = AgentV;

    open spec fn view(&self) -> AgentV {
        AgentV {
            id: self.id as int,
            name: self.name@,
            description: self.description@,
            openclaw_task: self.openclaw_task@,
            schedule: self.schedule@,
            status: self.status,
            last_run_at: match self.last_run_at {
                Some(t) => Some(t as int),
                None => None,
            },
            next_run_at: match self.next_run_at {
                Some(t) => Some(t as int),
                None => None,
            },
        }
    }
}

impl DeepView for Agent {
    type V = AgentV;

    open spec fn deep_view(&self) -> AgentV {
        self@
    }
}

impl Clone for Agent {
    fn clone(&self) -> (r: Self)
        ensures
            r@ == self@,
    {
        Agent {
            id: self.id,
            name: self.name.clone(),
            description: self.description.clone(),
            openclaw_task: self.openclaw_task.clone(),
            schedule: self.schedule.clone(),
            status: self.status,
            last_run_at: self.last_run_at,
            next_run_at: self.next_run_at,
        }
    }
}

/// One append-only audit log entry.
pub struct Log {
    pub id: usize,
    pub agent_id: Option<usize>,
    pub timestamp: i64,
    pub message: String,
    pub level: Level,
}

/// Spec-level view of a `Log`.
pub struct LogV {
    pub id: int,
    pub agent_id: Option<int>,
    pub timestamp: int,
    pub message: Seq<char>,
    pub level: Level,
}

impl View for Log {
    type V = LogV;

    open spec fn view(&self) -> LogV {
        LogV {
            id: self.id as int,
            agent_id: match self.agent_id {
                Some(i) => Some(i as int),
                None => None,
            },
            timestamp: self.timestamp as int,
            message: self.message@,
            level: self.level,
        }
    }
}

impl DeepView for Log {
    type V = LogV;

    open spec fn deep_view(&self) -> LogV {
        self@
    }
}

impl Clone for Log {
    fn clone(&self) -> (r: Self)
        ensures
            r@ == self@,
    {
        Log {
            id: self.id,
            agent_id: self.agent_id,
            timestamp: self.timestamp,
            message: self.message.clone(),
            level: self.level,
        }
    }
}

/// A content draft held for a human decision before any external side effect.
pub struct Approval {
    pub id: usize,
    pub agent_id: usize,
    pub content: String,
    pub status: ApprovalStatus,
}

/// Spec-level view of an `Approval`.
pub struct ApprovalV {
    pub id: int,
    pub agent_id: int,
    pub content: Seq<char>,
    pub status: ApprovalStatus,
}

impl View for Approval {
    type V = ApprovalV;

    open spec fn view(&self) -> ApprovalV {
        ApprovalV {
            id: self.id as int,
            agent_id: self.agent_id as int,
            content: self.content@,
            status: self.status,
        }
    }
}

impl DeepView for Approval {
    type V = ApprovalV;

    open spec fn deep_view(&self) -> ApprovalV {
        self@
    }
}

impl Clone for Approval {
    fn clone(&self) -> (r: Self)
        ensures
            r@ == self@,
    {
        Approval {
            id: self.id,
            agent_id: self.agent_id,
            content: self.content.clone(),
            status: self.status,
        }
    }
}

/// Structured result of one external action run: success flag, captured
/// standard output, and the captured error text if there was any. Every
/// failure mode of an action is folded into this shape; none escapes.
pub struct OpenClawResult {
    pub success: bool,
    pub output: String,
    pub error: Option<String>,
}

/// Spec-level view of an `OpenClawResult`.
pub struct OpenClawResultV {
    pub success: bool,
    pub output: Seq<char>,
    pub error: Option<Seq<char>>,
}

impl View for OpenClawResult {
    type V = OpenClawResultV;

    open spec fn view(&self) -> OpenClawResultV {
        OpenClawResultV {
            success: self.success,
            output: self.output@,
            error: match &self.error {
                Some(e) => Some(e@),
                None => None,
            },
        }
    }
}

impl DeepView for OpenClawResult {
    type V = OpenClawResultV;

    open spec fn deep_view(&self) -> OpenClawResultV {
        self@
    }
}

impl Clone for OpenClawResult {
    fn clone(&self) -> (r: Self)
        ensures
            r@ == self@,
    {
        OpenClawResult {
            success: self.success,
            output: self.output.clone(),
            error: match &self.error {
                Some(e) => Some(e.clone()),
                None => None,
            },
        }
    }
}

/// A demand to run one external action: the script to invoke and its single
/// string argument. The core only produces these; performing them is the
/// embedder's job.
pub struct Invocation {
    pub agent_id: Option<usize>,
    pub script: String,
    pub argument: String,
}

/// Spec-level view of an `Invocation`.
pub struct InvocationV {
    pub agent_id: Option<int>,
    pub script: Seq<char>,
    pub argument: Seq<char>,
}

impl View for Invocation {
    type V = InvocationV;

    open spec fn view(&self) -> InvocationV {
        InvocationV {
            agent_id: match self.agent_id {
                Some(i) => Some(i as int),
                None => None,
            },
            script: self.script@,
            argument: self.argument@,
        }
    }
}

impl DeepView for Invocation {
    type V = InvocationV;

    open spec fn deep_view(&self) -> InvocationV {
        self@
    }
}

/// Why resolving an approval request was refused.
#[derive(Clone, Copy, PartialEq, Eq, Structural, Debug)]
pub enum ResolveError {
    NotFound,
    AlreadyResolved,
}

/// Why an immediate agent run was refused.
#[derive(Clone, Copy, PartialEq, Eq, Structural, Debug)]
pub enum RunError {
    AgentNotFound,
}

/// What processing one agent produced: a pending approval, a completed
/// (simulated or folded-failure) result, or a demand for one external
/// invocation that the embedder must perform.
pub enum RunOutcome {
    ApprovalCreated { approval_id: usize },
    Ran { result: OpenClawResult },
    Invoke { invocation: Invocation },
}

/// Spec-level view of a `RunOutcome`.
pub enum RunOutcomeV {
    ApprovalCreated { approval_id: int },
    Ran { result: OpenClawResultV },
    Invoke { invocation: InvocationV },
}

impl View for RunOutcome {
    type V = RunOutcomeV;

    open spec fn view(&self) -> RunOutcomeV {
        match self {
            RunOutcome::ApprovalCreated { approval_id } => RunOutcomeV::ApprovalCreated {
                approval_id: *approval_id as int,
            },
            RunOutcome::Ran { result } => RunOutcomeV::Ran { result: result@ },
            RunOutcome::Invoke { invocation } => RunOutcomeV::Invoke { invocation: invocation@ },
        }
    }
}

/// What was detected about the host environment; filled in by the embedder
/// from tool lookups, combined here so the derivation is checked.
pub struct EnvInfo {
    pub os: String,
    pub has_node: bool,
    pub has_pnpm: bool,
    pub has_openclaw: bool,
    pub has_ollama: bool,
    pub has_playwright: bool,
}

impl EnvInfo {
    /// Combine raw detection facts. Playwright is only considered available
    /// when pnpm is present and answered a version probe.
    pub fn from_detection(
        os: String,
        has_node: bool,
        has_pnpm: bool,
        has_openclaw: bool,
        has_ollama: bool,
        pnpm_responds: bool,
    ) -> (r: EnvInfo)
        ensures
            r.os@ == os@,
            r.has_node == has_node,
            r.has_pnpm == has_pnpm,
            r.has_openclaw == has_openclaw,
            r.has_ollama == has_ollama,
            r.has_playwright == (has_pnpm && pnpm_responds),
    {
        EnvInfo {
            os,
            has_node,
            has_pnpm,
            has_openclaw,
            has_ollama,
            has_playwright: has_pnpm && pnpm_responds,
        }
    }
}

} // verus!
