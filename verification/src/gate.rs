//! The approval gate: content drafted by an agent waits here as a `Pending`
//! request until a human resolves it. Resolution is the only writer of a
//! request's status and the only trigger of a post-approval invocation, and
//! it happens at most once per request: the status is written first, so a
//! retry after a crash between the write and the external run is refused
//! rather than running the action twice (the one run may be lost, never
//! doubled — the at-least-once model's documented choice).

use vstd::prelude::*;
use vstd::string::StringExecFns;

use crate::model::{Approval, ApprovalStatus, ApprovalV, Invocation, InvocationV, Level, ResolveError};
use crate::store::{accepts_time, inv, spec_log_event, Core, CoreV};

verus! {

/// Audit message recorded when a content item is queued for review.
pub open spec fn spec_enqueue_message() -> Seq<char> {
    "Created approval request"@
}

/// Audit message prefix when an approved draft triggers its action.
pub open spec fn spec_approved_prefix() -> Seq<char> {
    "Triggering LinkedIn post for content: "@
}

/// Audit message when a draft is rejected.
pub open spec fn spec_rejected_message() -> Seq<char> {
    "Rejected approval request"@
}

/// The script an approved draft is posted with.
pub open spec fn spec_post_script() -> Seq<char> {
    "linkedin_post.cjs"@
}

/// State after enqueueing one draft: a `Pending` request with the next
/// store-assigned identifier, plus one audit entry.
pub open spec fn spec_enqueue(c: CoreV, agent_id: int, content: Seq<char>, now: i64) -> CoreV {
    let queued = CoreV {
        approvals: c.approvals.push(
            ApprovalV {
                id: c.approvals.len() as int + 1,
                agent_id,
                content,
                status: ApprovalStatus::Pending,
            },
        ),
        ..c
    };
    spec_log_event(queued, Some(agent_id), spec_enqueue_message(), Level::Info, now)
}

/// Spec-level form of what `resolve` returns.
pub open spec fn resolve_result_v(r: Result<Option<Invocation>, ResolveError>) -> Result<
    Option<InvocationV>,
    ResolveError,
> {
    match r {
        Ok(Some(demand)) => Ok(Some(demand@)),
        Ok(None) => Ok(None),
        Err(e) => Err(e),
    }
}

/// State and result of resolving a request: an unknown identifier is
/// `NotFound`; a request no longer `Pending` is `AlreadyResolved` and moves
/// nothing; otherwise the status becomes `Approved` or `Rejected` — never to
/// change again — one audit entry is written, and exactly when approving,
/// exactly one invocation demand carrying the draft is produced.
pub open spec fn spec_resolve(c: CoreV, id: int, approved: bool, now: i64) -> (CoreV, Result<
    Option<InvocationV>,
    ResolveError,
>) {
    if !(1 <= id <= c.approvals.len()) {
        (c, Err(ResolveError::NotFound))
    } else {
        let req = c.approvals[id - 1];
        if !(req.status is Pending) {
            (c, Err(ResolveError::AlreadyResolved))
        } else if approved {
            let written = CoreV {
                approvals: c.approvals.update(
                    id - 1,
                    ApprovalV { status: ApprovalStatus::Approved, ..req },
                ),
                ..c
            };
            let logged = spec_log_event(
                written,
                Some(req.agent_id),
                spec_approved_prefix() + req.content,
                Level::Info,
                now,
            );
            (
                logged,
                Ok(
                    Some(
                        InvocationV {
                            agent_id: Some(req.agent_id),
                            script: spec_post_script(),
                            argument: req.content,
                        },
                    ),
                ),
            )
        } else {
            let written = CoreV {
                approvals: c.approvals.update(
                    id - 1,
                    ApprovalV { status: ApprovalStatus::Rejected, ..req },
                ),
                ..c
            };
            let logged = spec_log_event(
                written,
                Some(req.agent_id),
                spec_rejected_message(),
                Level::Info,
                now,
            );
            (logged, Ok(None))
        }
    }
}

/// The requests still waiting for a decision, in creation order.
pub open spec fn spec_pending(s: Seq<ApprovalV>) -> Seq<ApprovalV>
    decreases s.len(),
{
    if s.len() == 0 {
        Seq::<ApprovalV>::empty()
    } else {
        let rest = spec_pending(s.drop_last());
        if s.last().status is Pending {
            rest.push(s.last())
        } else {
            rest
        }
    }
}

impl Core {
    /// Hold a content draft for human decision: creates a `Pending` request
    /// owned by the given agent and records one audit entry. Returns the new
    /// request identifier.
    pub fn enqueue_approval(&mut self, agent_id: usize, content: String, now: i64) -> (id: usize)
        requires
            inv(old(self)@),
            accepts_time(old(self)@, now),
            old(self)@.approvals.len() < usize::MAX,
            old(self)@.logs.len() < usize::MAX,
        ensures
            inv(final(self)@),
            accepts_time(final(self)@, now),
            id == old(self)@.approvals.len() + 1,
            final(self)@ =~= spec_enqueue(old(self)@, agent_id as int, content@, now),
    {
        let id: usize = self.approvals.len() + 1;
        self.approvals.push(
            Approval { id, agent_id, content, status: ApprovalStatus::Pending },
        );
        assert(self@.approvals =~= spec_enqueue(
            old(self)@,
            agent_id as int,
            self.approvals@.last().content@,
            now,
        ).approvals);
        assert(inv(self@));
        self.log_event(
            Some(agent_id),
            String::from_str("Created approval request"),
            Level::Info,
            now,
        );
        id
    }

    /// Resolve a `Pending` request. On approval the status is written and
    /// exactly one invocation demand for the draft is returned; the embedder
    /// performs it. On rejection nothing is ever invoked. Resolving a
    /// resolved request refuses with `AlreadyResolved` and moves nothing, so
    /// a retry never repeats the side effect.
    pub fn resolve(&mut self, id: usize, approved: bool, now: i64) -> (r: Result<
        Option<Invocation>,
        ResolveError,
    >)
        requires
            inv(old(self)@),
            accepts_time(old(self)@, now),
            old(self)@.logs.len() < usize::MAX,
        ensures
            inv(final(self)@),
            final(self)@ =~= spec_resolve(old(self)@, id as int, approved, now).0,
            resolve_result_v(r) == spec_resolve(old(self)@, id as int, approved, now).1,
    {
        if id < 1 || id > self.approvals.len() {
            return Err(ResolveError::NotFound);
        }
        let idx: usize = id - 1;
        if !(self.approvals[idx].status == ApprovalStatus::Pending) {
            return Err(ResolveError::AlreadyResolved);
        }
        let agent_id = self.approvals[idx].agent_id;
        let content = self.approvals[idx].content.clone();
        if approved {
            self.approvals[idx].status = ApprovalStatus::Approved;
            assert(self@.approvals =~= spec_resolve(old(self)@, id as int, approved, now).0.approvals);
            assert(inv(self@));
            let message = String::from_str("Triggering LinkedIn post for content: ").concat(
                content.as_str(),
            );
            self.log_event(Some(agent_id), message, Level::Info, now);
            assert(self@ =~= spec_resolve(old(self)@, id as int, approved, now).0);
            Ok(
                Some(
                    Invocation {
                        agent_id: Some(agent_id),
                        script: String::from_str("linkedin_post.cjs"),
                        argument: content,
                    },
                ),
            )
        } else {
            self.approvals[idx].status = ApprovalStatus::Rejected;
            assert(self@.approvals =~= spec_resolve(old(self)@, id as int, approved, now).0.approvals);
            assert(inv(self@));
            self.log_event(
                Some(agent_id),
                String::from_str("Rejected approval request"),
                Level::Info,
                now,
            );
            assert(self@ =~= spec_resolve(old(self)@, id as int, approved, now).0);
            Ok(None)
        }
    }

    /// The requests still waiting for a decision, in creation order.
    pub fn get_approvals(&self) -> (r: Vec<Approval>)
        ensures
            r.deep_view() =~= spec_pending(self@.approvals),
    {
        let mut r: Vec<Approval> = Vec::new();
        let mut i: usize = 0;
        while i < self.approvals.len()
            invariant
                i <= self.approvals.len(),
                r.deep_view() =~= spec_pending(self@.approvals.take(i as int)),
            decreases self.approvals.len() - i,
        {
            let ghost taken = self@.approvals.take(i as int + 1);
            assert(taken.drop_last() =~= self@.approvals.take(i as int));
            assert(taken.last() == self@.approvals[i as int]);
            if self.approvals[i].status == ApprovalStatus::Pending {
                let ghost r_prev = r.deep_view();
                r.push(self.approvals[i].clone());
                assert(r.deep_view() =~= r_prev.push(self@.approvals[i as int]));
            }
            i = i + 1;
        }
        assert(self@.approvals.take(self.approvals@.len() as int) =~= self@.approvals);
        r
    }
}

} // verus!
