//! The evaluations waiting for a reply, keyed by request id.
//!
//! Every evaluation gets a fresh id when it is created. Ids start at 1 so that 0 stays free for
//! the URL report, which shares the node's event channel with evaluation replies. An evaluation
//! is registered when it is dispatched; its reply, delivered by id, takes it off the register, and
//! dropping the evaluation takes it off too, so a late reply finds nothing and is discarded.

use vstd::prelude::*;
use std::collections::HashMap;
use crate::reply::{decode, decode_reply, outcome_view, EvalError, EvalFailure};

verus! {

broadcast use vstd::std_specs::hash::group_hash_axioms;

/// The register of evaluations awaiting a reply. `T` is whatever the caller keeps per
/// evaluation to hand the result over (the slot a pending future reads).
pub struct EvalRegistry<T> {
    next_req: u64,
    pending: HashMap<u64, T>,
}

impl<T> EvalRegistry<T> {
    #[verifier::type_invariant]
    spec fn ids_start_at_one(self) -> bool {
        self.next_req >= 1
    }

    /// The id the next evaluation will get.
    pub closed spec fn next_id(&self) -> u64 {
        self.next_req
    }

    /// The registered evaluations, by request id.
    pub closed spec fn pending(&self) -> Map<u64, T> {
        self.pending@
    }

    /// An empty register whose first id is 1.
    pub fn new() -> (r: Self)
        ensures
            r.next_id() == 1,
            r.pending() == Map::<u64, T>::empty(),
    {
        EvalRegistry { next_req: 1, pending: HashMap::new() }
    }

    /// Whether another id can be handed out.
    pub fn has_ids_left(&self) -> (r: bool)
        ensures
            r == (self.next_id() < u64::MAX),
    {
        self.next_req < u64::MAX
    }

    /// Hands out the id for a new evaluation.
    pub fn next_request(&mut self) -> (req: u64)
        requires
            old(self).next_id() < u64::MAX,
        ensures
            allocated(*old(self), *final(self), req),
    {
        proof {
            use_type_invariant(&*self);
        }
        let req = self.next_req;
        self.next_req = req + 1;
        req
    }

    /// Records that the evaluation `req` has been dispatched and waits on `slot`.
    pub fn register(&mut self, req: u64, slot: T)
        ensures
            registered(*old(self), *final(self), req, slot),
    {
        proof {
            use_type_invariant(&*self);
        }
        let mut pending = HashMap::new();
        std::mem::swap(&mut pending, &mut self.pending);
        pending.insert(req, slot);
        self.pending = pending;
    }

    /// Deliver a reply to whichever evaluation is waiting on `req`: take it off the register and
    /// hand back its slot with the decoded reply. A reply for an evaluation that is not waiting
    /// (never dispatched, already answered, or dropped) finds nothing and is discarded.
    pub fn resolve(&mut self, req: u64, payload: &str) -> (r: Option<(T, Result<String, EvalError>)>)
        ensures
            resolved(*old(self), *final(self), req, payload@, r),
    {
        proof {
            use_type_invariant(&*self);
        }
        let mut pending = HashMap::new();
        std::mem::swap(&mut pending, &mut self.pending);
        let taken = pending.remove(&req);
        self.pending = pending;
        match taken {
            Some(slot) => Some((slot, decode(payload))),
            None => None,
        }
    }

    /// Takes a dropped evaluation off the register, so a late reply for it is discarded.
    pub fn forget(&mut self, req: u64)
        ensures
            forgotten(*old(self), *final(self), req),
    {
        proof {
            use_type_invariant(&*self);
        }
        let mut pending = HashMap::new();
        std::mem::swap(&mut pending, &mut self.pending);
        let _ = pending.remove(&req);
        self.pending = pending;
    }
}

/// `req` is the id [`EvalRegistry::next_request`] handed out, taking the register from `before`
/// to `after`.
pub open spec fn allocated<T>(before: EvalRegistry<T>, after: EvalRegistry<T>, req: u64) -> bool {
    &&& req >= 1
    &&& req == before.next_id()
    &&& after.next_id() == req + 1
    &&& after.pending() == before.pending()
}

/// Ids are never 0 (the URL report's number) and two successive evaluations never share one.
pub proof fn law_request_ids_are_fresh<T>(
    r0: EvalRegistry<T>,
    r1: EvalRegistry<T>,
    r2: EvalRegistry<T>,
    a: u64,
    b: u64,
)
    requires
        allocated(r0, r1, a),
        allocated(r1, r2, b),
    ensures
        1 <= a < b,
{
}

/// [`EvalRegistry::register`] took the register from `before` to `after`, recording `req` as
/// waiting on `slot`.
pub open spec fn registered<T>(before: EvalRegistry<T>, after: EvalRegistry<T>, req: u64, slot: T) -> bool {
    &&& after.pending() == before.pending().insert(req, slot)
    &&& after.next_id() == before.next_id()
}

/// [`EvalRegistry::resolve`] took the register from `before` to `after`, delivering the reply
/// `payload` for `req` with the answer `r`.
pub open spec fn resolved<T>(
    before: EvalRegistry<T>,
    after: EvalRegistry<T>,
    req: u64,
    payload: Seq<char>,
    r: Option<(T, Result<String, EvalError>)>,
) -> bool {
    &&& after.pending() == before.pending().remove(req)
    &&& after.next_id() == before.next_id()
    &&& match r {
        Some((slot, outcome)) => {
            &&& before.pending().contains_key(req)
            &&& slot == before.pending()[req]
            &&& outcome_view(outcome) == decode_reply(payload)
        },
        None => !before.pending().contains_key(req),
    }
}

/// [`EvalRegistry::forget`] took the register from `before` to `after`, dropping `req`.
pub open spec fn forgotten<T>(before: EvalRegistry<T>, after: EvalRegistry<T>, req: u64) -> bool {
    &&& after.pending() == before.pending().remove(req)
    &&& after.next_id() == before.next_id()
}

/// A dispatched evaluation receives its reply: after `req` is registered with `slot`, the reply
/// delivered for `req` hands back `slot` with the reply decoded.
pub proof fn law_registered_evaluation_gets_its_reply<T>(
    r0: EvalRegistry<T>,
    r1: EvalRegistry<T>,
    r2: EvalRegistry<T>,
    req: u64,
    slot: T,
    payload: Seq<char>,
    answer: Option<(T, Result<String, EvalError>)>,
)
    requires
        registered(r0, r1, req, slot),
        resolved(r1, r2, req, payload, answer),
    ensures
        answer matches Some((s, outcome)) && s == slot && outcome_view(outcome) == decode_reply(
            payload,
        ),
{
}

/// Each evaluation is answered at most once: once a reply for `req` has been delivered, a later
/// reply for it finds nothing and is discarded.
pub proof fn law_reply_delivered_at_most_once<T>(
    r0: EvalRegistry<T>,
    r1: EvalRegistry<T>,
    r2: EvalRegistry<T>,
    req: u64,
    first: Seq<char>,
    second: Seq<char>,
    answer1: Option<(T, Result<String, EvalError>)>,
    answer2: Option<(T, Result<String, EvalError>)>,
)
    requires
        resolved(r0, r1, req, first, answer1),
        resolved(r1, r2, req, second, answer2),
    ensures
        answer2 is None,
{
}

/// A late reply for a dropped evaluation finds nothing and is discarded.
pub proof fn law_late_reply_after_drop_discarded<T>(
    r0: EvalRegistry<T>,
    r1: EvalRegistry<T>,
    r2: EvalRegistry<T>,
    req: u64,
    payload: Seq<char>,
    answer: Option<(T, Result<String, EvalError>)>,
)
    requires
        forgotten(r0, r1, req),
        resolved(r1, r2, req, payload, answer),
    ensures
        answer is None,
{
}

/// Delivering a reply for one evaluation, or dropping one, leaves every other waiting evaluation
/// where it was.
pub proof fn law_other_requests_untouched<T>(
    r0: EvalRegistry<T>,
    r1: EvalRegistry<T>,
    req: u64,
    other: u64,
    payload: Seq<char>,
    answer: Option<(T, Result<String, EvalError>)>,
)
    requires
        other != req,
        r0.pending().contains_key(other),
        resolved(r0, r1, req, payload, answer) || forgotten(r0, r1, req),
    ensures
        r1.pending().contains_key(other),
        r1.pending()[other] == r0.pending()[other],
{
}

} // verus!
