//! One JavaScript evaluation, from the moment it is asked for until its answer is handed over.
//!
//! Nothing is dispatched until the evaluation is first polled: an evaluation that is never awaited
//! never runs. The first poll either answers at once (no engine on this backend, or no realized
//! view to run in) or dispatches the wrapped script to the view; the answer arrives later through
//! the [`crate::EvalRegistry`]. Every poll hands over an answer that has arrived.

use vstd::prelude::*;
use crate::props::WebPatch;
use crate::reply::EvalError;
use crate::script::{wrap_script, wrapped};

verus! {

/// What a poll of an evaluation asks its caller to do.
pub enum PollStep {
    /// The evaluation is over: this is its answer.
    Ready(Result<String, EvalError>),
    /// Register the evaluation as waiting, send this command to the view, then wait.
    Dispatch(WebPatch),
    /// Keep waiting for the reply.
    Wait,
}

/// The state of one evaluation.
pub struct EvalRequest {
    req: u64,
    script: Option<String>,
    sent: bool,
}

/// What a poll does, given the answer that may have arrived, whether the backend can evaluate
/// at all, and whether the view has been realized.
pub open spec fn poll_post(
    before: EvalRequest,
    after: EvalRequest,
    arrived: Option<Result<String, EvalError>>,
    eval_supported: bool,
    has_view: bool,
    step: PollStep,
) -> bool {
    match arrived {
        Some(answer) => step == PollStep::Ready(answer) && after == before,
        None => if before.dispatched() {
            step is Wait && after == before
        } else {
            &&& after.dispatched()
            &&& after.req_id() == before.req_id()
            &&& if !eval_supported {
                &&& step == PollStep::Ready(Err(EvalError::Unsupported))
                &&& after.script_text() == before.script_text()
            } else if !has_view {
                &&& step == PollStep::Ready(Err(EvalError::ViewGone))
                &&& after.script_text() == before.script_text()
            } else {
                &&& step matches PollStep::Dispatch(WebPatch::Eval { req, script })
                &&& req == before.req_id()
                &&& script@ == match before.script_text() {
                    Some(text) => text,
                    None => Seq::empty(),
                }
                &&& after.script_text() is None
            }
        },
    }
}

impl EvalRequest {
    /// The request id replies for this evaluation carry.
    pub closed spec fn req_id(&self) -> u64 {
        self.req
    }

    /// The wrapped script, until it has been sent.
    pub closed spec fn script_text(&self) -> Option<Seq<char>> {
        match self.script {
            Some(s) => Some(s@),
            None => None,
        }
    }

    /// Whether the first poll has happened (and with it the dispatch, if there was one).
    pub closed spec fn dispatched(&self) -> bool {
        self.sent
    }

    /// An evaluation of `script` under request id `req`, not dispatched yet. The script is wrapped
    /// in the envelope now, so every backend receives the same program.
    pub fn new(req: u64, script: &str) -> (r: EvalRequest)
        ensures
            r.req_id() == req,
            r.script_text() == Some(wrapped(script@)),
            !r.dispatched(),
    {
        EvalRequest { req, script: Some(wrap_script(script)), sent: false }
    }

    /// The request id replies for this evaluation carry.
    pub fn req(&self) -> (r: u64)
        ensures
            r == self.req_id(),
    {
        self.req
    }

    /// One poll. An answer that has arrived is handed over. Otherwise the first poll decides:
    /// without an engine the answer is [`EvalError::Unsupported`], without a realized view it is
    /// [`EvalError::ViewGone`], and otherwise the wrapped script is dispatched. Later polls wait.
    pub fn poll(
        &mut self,
        arrived: Option<Result<String, EvalError>>,
        eval_supported: bool,
        has_view: bool,
    ) -> (step: PollStep)
        ensures
            poll_post(*old(self), *final(self), arrived, eval_supported, has_view, step),
    {
        if let Some(answer) = arrived {
            return PollStep::Ready(answer);
        }
        if self.sent {
            return PollStep::Wait;
        }
        self.sent = true;
        if !eval_supported {
            return PollStep::Ready(Err(EvalError::Unsupported));
        }
        if !has_view {
            return PollStep::Ready(Err(EvalError::ViewGone));
        }
        let script = match self.script.take() {
            Some(s) => s,
            None => String::new(),
        };
        PollStep::Dispatch(WebPatch::Eval { req: self.req, script })
    }
}

/// A script is dispatched at most once: of two successive polls, at most one sends it.
pub proof fn law_dispatched_at_most_once(
    s0: EvalRequest,
    s1: EvalRequest,
    s2: EvalRequest,
    arrived1: Option<Result<String, EvalError>>,
    arrived2: Option<Result<String, EvalError>>,
    supported1: bool,
    supported2: bool,
    view1: bool,
    view2: bool,
    step1: PollStep,
    step2: PollStep,
)
    requires
        poll_post(s0, s1, arrived1, supported1, view1, step1),
        poll_post(s1, s2, arrived2, supported2, view2, step2),
    ensures
        !(step1 is Dispatch && step2 is Dispatch),
{
}

/// Once an evaluation has been polled without an answer waiting, it never dispatches again,
/// whatever the later polls see.
pub proof fn law_polled_stays_dispatched(
    s0: EvalRequest,
    s1: EvalRequest,
    arrived: Option<Result<String, EvalError>>,
    supported: bool,
    view: bool,
    step: PollStep,
)
    requires
        poll_post(s0, s1, arrived, supported, view, step),
        s0.dispatched() || arrived is None,
    ensures
        s1.dispatched(),
{
}

/// The first poll of a fresh evaluation on a backend with an engine and a realized view sends the
/// wrapped script under the evaluation's own id.
pub proof fn law_first_poll_sends_the_envelope(
    req: u64,
    script: Seq<char>,
    s0: EvalRequest,
    s1: EvalRequest,
    step: PollStep,
)
    requires
        s0.req_id() == req,
        s0.script_text() == Some(wrapped(script)),
        !s0.dispatched(),
        poll_post(s0, s1, None, true, true, step),
    ensures
        step matches PollStep::Dispatch(WebPatch::Eval { req: r, script: sent }) && r == req
            && sent@ == wrapped(script),
{
}

/// What one poll answers: an answer that has arrived is handed over as it is; otherwise a first
/// poll answers `Unsupported` on a backend without an engine and `ViewGone` without a realized
/// view, and dispatches only when it has both; a later poll waits.
pub proof fn law_poll_outcomes(
    s0: EvalRequest,
    s1: EvalRequest,
    arrived: Option<Result<String, EvalError>>,
    supported: bool,
    view: bool,
    step: PollStep,
)
    requires
        poll_post(s0, s1, arrived, supported, view, step),
    ensures
        arrived matches Some(a) ==> step == PollStep::Ready(a),
        arrived is None && !s0.dispatched() && !supported ==> step == PollStep::Ready(
            Err(EvalError::Unsupported),
        ),
        arrived is None && !s0.dispatched() && supported && !view ==> step == PollStep::Ready(
            Err(EvalError::ViewGone),
        ),
        arrived is None && s0.dispatched() ==> step is Wait,
        step is Dispatch ==> arrived is None && !s0.dispatched() && supported && view,
        s1.req_id() == s0.req_id(),
{
}

} // verus!
