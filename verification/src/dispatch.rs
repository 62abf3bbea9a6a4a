//! The per-request driver as a state machine. The host performs each action the machine asks
//! for (calling the handler, running queued jobs, reading the response slot, letting the
//! deferred-task scheduler run) and reports what happened; the machine decides what comes
//! next and when the request is over.

use vstd::prelude::*;
use vstd::string::StrSliceExecFns;
use vstd::utf8::encode_utf8;
use crate::assoc::Pairs;
use crate::entity::{guest_of_request, response_of, HttpObjectModel, JsHttpObject};
use crate::error::{CodecError, ShapeError};
use crate::native::{
    BodyModel, NativeBody, NativeHeaders, NativeRequest, NativeResponse, ResponseModel,
};
use crate::shape::{decode_http_object, encodes_http_object};
use crate::value::GuestValue;

verus! {

/// Number of consecutive rounds without progress after which a dispatch is given up. A round
/// makes progress when a queued job ran, the scheduler ran deferred work, or the response
/// appeared. Interpreter and scheduler are driven from this one loop, so a round without
/// progress cannot be followed by a better one unless the host itself changes something in
/// between; the limit leaves it a few rounds to do so.
pub const IDLE_ROUND_LIMIT: u32 = 8;

/// Why a dispatch ended without a response.
pub enum DispatchError {
    /// The handler global is absent or not callable.
    HandlerMissing,
    /// The handler threw; the text holds the exception's message and stack.
    Guest(String),
    /// The response slot held a value of the wrong shape.
    Protocol(ShapeError),
    /// A message could not be carried across the boundary.
    Codec(CodecError),
    /// No response appeared and nothing was left that could produce one.
    HandlerNeverResponded,
    /// The host reported an event that does not answer the action it was asked for.
    OutOfTurn,
}

/// Mathematical counterpart of [`DispatchError`].
pub ghost enum ErrorModel {
    HandlerMissing,
    Guest(Seq<char>),
    Protocol(ShapeError),
    Codec(CodecError),
    HandlerNeverResponded,
    OutOfTurn,
}

impl View for DispatchError {
    type V = ErrorModel;

    open spec fn view(&self) -> ErrorModel {
        match self {
            DispatchError::HandlerMissing => ErrorModel::HandlerMissing,
            DispatchError::Guest(text) => ErrorModel::Guest(text@),
            DispatchError::Protocol(e) => ErrorModel::Protocol(*e),
            DispatchError::Codec(e) => ErrorModel::Codec(*e),
            DispatchError::HandlerNeverResponded => ErrorModel::HandlerNeverResponded,
            DispatchError::OutOfTurn => ErrorModel::OutOfTurn,
        }
    }
}

impl ErrorModel {
    /// The text that the host shows for the error.
    pub open spec fn message_text(self) -> Seq<char> {
        match self {
            ErrorModel::HandlerMissing => "fetch handler is not a function"@,
            ErrorModel::Guest(text) => text,
            ErrorModel::Protocol(e) => e.message_text(),
            ErrorModel::Codec(e) => e.message_text(),
            ErrorModel::HandlerNeverResponded => "handler never responded"@,
            ErrorModel::OutOfTurn => "dispatch event out of turn"@,
        }
    }
}

impl DispatchError {
    /// The text that the host shows for the error.
    pub fn message(&self) -> (r: String)
        ensures
            r@ == self@.message_text(),
    {
        match self {
            DispatchError::HandlerMissing => "fetch handler is not a function".to_owned(),
            DispatchError::Guest(text) => text.clone(),
            DispatchError::Protocol(e) => e.message(),
            DispatchError::Codec(e) => e.message(),
            DispatchError::HandlerNeverResponded => "handler never responded".to_owned(),
            DispatchError::OutOfTurn => "dispatch event out of turn".to_owned(),
        }
    }
}

/// Where a dispatch stands.
#[derive(Clone, Copy, Debug, PartialEq, Eq, Structural)]
pub enum Phase {
    /// Nothing has happened yet; the machine waits for [`DispatchEvent::Start`].
    Invoking,
    /// The handler is being called.
    Calling,
    /// The host is running queued jobs and reading the response slot.
    Polling,
    /// The host is giving the deferred-task scheduler its turn.
    Ticking,
    /// The dispatch is over.
    Done,
}

/// State of one dispatch.
#[derive(Clone, Copy, Debug, PartialEq, Eq, Structural)]
pub struct Dispatch {
    pub phase: Phase,
    /// Rounds without progress since the last round that made some.
    pub idle: u32,
}

/// What the host reports to the machine.
pub enum DispatchEvent {
    /// A request arrived. `handler` is the value of the handler global.
    Start { handler: GuestValue, request: NativeRequest },
    /// The handler call returned.
    HandlerReturned,
    /// The handler call threw; the text holds the exception's message and stack.
    HandlerThrew(String),
    /// A poll was made: `job_ran` tells whether a pass over the queued jobs ran, `slot` is
    /// the value then found in the response slot.
    Polled { job_ran: bool, slot: GuestValue },
    /// The scheduler had its turn: `ran` tells whether it had pending work and ran it.
    Ticked { ran: bool },
}

/// What the machine asks of the host.
pub enum DispatchAction {
    /// Call the handler with this one argument, then report how the call ended.
    CallHandler(GuestValue),
    /// Where the interpreter has queued jobs, run one pass over them; then read the response
    /// slot and report both.
    Poll,
    /// Where the scheduler reports pending work, let it run one unit; report whether it did.
    Tick,
    /// The dispatch is over: send this response.
    Respond(NativeResponse),
    /// The dispatch is over: it failed.
    Fail(DispatchError),
}

/// Mathematical counterpart of [`DispatchAction`].
pub ghost enum ActionModel {
    CallHandler(HttpObjectModel),
    Poll,
    Tick,
    Respond(ResponseModel),
    Fail(ErrorModel),
}

/// `a` is the action that `m` describes.
pub open spec fn action_matches(a: DispatchAction, m: ActionModel) -> bool {
    match (a, m) {
        (DispatchAction::CallHandler(v), ActionModel::CallHandler(obj)) => encodes_http_object(
            v,
            obj,
        ),
        (DispatchAction::Poll, ActionModel::Poll) => true,
        (DispatchAction::Tick, ActionModel::Tick) => true,
        (DispatchAction::Respond(resp), ActionModel::Respond(model)) => resp@ == model,
        (DispatchAction::Fail(e), ActionModel::Fail(model)) => e@ == model,
        _ => false,
    }
}

/// The state in which a dispatch ends.
pub open spec fn done() -> Dispatch {
    Dispatch { phase: Phase::Done, idle: 0 }
}

/// The state in which the next poll is awaited after `idle` rounds without progress.
pub open spec fn polling(idle: u32) -> Dispatch {
    Dispatch { phase: Phase::Polling, idle }
}

/// How a dispatch ends with the value found in the response slot.
pub open spec fn conclude(slot: GuestValue) -> ActionModel {
    match decode_http_object(slot) {
        Err(e) => ActionModel::Fail(ErrorModel::Protocol(e)),
        Ok(obj) => match response_of(obj) {
            Err(e) => ActionModel::Fail(ErrorModel::Codec(e)),
            Ok(resp) => ActionModel::Respond(resp),
        },
    }
}

/// The transition function: the state after `event` and the action asked for next.
pub open spec fn step_of(s: Dispatch, event: DispatchEvent) -> (Dispatch, ActionModel) {
    match (s.phase, event) {
        (Phase::Invoking, DispatchEvent::Start { handler, request }) => {
            if !(handler is Function) {
                (done(), ActionModel::Fail(ErrorModel::HandlerMissing))
            } else {
                match guest_of_request(request@) {
                    Err(e) => (done(), ActionModel::Fail(ErrorModel::Codec(e))),
                    Ok(obj) => (
                        Dispatch { phase: Phase::Calling, idle: 0 },
                        ActionModel::CallHandler(obj),
                    ),
                }
            }
        },
        (Phase::Calling, DispatchEvent::HandlerReturned) => (polling(0), ActionModel::Poll),
        (Phase::Calling, DispatchEvent::HandlerThrew(text)) => (
            done(),
            ActionModel::Fail(ErrorModel::Guest(text@)),
        ),
        (Phase::Polling, DispatchEvent::Polled { job_ran, slot }) => {
            if !(slot is Null) {
                (done(), conclude(slot))
            } else if job_ran {
                (polling(0), ActionModel::Poll)
            } else {
                (Dispatch { phase: Phase::Ticking, idle: s.idle }, ActionModel::Tick)
            }
        },
        (Phase::Ticking, DispatchEvent::Ticked { ran }) => {
            if ran {
                (polling(0), ActionModel::Poll)
            } else if s.idle + 1 >= IDLE_ROUND_LIMIT {
                (done(), ActionModel::Fail(ErrorModel::HandlerNeverResponded))
            } else {
                (polling((s.idle + 1) as u32), ActionModel::Poll)
            }
        },
        _ => (done(), ActionModel::Fail(ErrorModel::OutOfTurn)),
    }
}

impl Dispatch {
    /// The idle count stays below the limit, and is 0 outside the polling rounds.
    pub open spec fn wf(self) -> bool {
        match self.phase {
            Phase::Polling | Phase::Ticking => self.idle < IDLE_ROUND_LIMIT,
            _ => self.idle == 0,
        }
    }

    /// A dispatch that has not started.
    pub fn new() -> (r: Dispatch)
        ensures
            r == (Dispatch { phase: Phase::Invoking, idle: 0 }),
            r.wf(),
    {
        Dispatch { phase: Phase::Invoking, idle: 0 }
    }

    /// Whether the dispatch is over.
    pub fn is_done(&self) -> (r: bool)
        ensures
            r == (self.phase == Phase::Done),
    {
        self.phase == Phase::Done
    }

    fn finish(&mut self, action: DispatchAction) -> (r: DispatchAction)
        ensures
            *final(self) == done(),
            r == action,
    {
        self.phase = Phase::Done;
        self.idle = 0;
        action
    }

    fn conclude(slot: &GuestValue) -> (r: DispatchAction)
        ensures
            action_matches(r, conclude(*slot)),
    {
        match JsHttpObject::from_js(slot) {
            Err(e) => DispatchAction::Fail(DispatchError::Protocol(e)),
            Ok(obj) => match obj.into_response() {
                Err(e) => DispatchAction::Fail(DispatchError::Codec(e)),
                Ok(resp) => DispatchAction::Respond(resp),
            },
        }
    }

    /// Takes one event and returns the action to perform next.
    pub fn step(&mut self, event: DispatchEvent) -> (r: DispatchAction)
        ensures
            *final(self) == step_of(*old(self), event).0,
            action_matches(r, step_of(*old(self), event).1),
            old(self).wf() ==> final(self).wf(),
    {
        match (self.phase, event) {
            (Phase::Invoking, DispatchEvent::Start { handler, request }) => {
                match handler {
                    GuestValue::Function => {},
                    _ => {
                        return self.finish(DispatchAction::Fail(DispatchError::HandlerMissing));
                    },
                }
                match JsHttpObject::from_request(request) {
                    Err(e) => self.finish(DispatchAction::Fail(DispatchError::Codec(e))),
                    Ok(obj) => {
                        self.phase = Phase::Calling;
                        self.idle = 0;
                        DispatchAction::CallHandler(obj.into_js())
                    },
                }
            },
            (Phase::Calling, DispatchEvent::HandlerReturned) => {
                self.phase = Phase::Polling;
                self.idle = 0;
                DispatchAction::Poll
            },
            (Phase::Calling, DispatchEvent::HandlerThrew(text)) => {
                self.finish(DispatchAction::Fail(DispatchError::Guest(text)))
            },
            (Phase::Polling, DispatchEvent::Polled { job_ran, slot }) => {
                match slot {
                    GuestValue::Null => {
                        if job_ran {
                            self.idle = 0;
                            DispatchAction::Poll
                        } else {
                            self.phase = Phase::Ticking;
                            DispatchAction::Tick
                        }
                    },
                    _ => {
                        let action = Self::conclude(&slot);
                        self.finish(action)
                    },
                }
            },
            (Phase::Ticking, DispatchEvent::Ticked { ran }) => {
                if ran {
                    self.phase = Phase::Polling;
                    self.idle = 0;
                    DispatchAction::Poll
                } else if self.idle >= IDLE_ROUND_LIMIT - 1 {
                    self.finish(DispatchAction::Fail(DispatchError::HandlerNeverResponded))
                } else {
                    self.phase = Phase::Polling;
                    self.idle = self.idle + 1;
                    DispatchAction::Poll
                }
            },
            _ => self.finish(DispatchAction::Fail(DispatchError::OutOfTurn)),
        }
    }
}

/// The state and the action after one round without progress: a poll in which no job ran
/// and the slot held the null sentinel, then a scheduler turn with nothing to run.
pub open spec fn idle_round(s: Dispatch) -> (Dispatch, ActionModel) {
    let polled = step_of(s, DispatchEvent::Polled { job_ran: false, slot: GuestValue::Null }).0;
    step_of(polled, DispatchEvent::Ticked { ran: false })
}

/// The state and the last action after `n` rounds without progress.
pub open spec fn idle_rounds(s: Dispatch, n: nat) -> (Dispatch, ActionModel)
    decreases n,
{
    if n == 0 {
        (s, ActionModel::Poll)
    } else {
        idle_round(idle_rounds(s, (n - 1) as nat).0)
    }
}

/// A dispatch whose handler never fills the response slot, leaves no job queued and no
/// deferred work pending does not hang: from a polling state with `s.idle` idle rounds
/// behind it, the machine keeps polling for fewer than `IDLE_ROUND_LIMIT - s.idle` further
/// rounds, and the round that reaches the limit ends the dispatch with
/// `HandlerNeverResponded`.
pub proof fn lemma_idle_dispatch_fails(s: Dispatch, n: nat)
    requires
        s.phase == Phase::Polling,
        s.wf(),
        n <= IDLE_ROUND_LIMIT - s.idle,
    ensures
        n < IDLE_ROUND_LIMIT - s.idle ==> idle_rounds(s, n) == (
            polling((s.idle + n) as u32),
            ActionModel::Poll,
        ),
        n == IDLE_ROUND_LIMIT - s.idle ==> idle_rounds(s, n) == (
            done(),
            ActionModel::Fail(ErrorModel::HandlerNeverResponded),
        ),
    decreases n,
{
    if n > 0 {
        lemma_idle_dispatch_fails(s, (n - 1) as nat);
    }
}

/// A started dispatch is over after at most `2 * IDLE_ROUND_LIMIT` further events when every
/// poll and every scheduler turn reports that nothing happened.
pub proof fn lemma_idle_dispatch_bounded(s: Dispatch)
    requires
        s.phase == Phase::Polling,
        s.wf(),
    ensures
        exists|n: nat| n <= IDLE_ROUND_LIMIT && (#[trigger] idle_rounds(s, n)).0.phase == Phase::Done,
{
    lemma_idle_dispatch_fails(s, (IDLE_ROUND_LIMIT - s.idle) as nat);
    assert(idle_rounds(s, (IDLE_ROUND_LIMIT - s.idle) as nat).0.phase == Phase::Done);
}

/// Every transition keeps the idle count within its bound.
pub proof fn lemma_step_keeps_wf(s: Dispatch, event: DispatchEvent)
    requires
        s.wf(),
    ensures
        step_of(s, event).0.wf(),
{
}

/// A finished dispatch stays finished, whatever is reported to it.
pub proof fn lemma_done_is_final(s: Dispatch, event: DispatchEvent)
    requires
        s.phase == Phase::Done,
    ensures
        step_of(s, event) == (done(), ActionModel::Fail(ErrorModel::OutOfTurn)),
{
}

/// Status of the response that reports a failed dispatch.
pub const FAILURE_STATUS: u16 = 500;

/// The response that the host sends for the outcome of a dispatch: the guest's response as
/// it is, and for a failure a response with status 500, no headers and the error's text as
/// body.
pub fn handle_request(outcome: Result<NativeResponse, DispatchError>) -> (r: NativeResponse)
    ensures
        match outcome {
            Ok(resp) => r == resp,
            Err(e) => r@ == (ResponseModel {
                status: FAILURE_STATUS,
                headers: Pairs::<Seq<u8>>::empty(),
                body: BodyModel::Inline(encode_utf8(e@.message_text())),
            }),
        },
{
    match outcome {
        Ok(resp) => resp,
        Err(e) => {
            let text = e.message();
            NativeResponse {
                status: FAILURE_STATUS,
                headers: NativeHeaders::new(),
                body: NativeBody::Inline(text.as_str().as_bytes_vec()),
            }
        },
    }
}

/// Name of the global that holds the guest's handler: the default export of the guest
/// module, stored there when the context is built. Its value is what a dispatch starts with,
/// and a value that is not callable ends the dispatch with `HandlerMissing`.
pub fn handler_name() -> (r: String)
    ensures
        r@ == "handler"@,
{
    "handler".to_owned()
}

/// Name of the global that the guest writes its finished response into.
pub fn response_slot_name() -> (r: String)
    ensures
        r@ == "globalResponse"@,
{
    "globalResponse".to_owned()
}

} // verus!
