//! The privileged operations offered to guest code. Each hostcall is split in two around the
//! native work: [`plan`] validates the guest's arguments and says what the host is to do, and
//! the `*_result` functions turn what the host did into the value handed back to the guest.

use vstd::prelude::*;
use vstd::string::StringExecFns;
use crate::entity::{guest_of_response, request_of, JsHttpObject};
use crate::error::{EngineError, EngineErrorModel, HostError};
use crate::native::{NativeRequest, NativeResponse, RequestModel};
use crate::options::{decode_fetch_options, policy_of, JsFetchOptions, RedirectPolicy};
use crate::shape::{decode_http_object, encodes_http_object};
use crate::value::{GuestProperty, GuestValue};

verus! {

/// The hostcalls, in the order in which they are installed.
#[derive(Clone, Copy, Debug, PartialEq, Eq, Structural)]
pub enum Hostcall {
    ReadBody,
    FetchRequest,
    ReadEnv,
    Sleep,
}

impl Hostcall {
    /// The name under which guest code finds the hostcall.
    pub open spec fn name_text(self) -> Seq<char> {
        match self {
            Hostcall::ReadBody => "read_body"@,
            Hostcall::FetchRequest => "fetch_request"@,
            Hostcall::ReadEnv => "read_env"@,
            Hostcall::Sleep => "sleep"@,
        }
    }

    /// The name under which guest code finds the hostcall.
    pub fn name(&self) -> (r: String)
        ensures
            r@ == self.name_text(),
    {
        match self {
            Hostcall::ReadBody => "read_body".to_owned(),
            Hostcall::FetchRequest => "fetch_request".to_owned(),
            Hostcall::ReadEnv => "read_env".to_owned(),
            Hostcall::Sleep => "sleep".to_owned(),
        }
    }

    /// Number of arguments that the hostcall needs.
    pub open spec fn arity(self) -> usize {
        match self {
            Hostcall::FetchRequest => 2,
            _ => 1,
        }
    }
}

/// Name of the global object that holds the hostcalls.
pub fn surface_name() -> (r: String)
    ensures
        r@ == "hostcall"@,
{
    "hostcall".to_owned()
}

/// Name of the guest function that the host calls, with the timer's handle, when a timer
/// fires.
pub fn resolver_name() -> (r: String)
    ensures
        r@ == "resolveTimeout"@,
{
    "resolveTimeout".to_owned()
}

/// The catalog of hostcalls: exactly these four, in this order.
pub fn build() -> (r: Vec<Hostcall>)
    ensures
        r@ == seq![Hostcall::ReadBody, Hostcall::FetchRequest, Hostcall::ReadEnv, Hostcall::Sleep],
{
    let mut out: Vec<Hostcall> = Vec::new();
    out.push(Hostcall::ReadBody);
    out.push(Hostcall::FetchRequest);
    out.push(Hostcall::ReadEnv);
    out.push(Hostcall::Sleep);
    assert(out@ =~= seq![
        Hostcall::ReadBody,
        Hostcall::FetchRequest,
        Hostcall::ReadEnv,
        Hostcall::Sleep,
    ]);
    out
}

/// The native work that a hostcall asks for.
pub enum HostRequest {
    /// Read the next chunk of the body stream `handle`.
    ReadBody { handle: u32 },
    /// Send `request` and wait for the response.
    Fetch { request: NativeRequest, timeout: u32, redirect: RedirectPolicy },
    /// Look up the environment variable `name`.
    ReadEnv { name: String },
    /// Register a timer that fires after `ms` milliseconds.
    Sleep { ms: u32 },
}

/// Mathematical counterpart of [`HostRequest`].
pub ghost enum HostRequestModel {
    ReadBody { handle: u32 },
    Fetch { request: RequestModel, timeout: u32, redirect: RedirectPolicy },
    ReadEnv { name: Seq<char> },
    Sleep { ms: u32 },
}

impl View for HostRequest {
    type V = HostRequestModel;

    open spec fn view(&self) -> HostRequestModel {
        match self {
            HostRequest::ReadBody { handle } => HostRequestModel::ReadBody { handle: *handle },
            HostRequest::Fetch { request, timeout, redirect } => HostRequestModel::Fetch {
                request: request@,
                timeout: *timeout,
                redirect: *redirect,
            },
            HostRequest::ReadEnv { name } => HostRequestModel::ReadEnv { name: name@ },
            HostRequest::Sleep { ms } => HostRequestModel::Sleep { ms: *ms },
        }
    }
}

/// The exception with this message and no stack.
pub open spec fn thrown(message: Seq<char>) -> EngineErrorModel {
    EngineErrorModel::Exception { message: Some(message), stack: None }
}

/// The text of a string argument; `None` for any other value.
pub open spec fn arg_text(v: GuestValue) -> Option<Seq<char>> {
    match v {
        GuestValue::Text(s) => Some(s@),
        _ => None,
    }
}

/// What `read_body` asks for, given its first argument.
pub open spec fn plan_read_body(arg: GuestValue) -> Result<HostRequestModel, EngineErrorModel> {
    match arg {
        GuestValue::Int(n) => if n == 0 {
            Err(thrown("body_handle is 0"@))
        } else {
            Ok(HostRequestModel::ReadBody { handle: n as u32 })
        },
        _ => Err(thrown("body_handle must be int"@)),
    }
}

/// What `fetch_request` asks for, given the request-like and the options-like argument.
pub open spec fn plan_fetch(req: GuestValue, options: GuestValue) -> Result<
    HostRequestModel,
    EngineErrorModel,
> {
    match decode_http_object(req) {
        Err(e) => Err(thrown(e.message_text())),
        Ok(obj) => match decode_fetch_options(options) {
            Err(e) => Err(thrown(e.message_text())),
            Ok(opts) => match request_of(obj) {
                Err(e) => Err(thrown(e.message_text())),
                Ok(request) => Ok(
                    HostRequestModel::Fetch {
                        request,
                        timeout: opts.0,
                        redirect: policy_of(opts.1),
                    },
                ),
            },
        },
    }
}

/// What `read_env` asks for, given its first argument.
pub open spec fn plan_read_env(arg: GuestValue) -> Result<HostRequestModel, EngineErrorModel> {
    match arg_text(arg) {
        Some(name) => Ok(HostRequestModel::ReadEnv { name }),
        None => Err(thrown("Failed to convert arg to string"@)),
    }
}

/// What `sleep` asks for, given its first argument.
pub open spec fn plan_sleep(arg: GuestValue) -> Result<HostRequestModel, EngineErrorModel> {
    match arg {
        GuestValue::Int(n) => Ok(HostRequestModel::Sleep { ms: n as u32 }),
        _ => Err(thrown("sleep time must be int"@)),
    }
}

/// What a hostcall asks for, given the guest's arguments. With too few arguments nothing is
/// looked at. `fetch_request` takes its last two arguments, the others their first.
pub open spec fn plan_of(call: Hostcall, args: Seq<GuestValue>) -> Result<
    HostRequestModel,
    EngineErrorModel,
> {
    if args.len() < call.arity() {
        Err(EngineErrorModel::MissingArgs { expected: call.arity(), given: args.len() as usize })
    } else {
        match call {
            Hostcall::ReadBody => plan_read_body(args[0]),
            Hostcall::FetchRequest => plan_fetch(args[args.len() - 2], args[args.len() - 1]),
            Hostcall::ReadEnv => plan_read_env(args[0]),
            Hostcall::Sleep => plan_sleep(args[0]),
        }
    }
}

/// The text of a guest value that is a string.
pub fn arg_to_string(arg: &GuestValue) -> (r: Result<String, HostError>)
    ensures
        match r {
            Ok(s) => arg_text(*arg) == Some(s@),
            Err(e) => arg_text(*arg) is None && (e matches HostError::Message(m) && m@
                == "Failed to convert arg to string"@),
        },
{
    match arg {
        GuestValue::Text(s) => Ok(s.clone()),
        _ => Err(HostError::Message("Failed to convert arg to string".to_owned())),
    }
}

/// The texts of `args`, joined by single spaces; `None` where some argument is no string.
pub open spec fn joined(args: Seq<GuestValue>) -> Option<Seq<char>>
    decreases args.len(),
{
    if args.len() == 0 {
        Some(Seq::empty())
    } else {
        match (joined(args.drop_last()), arg_text(args.last())) {
            (Some(head), Some(text)) => Some(
                if args.len() == 1 {
                    text
                } else {
                    head + " "@ + text
                },
            ),
            _ => None,
        }
    }
}

/// Once a prefix of the arguments holds a value that is no string, the whole does.
pub proof fn lemma_joined_prefix(args: Seq<GuestValue>, n: int)
    requires
        0 <= n <= args.len(),
        joined(args.take(n)) is None,
    ensures
        joined(args) is None,
    decreases args.len() - n,
{
    if n < args.len() {
        assert(args.take(n + 1).drop_last() =~= args.take(n));
        lemma_joined_prefix(args, n + 1);
    } else {
        assert(args.take(n) =~= args);
    }
}

/// The line that a console function prints for its arguments: their texts joined by single
/// spaces. Fails where an argument is not a string.
pub fn get_args_as_str(args: &Vec<GuestValue>) -> (r: Result<String, HostError>)
    ensures
        match r {
            Ok(s) => joined(args@) == Some(s@),
            Err(e) => joined(args@) is None && (e matches HostError::Message(m) && m@
                == "Failed to convert args to string"@),
        },
{
    let mut out = String::new();
    let mut i: usize = 0;
    assert(args@.take(0) =~= Seq::empty());
    while i < args.len()
        invariant
            i <= args.len(),
            joined(args@.take(i as int)) == Some(out@),
        decreases args.len() - i,
    {
        proof {
            let head = args@.take(i + 1);
            assert(head.drop_last() =~= args@.take(i as int));
            assert(head.last() == args@[i as int]);
        }
        match arg_to_string(&args[i]) {
            Ok(text) => {
                if i > 0 {
                    out.append(" ");
                } else {
                    assert(out@ + text@ =~= text@);
                }
                out.append(text.as_str());
            },
            Err(_) => {
                proof {
                    lemma_joined_prefix(args@, i + 1);
                }
                return Err(HostError::Message("Failed to convert args to string".to_owned()));
            },
        }
        i = i + 1;
    }
    assert(args@.take(i as int) =~= args@);
    Ok(out)
}

/// The interpreter error that a failed native operation reaches the guest as: an interpreter
/// error as it is, anything else as an exception carrying its text.
pub fn to_js_error(e: HostError) -> (r: EngineError)
    ensures
        match e {
            HostError::Engine(inner) => r == inner,
            HostError::Message(m) => r@ == thrown(m@),
        },
{
    match e {
        HostError::Engine(inner) => inner,
        HostError::Message(m) => EngineError::thrown(m),
    }
}

fn plan_fetch_call(req: &GuestValue, options: &GuestValue) -> (r: Result<HostRequest, EngineError>)
    ensures
        match r {
            Ok(h) => plan_fetch(*req, *options) == Ok::<HostRequestModel, EngineErrorModel>(h@),
            Err(e) => plan_fetch(*req, *options) == Err::<HostRequestModel, EngineErrorModel>(e@),
        },
{
    let obj = match JsHttpObject::from_js(req) {
        Ok(obj) => obj,
        Err(e) => {
            return Err(EngineError::thrown(e.message()));
        },
    };
    let opts = match JsFetchOptions::from_js(options) {
        Ok(opts) => opts,
        Err(e) => {
            return Err(EngineError::thrown(e.message()));
        },
    };
    match obj.into_request() {
        Ok(request) => Ok(
            HostRequest::Fetch { request, timeout: opts.timeout, redirect: opts.policy() },
        ),
        Err(e) => Err(EngineError::thrown(e.message())),
    }
}

/// Validates the arguments of a hostcall and says what the host is to do. Nothing native
/// happens before this returns `Ok`; every failure is an error that guest code can catch.
pub fn plan(call: Hostcall, args: &Vec<GuestValue>) -> (r: Result<HostRequest, EngineError>)
    ensures
        match r {
            Ok(h) => plan_of(call, args@) == Ok::<HostRequestModel, EngineErrorModel>(h@),
            Err(e) => plan_of(call, args@) == Err::<HostRequestModel, EngineErrorModel>(e@),
        },
{
    let needed: usize = match call {
        Hostcall::FetchRequest => 2,
        _ => 1,
    };
    if args.len() < needed {
        return Err(EngineError::MissingArgs { expected: needed, given: args.len() });
    }
    match call {
        Hostcall::ReadBody => match &args[0] {
            GuestValue::Int(n) => if *n == 0 {
                Err(EngineError::thrown("body_handle is 0".to_owned()))
            } else {
                Ok(HostRequest::ReadBody { handle: #[verifier::truncate] (*n as u32) })
            },
            _ => Err(EngineError::thrown("body_handle must be int".to_owned())),
        },
        Hostcall::FetchRequest => plan_fetch_call(&args[args.len() - 2], &args[args.len() - 1]),
        Hostcall::ReadEnv => match arg_to_string(&args[0]) {
            Ok(name) => Ok(HostRequest::ReadEnv { name }),
            Err(e) => Err(to_js_error(e)),
        },
        Hostcall::Sleep => match &args[0] {
            GuestValue::Int(n) => Ok(HostRequest::Sleep { ms: #[verifier::truncate] (*n as u32) }),
            _ => Err(EngineError::thrown("sleep time must be int".to_owned())),
        },
    }
}

/// The value that `read_body` hands to the guest for a chunk: an object with the properties
/// `done` and `value`.
pub fn read_body_result(chunk: Vec<u8>, done: bool) -> (r: GuestValue)
    ensures
        r matches GuestValue::Object(props) && props@.len() == 2 && props@[0].name@ == "done"@
            && props@[0].value == GuestValue::Bool(done) && props@[1].name@ == "value"@
            && props@[1].value == GuestValue::Bytes(chunk),
{
    let mut props: Vec<GuestProperty> = Vec::new();
    props.push(GuestProperty { name: "done".to_owned(), value: GuestValue::Bool(done) });
    props.push(GuestProperty { name: "value".to_owned(), value: GuestValue::Bytes(chunk) });
    GuestValue::Object(props)
}

/// The value that `fetch_request` hands to the guest for a response: the response as a
/// message object. Fails, catchably, where a header of the response is not visible text.
pub fn fetch_result(response: NativeResponse) -> (r: Result<GuestValue, EngineError>)
    ensures
        match r {
            Ok(v) => guest_of_response(response@) matches Ok(obj) && encodes_http_object(v, obj),
            Err(e) => guest_of_response(response@) matches Err(c) && e@ == thrown(
                c.message_text(),
            ),
        },
{
    match JsHttpObject::from_response(response) {
        Ok(obj) => Ok(obj.into_js()),
        Err(e) => Err(EngineError::thrown(e.message())),
    }
}

/// The value that `read_env` hands to the guest: the variable's value, or `null` where the
/// variable is not set.
pub fn read_env_result(value: Option<String>) -> (r: GuestValue)
    ensures
        match value {
            Some(s) => r == GuestValue::Text(s),
            None => r == GuestValue::Null,
        },
{
    match value {
        Some(s) => GuestValue::Text(s),
        None => GuestValue::Null,
    }
}

/// The value that `sleep` hands to the guest: the timer's handle, as a 32-bit integer.
pub fn sleep_result(handle: u32) -> (r: GuestValue)
    ensures
        r == GuestValue::Int(handle as i32),
{
    GuestValue::Int(#[verifier::truncate] (handle as i32))
}

/// Where the handling of a fired timer stands.
#[derive(Clone, Copy, Debug, PartialEq, Eq, Structural)]
pub enum TimerPhase {
    /// The scheduler has fired the timer and nothing has been done yet.
    Fired,
    /// The resolver is being called.
    Resolving,
    /// The job queue is being looked at.
    Settling,
    /// Control is back with the poller.
    Done,
}

/// What the host reports while it handles a fired timer.
pub enum TimerEvent {
    /// The scheduler fired the timer `handle`. `resolver` is the value of the resolver global.
    Fired { resolver: GuestValue, handle: u32 },
    /// The resolver call ended; `threw` tells whether it threw.
    Resolved { threw: bool },
    /// The job queue was looked at; `pending` tells whether a job is queued.
    JobQueue { pending: bool },
}

/// What the host is to do next for a fired timer.
pub enum TimerAction {
    /// Call the resolver with this one argument, then report how the call ended.
    CallResolver(GuestValue),
    /// Report whether a job is queued.
    InspectJobQueue,
    /// Run one pass over the queued jobs, then give control back to the poller.
    RunJobPass,
    /// Give control back to the poller.
    Return,
}

/// The transition function of a fired timer. A callable resolver is called once, with the
/// timer's handle as a 32-bit integer; whether or not it threw, the job queue is looked at
/// next, and one pass over the queued jobs is run where one is pending. An event out of turn
/// ends the handling.
pub open spec fn timer_step_of(phase: TimerPhase, event: TimerEvent) -> (TimerPhase, TimerAction) {
    match (phase, event) {
        (TimerPhase::Fired, TimerEvent::Fired { resolver, handle }) => if resolver is Function {
            (TimerPhase::Resolving, TimerAction::CallResolver(GuestValue::Int(handle as i32)))
        } else {
            (TimerPhase::Settling, TimerAction::InspectJobQueue)
        },
        (TimerPhase::Resolving, TimerEvent::Resolved { threw }) => (
            TimerPhase::Settling,
            TimerAction::InspectJobQueue,
        ),
        (TimerPhase::Settling, TimerEvent::JobQueue { pending }) => if pending {
            (TimerPhase::Done, TimerAction::RunJobPass)
        } else {
            (TimerPhase::Done, TimerAction::Return)
        },
        _ => (TimerPhase::Done, TimerAction::Return),
    }
}

/// Handles a fired timer, one event at a time: takes what the host reports and returns what
/// it is to do next.
pub fn resolve_timer(phase: &mut TimerPhase, event: TimerEvent) -> (r: TimerAction)
    ensures
        (*final(phase), r) == timer_step_of(*old(phase), event),
{
    match (*phase, event) {
        (TimerPhase::Fired, TimerEvent::Fired { resolver, handle }) => match resolver {
            GuestValue::Function => {
                *phase = TimerPhase::Resolving;
                TimerAction::CallResolver(sleep_result(handle))
            },
            _ => {
                *phase = TimerPhase::Settling;
                TimerAction::InspectJobQueue
            },
        },
        (TimerPhase::Resolving, TimerEvent::Resolved { threw: _ }) => {
            *phase = TimerPhase::Settling;
            TimerAction::InspectJobQueue
        },
        (TimerPhase::Settling, TimerEvent::JobQueue { pending }) => {
            *phase = TimerPhase::Done;
            if pending {
                TimerAction::RunJobPass
            } else {
                TimerAction::Return
            }
        },
        _ => {
            *phase = TimerPhase::Done;
            TimerAction::Return
        },
    }
}

/// A fired timer whose resolver is callable: the resolver is called exactly once, with the
/// timer's handle; whether or not it threw, one pass over the queued jobs follows where a
/// job is pending, and then control is back with the poller.
pub proof fn lemma_timer_resolves_then_drains(
    resolver: GuestValue,
    handle: u32,
    threw: bool,
    pending: bool,
)
    requires
        resolver is Function,
    ensures
        ({
            let first = timer_step_of(TimerPhase::Fired, TimerEvent::Fired { resolver, handle });
            let second = timer_step_of(first.0, TimerEvent::Resolved { threw });
            let third = timer_step_of(second.0, TimerEvent::JobQueue { pending });
            &&& first.1 == TimerAction::CallResolver(GuestValue::Int(handle as i32))
            &&& second.1 == TimerAction::InspectJobQueue
            &&& third.1 == (if pending {
                TimerAction::RunJobPass
            } else {
                TimerAction::Return
            })
            &&& third.0 == TimerPhase::Done
        }),
{
}

/// A fired timer whose resolver is not callable: nothing is called, and one pass over the
/// queued jobs still follows where a job is pending.
pub proof fn lemma_timer_without_resolver_drains(resolver: GuestValue, handle: u32, pending: bool)
    requires
        !(resolver is Function),
    ensures
        ({
            let first = timer_step_of(TimerPhase::Fired, TimerEvent::Fired { resolver, handle });
            let second = timer_step_of(first.0, TimerEvent::JobQueue { pending });
            &&& first.1 == TimerAction::InspectJobQueue
            &&& second.1 == (if pending {
                TimerAction::RunJobPass
            } else {
                TimerAction::Return
            })
            &&& second.0 == TimerPhase::Done
        }),
{
}

} // verus!
