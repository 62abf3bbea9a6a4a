//! Building the execution context, once, before any request: the steps in their order, as a
//! state machine. The host performs each step and reports how it ended.

use vstd::prelude::*;
use vstd::string::StringExecFns;
use crate::error::{EngineError, EngineErrorModel};

verus! {

/// The text of an optional string, empty where there is none.
pub open spec fn or_empty(s: Option<Seq<char>>) -> Seq<char> {
    match s {
        Some(t) => t,
        None => Seq::empty(),
    }
}

/// The character of one decimal digit.
pub open spec fn digit(d: nat) -> char {
    if d == 0 {
        '0'
    } else if d == 1 {
        '1'
    } else if d == 2 {
        '2'
    } else if d == 3 {
        '3'
    } else if d == 4 {
        '4'
    } else if d == 5 {
        '5'
    } else if d == 6 {
        '6'
    } else if d == 7 {
        '7'
    } else if d == 8 {
        '8'
    } else {
        '9'
    }
}

/// The decimal digits of a number, without leading zeros.
pub open spec fn decimal(n: nat) -> Seq<char>
    decreases n,
{
    if n < 10 {
        seq![digit(n)]
    } else {
        decimal(n / 10) + seq![digit(n % 10)]
    }
}

/// The text that reports an interpreter error to the host: message and stack of an
/// exception, and for any other error its diagnostic, which for missing arguments names the
/// two counts.
pub open spec fn error_text(e: EngineErrorModel) -> Seq<char> {
    match e {
        EngineErrorModel::Exception { message, stack } => "Exception: "@ + or_empty(message)
            + "\n"@ + or_empty(stack),
        EngineErrorModel::MissingArgs { expected, given } => "Error: MissingArgs { expected: "@
            + decimal(expected as nat) + ", given: "@ + decimal(given as nat) + " }"@,
        EngineErrorModel::Other(text) => "Error: "@ + text,
    }
}

fn digit_text(d: usize) -> (r: &'static str)
    ensures
        r@ == seq![digit(d as nat)],
{
    proof {
        reveal_strlit("0");
        reveal_strlit("1");
        reveal_strlit("2");
        reveal_strlit("3");
        reveal_strlit("4");
        reveal_strlit("5");
        reveal_strlit("6");
        reveal_strlit("7");
        reveal_strlit("8");
        reveal_strlit("9");
    }
    let r = if d == 0 {
        "0"
    } else if d == 1 {
        "1"
    } else if d == 2 {
        "2"
    } else if d == 3 {
        "3"
    } else if d == 4 {
        "4"
    } else if d == 5 {
        "5"
    } else if d == 6 {
        "6"
    } else if d == 7 {
        "7"
    } else if d == 8 {
        "8"
    } else {
        "9"
    };
    assert(r@ =~= seq![digit(d as nat)]);
    r
}

/// The decimal digits of `n` as text.
pub fn decimal_text(n: usize) -> (r: String)
    ensures
        r@ == decimal(n as nat),
    decreases n,
{
    if n < 10 {
        digit_text(n).to_owned()
    } else {
        let mut out = decimal_text(n / 10);
        out.append(digit_text(n % 10));
        out
    }
}

/// Unwraps an interpreter error to the text that the host reports.
pub fn export_js_error(err: &EngineError) -> (r: String)
    ensures
        r@ == error_text(err@),
{
    match err {
        EngineError::Exception { message, stack } => {
            let mut out = "Exception: ".to_owned();
            match message {
                Some(m) => {
                    out.append(m.as_str());
                },
                None => {
                    assert(out@ + Seq::<char>::empty() =~= out@);
                },
            }
            out.append("\n");
            match stack {
                Some(s) => {
                    out.append(s.as_str());
                },
                None => {
                    assert(out@ + Seq::<char>::empty() =~= out@);
                },
            }
            out
        },
        EngineError::MissingArgs { expected, given } => {
            let mut out = "Error: MissingArgs { expected: ".to_owned();
            out.append(decimal_text(*expected).as_str());
            out.append(", given: ");
            out.append(decimal_text(*given).as_str());
            out.append(" }");
            out
        },
        EngineError::Other(text) => {
            let mut out = "Error: ".to_owned();
            out.append(text.as_str());
            out
        },
    }
}

/// A step of the build, in the order in which the steps are taken.
#[derive(Clone, Copy, Debug, PartialEq, Eq, Structural)]
pub enum BuildStep {
    /// Create the interpreter and its context.
    CreateInterpreter,
    /// Install the console and the hostcall surfaces on the global object.
    InstallSurfaces,
    /// Evaluate the vendor helper script.
    EvaluateVendor,
    /// Read the guest source from the build input and register it under the guest module name.
    RegisterGuestModule,
    /// Evaluate the bootstrap module, which stores the guest's default export in a global.
    EvaluateBootstrap,
    /// Run queued jobs until none is pending.
    DrainJobs,
}

/// Where the context stands.
#[derive(Clone, Copy, Debug, PartialEq, Eq, Structural)]
pub enum Lifecycle {
    /// No context exists.
    Uninitialized,
    /// The host is performing this step.
    Building(BuildStep),
    /// The context is published. Nothing leaves this state.
    Ready,
}

/// What the host reports to the machine.
pub enum BuildEvent {
    /// The build-phase entry point was called.
    Begin,
    /// The step asked for succeeded.
    Completed,
    /// The step asked for failed.
    Failed(EngineError),
}

/// What the machine asks of the host.
pub enum BuildAction {
    /// Perform this step and report how it ended.
    Perform(BuildStep),
    /// The build is over: publish the context.
    Publish,
    /// The build is over: it failed, with this text.
    Abort(String),
}

/// Mathematical counterpart of [`BuildAction`].
pub ghost enum BuildActionModel {
    Perform(BuildStep),
    Publish,
    Abort(Seq<char>),
}

impl View for BuildAction {
    type V = BuildActionModel;

    open spec fn view(&self) -> BuildActionModel {
        match self {
            BuildAction::Perform(step) => BuildActionModel::Perform(*step),
            BuildAction::Publish => BuildActionModel::Publish,
            BuildAction::Abort(text) => BuildActionModel::Abort(text@),
        }
    }
}

/// The step that follows `step`, or `None` after the last one.
pub open spec fn step_after(step: BuildStep) -> Option<BuildStep> {
    match step {
        BuildStep::CreateInterpreter => Some(BuildStep::InstallSurfaces),
        BuildStep::InstallSurfaces => Some(BuildStep::EvaluateVendor),
        BuildStep::EvaluateVendor => Some(BuildStep::RegisterGuestModule),
        BuildStep::RegisterGuestModule => Some(BuildStep::EvaluateBootstrap),
        BuildStep::EvaluateBootstrap => Some(BuildStep::DrainJobs),
        BuildStep::DrainJobs => None,
    }
}

/// The transition function: the state after `event` and the action asked for next.
pub open spec fn advance_of(s: Lifecycle, event: BuildEvent) -> (Lifecycle, BuildActionModel) {
    match (s, event) {
        (Lifecycle::Uninitialized, BuildEvent::Begin) => (
            Lifecycle::Building(BuildStep::CreateInterpreter),
            BuildActionModel::Perform(BuildStep::CreateInterpreter),
        ),
        (Lifecycle::Building(step), BuildEvent::Completed) => match step_after(step) {
            Some(next) => (Lifecycle::Building(next), BuildActionModel::Perform(next)),
            None => (Lifecycle::Ready, BuildActionModel::Publish),
        },
        (Lifecycle::Building(_), BuildEvent::Failed(e)) => (
            Lifecycle::Uninitialized,
            BuildActionModel::Abort(error_text(e@)),
        ),
        (Lifecycle::Ready, _) => (
            Lifecycle::Ready,
            BuildActionModel::Abort("set JS_CONTEXT failed"@),
        ),
        (_, _) => (s, BuildActionModel::Abort("build event out of turn"@)),
    }
}

fn next_step(step: BuildStep) -> (r: Option<BuildStep>)
    ensures
        r == step_after(step),
{
    match step {
        BuildStep::CreateInterpreter => Some(BuildStep::InstallSurfaces),
        BuildStep::InstallSurfaces => Some(BuildStep::EvaluateVendor),
        BuildStep::EvaluateVendor => Some(BuildStep::RegisterGuestModule),
        BuildStep::RegisterGuestModule => Some(BuildStep::EvaluateBootstrap),
        BuildStep::EvaluateBootstrap => Some(BuildStep::DrainJobs),
        BuildStep::DrainJobs => None,
    }
}

impl Lifecycle {
    /// The state before the build.
    pub fn new() -> (r: Lifecycle)
        ensures
            r == Lifecycle::Uninitialized,
    {
        Lifecycle::Uninitialized
    }

    /// Whether the context is published.
    pub fn is_ready(&self) -> (r: bool)
        ensures
            r == (*self == Lifecycle::Ready),
    {
        match self {
            Lifecycle::Ready => true,
            _ => false,
        }
    }

    /// Takes one event and returns the action to perform next.
    pub fn advance(&mut self, event: BuildEvent) -> (r: BuildAction)
        ensures
            *final(self) == advance_of(*old(self), event).0,
            r@ == advance_of(*old(self), event).1,
    {
        match (*self, event) {
            (Lifecycle::Uninitialized, BuildEvent::Begin) => {
                *self = Lifecycle::Building(BuildStep::CreateInterpreter);
                BuildAction::Perform(BuildStep::CreateInterpreter)
            },
            (Lifecycle::Building(step), BuildEvent::Completed) => match next_step(step) {
                Some(next) => {
                    *self = Lifecycle::Building(next);
                    BuildAction::Perform(next)
                },
                None => {
                    *self = Lifecycle::Ready;
                    BuildAction::Publish
                },
            },
            (Lifecycle::Building(_), BuildEvent::Failed(e)) => {
                *self = Lifecycle::Uninitialized;
                BuildAction::Abort(export_js_error(&e))
            },
            (Lifecycle::Ready, _) => BuildAction::Abort(
                "set JS_CONTEXT failed".to_owned(),
            ),
            (_, _) => BuildAction::Abort("build event out of turn".to_owned()),
        }
    }
}

/// The state after the events `events`, taken in order.
pub open spec fn run(s: Lifecycle, events: Seq<BuildEvent>) -> Lifecycle
    decreases events.len(),
{
    if events.len() == 0 {
        s
    } else {
        advance_of(run(s, events.drop_last()), events.last()).0
    }
}

/// Once published, the context stays published: no event leaves `Ready`.
pub proof fn lemma_ready_is_terminal(events: Seq<BuildEvent>)
    ensures
        run(Lifecycle::Ready, events) == Lifecycle::Ready,
    decreases events.len(),
{
    if events.len() > 0 {
        lemma_ready_is_terminal(events.drop_last());
    }
}

/// A build in which every step succeeds takes the six steps in order and ends published.
pub proof fn lemma_build_succeeds()
    ensures
        run(
            Lifecycle::Uninitialized,
            seq![
                BuildEvent::Begin,
                BuildEvent::Completed,
                BuildEvent::Completed,
                BuildEvent::Completed,
                BuildEvent::Completed,
                BuildEvent::Completed,
                BuildEvent::Completed,
            ],
        ) == Lifecycle::Ready,
{
    let e = seq![
        BuildEvent::Begin,
        BuildEvent::Completed,
        BuildEvent::Completed,
        BuildEvent::Completed,
        BuildEvent::Completed,
        BuildEvent::Completed,
        BuildEvent::Completed,
    ];
    let s0 = Lifecycle::Uninitialized;
    assert(e.take(0) =~= Seq::empty());
    assert(run(s0, e.take(0)) == s0);
    assert forall|k: int| 0 <= k < 7 implies #[trigger] e.take(k + 1).drop_last() =~= e.take(k) by {}
    assert(run(s0, e.take(1)) == Lifecycle::Building(BuildStep::CreateInterpreter)) by {
        assert(e.take(1).drop_last() =~= e.take(0));
    }
    assert(run(s0, e.take(2)) == Lifecycle::Building(BuildStep::InstallSurfaces)) by {
        assert(e.take(2).drop_last() =~= e.take(1));
    }
    assert(run(s0, e.take(3)) == Lifecycle::Building(BuildStep::EvaluateVendor)) by {
        assert(e.take(3).drop_last() =~= e.take(2));
    }
    assert(run(s0, e.take(4)) == Lifecycle::Building(BuildStep::RegisterGuestModule)) by {
        assert(e.take(4).drop_last() =~= e.take(3));
    }
    assert(run(s0, e.take(5)) == Lifecycle::Building(BuildStep::EvaluateBootstrap)) by {
        assert(e.take(5).drop_last() =~= e.take(4));
    }
    assert(run(s0, e.take(6)) == Lifecycle::Building(BuildStep::DrainJobs)) by {
        assert(e.take(6).drop_last() =~= e.take(5));
    }
    assert(run(s0, e.take(7)) == Lifecycle::Ready) by {
        assert(e.take(7).drop_last() =~= e.take(6));
    }
    assert(e.take(7) =~= e);
}

/// A failing step aborts the build with the error's text and leaves no context behind.
pub proof fn lemma_failure_aborts(step: BuildStep, e: EngineError)
    ensures
        advance_of(Lifecycle::Building(step), BuildEvent::Failed(e)) == (
            Lifecycle::Uninitialized,
            BuildActionModel::Abort(error_text(e@)),
        ),
{
}

/// The line that the build-phase entry point prints for the outcome of the build: `success`,
/// or the text of the error that aborted it.
pub fn init(outcome: Result<(), String>) -> (r: String)
    ensures
        match outcome {
            Ok(_) => r@ == "success"@,
            Err(text) => r == text,
        },
{
    match outcome {
        Ok(_) => "success".to_owned(),
        Err(text) => text,
    }
}

/// Name of the module under which the guest source is registered.
pub fn guest_module_name() -> (r: String)
    ensures
        r@ == "user.js"@,
{
    "user.js".to_owned()
}

/// Name of the bootstrap module.
pub fn bootstrap_module_name() -> (r: String)
    ensures
        r@ == "internal"@,
{
    "internal".to_owned()
}

/// Source of the bootstrap module: it stores the guest module's default export in the
/// global `handler`.
pub fn bootstrap_source() -> (r: String)
    ensures
        r@ == "import fn from 'user.js'; globalThis.handler = fn;"@,
{
    "import fn from 'user.js'; globalThis.handler = fn;".to_owned()
}

} // verus!
