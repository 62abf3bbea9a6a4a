use land_js::dispatch::{Dispatch, DispatchAction, DispatchError, DispatchEvent};
use land_js::error::EngineError;
use land_js::lifecycle::{
    bootstrap_module_name, bootstrap_source, decimal_text, export_js_error, guest_module_name, init,
    BuildAction, BuildEvent, BuildStep, Lifecycle,
};
use land_js::native::{NativeBody, NativeHeaders, NativeRequest};
use land_js::value::GuestValue;

const STEPS: [BuildStep; 6] = [
    BuildStep::CreateInterpreter,
    BuildStep::InstallSurfaces,
    BuildStep::EvaluateVendor,
    BuildStep::RegisterGuestModule,
    BuildStep::EvaluateBootstrap,
    BuildStep::DrainJobs,
];

fn built() -> Lifecycle {
    let mut l = Lifecycle::new();
    assert_eq!(l, Lifecycle::Uninitialized);
    let mut action = l.advance(BuildEvent::Begin);
    for step in STEPS {
        assert!(matches!(action, BuildAction::Perform(s) if s == step));
        assert_eq!(l, Lifecycle::Building(step));
        assert!(!l.is_ready());
        action = l.advance(BuildEvent::Completed);
    }
    assert!(matches!(action, BuildAction::Publish));
    l
}

#[test]
fn build_takes_the_steps_in_order() {
    let l = built();
    assert_eq!(l, Lifecycle::Ready);
    assert!(l.is_ready());
}

#[test]
fn ready_is_terminal() {
    let mut l = built();
    assert!(matches!(l.advance(BuildEvent::Begin), BuildAction::Abort(s) if s == "set JS_CONTEXT failed"));
    assert_eq!(l, Lifecycle::Ready);
    assert!(matches!(l.advance(BuildEvent::Completed), BuildAction::Abort(_)));
    assert_eq!(l, Lifecycle::Ready);
    assert!(matches!(l.advance(BuildEvent::Failed(EngineError::Other("x".into()))), BuildAction::Abort(_)));
    assert_eq!(l, Lifecycle::Ready);
}

#[test]
fn failing_step_aborts_the_build() {
    for n in 0..6 {
        let mut l = Lifecycle::new();
        l.advance(BuildEvent::Begin);
        for _ in 0..n {
            l.advance(BuildEvent::Completed);
        }
        let err = EngineError::Exception { message: Some("bad vendor".into()), stack: Some("    at <eval>".into()) };
        let a = l.advance(BuildEvent::Failed(err));
        assert!(matches!(a, BuildAction::Abort(s) if s == "Exception: bad vendor\n    at <eval>"));
        assert_eq!(l, Lifecycle::Uninitialized);
    }
}

#[test]
fn build_events_out_of_turn() {
    let mut l = Lifecycle::new();
    assert!(matches!(l.advance(BuildEvent::Completed), BuildAction::Abort(s) if s == "build event out of turn"));
    assert_eq!(l, Lifecycle::Uninitialized);
    l.advance(BuildEvent::Begin);
    assert!(matches!(l.advance(BuildEvent::Begin), BuildAction::Abort(s) if s == "build event out of turn"));
    assert_eq!(l, Lifecycle::Building(BuildStep::CreateInterpreter));
}

#[test]
fn error_text_of_an_exception() {
    let e = EngineError::Exception { message: Some("oops".into()), stack: Some("    at f (user.js:1)\n".into()) };
    assert_eq!(export_js_error(&e), "Exception: oops\n    at f (user.js:1)\n");
    let e = EngineError::Exception { message: None, stack: None };
    assert_eq!(export_js_error(&e), "Exception: \n");
    let e = EngineError::Exception { message: Some("m".into()), stack: None };
    assert_eq!(export_js_error(&e), "Exception: m\n");
    let e = EngineError::Exception { message: None, stack: Some("s".into()) };
    assert_eq!(export_js_error(&e), "Exception: \ns");
}

#[test]
fn error_text_of_other_errors() {
    assert_eq!(export_js_error(&EngineError::Other("Unknown".into())), "Error: Unknown");
    assert_eq!(export_js_error(&EngineError::Other(String::new())), "Error: ");
    let e = EngineError::MissingArgs { expected: 1, given: 0 };
    assert_eq!(export_js_error(&e), "Error: MissingArgs { expected: 1, given: 0 }");
    let e = EngineError::MissingArgs { expected: 2, given: 10 };
    assert_eq!(export_js_error(&e), "Error: MissingArgs { expected: 2, given: 10 }");
}

#[test]
fn error_text_of_missing_arguments_is_the_diagnostic() {
    for (expected, given) in [(0usize, 0usize), (1, 0), (2, 1), (10, 9), (123, 4567), (usize::MAX, 100)] {
        let ours = export_js_error(&EngineError::MissingArgs { expected, given });
        let theirs = format!("Error: {:?}", rquickjs::Error::MissingArgs { expected, given });
        assert_eq!(ours, theirs);
    }
}

#[test]
fn decimal_digits() {
    assert_eq!(decimal_text(0), "0");
    assert_eq!(decimal_text(7), "7");
    assert_eq!(decimal_text(10), "10");
    assert_eq!(decimal_text(109), "109");
    assert_eq!(decimal_text(1234567890), "1234567890");
    assert_eq!(decimal_text(usize::MAX), usize::MAX.to_string());
}

#[test]
fn build_report_line() {
    assert_eq!(init(Ok(())), "success");
    assert_eq!(init(Err("Exception: x\n".into())), "Exception: x\n");
}

#[test]
fn module_names_and_bootstrap() {
    assert_eq!(guest_module_name(), "user.js");
    assert_eq!(bootstrap_module_name(), "internal");
    assert_eq!(bootstrap_source(), "import fn from 'user.js'; globalThis.handler = fn;");
}

#[test]
fn build_succeeds_and_first_dispatch_misses_the_handler() {
    let l = built();
    assert!(l.is_ready());
    let mut d = Dispatch::new();
    let request = NativeRequest {
        method: "GET".into(),
        uri: "/".into(),
        headers: NativeHeaders::new(),
        body: NativeBody::Empty,
    };
    let a = d.step(DispatchEvent::Start { handler: GuestValue::Undefined, request });
    assert!(matches!(a, DispatchAction::Fail(DispatchError::HandlerMissing)));
}
