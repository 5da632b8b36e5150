use day_piece_webview::{
    engine_error, wrap_script, EvalError, EvalRegistry, EvalRequest, PollStep, WebPatch, SEP,
};

fn reply(parts: &[&str]) -> String {
    parts.join(&SEP.to_string())
}

#[test]
fn request_ids_start_at_one_and_never_repeat() {
    let mut reg: EvalRegistry<&str> = EvalRegistry::new();
    let a = reg.next_request();
    let b = reg.next_request();
    let c = reg.next_request();
    assert_eq!((a, b, c), (1, 2, 3));
}

#[test]
fn a_reply_reaches_the_evaluation_waiting_on_it() {
    let mut reg: EvalRegistry<&str> = EvalRegistry::new();
    let a = reg.next_request();
    let b = reg.next_request();
    reg.register(a, "first");
    reg.register(b, "second");
    assert_eq!(
        reg.resolve(b, &reply(&["1", "42"])),
        Some(("second", Ok("42".to_string())))
    );
    assert_eq!(
        reg.resolve(a, &engine_error("WebKitError", "process gone")),
        Some((
            "first",
            Err(EvalError::Threw {
                name: "WebKitError".into(),
                message: "process gone".into()
            })
        ))
    );
}

#[test]
fn a_reply_is_delivered_at_most_once() {
    let mut reg: EvalRegistry<u32> = EvalRegistry::new();
    let a = reg.next_request();
    reg.register(a, 7);
    assert!(reg.resolve(a, &reply(&["1", "null"])).is_some());
    assert_eq!(reg.resolve(a, &reply(&["1", "null"])), None);
}

#[test]
fn a_late_reply_for_a_dropped_evaluation_is_discarded() {
    let mut reg: EvalRegistry<u32> = EvalRegistry::new();
    let a = reg.next_request();
    let b = reg.next_request();
    reg.register(a, 1);
    reg.register(b, 2);
    reg.forget(a);
    assert_eq!(reg.resolve(a, &reply(&["1", "1"])), None);
    assert_eq!(reg.resolve(b, &reply(&["1", "2"])), Some((2, Ok("2".to_string()))));
}

#[test]
fn a_reply_for_an_undispatched_request_is_discarded() {
    let mut reg: EvalRegistry<u32> = EvalRegistry::new();
    let a = reg.next_request();
    assert_eq!(reg.resolve(a, &reply(&["1", "1"])), None);
    assert_eq!(reg.resolve(0, &reply(&["1", "1"])), None);
}

#[test]
fn the_first_poll_dispatches_the_wrapped_script_once() {
    let mut e = EvalRequest::new(3, "1 + 1");
    assert_eq!(e.req(), 3);
    match e.poll(None, true, true) {
        PollStep::Dispatch(patch) => assert_eq!(
            patch,
            WebPatch::Eval {
                req: 3,
                script: wrap_script("1 + 1")
            }
        ),
        _ => panic!("the first poll must dispatch"),
    }
    assert!(matches!(e.poll(None, true, true), PollStep::Wait));
    assert!(matches!(e.poll(None, true, true), PollStep::Wait));
}

#[test]
fn an_arrived_answer_is_handed_over() {
    let mut e = EvalRequest::new(1, "x");
    assert!(matches!(e.poll(None, true, true), PollStep::Dispatch(_)));
    match e.poll(Some(Ok("\"x\"".to_string())), true, true) {
        PollStep::Ready(r) => assert_eq!(r, Ok("\"x\"".to_string())),
        _ => panic!("an arrived answer must be handed over"),
    }
}

#[test]
fn no_engine_answers_unsupported_without_dispatching() {
    let mut e = EvalRequest::new(1, "x");
    match e.poll(None, false, true) {
        PollStep::Ready(r) => assert_eq!(r, Err(EvalError::Unsupported)),
        _ => panic!("an unsupported backend answers at once"),
    }
    assert!(matches!(e.poll(None, true, true), PollStep::Wait));
}

#[test]
fn no_view_answers_view_gone() {
    let mut e = EvalRequest::new(1, "x");
    match e.poll(None, true, false) {
        PollStep::Ready(r) => assert_eq!(r, Err(EvalError::ViewGone)),
        _ => panic!("an unrealized view answers at once"),
    }
}
