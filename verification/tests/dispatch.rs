//! Trampoline and dispatch behaviour, exercised with recording handlers.

use sciter::event::{
    default_events, BehaviorEvent, BehaviorEventParams, EventGroups, EventHandler, EventReason,
    InitEvent, Phase, HANDLE_BEHAVIOR_EVENT, HANDLE_INITIALIZATION, HANDLE_SCRIPTING_METHOD_CALL,
    HANDLE_TIMER, PHASE_SINKING, SUBSCRIPTIONS_REQUEST,
};
use sciter::eventhandler::{
    is_detach_event, process_events, BoxedHandler, EventParams, Hook, WindowHandler,
    _event_handler_behavior_proc, _event_handler_proc, _event_handler_window_proc,
};
use sciter::value::Value;

#[derive(Default)]
struct Probe {
    attached: u32,
    detached: u32,
    completes: u32,
    closes: u32,
    events: Vec<(BehaviorEvent, Phase)>,
    answer: bool,
}

impl EventHandler for Probe {
    fn attached(&mut self, _root: u64) {
        self.attached += 1;
    }

    fn detached(&mut self, _root: u64) {
        self.detached += 1;
    }

    fn document_complete(&mut self, _root: u64, _target: u64) {
        self.completes += 1;
    }

    fn document_close(&mut self, _root: u64, _target: u64) {
        self.closes += 1;
    }

    fn on_event(
        &mut self,
        _root: u64,
        _source: u64,
        _target: u64,
        code: BehaviorEvent,
        phase: Phase,
        _reason: EventReason,
    ) -> bool {
        self.events.push((code, phase));
        self.answer
    }

    fn on_timer(&mut self, _root: u64, _timer_id: u64) -> bool {
        true
    }
}

fn behavior_params(cmd: u32) -> EventParams {
    EventParams::BehaviorEvent(BehaviorEventParams {
        cmd,
        he_target: 7,
        he: 3,
        reason: 0,
        data: Value::Null,
    })
}

#[test]
fn trampoline_round_trip() {
    // a behavior event with code X in the bubbling phase reaches on_event
    // exactly once with that code, and the trampoline answers what the
    // handler answered
    let code_x = 0x16; // the `Click` code
    for answer in [false, true] {
        let mut me = Probe {
            answer,
            ..Probe::default()
        };
        let params = behavior_params(code_x);
        let outcome = process_events(&mut me, 1, HANDLE_BEHAVIOR_EVENT, &params);
        assert_eq!(me.events.len(), 1);
        assert_eq!(me.events[0], (BehaviorEvent::Click, Phase::Bubbling));
        assert_eq!(outcome.handled, answer);
        assert_eq!(outcome.fired.len(), 1);
        assert_eq!(outcome.fired[0].kind, Hook::OnEvent);
    }
}

#[test]
fn detach_exactly_once_window() {
    let mut slot = Some(WindowHandler {
        hwnd: 42,
        handler: Probe::default(),
    });
    let attach = EventParams::Initialization {
        cmd: InitEvent::BehaviorAttach,
    };
    let outcome = _event_handler_window_proc(&mut slot, 1, HANDLE_INITIALIZATION, &attach);
    assert!(outcome.handled);
    assert_eq!(slot.as_ref().unwrap().handler.attached, 1);

    let detach = EventParams::Initialization {
        cmd: InitEvent::BehaviorDetach,
    };
    let outcome = _event_handler_window_proc(&mut slot, 1, HANDLE_INITIALIZATION, &detach);
    assert!(outcome.handled);
    assert_eq!(outcome.fired.len(), 1);
    assert_eq!(outcome.fired[0].kind, Hook::Detached);
    // the context was reclaimed exactly here
    assert!(slot.is_none());
}

#[test]
fn detach_exactly_once_element() {
    let mut slot = Some(Probe::default());
    let attach = EventParams::Initialization {
        cmd: InitEvent::BehaviorAttach,
    };
    let outcome = _event_handler_proc(&mut slot, 5, HANDLE_INITIALIZATION, &attach);
    assert!(outcome.handled);
    assert_eq!(slot.as_ref().unwrap().attached, 1);

    let detach = EventParams::Initialization {
        cmd: InitEvent::BehaviorDetach,
    };
    assert!(is_detach_event(HANDLE_INITIALIZATION, &detach));
    let outcome = _event_handler_proc(&mut slot, 5, HANDLE_INITIALIZATION, &detach);
    assert!(outcome.handled);
    assert!(slot.is_none());
}

#[test]
fn sinking_document_hooks_fire_alongside_generic() {
    // DOCUMENT_COMPLETE delivered in the sinking phase fires the dedicated
    // hook and then the generic hook, in that order
    let mut me = Probe::default();
    let cmd = 0x98 | PHASE_SINKING; // DocumentComplete, sinking
    let params = behavior_params(cmd);
    let outcome = process_events(&mut me, 1, HANDLE_BEHAVIOR_EVENT, &params);
    assert_eq!(me.completes, 1);
    assert_eq!(me.events.len(), 1);
    assert_eq!(outcome.fired.len(), 2);
    assert_eq!(outcome.fired[0].kind, Hook::DocumentComplete);
    assert_eq!(outcome.fired[1].kind, Hook::OnEvent);
    assert!(!outcome.handled);
}

#[test]
fn sinking_document_close_fires_both() {
    let mut me = Probe::default();
    let cmd = 0xC2 | PHASE_SINKING; // DocumentClose, sinking
    let params = behavior_params(cmd);
    let outcome = process_events(&mut me, 1, HANDLE_BEHAVIOR_EVENT, &params);
    assert_eq!(me.closes, 1);
    assert_eq!(outcome.fired.len(), 2);
    assert_eq!(outcome.fired[0].kind, Hook::DocumentClose);
    assert_eq!(outcome.fired[1].kind, Hook::OnEvent);
}

#[test]
fn bubbling_document_code_fires_generic_only() {
    let mut me = Probe::default();
    let params = behavior_params(0x98); // DocumentComplete, bubbling
    let outcome = process_events(&mut me, 1, HANDLE_BEHAVIOR_EVENT, &params);
    assert_eq!(me.completes, 0);
    assert_eq!(outcome.fired.len(), 1);
    assert_eq!(outcome.fired[0].kind, Hook::OnEvent);
}

#[test]
fn subscription_query_answers_default() {
    let mut me = Probe::default();
    let outcome = process_events(&mut me, 0, SUBSCRIPTIONS_REQUEST, &EventParams::Subscription);
    assert!(outcome.handled);
    let mask: EventGroups = outcome.subscription.unwrap();
    assert_eq!(mask, default_events());
}

#[test]
fn timer_answer_is_forwarded() {
    let mut me = Probe::default();
    let params = EventParams::Timer { timer_id: 99 };
    let outcome = process_events(&mut me, 1, HANDLE_TIMER, &params);
    assert!(outcome.handled);
    assert_eq!(outcome.fired[0].kind, Hook::OnTimer);
}

#[test]
fn script_call_unanswered_is_unhandled() {
    let mut me = Probe::default();
    let params = EventParams::ScriptCall {
        name: String::from("missing"),
        args: Vec::new(),
    };
    let outcome = process_events(&mut me, 1, HANDLE_SCRIPTING_METHOD_CALL, &params);
    assert!(!outcome.handled);
    assert!(outcome.script_result.is_none());
}

#[test]
fn unknown_group_is_unhandled() {
    let mut me = Probe::default();
    let outcome = process_events(&mut me, 1, 0x2000, &EventParams::Undecoded);
    assert!(!outcome.handled);
    assert_eq!(outcome.fired.len(), 0);
}

struct Button;

impl EventHandler for Button {
    fn on_event(
        &mut self,
        _root: u64,
        _source: u64,
        _target: u64,
        code: BehaviorEvent,
        phase: Phase,
        _reason: EventReason,
    ) -> bool {
        code == BehaviorEvent::ButtonClick && phase == Phase::Bubbling
    }
}

#[test]
fn custom_button_behavior() {
    // register "custom-button", resolve it as the engine would, make the
    // handler through the resolved factory, and fire synthetic clicks
    let mut eng = sciter::engine::Engine::new();
    let mut host = sciter::Host::attach(&mut eng, 11);
    host.register_behavior("custom-button", 1);
    let token = host.find_behavior("custom-button");
    assert_eq!(token, Some(1));

    // the application side maps token 1 to the Button factory
    let handler = match token {
        Some(1) => Button,
        _ => unreachable!(),
    };
    let mut slot = Some(BoxedHandler { handler });

    let click_bubbling = behavior_params(0x00); // ButtonClick, bubbling
    let outcome = _event_handler_behavior_proc(&mut slot, 4, HANDLE_BEHAVIOR_EVENT, &click_bubbling);
    assert!(outcome.handled);

    let click_sinking = behavior_params(0x00 | PHASE_SINKING);
    let outcome = _event_handler_behavior_proc(&mut slot, 4, HANDLE_BEHAVIOR_EVENT, &click_sinking);
    assert!(!outcome.handled);
}

#[test]
fn detach_exactly_once_behavior() {
    // the behavior-name shape reclaims its box exactly at the detach too
    let mut slot = Some(BoxedHandler {
        handler: Probe::default(),
    });
    let attach = EventParams::Initialization {
        cmd: InitEvent::BehaviorAttach,
    };
    let outcome = _event_handler_behavior_proc(&mut slot, 4, HANDLE_INITIALIZATION, &attach);
    assert!(outcome.handled);
    assert_eq!(slot.as_ref().unwrap().handler.attached, 1);

    let detach = EventParams::Initialization {
        cmd: InitEvent::BehaviorDetach,
    };
    let outcome = _event_handler_behavior_proc(&mut slot, 4, HANDLE_INITIALIZATION, &detach);
    assert!(outcome.handled);
    assert_eq!(outcome.fired.len(), 1);
    assert_eq!(outcome.fired[0].kind, Hook::Detached);
    assert!(slot.is_none());
}

#[test]
fn window_shape_forwards_events() {
    // outside the lifecycle commands the window shape funnels into the
    // shared dispatch like the others
    let mut slot = Some(WindowHandler {
        hwnd: 42,
        handler: Probe {
            answer: true,
            ..Probe::default()
        },
    });
    let params = behavior_params(0x16);
    let outcome = _event_handler_window_proc(&mut slot, 1, HANDLE_BEHAVIOR_EVENT, &params);
    assert!(outcome.handled);
    assert!(slot.is_some());
    assert_eq!(slot.as_ref().unwrap().handler.events.len(), 1);
}
