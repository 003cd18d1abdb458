//! Callback trampolines and the shared notification dispatch.
//!
//! The engine calls back through a fixed signature: a context slot, an
//! element handle, a notification group code and a group-specific payload.
//! Three attachment shapes exist — window-level, element-level and
//! behavior-name — and all three funnel into one dispatch routine after
//! handling the attach/detach lifecycle locally.  The context slot owns the
//! handler; on the detach notification it is emptied exactly once, which is
//! the model of reclaiming and dropping the boxed handler.

use vstd::prelude::*;

verus! {

use crate::event::{
    decode_command, decode_reason, BehaviorEvent, BehaviorEventParams, EventGroups, EventHandler,
    EventReason, InitEvent, Phase, spec_code_bits, spec_event_from_code, spec_phase, spec_reason,
    HANDLE_BEHAVIOR_EVENT, HANDLE_INITIALIZATION, HANDLE_SCRIPTING_METHOD_CALL, HANDLE_TIMER,
    SUBSCRIPTIONS_REQUEST,
};
use crate::value::Value;

/// Typed payload of one engine notification; which variant arrives is
/// fixed by the notification group code.
pub enum EventParams {
    /// Attach or detach command.
    Initialization {
        /// The lifecycle command.
        cmd: InitEvent,
    },
    /// A behavior event payload.
    BehaviorEvent(BehaviorEventParams),
    /// A script call: function name and arguments.
    ScriptCall {
        /// Name of the called function.
        name: String,
        /// Call arguments.
        args: Vec<Value>,
    },
    /// A timer tick.
    Timer {
        /// The timer's identifier.
        timer_id: u64,
    },
    /// A subscription query; the answer travels back in the outcome.
    Subscription,
    /// Payload of a group this binding does not decode.
    Undecoded,
}

/// The payload shape the engine documents for each notification group.
/// A payload that does not match its group would be a contract violation
/// by the engine, so dispatch requires this.
pub open spec fn params_match_group(evtg: u32, params: EventParams) -> bool {
    if evtg == SUBSCRIPTIONS_REQUEST {
        params is Subscription
    } else if evtg == HANDLE_INITIALIZATION {
        params is Initialization
    } else if evtg == HANDLE_BEHAVIOR_EVENT {
        params is BehaviorEvent
    } else if evtg == HANDLE_SCRIPTING_METHOD_CALL {
        params is ScriptCall
    } else if evtg == HANDLE_TIMER {
        params is Timer
    } else {
        true
    }
}

/// One of the handler's hooks.
#[derive(Clone, Copy, PartialEq, Eq, Structural, Debug)]
pub enum Hook {
    /// `get_subscription`.
    Subscription,
    /// `attached`.
    Attached,
    /// `detached`.
    Detached,
    /// `document_complete`.
    DocumentComplete,
    /// `document_close`.
    DocumentClose,
    /// `on_event`.
    OnEvent,
    /// `on_script_call`.
    OnScriptCall,
    /// `on_timer`.
    OnTimer,
}

/// A hook that fired, with the flag it answered (`true` for hooks that
/// answer nothing).
#[derive(Clone, Copy, PartialEq, Eq, Structural, Debug)]
pub struct FiredHook {
    /// Which hook fired.
    pub kind: Hook,
    /// The boolean the hook answered.
    pub flag: bool,
}

/// The hook kinds of a fired sequence, in order.
pub open spec fn fired_kinds(fired: Seq<FiredHook>) -> Seq<Hook> {
    fired.map_values(|f: FiredHook| f.kind)
}

/// Exactly which hooks a notification makes fire, in order.  On the
/// sinking phase only, the document lifecycle codes fire their dedicated
/// hook first and the generic `on_event` hook still fires after it.
/// A group this binding does not know fires nothing and stays unhandled.
pub open spec fn dispatch_plan(evtg: u32, params: EventParams) -> Seq<Hook> {
    if evtg == SUBSCRIPTIONS_REQUEST {
        seq![Hook::Subscription]
    } else if evtg == HANDLE_INITIALIZATION {
        match params {
            EventParams::Initialization { cmd } => if cmd == InitEvent::BehaviorDetach {
                seq![Hook::Detached]
            } else {
                seq![Hook::Attached]
            },
            _ => seq![],
        }
    } else if evtg == HANDLE_BEHAVIOR_EVENT {
        match params {
            EventParams::BehaviorEvent(p) => {
                let code = spec_event_from_code(spec_code_bits(p.cmd));
                if spec_phase(p.cmd) == Phase::Sinking && code == BehaviorEvent::DocumentComplete {
                    seq![Hook::DocumentComplete, Hook::OnEvent]
                } else if spec_phase(p.cmd) == Phase::Sinking && code
                    == BehaviorEvent::DocumentClose {
                    seq![Hook::DocumentClose, Hook::OnEvent]
                } else {
                    seq![Hook::OnEvent]
                }
            },
            _ => seq![],
        }
    } else if evtg == HANDLE_SCRIPTING_METHOD_CALL {
        seq![Hook::OnScriptCall]
    } else if evtg == HANDLE_TIMER {
        seq![Hook::OnTimer]
    } else {
        seq![]
    }
}

/// Whether a notification is the terminal detach command.
pub open spec fn spec_is_detach(evtg: u32, params: EventParams) -> bool {
    evtg == HANDLE_INITIALIZATION && (params matches EventParams::Initialization { cmd } && cmd
        == InitEvent::BehaviorDetach)
}

/// Whether a notification group code is one the dispatcher decodes.
pub open spec fn known_group(evtg: u32) -> bool {
    ||| evtg == SUBSCRIPTIONS_REQUEST
    ||| evtg == HANDLE_INITIALIZATION
    ||| evtg == HANDLE_BEHAVIOR_EVENT
    ||| evtg == HANDLE_SCRIPTING_METHOD_CALL
    ||| evtg == HANDLE_TIMER
}

/// What one dispatch did: the trampoline's "handled" answer, the hooks
/// that fired with their answers, and the values that travel back to the
/// engine (the subscription mask and the script call result).
pub struct DispatchOutcome {
    /// The "handled" flag the trampoline answers to the engine.
    pub handled: bool,
    /// The hooks that fired, in order.
    pub fired: Vec<FiredHook>,
    /// The subscription mask reported on a subscription query.
    pub subscription: Option<EventGroups>,
    /// The value answered to a script call, to be packed into the
    /// payload's result slot.
    pub script_result: Option<Value>,
    /// The decoded event handed to `on_event`, when one fired.
    pub event: Option<(BehaviorEvent, Phase, EventReason)>,
}

/// The dispatch contract: the fired hooks follow the plan, the handled
/// flag reports exactly what the handler answered, and the values going
/// back to the engine appear if and only if their group was dispatched.
pub open spec fn outcome_ok(evtg: u32, params: EventParams, r: DispatchOutcome) -> bool {
    &&& fired_kinds(r.fired@) == dispatch_plan(evtg, params)
    &&& (evtg == SUBSCRIPTIONS_REQUEST ==> {
        &&& r.handled == (r.subscription is Some)
        &&& r.fired@[0].flag == r.handled
    })
    &&& (evtg == HANDLE_INITIALIZATION ==> r.handled)
    &&& (evtg == HANDLE_BEHAVIOR_EVENT ==> {
        &&& r.handled == r.fired@.last().flag
        &&& (params matches EventParams::BehaviorEvent(p) ==> {
            let code = spec_event_from_code(spec_code_bits(p.cmd));
            r.event == Some((code, spec_phase(p.cmd), spec_reason(code, p.reason)))
        })
    })
    &&& (evtg == HANDLE_SCRIPTING_METHOD_CALL ==> {
        &&& r.handled == (r.script_result is Some)
        &&& r.fired@[0].flag == r.handled
    })
    &&& (evtg == HANDLE_TIMER ==> r.handled == r.fired@[0].flag)
    &&& (!known_group(evtg) ==> !r.handled && r.fired@.len() == 0)
    &&& (r.subscription is Some ==> evtg == SUBSCRIPTIONS_REQUEST)
    &&& (r.script_result is Some ==> evtg == HANDLE_SCRIPTING_METHOD_CALL)
    &&& (r.event is Some <==> (evtg == HANDLE_BEHAVIOR_EVENT && params is BehaviorEvent))
}

/// Whether a notification is the terminal detach command, which the
/// trampolines treat locally before any dispatch.
pub fn is_detach_event(evtg: u32, params: &EventParams) -> (r: bool)
    ensures
        r == spec_is_detach(evtg, *params),
{
    if evtg == HANDLE_INITIALIZATION {
        match params {
            EventParams::Initialization { cmd } => match cmd {
                InitEvent::BehaviorDetach => true,
                InitEvent::BehaviorAttach => false,
            },
            _ => false,
        }
    } else {
        false
    }
}

/// The shared dispatch routine: decode one notification and make the
/// corresponding hook calls on the handler, in plan order.
pub fn process_events<T: EventHandler>(me: &mut T, he: u64, evtg: u32, params: &EventParams) -> (r:
    DispatchOutcome)
    requires
        params_match_group(evtg, *params),
    ensures
        outcome_ok(evtg, *params, r),
{
    let mut fired: Vec<FiredHook> = Vec::new();
    if evtg == SUBSCRIPTIONS_REQUEST {
        let sub = me.get_subscription();
        let got = sub.is_some();
        fired.push(FiredHook { kind: Hook::Subscription, flag: got });
        proof {
            assert(fired_kinds(fired@) =~= dispatch_plan(evtg, *params));
        }
        DispatchOutcome {
            handled: got,
            fired,
            subscription: sub,
            script_result: None,
            event: None,
        }
    } else if evtg == HANDLE_INITIALIZATION {
        match params {
            EventParams::Initialization { cmd } => {
                match cmd {
                    InitEvent::BehaviorDetach => {
                        me.detached(he);
                        fired.push(FiredHook { kind: Hook::Detached, flag: true });
                    },
                    InitEvent::BehaviorAttach => {
                        me.attached(he);
                        fired.push(FiredHook { kind: Hook::Attached, flag: true });
                    },
                }
                proof {
                    assert(fired_kinds(fired@) =~= dispatch_plan(evtg, *params));
                }
                DispatchOutcome {
                    handled: true,
                    fired,
                    subscription: None,
                    script_result: None,
                    event: None,
                }
            },
            _ => vstd::pervasive::unreached(),
        }
    } else if evtg == HANDLE_BEHAVIOR_EVENT {
        match params {
            EventParams::BehaviorEvent(p) => {
                let (code, phase) = decode_command(p.cmd);
                let reason = decode_reason(code, p.reason);
                if phase == Phase::Sinking && code == BehaviorEvent::DocumentComplete {
                    me.document_complete(he, p.he_target);
                    fired.push(FiredHook { kind: Hook::DocumentComplete, flag: true });
                } else if phase == Phase::Sinking && code == BehaviorEvent::DocumentClose {
                    me.document_close(he, p.he_target);
                    fired.push(FiredHook { kind: Hook::DocumentClose, flag: true });
                }
                let handled = me.on_event(he, p.he, p.he_target, code, phase, reason);
                fired.push(FiredHook { kind: Hook::OnEvent, flag: handled });
                proof {
                    assert(fired_kinds(fired@) =~= dispatch_plan(evtg, *params));
                }
                DispatchOutcome {
                    handled,
                    fired,
                    subscription: None,
                    script_result: None,
                    event: Some((code, phase, reason)),
                }
            },
            _ => vstd::pervasive::unreached(),
        }
    } else if evtg == HANDLE_SCRIPTING_METHOD_CALL {
        match params {
            EventParams::ScriptCall { name, args } => {
                let rv = me.on_script_call(he, name.as_str(), args);
                let got = rv.is_some();
                fired.push(FiredHook { kind: Hook::OnScriptCall, flag: got });
                proof {
                    assert(fired_kinds(fired@) =~= dispatch_plan(evtg, *params));
                }
                DispatchOutcome {
                    handled: got,
                    fired,
                    subscription: None,
                    script_result: rv,
                    event: None,
                }
            },
            _ => vstd::pervasive::unreached(),
        }
    } else if evtg == HANDLE_TIMER {
        match params {
            EventParams::Timer { timer_id } => {
                let handled = me.on_timer(he, *timer_id);
                fired.push(FiredHook { kind: Hook::OnTimer, flag: handled });
                proof {
                    assert(fired_kinds(fired@) =~= dispatch_plan(evtg, *params));
                }
                DispatchOutcome {
                    handled,
                    fired,
                    subscription: None,
                    script_result: None,
                    event: None,
                }
            },
            _ => vstd::pervasive::unreached(),
        }
    } else {
        proof {
            assert(fired_kinds(fired@) =~= dispatch_plan(evtg, *params));
        }
        DispatchOutcome {
            handled: false,
            fired,
            subscription: None,
            script_result: None,
            event: None,
        }
    }
}

/// Context of a window-level attachment: the window handle paired with the
/// handler, so the attach hook can resolve the document root lazily.
pub struct WindowHandler<T> {
    /// Native handle of the attached window.
    pub hwnd: u64,
    /// The handler owned by this attachment.
    pub handler: T,
}

/// Context of a behavior-name attachment: the handler made by a registered
/// factory, owned by the attachment until detach.
pub struct BoxedHandler<T> {
    /// The handler owned by this attachment.
    pub handler: T,
}

/// Window-level trampoline.  `root` is the window's document root element
/// handle, resolved lazily by the caller (`0` when there is no document).
/// The attach and detach commands are handled here because a plain window
/// has no DOM to deliver them through; on detach the context slot is
/// emptied — the one reclaim of the handler — and no later notification
/// can reach it.
pub fn _event_handler_window_proc<T: EventHandler>(
    slot: &mut Option<WindowHandler<T>>,
    root: u64,
    evtg: u32,
    params: &EventParams,
) -> (r: DispatchOutcome)
    requires
        (*old(slot)) is Some,
        params_match_group(evtg, *params),
    ensures
        outcome_ok(evtg, *params, r),
        (*final(slot)) is None <==> spec_is_detach(evtg, *params),
        (*final(slot)) matches Some(t) ==> ((*old(slot)) matches Some(o) && t.hwnd == o.hwnd),
{
    let mut tuple = slot.take().unwrap();
    if evtg == HANDLE_INITIALIZATION {
        match params {
            EventParams::Initialization { cmd } => {
                let mut fired: Vec<FiredHook> = Vec::new();
                match cmd {
                    InitEvent::BehaviorAttach => {
                        tuple.handler.attached(root);
                        fired.push(FiredHook { kind: Hook::Attached, flag: true });
                        *slot = Some(tuple);
                    },
                    InitEvent::BehaviorDetach => {
                        tuple.handler.detached(root);
                        fired.push(FiredHook { kind: Hook::Detached, flag: true });
                        // the tuple is dropped here: the one reclaim
                    },
                }
                proof {
                    assert(fired_kinds(fired@) =~= dispatch_plan(evtg, *params));
                }
                DispatchOutcome {
                    handled: true,
                    fired,
                    subscription: None,
                    script_result: None,
                    event: None,
                }
            },
            _ => vstd::pervasive::unreached(),
        }
    } else {
        let outcome = process_events(&mut tuple.handler, root, evtg, params);
        *slot = Some(tuple);
        outcome
    }
}

/// Behavior-name trampoline: the context slot owns a handler made by a
/// registered factory.  Detach empties the slot — the one reclaim — after
/// the `detached` hook; everything else goes through the shared dispatch.
pub fn _event_handler_behavior_proc<T: EventHandler>(
    slot: &mut Option<BoxedHandler<T>>,
    he: u64,
    evtg: u32,
    params: &EventParams,
) -> (r: DispatchOutcome)
    requires
        (*old(slot)) is Some,
        params_match_group(evtg, *params),
    ensures
        outcome_ok(evtg, *params, r),
        (*final(slot)) is None <==> spec_is_detach(evtg, *params),
{
    let mut me = slot.take().unwrap();
    if is_detach_event(evtg, params) {
        me.handler.detached(he);
        // the handler is dropped here: the one reclaim
        let mut fired: Vec<FiredHook> = Vec::new();
        fired.push(FiredHook { kind: Hook::Detached, flag: true });
        proof {
            assert(fired_kinds(fired@) =~= dispatch_plan(evtg, *params));
        }
        DispatchOutcome { handled: true, fired, subscription: None, script_result: None, event: None }
    } else {
        let outcome = process_events(&mut me.handler, he, evtg, params);
        *slot = Some(me);
        outcome
    }
}

/// Element-level trampoline: the context slot owns the handler directly.
/// Detach empties the slot — the one reclaim — after the `detached` hook;
/// everything else goes through the shared dispatch.
pub fn _event_handler_proc<T: EventHandler>(
    slot: &mut Option<T>,
    he: u64,
    evtg: u32,
    params: &EventParams,
) -> (r: DispatchOutcome)
    requires
        (*old(slot)) is Some,
        params_match_group(evtg, *params),
    ensures
        outcome_ok(evtg, *params, r),
        (*final(slot)) is None <==> spec_is_detach(evtg, *params),
{
    let mut me = slot.take().unwrap();
    if is_detach_event(evtg, params) {
        me.detached(he);
        // the handler is dropped here: the one reclaim
        let mut fired: Vec<FiredHook> = Vec::new();
        fired.push(FiredHook { kind: Hook::Detached, flag: true });
        proof {
            assert(fired_kinds(fired@) =~= dispatch_plan(evtg, *params));
        }
        DispatchOutcome { handled: true, fired, subscription: None, script_result: None, event: None }
    } else {
        let outcome = process_events(&mut me, he, evtg, params);
        *slot = Some(me);
        outcome
    }
}

/// For a behavior event delivered in the bubbling phase, the plan is one
/// `on_event` call and nothing else; with the dispatch contract this says
/// the handler's generic hook runs exactly once, sees the decoded code of
/// the command word, and its answer becomes the trampoline's answer.
pub proof fn lemma_bubbling_round_trip(params: EventParams)
    requires
        params matches EventParams::BehaviorEvent(p) && spec_phase(p.cmd) == Phase::Bubbling,
    ensures
        dispatch_plan(HANDLE_BEHAVIOR_EVENT, params) == seq![Hook::OnEvent],
{
    assert(dispatch_plan(HANDLE_BEHAVIOR_EVENT, params) =~= seq![Hook::OnEvent]);
}

/// For a document-complete or document-close event delivered in the
/// sinking phase, the dedicated document hook fires first and the generic
/// `on_event` hook still fires after it — the two are not exclusive.
pub proof fn lemma_sinking_document_hooks(params: EventParams)
    requires
        params matches EventParams::BehaviorEvent(p) && spec_phase(p.cmd) == Phase::Sinking && (
        spec_event_from_code(spec_code_bits(p.cmd)) == BehaviorEvent::DocumentComplete
            || spec_event_from_code(spec_code_bits(p.cmd)) == BehaviorEvent::DocumentClose),
    ensures
        params matches EventParams::BehaviorEvent(p) && dispatch_plan(
            HANDLE_BEHAVIOR_EVENT,
            params,
        ) == (if spec_event_from_code(spec_code_bits(p.cmd)) == BehaviorEvent::DocumentComplete {
            seq![Hook::DocumentComplete, Hook::OnEvent]
        } else {
            seq![Hook::DocumentClose, Hook::OnEvent]
        }),
{
}

/// Sending one attach and then one detach makes each lifecycle hook fire
/// exactly once, in that order; with the trampolines' slot contract the
/// handler is reclaimed exactly at the detach and never again reachable.
pub proof fn lemma_detach_exactly_once()
    ensures
        dispatch_plan(
            HANDLE_INITIALIZATION,
            EventParams::Initialization { cmd: InitEvent::BehaviorAttach },
        ) == seq![Hook::Attached],
        dispatch_plan(
            HANDLE_INITIALIZATION,
            EventParams::Initialization { cmd: InitEvent::BehaviorDetach },
        ) == seq![Hook::Detached],
        spec_is_detach(
            HANDLE_INITIALIZATION,
            EventParams::Initialization { cmd: InitEvent::BehaviorDetach },
        ),
        !spec_is_detach(
            HANDLE_INITIALIZATION,
            EventParams::Initialization { cmd: InitEvent::BehaviorAttach },
        ),
{
    assert(dispatch_plan(
        HANDLE_INITIALIZATION,
        EventParams::Initialization { cmd: InitEvent::BehaviorAttach },
    ) =~= seq![Hook::Attached]);
    assert(dispatch_plan(
        HANDLE_INITIALIZATION,
        EventParams::Initialization { cmd: InitEvent::BehaviorDetach },
    ) =~= seq![Hook::Detached]);
}

} // verus!
