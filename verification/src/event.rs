//! The typed event model: notification groups, behavior event codes, event
//! phases and reasons, exactly as the engine numbers them on the wire.
//!
//! A behavior notification carries a combined 32-bit command word: the event
//! code sits in the low 12 bits and the propagation phase in the remaining
//! high bits.  Everything here decodes those words into closed enums and
//! states the decoding exactly.

use vstd::prelude::*;

verus! {

use crate::value::Value;

/// A set of notification groups, used both as a single group discriminator
/// and as a subscription mask.
pub type EventGroups = u32;

/// Attach/detach lifecycle notifications; always delivered.
pub const HANDLE_INITIALIZATION: EventGroups = 0x0000;

/// Mouse notifications.
pub const HANDLE_MOUSE: EventGroups = 0x0001;

/// Keyboard notifications.
pub const HANDLE_KEY: EventGroups = 0x0002;

/// Focus notifications.
pub const HANDLE_FOCUS: EventGroups = 0x0004;

/// Scroll notifications.
pub const HANDLE_SCROLL: EventGroups = 0x0008;

/// Timer ticks started on an element.
pub const HANDLE_TIMER: EventGroups = 0x0010;

/// Size changes.
pub const HANDLE_SIZE: EventGroups = 0x0020;

/// Drawing requests.
pub const HANDLE_DRAW: EventGroups = 0x0040;

/// Requested data has arrived.
pub const HANDLE_DATA_ARRIVED: EventGroups = 0x0080;

/// Events from built-in behaviors.
pub const HANDLE_BEHAVIOR_EVENT: EventGroups = 0x0100;

/// Behavior method calls.
pub const HANDLE_METHOD_CALL: EventGroups = 0x0200;

/// Script calls into native code.
pub const HANDLE_SCRIPTING_METHOD_CALL: EventGroups = 0x0400;

/// Script virtual machine method calls.
pub const HANDLE_TISCRIPT_METHOD_CALL: EventGroups = 0x0800;

/// Drag and drop exchange notifications.
pub const HANDLE_EXCHANGE: EventGroups = 0x1000;

/// Gesture notifications.
pub const HANDLE_GESTURE: EventGroups = 0x2000;

/// The engine asks the handler which groups it wants.
pub const SUBSCRIPTIONS_REQUEST: EventGroups = 0xFFFF_FFFF;

/// Default subscription: behavior events and script calls, which covers
/// hooks like `document_complete` and calls from script into the window.
pub fn default_events() -> (r: EventGroups)
    ensures
        r == (HANDLE_BEHAVIOR_EVENT | HANDLE_SCRIPTING_METHOD_CALL),
{
    HANDLE_BEHAVIOR_EVENT | HANDLE_SCRIPTING_METHOD_CALL
}

/// Attach/detach command carried by an initialization notification.
#[derive(Clone, Copy, PartialEq, Eq, Structural, Debug)]
pub enum InitEvent {
    /// The handler is being detached; its last notification.
    BehaviorDetach,
    /// The handler has been attached.
    BehaviorAttach,
}

/// The wire code of an initialization command.
pub open spec fn spec_init_code(cmd: InitEvent) -> u32 {
    match cmd {
        InitEvent::BehaviorDetach => 0,
        InitEvent::BehaviorAttach => 1,
    }
}

/// Decode an initialization command from its wire code.
pub fn init_event_from_code(code: u32) -> (r: Option<InitEvent>)
    ensures
        code == 0 ==> r == Some(InitEvent::BehaviorDetach),
        code == 1 ==> r == Some(InitEvent::BehaviorAttach),
        code > 1 ==> r is None,
{
    if code == 0 {
        Some(InitEvent::BehaviorDetach)
    } else if code == 1 {
        Some(InitEvent::BehaviorAttach)
    } else {
        None
    }
}

/// Event codes of the engine's built-in behaviors; codes this binding does
/// not name are kept raw in `Other`.
#[derive(Clone, Copy, PartialEq, Eq, Structural, Debug)]
pub enum BehaviorEvent {
    /// A button was clicked.
    ButtonClick,
    /// A button was pressed.
    ButtonPress,
    /// A checkbox or radio button changed state.
    ButtonStateChanged,
    /// An edit field is about to change.
    EditValueChanging,
    /// An edit field changed.
    EditValueChanged,
    /// A select changed its selection.
    SelectSelectionChanged,
    /// A select changed state.
    SelectStateChanged,
    /// A popup is requested.
    PopupRequest,
    /// A popup is ready.
    PopupReady,
    /// A popup was dismissed.
    PopupDismissed,
    /// A menu item became active.
    MenuItemActive,
    /// A menu item was clicked.
    MenuItemClick,
    /// A context menu is requested.
    ContextMenuRequest,
    /// Visual status (shown/hidden) changed.
    VisualStatusChanged,
    /// Disabled status changed.
    DisabledStatusChanged,
    /// A popup is being dismissed.
    PopupDismissing,
    /// The element's content changed.
    ContentChanged,
    /// Generic click.
    Click,
    /// Generic change.
    Change,
    /// A hyperlink was clicked.
    HyperlinkClick,
    /// An element was collapsed.
    ElementCollapsed,
    /// An element was expanded.
    ElementExpanded,
    /// A child must be activated.
    ActivateChild,
    /// UI state changed.
    UiStateChanged,
    /// A form is submitted.
    FormSubmit,
    /// A form is reset.
    FormReset,
    /// The document finished loading, all resources included.
    DocumentComplete,
    /// Navigation pushed a history entry.
    HistoryPush,
    /// Navigation dropped a history entry.
    HistoryDrop,
    /// Navigate one entry back.
    HistoryPrior,
    /// Navigate one entry forward.
    HistoryNext,
    /// The history state changed.
    HistoryStateChanged,
    /// A popup must be closed.
    ClosePopup,
    /// A tooltip is requested.
    RequestTooltip,
    /// An animation step.
    Animation,
    /// The document object was created.
    DocumentCreated,
    /// The document is asked to close.
    DocumentCloseRequest,
    /// The document is being closed; the last notification before removal.
    DocumentClose,
    /// The document DOM is ready.
    DocumentReady,
    /// The document was parsed.
    DocumentParsed,
    /// A video element was initialized.
    VideoInitialized,
    /// Video playback started.
    VideoStarted,
    /// Video playback stopped.
    VideoStopped,
    /// A video element requests a frame source binding.
    VideoBindRq,
    /// Pagination starts.
    PaginationStarts,
    /// One page was paginated.
    PaginationPage,
    /// Pagination ended.
    PaginationEnds,
    /// Any other code, kept raw.
    Other(u32),
}

/// The wire code of a behavior event.
pub open spec fn spec_event_code(e: BehaviorEvent) -> u32 {
    match e {
        BehaviorEvent::ButtonClick => 0x00,
        BehaviorEvent::ButtonPress => 0x01,
        BehaviorEvent::ButtonStateChanged => 0x02,
        BehaviorEvent::EditValueChanging => 0x03,
        BehaviorEvent::EditValueChanged => 0x04,
        BehaviorEvent::SelectSelectionChanged => 0x05,
        BehaviorEvent::SelectStateChanged => 0x06,
        BehaviorEvent::PopupRequest => 0x07,
        BehaviorEvent::PopupReady => 0x08,
        BehaviorEvent::PopupDismissed => 0x09,
        BehaviorEvent::MenuItemActive => 0x0A,
        BehaviorEvent::MenuItemClick => 0x0B,
        BehaviorEvent::ContextMenuRequest => 0x10,
        BehaviorEvent::VisualStatusChanged => 0x11,
        BehaviorEvent::DisabledStatusChanged => 0x12,
        BehaviorEvent::PopupDismissing => 0x13,
        BehaviorEvent::ContentChanged => 0x15,
        BehaviorEvent::Click => 0x16,
        BehaviorEvent::Change => 0x17,
        BehaviorEvent::HyperlinkClick => 0x80,
        BehaviorEvent::ElementCollapsed => 0x90,
        BehaviorEvent::ElementExpanded => 0x91,
        BehaviorEvent::ActivateChild => 0x92,
        BehaviorEvent::UiStateChanged => 0x95,
        BehaviorEvent::FormSubmit => 0x96,
        BehaviorEvent::FormReset => 0x97,
        BehaviorEvent::DocumentComplete => 0x98,
        BehaviorEvent::HistoryPush => 0x99,
        BehaviorEvent::HistoryDrop => 0x9A,
        BehaviorEvent::HistoryPrior => 0x9B,
        BehaviorEvent::HistoryNext => 0x9C,
        BehaviorEvent::HistoryStateChanged => 0x9D,
        BehaviorEvent::ClosePopup => 0x9E,
        BehaviorEvent::RequestTooltip => 0x9F,
        BehaviorEvent::Animation => 0xA0,
        BehaviorEvent::DocumentCreated => 0xC0,
        BehaviorEvent::DocumentCloseRequest => 0xC1,
        BehaviorEvent::DocumentClose => 0xC2,
        BehaviorEvent::DocumentReady => 0xC3,
        BehaviorEvent::DocumentParsed => 0xC4,
        BehaviorEvent::VideoInitialized => 0xD1,
        BehaviorEvent::VideoStarted => 0xD2,
        BehaviorEvent::VideoStopped => 0xD3,
        BehaviorEvent::VideoBindRq => 0xD4,
        BehaviorEvent::PaginationStarts => 0xE0,
        BehaviorEvent::PaginationPage => 0xE1,
        BehaviorEvent::PaginationEnds => 0xE2,
        BehaviorEvent::Other(code) => code,
    }
}

/// The behavior event a wire code decodes to; codes without a name of
/// their own land in `Other`.
pub open spec fn spec_event_from_code(code: u32) -> BehaviorEvent {
    if code == 0x00 {
        BehaviorEvent::ButtonClick
    } else if code == 0x01 {
        BehaviorEvent::ButtonPress
    } else if code == 0x02 {
        BehaviorEvent::ButtonStateChanged
    } else if code == 0x03 {
        BehaviorEvent::EditValueChanging
    } else if code == 0x04 {
        BehaviorEvent::EditValueChanged
    } else if code == 0x05 {
        BehaviorEvent::SelectSelectionChanged
    } else if code == 0x06 {
        BehaviorEvent::SelectStateChanged
    } else if code == 0x07 {
        BehaviorEvent::PopupRequest
    } else if code == 0x08 {
        BehaviorEvent::PopupReady
    } else if code == 0x09 {
        BehaviorEvent::PopupDismissed
    } else if code == 0x0A {
        BehaviorEvent::MenuItemActive
    } else if code == 0x0B {
        BehaviorEvent::MenuItemClick
    } else if code == 0x10 {
        BehaviorEvent::ContextMenuRequest
    } else if code == 0x11 {
        BehaviorEvent::VisualStatusChanged
    } else if code == 0x12 {
        BehaviorEvent::DisabledStatusChanged
    } else if code == 0x13 {
        BehaviorEvent::PopupDismissing
    } else if code == 0x15 {
        BehaviorEvent::ContentChanged
    } else if code == 0x16 {
        BehaviorEvent::Click
    } else if code == 0x17 {
        BehaviorEvent::Change
    } else if code == 0x80 {
        BehaviorEvent::HyperlinkClick
    } else if code == 0x90 {
        BehaviorEvent::ElementCollapsed
    } else if code == 0x91 {
        BehaviorEvent::ElementExpanded
    } else if code == 0x92 {
        BehaviorEvent::ActivateChild
    } else if code == 0x95 {
        BehaviorEvent::UiStateChanged
    } else if code == 0x96 {
        BehaviorEvent::FormSubmit
    } else if code == 0x97 {
        BehaviorEvent::FormReset
    } else if code == 0x98 {
        BehaviorEvent::DocumentComplete
    } else if code == 0x99 {
        BehaviorEvent::HistoryPush
    } else if code == 0x9A {
        BehaviorEvent::HistoryDrop
    } else if code == 0x9B {
        BehaviorEvent::HistoryPrior
    } else if code == 0x9C {
        BehaviorEvent::HistoryNext
    } else if code == 0x9D {
        BehaviorEvent::HistoryStateChanged
    } else if code == 0x9E {
        BehaviorEvent::ClosePopup
    } else if code == 0x9F {
        BehaviorEvent::RequestTooltip
    } else if code == 0xA0 {
        BehaviorEvent::Animation
    } else if code == 0xC0 {
        BehaviorEvent::DocumentCreated
    } else if code == 0xC1 {
        BehaviorEvent::DocumentCloseRequest
    } else if code == 0xC2 {
        BehaviorEvent::DocumentClose
    } else if code == 0xC3 {
        BehaviorEvent::DocumentReady
    } else if code == 0xC4 {
        BehaviorEvent::DocumentParsed
    } else if code == 0xD1 {
        BehaviorEvent::VideoInitialized
    } else if code == 0xD2 {
        BehaviorEvent::VideoStarted
    } else if code == 0xD3 {
        BehaviorEvent::VideoStopped
    } else if code == 0xD4 {
        BehaviorEvent::VideoBindRq
    } else if code == 0xE0 {
        BehaviorEvent::PaginationStarts
    } else if code == 0xE1 {
        BehaviorEvent::PaginationPage
    } else if code == 0xE2 {
        BehaviorEvent::PaginationEnds
    } else {
        BehaviorEvent::Other(code)
    }
}

/// Decode a behavior event from its wire code.
pub fn event_from_code(code: u32) -> (r: BehaviorEvent)
    ensures
        r == spec_event_from_code(code),
{
    match code {
        0x00 => BehaviorEvent::ButtonClick,
        0x01 => BehaviorEvent::ButtonPress,
        0x02 => BehaviorEvent::ButtonStateChanged,
        0x03 => BehaviorEvent::EditValueChanging,
        0x04 => BehaviorEvent::EditValueChanged,
        0x05 => BehaviorEvent::SelectSelectionChanged,
        0x06 => BehaviorEvent::SelectStateChanged,
        0x07 => BehaviorEvent::PopupRequest,
        0x08 => BehaviorEvent::PopupReady,
        0x09 => BehaviorEvent::PopupDismissed,
        0x0A => BehaviorEvent::MenuItemActive,
        0x0B => BehaviorEvent::MenuItemClick,
        0x10 => BehaviorEvent::ContextMenuRequest,
        0x11 => BehaviorEvent::VisualStatusChanged,
        0x12 => BehaviorEvent::DisabledStatusChanged,
        0x13 => BehaviorEvent::PopupDismissing,
        0x15 => BehaviorEvent::ContentChanged,
        0x16 => BehaviorEvent::Click,
        0x17 => BehaviorEvent::Change,
        0x80 => BehaviorEvent::HyperlinkClick,
        0x90 => BehaviorEvent::ElementCollapsed,
        0x91 => BehaviorEvent::ElementExpanded,
        0x92 => BehaviorEvent::ActivateChild,
        0x95 => BehaviorEvent::UiStateChanged,
        0x96 => BehaviorEvent::FormSubmit,
        0x97 => BehaviorEvent::FormReset,
        0x98 => BehaviorEvent::DocumentComplete,
        0x99 => BehaviorEvent::HistoryPush,
        0x9A => BehaviorEvent::HistoryDrop,
        0x9B => BehaviorEvent::HistoryPrior,
        0x9C => BehaviorEvent::HistoryNext,
        0x9D => BehaviorEvent::HistoryStateChanged,
        0x9E => BehaviorEvent::ClosePopup,
        0x9F => BehaviorEvent::RequestTooltip,
        0xA0 => BehaviorEvent::Animation,
        0xC0 => BehaviorEvent::DocumentCreated,
        0xC1 => BehaviorEvent::DocumentCloseRequest,
        0xC2 => BehaviorEvent::DocumentClose,
        0xC3 => BehaviorEvent::DocumentReady,
        0xC4 => BehaviorEvent::DocumentParsed,
        0xD1 => BehaviorEvent::VideoInitialized,
        0xD2 => BehaviorEvent::VideoStarted,
        0xD3 => BehaviorEvent::VideoStopped,
        0xD4 => BehaviorEvent::VideoBindRq,
        0xE0 => BehaviorEvent::PaginationStarts,
        0xE1 => BehaviorEvent::PaginationPage,
        0xE2 => BehaviorEvent::PaginationEnds,
        _ => BehaviorEvent::Other(code),
    }
}

/// Encode a behavior event back to its wire code.
pub fn event_code_of(e: BehaviorEvent) -> (r: u32)
    ensures
        r == spec_event_code(e),
{
    match e {
        BehaviorEvent::ButtonClick => 0x00,
        BehaviorEvent::ButtonPress => 0x01,
        BehaviorEvent::ButtonStateChanged => 0x02,
        BehaviorEvent::EditValueChanging => 0x03,
        BehaviorEvent::EditValueChanged => 0x04,
        BehaviorEvent::SelectSelectionChanged => 0x05,
        BehaviorEvent::SelectStateChanged => 0x06,
        BehaviorEvent::PopupRequest => 0x07,
        BehaviorEvent::PopupReady => 0x08,
        BehaviorEvent::PopupDismissed => 0x09,
        BehaviorEvent::MenuItemActive => 0x0A,
        BehaviorEvent::MenuItemClick => 0x0B,
        BehaviorEvent::ContextMenuRequest => 0x10,
        BehaviorEvent::VisualStatusChanged => 0x11,
        BehaviorEvent::DisabledStatusChanged => 0x12,
        BehaviorEvent::PopupDismissing => 0x13,
        BehaviorEvent::ContentChanged => 0x15,
        BehaviorEvent::Click => 0x16,
        BehaviorEvent::Change => 0x17,
        BehaviorEvent::HyperlinkClick => 0x80,
        BehaviorEvent::ElementCollapsed => 0x90,
        BehaviorEvent::ElementExpanded => 0x91,
        BehaviorEvent::ActivateChild => 0x92,
        BehaviorEvent::UiStateChanged => 0x95,
        BehaviorEvent::FormSubmit => 0x96,
        BehaviorEvent::FormReset => 0x97,
        BehaviorEvent::DocumentComplete => 0x98,
        BehaviorEvent::HistoryPush => 0x99,
        BehaviorEvent::HistoryDrop => 0x9A,
        BehaviorEvent::HistoryPrior => 0x9B,
        BehaviorEvent::HistoryNext => 0x9C,
        BehaviorEvent::HistoryStateChanged => 0x9D,
        BehaviorEvent::ClosePopup => 0x9E,
        BehaviorEvent::RequestTooltip => 0x9F,
        BehaviorEvent::Animation => 0xA0,
        BehaviorEvent::DocumentCreated => 0xC0,
        BehaviorEvent::DocumentCloseRequest => 0xC1,
        BehaviorEvent::DocumentClose => 0xC2,
        BehaviorEvent::DocumentReady => 0xC3,
        BehaviorEvent::DocumentParsed => 0xC4,
        BehaviorEvent::VideoInitialized => 0xD1,
        BehaviorEvent::VideoStarted => 0xD2,
        BehaviorEvent::VideoStopped => 0xD3,
        BehaviorEvent::VideoBindRq => 0xD4,
        BehaviorEvent::PaginationStarts => 0xE0,
        BehaviorEvent::PaginationPage => 0xE1,
        BehaviorEvent::PaginationEnds => 0xE2,
        BehaviorEvent::Other(code) => code,
    }
}

/// Encoding a decoded code gives the code back: the decoder loses nothing.
pub proof fn lemma_event_code_round_trip(code: u32)
    ensures
        spec_event_code(spec_event_from_code(code)) == code,
{
}

/// The propagation phase of a behavior event, taken from the high bits of
/// the command word.
#[derive(Clone, Copy, PartialEq, Eq, Structural, Debug)]
pub enum Phase {
    /// Bubbling up from the target through its ancestors.
    Bubbling,
    /// Sinking down from the root towards the target.
    Sinking,
    /// Already handled.
    Handled,
    /// Any other phase bits, kept raw.
    Other(u32),
}

/// Mask selecting the event code in a command word.
pub const EVENT_CODE_MASK: u32 = 0x0FFF;

/// Mask selecting the phase bits in a command word.
pub const PHASE_BITS_MASK: u32 = 0xFFFF_F000;

/// Phase bits of the sinking phase.
pub const PHASE_SINKING: u32 = 0x0800_0000;

/// Phase bits of the handled marker.
pub const PHASE_HANDLED: u32 = 0x1000_0000;

/// The event code in a command word: its low 12 bits.
pub open spec fn spec_code_bits(cmd: u32) -> u32 {
    cmd & EVENT_CODE_MASK
}

/// The phase bits in a command word: everything above the low 12 bits.
pub open spec fn spec_phase_bits(cmd: u32) -> u32 {
    cmd & PHASE_BITS_MASK
}

/// The phase a command word's high bits decode to.
pub open spec fn spec_phase(cmd: u32) -> Phase {
    if spec_phase_bits(cmd) == 0 {
        Phase::Bubbling
    } else if spec_phase_bits(cmd) == PHASE_SINKING {
        Phase::Sinking
    } else if spec_phase_bits(cmd) == PHASE_HANDLED {
        Phase::Handled
    } else {
        Phase::Other(spec_phase_bits(cmd))
    }
}

/// Split a command word into its behavior event and its phase.
pub fn decode_command(cmd: u32) -> (r: (BehaviorEvent, Phase))
    ensures
        r.0 == spec_event_from_code(spec_code_bits(cmd)),
        r.1 == spec_phase(cmd),
{
    let code = cmd & EVENT_CODE_MASK;
    let bits = cmd & PHASE_BITS_MASK;
    let phase = if bits == 0 {
        Phase::Bubbling
    } else if bits == PHASE_SINKING {
        Phase::Sinking
    } else if bits == PHASE_HANDLED {
        Phase::Handled
    } else {
        Phase::Other(bits)
    };
    (event_from_code(code), phase)
}

/// General cause of a UI event.
#[derive(Clone, Copy, PartialEq, Eq, Structural, Debug)]
pub enum ClickReason {
    /// Caused by a mouse click.
    ByMouseClick,
    /// Caused by a key press.
    ByKeyClick,
    /// Synthesized programmatically.
    Synthesized,
    /// Caused by a mouse click on an icon.
    ByMouseOnIcon,
    /// Any other cause, kept raw.
    Other(u32),
}

/// The click reason a wire value decodes to.
pub open spec fn spec_click_reason(raw: u32) -> ClickReason {
    if raw == 0 {
        ClickReason::ByMouseClick
    } else if raw == 1 {
        ClickReason::ByKeyClick
    } else if raw == 2 {
        ClickReason::Synthesized
    } else if raw == 3 {
        ClickReason::ByMouseOnIcon
    } else {
        ClickReason::Other(raw)
    }
}

/// The wire value of a click reason.
pub open spec fn spec_click_code(r: ClickReason) -> u32 {
    match r {
        ClickReason::ByMouseClick => 0,
        ClickReason::ByKeyClick => 1,
        ClickReason::Synthesized => 2,
        ClickReason::ByMouseOnIcon => 3,
        ClickReason::Other(raw) => raw,
    }
}

/// Encode a click reason back to its wire value.
pub fn click_code_of(r: ClickReason) -> (c: u32)
    ensures
        c == spec_click_code(r),
{
    match r {
        ClickReason::ByMouseClick => 0,
        ClickReason::ByKeyClick => 1,
        ClickReason::Synthesized => 2,
        ClickReason::ByMouseOnIcon => 3,
        ClickReason::Other(raw) => raw,
    }
}

/// Cause of an edit field change.
#[derive(Clone, Copy, PartialEq, Eq, Structural, Debug)]
pub enum EditChangedReason {
    /// A single character was inserted.
    ByInsChar,
    /// Several characters were inserted.
    ByInsChars,
    /// A single character was deleted.
    ByDelChar,
    /// Several characters were deleted.
    ByDelChars,
    /// Changed by undo or redo.
    ByUndoRedo,
    /// Changed from code.
    ByCode,
    /// Any other cause, kept raw.
    Other(u32),
}

/// The edit change reason a wire value decodes to.
pub open spec fn spec_edit_reason(raw: u32) -> EditChangedReason {
    if raw == 0 {
        EditChangedReason::ByInsChar
    } else if raw == 1 {
        EditChangedReason::ByInsChars
    } else if raw == 2 {
        EditChangedReason::ByDelChar
    } else if raw == 3 {
        EditChangedReason::ByDelChars
    } else if raw == 4 {
        EditChangedReason::ByUndoRedo
    } else if raw == 5 {
        EditChangedReason::ByCode
    } else {
        EditChangedReason::Other(raw)
    }
}

/// UI action accompanying a behavior event; which shape it takes depends on
/// the event's code.
#[derive(Clone, Copy, PartialEq, Eq, Structural, Debug)]
pub enum EventReason {
    /// General event source trigger (mouse, key or synthesized).
    General(ClickReason),
    /// Edit control change trigger.
    EditChanged(EditChangedReason),
    /// Video frame source binding request; the raw interface pointer value.
    VideoBind(u64),
}

/// How the raw reason word is read for a given event code: edit changes
/// carry an edit reason, the video bind request carries a pointer, and
/// every other code carries a general UI reason.
pub open spec fn spec_reason(e: BehaviorEvent, raw: u64) -> EventReason {
    if e == BehaviorEvent::EditValueChanging || e == BehaviorEvent::EditValueChanged {
        EventReason::EditChanged(spec_edit_reason(raw as u32))
    } else if e == BehaviorEvent::VideoBindRq {
        EventReason::VideoBind(raw)
    } else {
        EventReason::General(spec_click_reason(raw as u32))
    }
}

/// Decode the reason word of a behavior event, picking the shape the
/// event's code calls for.
pub fn decode_reason(e: BehaviorEvent, raw: u64) -> (r: EventReason)
    ensures
        r == spec_reason(e, raw),
{
    match e {
        BehaviorEvent::EditValueChanging | BehaviorEvent::EditValueChanged => {
            let v = raw as u32;
            let reason = if v == 0 {
                EditChangedReason::ByInsChar
            } else if v == 1 {
                EditChangedReason::ByInsChars
            } else if v == 2 {
                EditChangedReason::ByDelChar
            } else if v == 3 {
                EditChangedReason::ByDelChars
            } else if v == 4 {
                EditChangedReason::ByUndoRedo
            } else if v == 5 {
                EditChangedReason::ByCode
            } else {
                EditChangedReason::Other(v)
            };
            EventReason::EditChanged(reason)
        },
        BehaviorEvent::VideoBindRq => EventReason::VideoBind(raw),
        _ => {
            let v = raw as u32;
            let reason = if v == 0 {
                ClickReason::ByMouseClick
            } else if v == 1 {
                ClickReason::ByKeyClick
            } else if v == 2 {
                ClickReason::Synthesized
            } else if v == 3 {
                ClickReason::ByMouseOnIcon
            } else {
                ClickReason::Other(v)
            };
            EventReason::General(reason)
        },
    }
}

/// Raw payload of a behavior event notification, as laid out on the wire.
pub struct BehaviorEventParams {
    /// Combined command word: event code in the low 12 bits, phase above.
    pub cmd: u32,
    /// Target element handle.
    pub he_target: u64,
    /// Source element handle.
    pub he: u64,
    /// Raw reason word; its reading depends on the event code.
    pub reason: u64,
    /// Auxiliary value carried by some events.
    pub data: Value,
}

/// DOM event handler: the capability interface a host application
/// implements to receive engine notifications for an element or a window.
///
/// `root` is the element the handler is attached to (`0` when attaching to
/// a window that has no document yet), `source` and `target` are the
/// elements the notification names.
pub trait EventHandler {
    /// The notification groups this handler wants; `None` leaves the
    /// subscription request unhandled.
    fn get_subscription(&mut self) -> Option<EventGroups> {
        Some(default_events())
    }

    /// The handler was attached to an element or window.
    fn attached(&mut self, root: u64) {
    }

    /// The handler was detached; its last notification.
    fn detached(&mut self, root: u64) {
    }

    /// The document finished loading.
    fn document_complete(&mut self, root: u64, target: u64) {
    }

    /// The document is about to be removed from the DOM.
    fn document_close(&mut self, root: u64, target: u64) {
    }

    /// A script call into native code; `Some` answers the call.
    fn on_script_call(&mut self, root: u64, name: &str, args: &Vec<Value>) -> Option<Value> {
        self.dispatch_script_call(root, name, args)
    }

    /// Fallback dispatcher for script calls.
    fn dispatch_script_call(&mut self, root: u64, name: &str, args: &Vec<Value>) -> Option<Value> {
        None
    }

    /// A behavior event; the returned flag reports the event as consumed.
    fn on_event(
        &mut self,
        root: u64,
        source: u64,
        target: u64,
        code: BehaviorEvent,
        phase: Phase,
        reason: EventReason,
    ) -> bool {
        false
    }

    /// A timer tick for a timer started on the element.
    fn on_timer(&mut self, root: u64, timer_id: u64) -> bool {
        false
    }
}

} // verus!
