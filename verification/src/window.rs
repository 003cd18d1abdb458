//! High level window wrapper: creation flags, the builder, and the
//! per-window engine options.

use vstd::prelude::*;

verus! {

use crate::engine::{
    Engine, EngineCall, SCITER_ALPHA_WINDOW, SCITER_FONT_SMOOTHING, SCITER_SMOOTH_SCROLL,
    SCITER_TRANSPARENT_WINDOW,
};
use crate::host::Host;

/// Window creation flags, a bit set understood by the engine.
pub type Flags = u32;

/// Child window; if this flag is set all other flags are ignored.
pub const SW_CHILD: Flags = 1;

/// Top level window, has a titlebar.
pub const SW_TITLEBAR: Flags = 2;

/// The window can be resized.
pub const SW_RESIZEABLE: Flags = 4;

/// Tool window style (thin titlebar).
pub const SW_TOOL: Flags = 8;

/// The window has minimize / maximize buttons.
pub const SW_CONTROLS: Flags = 16;

/// Glassy (translucent) window.
pub const SW_GLASSY: Flags = 32;

/// The window uses per-pixel alpha.
pub const SW_ALPHA: Flags = 64;

/// Main application window; appears in the taskbar, terminates the app on
/// close.
pub const SW_MAIN: Flags = 128;

/// Popup window, created as topmost.
pub const SW_POPUP: Flags = 256;

/// Enable debugging for the window.
pub const SW_ENABLE_DEBUG: Flags = 512;

/// The window owns its own script virtual machine.
pub const SW_OWNS_VM: Flags = 1024;

/// A window rectangle in screen coordinates.
#[derive(Clone, Copy, PartialEq, Eq, Structural)]
pub struct Rect {
    /// Left edge.
    pub left: i32,
    /// Top edge.
    pub top: i32,
    /// Right edge.
    pub right: i32,
    /// Bottom edge.
    pub bottom: i32,
}

impl Rect {
    /// The all-zero rectangle.
    pub fn zero() -> (r: Rect)
        ensures
            r == (Rect { left: 0, top: 0, right: 0, bottom: 0 }),
    {
        Rect { left: 0, top: 0, right: 0, bottom: 0 }
    }

    /// Width and height of the rectangle.
    pub fn size(&self) -> (r: (i32, i32))
        requires
            self.right - self.left <= i32::MAX,
            self.right - self.left >= i32::MIN,
            self.bottom - self.top <= i32::MAX,
            self.bottom - self.top >= i32::MIN,
        ensures
            r.0 == self.right - self.left,
            r.1 == self.bottom - self.top,
    {
        (self.right - self.left, self.bottom - self.top)
    }
}

/// Per-window engine options.
pub enum Options {
    /// `true` to enable smooth scrolling, enabled by default.
    SmoothScroll(bool),
    /// `0` - system default, `1` - no smoothing, `2` - standard smoothing,
    /// `3` - clear type.
    FontSmoothing(u8),
    /// The window has a transparent background.
    TransparentWindow(bool),
    /// The window uses per-pixel alpha.
    AlphaWindow(bool),
}

/// The engine option code and plain value a per-window option maps to.
pub open spec fn spec_window_option(options: Options) -> (u32, u64) {
    match options {
        Options::SmoothScroll(enable) => (SCITER_SMOOTH_SCROLL, if enable { 1u64 } else { 0u64 }),
        Options::FontSmoothing(technology) => (SCITER_FONT_SMOOTHING, technology as u64),
        Options::TransparentWindow(enable) => (
            SCITER_TRANSPARENT_WINDOW,
            if enable { 1u64 } else { 0u64 },
        ),
        Options::AlphaWindow(enable) => (SCITER_ALPHA_WINDOW, if enable { 1u64 } else { 0u64 }),
    }
}

/// A window of the engine: its native handle, its host side, and the
/// window-system state the binding tracks for it.
pub struct Window {
    /// Native window handle, never 0.
    pub hwnd: u64,
    /// The host attached to this window.
    pub host: Host,
    /// Creation flags the window was made with.
    pub flags: Flags,
    /// Rectangle the window was created at.
    pub rect: Rect,
    /// Parent window handle the window was created under, if any.
    pub parent: Option<u64>,
    /// Window title as last set through this binding.
    pub title: String,
    /// Whether the window is currently shown (`expand` shows, `collapse`
    /// hides).
    pub shown: bool,
    /// Whether the window was closed by `dismiss`.
    pub closed: bool,
    /// Whether a message loop is running for this window.
    pub running: bool,
}

impl Window {
    /// A window is well formed when its handle is real and matches its
    /// host's.
    pub open spec fn wf(&self) -> bool {
        &&& self.hwnd != 0
        &&& self.host.hwnd == self.hwnd
    }

    /// Create a new main window with default flags.
    pub fn new(eng: &mut Engine) -> (w: Window)
        requires
            old(eng).wf(),
            old(eng).next_hwnd < u64::MAX,
        ensures
            w.wf(),
            final(eng).wf(),
            w.hwnd == old(eng).next_hwnd,
            w.flags == (SW_MAIN | SW_RESIZEABLE | SW_CONTROLS | SW_TITLEBAR),
    {
        Builder::main_window().create(eng)
    }

    /// Create a new window with the given rectangle, flags and an optional
    /// parent window handle.
    pub fn create(eng: &mut Engine, rect: (i32, i32, i32, i32), flags: Flags, parent: Option<u64>) -> (w:
        Window)
        requires
            old(eng).wf(),
            old(eng).next_hwnd < u64::MAX,
        ensures
            w.wf(),
            final(eng).wf(),
            w.hwnd == old(eng).next_hwnd,
            w.flags == flags,
            w.rect == (Rect { left: rect.0, top: rect.1, right: rect.2, bottom: rect.3 }),
            w.parent == parent,
            w.title@.len() == 0,
            !w.shown,
            !w.closed,
            !w.running,
            w.host.behaviors@.len() == 0,
    {
        let hwnd = eng.fresh_window();
        let host = Host::attach(eng, hwnd);
        Window {
            hwnd,
            host,
            flags,
            rect: Rect { left: rect.0, top: rect.1, right: rect.2, bottom: rect.3 },
            parent,
            title: String::new(),
            shown: false,
            closed: false,
            running: false,
        }
    }

    /// Attach to an existing native window.
    pub fn attach(eng: &mut Engine, hwnd: u64) -> (w: Window)
        requires
            hwnd != 0,
        ensures
            w.wf(),
            w.hwnd == hwnd,
            w.host.behaviors@.len() == 0,
            final(eng).calls@.len() == old(eng).calls@.len() + 3,
            final(eng).next_hwnd == old(eng).next_hwnd,
    {
        let host = Host::attach(eng, hwnd);
        Window {
            hwnd,
            host,
            flags: 0,
            rect: Rect { left: 0, top: 0, right: 0, bottom: 0 },
            parent: None,
            title: String::new(),
            shown: false,
            closed: false,
            running: false,
        }
    }

    /// The host side of this window, which controls the engine instance.
    pub fn get_host(&self) -> (r: &Host)
        ensures
            r == &self.host,
    {
        &self.host
    }

    /// Build the window-level attachment for a handler: the context the
    /// engine will call back with, owned by the caller until it is
    /// registered.  A window handler survives document reloads.
    pub fn event_handler<Handler: crate::event::EventHandler>(&mut self, handler: Handler) -> (r:
        crate::eventhandler::WindowHandler<Handler>)
        ensures
            r.hwnd == old(self).host.hwnd,
            *final(self) == *old(self),
    {
        self.host.attach_handler(handler)
    }

    /// Register a behavior factory token for the given behavior name.
    pub fn register_behavior(&mut self, name: &str, factory: u64)
        ensures
            final(self).hwnd == old(self).hwnd,
            final(self).title == old(self).title,
            final(self).shown == old(self).shown,
            final(self).closed == old(self).closed,
            final(self).running == old(self).running,
            final(self).host.hwnd == old(self).host.hwnd,
            final(self).host.behaviors@.len() == old(self).host.behaviors@.len() + 1,
            final(self).host.behaviors@.subrange(0, old(self).host.behaviors@.len() as int) == old(
                self,
            ).host.behaviors@,
            final(self).host.behaviors@.last().0@ == name@,
            final(self).host.behaviors@.last().1 == factory,
    {
        self.host.register_behavior(name, factory);
    }

    /// Native window handle.
    pub fn get_hwnd(&self) -> (r: u64)
        ensures
            r == self.hwnd,
    {
        self.hwnd
    }

    /// Minimize or hide the window.
    pub fn collapse(&mut self, hide: bool)
        ensures
            !final(self).shown,
            final(self).hwnd == old(self).hwnd,
            final(self).host == old(self).host,
            final(self).title == old(self).title,
            final(self).closed == old(self).closed,
            final(self).running == old(self).running,
    {
        self.shown = false;
    }

    /// Show or maximize the window.
    pub fn expand(&mut self, maximize: bool)
        ensures
            final(self).shown,
            final(self).hwnd == old(self).hwnd,
            final(self).host == old(self).host,
            final(self).title == old(self).title,
            final(self).closed == old(self).closed,
            final(self).running == old(self).running,
    {
        self.shown = true;
    }

    /// Close the window.
    pub fn dismiss(&mut self)
        ensures
            final(self).closed,
            !final(self).running,
            final(self).hwnd == old(self).hwnd,
            final(self).host == old(self).host,
            final(self).title == old(self).title,
            final(self).shown == old(self).shown,
    {
        self.closed = true;
        self.running = false;
    }

    /// Set the native window title.
    pub fn set_title(&mut self, title: &str)
        ensures
            final(self).title@ == title@,
            final(self).hwnd == old(self).hwnd,
            final(self).host == old(self).host,
            final(self).shown == old(self).shown,
            final(self).closed == old(self).closed,
            final(self).running == old(self).running,
    {
        self.title = title.to_owned();
    }

    /// The native window title.
    pub fn get_title(&self) -> (r: String)
        ensures
            r@ == self.title@,
    {
        self.title.clone()
    }

    /// Set a per-window engine option; the mapped option code and value are
    /// recorded against this window's handle.
    pub fn set_options(&self, eng: &mut Engine, options: Options) -> (r: Result<(), ()>)
        ensures
            r is Ok,
            final(eng).calls@ == old(eng).calls@.push(
                EngineCall::SetOption {
                    hwnd: self.hwnd,
                    code: spec_window_option(options).0,
                    value: spec_window_option(options).1,
                },
            ),
            final(eng).next_hwnd == old(eng).next_hwnd,
    {
        let (option, value): (u32, u64) = match options {
            Options::SmoothScroll(enable) => (
                SCITER_SMOOTH_SCROLL,
                if enable { 1u64 } else { 0u64 },
            ),
            Options::FontSmoothing(technology) => (SCITER_FONT_SMOOTHING, technology as u64),
            Options::TransparentWindow(enable) => (
                SCITER_TRANSPARENT_WINDOW,
                if enable { 1u64 } else { 0u64 },
            ),
            Options::AlphaWindow(enable) => (SCITER_ALPHA_WINDOW, if enable { 1u64 } else { 0u64 }),
        };
        eng.record(EngineCall::SetOption { hwnd: self.hwnd, code: option, value });
        Ok(())
    }

    /// Load an HTML document from a file or URL.
    pub fn load_file(&mut self, eng: &mut Engine, uri: &str)
        ensures
            final(eng).calls@.len() == old(eng).calls@.len() + 1,
            final(eng).calls@.subrange(0, old(eng).calls@.len() as int) == old(eng).calls@,
            final(eng).calls@.last() matches EngineCall::LoadFile { hwnd, uri: u } && hwnd == old(
                self,
            ).host.hwnd && u@ == uri@,
            final(eng).next_hwnd == old(eng).next_hwnd,
            *final(self) == *old(self),
    {
        self.host.load_file(eng, uri);
    }

    /// Load an HTML document from memory.
    pub fn load_html(&mut self, eng: &mut Engine, html: &[u8], uri: Option<&str>)
        ensures
            final(eng).calls@.len() == old(eng).calls@.len() + 1,
            final(eng).calls@.subrange(0, old(eng).calls@.len() as int) == old(eng).calls@,
            final(eng).calls@.last() matches EngineCall::LoadHtml { hwnd, html: h, base_uri: u } && hwnd
                == old(self).host.hwnd && h@ == html@ && (match (u, uri) {
                (Some(s), Some(given)) => s@ == given@,
                (None, None) => true,
                _ => false,
            }),
            final(eng).next_hwnd == old(eng).next_hwnd,
            *final(self) == *old(self),
    {
        self.host.load_html(eng, html, uri);
    }

    /// Show the window and run the main message loop until it is closed.
    pub fn run_app(&mut self)
        ensures
            final(self).shown,
            final(self).running,
            final(self).hwnd == old(self).hwnd,
            final(self).host == old(self).host,
            final(self).title == old(self).title,
            final(self).closed == old(self).closed,
    {
        self.shown = true;
        self.running = true;
    }

    /// Run the message loop for an already configured window.
    pub fn run_loop(&mut self)
        ensures
            final(self).running,
            final(self).hwnd == old(self).hwnd,
            final(self).host == old(self).host,
            final(self).title == old(self).title,
            final(self).shown == old(self).shown,
            final(self).closed == old(self).closed,
    {
        self.running = true;
    }

    /// Post the application quit message.
    pub fn quit_app(&mut self)
        ensures
            !final(self).running,
            final(self).hwnd == old(self).hwnd,
            final(self).host == old(self).host,
            final(self).title == old(self).title,
            final(self).shown == old(self).shown,
            final(self).closed == old(self).closed,
    {
        self.running = false;
    }
}

/// Builder for window creation: collects flags, a rectangle and a parent
/// before the window is made.
pub struct Builder {
    /// Creation flags gathered so far.
    pub flags: Flags,
    /// Window rectangle gathered so far.
    pub rect: Rect,
    /// Optional parent window handle.
    pub parent: Option<u64>,
}

impl Builder {
    /// Main application window: resizeable, with controls and a titlebar.
    /// Terminates the app on close.
    pub fn main_window() -> (r: Builder)
        ensures
            r.flags == (SW_MAIN | SW_RESIZEABLE | SW_CONTROLS | SW_TITLEBAR),
            r.rect == (Rect { left: 0, top: 0, right: 0, bottom: 0 }),
            r.parent is None,
    {
        Builder::main().resizeable().closeable().with_title()
    }

    /// Popup window with controls and a titlebar.
    pub fn popup_window() -> (r: Builder)
        ensures
            r.flags == (SW_POPUP | SW_CONTROLS | SW_TITLEBAR),
            r.rect == (Rect { left: 0, top: 0, right: 0, bottom: 0 }),
            r.parent is None,
    {
        Builder::popup().closeable().with_title()
    }

    /// Child window style; when this flag is set all other flags are
    /// ignored.
    pub fn child_window() -> (r: Builder)
        ensures
            r.flags == SW_CHILD,
            r.parent is None,
    {
        Builder::with_flags(SW_CHILD)
    }

    /// Start from scratch.
    pub fn none() -> (r: Builder)
        ensures
            r.flags == SW_CHILD,
            r.parent is None,
    {
        Builder::with_flags(SW_CHILD)
    }

    /// Start with the given flags.
    pub fn with_flags(flags: Flags) -> (r: Builder)
        ensures
            r.flags == flags,
            r.rect == (Rect { left: 0, top: 0, right: 0, bottom: 0 }),
            r.parent is None,
    {
        Builder { flags, rect: Rect::zero(), parent: None }
    }

    /// Main window style: appears in the taskbar, terminates the app on
    /// close.
    pub fn main() -> (r: Builder)
        ensures
            r.flags == SW_MAIN,
            r.rect == (Rect { left: 0, top: 0, right: 0, bottom: 0 }),
            r.parent is None,
    {
        Builder::with_flags(SW_MAIN)
    }

    /// Popup style: the window is created topmost.
    pub fn popup() -> (r: Builder)
        ensures
            r.flags == SW_POPUP,
            r.rect == (Rect { left: 0, top: 0, right: 0, bottom: 0 }),
            r.parent is None,
    {
        Builder::with_flags(SW_POPUP)
    }

    /// Tool window style (thin titlebar).
    pub fn tool() -> (r: Builder)
        ensures
            r.flags == SW_TOOL,
            r.rect == (Rect { left: 0, top: 0, right: 0, bottom: 0 }),
            r.parent is None,
    {
        Builder::with_flags(SW_TOOL)
    }

    /// Use the given parent window (e.g. for child window creation).
    pub fn with_parent(self, parent: u64) -> (r: Builder)
        ensures
            r.flags == self.flags,
            r.rect == self.rect,
            r.parent == Some(parent),
    {
        Builder { parent: Some(parent), ..self }
    }

    /// Set the precise window size as `(width, height)`.
    pub fn with_size(self, size: (i32, i32)) -> (r: Builder)
        requires
            self.rect.left + size.0 <= i32::MAX,
            self.rect.left + size.0 >= i32::MIN,
            self.rect.top + size.1 <= i32::MAX,
            self.rect.top + size.1 >= i32::MIN,
        ensures
            r.flags == self.flags,
            r.parent == self.parent,
            r.rect.left == self.rect.left,
            r.rect.top == self.rect.top,
            r.rect.right == self.rect.left + size.0,
            r.rect.bottom == self.rect.top + size.1,
    {
        let rect = Rect {
            left: self.rect.left,
            top: self.rect.top,
            right: self.rect.left + size.0,
            bottom: self.rect.top + size.1,
        };
        Builder { rect, ..self }
    }

    /// Set the precise window position as `(x, y)`, keeping the size.
    pub fn with_pos(self, position: (i32, i32)) -> (r: Builder)
        requires
            self.rect.right - self.rect.left <= i32::MAX,
            self.rect.right - self.rect.left >= i32::MIN,
            self.rect.bottom - self.rect.top <= i32::MAX,
            self.rect.bottom - self.rect.top >= i32::MIN,
            position.0 + (self.rect.right - self.rect.left) <= i32::MAX,
            position.0 + (self.rect.right - self.rect.left) >= i32::MIN,
            position.1 + (self.rect.bottom - self.rect.top) <= i32::MAX,
            position.1 + (self.rect.bottom - self.rect.top) >= i32::MIN,
        ensures
            r.flags == self.flags,
            r.parent == self.parent,
            r.rect.left == position.0,
            r.rect.top == position.1,
            r.rect.right == position.0 + (self.rect.right - self.rect.left),
            r.rect.bottom == position.1 + (self.rect.bottom - self.rect.top),
    {
        let size = self.rect.size();
        let rect = Rect {
            left: position.0,
            top: position.1,
            right: position.0 + size.0,
            bottom: position.1 + size.1,
        };
        Builder { rect, ..self }
    }

    /// Set the exact window rectangle as `(x, y, w, h)`; the last two values
    /// are stored as the right and bottom edges, as the engine expects them.
    pub fn with_rect(self, rect: (i32, i32, i32, i32)) -> (r: Builder)
        ensures
            r.flags == self.flags,
            r.parent == self.parent,
            r.rect == (Rect { left: rect.0, top: rect.1, right: rect.2, bottom: rect.3 }),
    {
        Builder { rect: Rect { left: rect.0, top: rect.1, right: rect.2, bottom: rect.3 }, ..self }
    }

    /// Top level window, has a titlebar.
    pub fn with_title(self) -> (r: Builder)
        ensures
            r.flags == (self.flags | SW_TITLEBAR),
            r.rect == self.rect,
            r.parent == self.parent,
    {
        self.or(SW_TITLEBAR)
    }

    /// The window can be resized.
    pub fn resizeable(self) -> (r: Builder)
        ensures
            r.flags == (self.flags | SW_RESIZEABLE),
            r.rect == self.rect,
            r.parent == self.parent,
    {
        self.or(SW_RESIZEABLE)
    }

    /// The window can not be resized.
    pub fn fixed(self) -> (r: Builder)
        ensures
            r.flags == (self.flags & !SW_RESIZEABLE),
            r.rect == self.rect,
            r.parent == self.parent,
    {
        self.and(SW_RESIZEABLE)
    }

    /// The window has minimize / maximize buttons.
    pub fn closeable(self) -> (r: Builder)
        ensures
            r.flags == (self.flags | SW_CONTROLS),
            r.rect == self.rect,
            r.parent == self.parent,
    {
        self.or(SW_CONTROLS)
    }

    /// Glassy window.
    pub fn glassy(self) -> (r: Builder)
        ensures
            r.flags == (self.flags | SW_GLASSY),
            r.rect == self.rect,
            r.parent == self.parent,
    {
        self.or(SW_GLASSY)
    }

    /// Transparent window.
    pub fn alpha(self) -> (r: Builder)
        ensures
            r.flags == (self.flags | SW_ALPHA),
            r.rect == self.rect,
            r.parent == self.parent,
    {
        self.or(SW_ALPHA)
    }

    /// Set the given flag.
    pub fn or(self, flag: Flags) -> (r: Builder)
        ensures
            r.flags == (self.flags | flag),
            r.rect == self.rect,
            r.parent == self.parent,
    {
        Builder { flags: self.flags | flag, ..self }
    }

    /// Clear the given flag.
    pub fn and(self, flag: Flags) -> (r: Builder)
        ensures
            r.flags == (self.flags & !flag),
            r.rect == self.rect,
            r.parent == self.parent,
    {
        Builder { flags: self.flags & !flag, ..self }
    }

    /// Consume the builder and create the window with the collected
    /// parameters.
    pub fn create(self, eng: &mut Engine) -> (w: Window)
        requires
            old(eng).wf(),
            old(eng).next_hwnd < u64::MAX,
        ensures
            w.wf(),
            final(eng).wf(),
            w.hwnd == old(eng).next_hwnd,
            w.flags == self.flags,
            w.rect == self.rect,
            w.parent == self.parent,
    {
        let r = self.rect;
        Window::create(eng, (r.left, r.top, r.right, r.bottom), self.flags, self.parent)
    }
}

} // verus!
