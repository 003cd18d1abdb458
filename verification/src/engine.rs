//! Model of the foreign rendering engine's host-visible state.
//!
//! The real engine is a closed C library reached through a function table.
//! Verified code never calls it directly; instead every operation that would
//! cross the foreign boundary is recorded here as a plain value, and the
//! contracts state exactly which calls a given operation produces.  The thin
//! unverified shell around the library replays the recorded calls against the
//! real function table.

use vstd::prelude::*;

verus! {

/// Engine runtime option: smooth scrolling (per window).
pub const SCITER_SMOOTH_SCROLL: u32 = 1;

/// Engine runtime option: HTTP client connection timeout (global).
pub const SCITER_CONNECTION_TIMEOUT: u32 = 2;

/// Engine runtime option: behaviour on an HTTPS error (global).
pub const SCITER_HTTPS_ERROR: u32 = 3;

/// Engine runtime option: font smoothing technology (per window).
pub const SCITER_FONT_SMOOTHING: u32 = 4;

/// Engine runtime option: transparent window support (per window).
pub const SCITER_TRANSPARENT_WINDOW: u32 = 6;

/// Engine runtime option: GPU black list (global).
pub const SCITER_SET_GPU_BLACKLIST: u32 = 7;

/// Engine runtime option: script runtime features mask (global or per window).
pub const SCITER_SET_SCRIPT_RUNTIME_FEATURES: u32 = 8;

/// Engine runtime option: graphics backend (global).
pub const SCITER_SET_GFX_LAYER: u32 = 9;

/// Engine runtime option: debug mode (global or per window).
pub const SCITER_SET_DEBUG_MODE: u32 = 10;

/// Engine runtime option: "unisex" theme (global).
pub const SCITER_SET_UX_THEMING: u32 = 11;

/// Engine runtime option: per-pixel-alpha window (per window).
pub const SCITER_ALPHA_WINDOW: u32 = 12;

/// One recorded call into the foreign engine.
pub enum EngineCall {
    /// `SciterSetOption(hwnd, code, value)`; `hwnd == 0` means global.
    SetOption { hwnd: u64, code: u32, value: u64 },
    /// `SciterSetOption` with the GPU black list JSON handed by pointer.
    SetGpuBlacklist { json: String },
    /// `SciterLoadFile(hwnd, uri)`.
    LoadFile { hwnd: u64, uri: String },
    /// `SciterLoadHtml(hwnd, html, base_uri)`; the base URI is optional.
    LoadHtml { hwnd: u64, html: Vec<u8>, base_uri: Option<String> },
    /// `SciterDataReady(hwnd, uri, data)`.
    DataReady { hwnd: u64, uri: String, data: Vec<u8> },
    /// `SciterDataReadyAsync(hwnd, uri, data, request_id)`; 0 means none.
    DataReadyAsync { hwnd: u64, uri: String, data: Vec<u8>, request_id: u64 },
    /// `SciterEval(hwnd, script)`.
    Eval { hwnd: u64, script: String },
    /// `SciterCall(hwnd, name, args)` with the argument count.
    CallFunction { hwnd: u64, name: String, argc: usize },
    /// `SciterSetHomeURL(hwnd, url)`.
    SetHomeUrl { hwnd: u64, url: String },
    /// `SciterSetMediaType(hwnd, media_type)`.
    SetMediaType { hwnd: u64, media_type: String },
    /// `SciterSetMediaVars(hwnd)` with a media dictionary.
    SetMediaVars { hwnd: u64 },
    /// `SciterSetMasterCSS` or `SciterAppendMasterCSS`.
    MasterCss { css: String, append: bool },
    /// `SciterSetCSS(hwnd, css, base_url, media_type)`.
    WindowCss { hwnd: u64, css: String, base_url: String, media_type: String },
    /// `SciterSetCallback(hwnd)`: the host notification callback is
    /// installed for the window.
    SetCallback { hwnd: u64 },
    /// `SciterSetupDebugOutput(hwnd)`: the debug output callback is
    /// installed; `hwnd == 0` means globally.
    SetupDebugOutput { hwnd: u64 },
}

/// The foreign engine as the host sees it: its version words, a fresh-handle
/// counter for native windows, and the log of calls made into it.
pub struct Engine {
    /// First raw version word (`SciterVersion(true)`).
    pub version_high: u32,
    /// Second raw version word (`SciterVersion(false)`).
    pub version_low: u32,
    /// Next native window handle to hand out; never 0, so 0 can mean "null".
    pub next_hwnd: u64,
    /// Every call made into the engine, oldest first.
    pub calls: Vec<EngineCall>,
}

impl Engine {
    /// The model is well formed: handles start at 1, so 0 can stand for
    /// "no window".
    pub open spec fn wf(&self) -> bool {
        self.next_hwnd >= 1
    }

    /// A fresh engine model reporting the given raw version words.
    pub fn with_version(version_high: u32, version_low: u32) -> (r: Engine)
        ensures
            r.version_high == version_high,
            r.version_low == version_low,
            r.next_hwnd == 1,
            r.calls@.len() == 0,
            r.wf(),
    {
        Engine { version_high, version_low, next_hwnd: 1, calls: Vec::new() }
    }

    /// A fresh engine model with an arbitrary fixed version.
    pub fn new() -> (r: Engine)
        ensures
            r.next_hwnd == 1,
            r.calls@.len() == 0,
            r.wf(),
    {
        Engine::with_version(0x00040004, 0x08000000)
    }

    /// Hand out a fresh native window handle.
    pub fn fresh_window(&mut self) -> (hwnd: u64)
        requires
            old(self).wf(),
            old(self).next_hwnd < u64::MAX,
        ensures
            hwnd == old(self).next_hwnd,
            hwnd != 0,
            final(self).wf(),
            final(self).next_hwnd == old(self).next_hwnd + 1,
            final(self).calls@ == old(self).calls@,
            final(self).version_high == old(self).version_high,
            final(self).version_low == old(self).version_low,
    {
        let hwnd = self.next_hwnd;
        self.next_hwnd = self.next_hwnd + 1;
        hwnd
    }

    /// Record one call into the engine.
    pub fn record(&mut self, call: EngineCall)
        ensures
            final(self).calls@ == old(self).calls@.push(call),
            final(self).next_hwnd == old(self).next_hwnd,
            final(self).version_high == old(self).version_high,
            final(self).version_low == old(self).version_low,
    {
        self.calls.push(call);
    }
}

} // verus!
