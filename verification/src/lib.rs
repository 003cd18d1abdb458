/*! Verified binding core for an embeddable HTML/CSS rendering engine.

The engine itself is a closed, reference-counted C library that talks to the
host through callbacks and opaque handles.  Everything the engine does is kept
behind an explicit model ([`engine::Engine`] and friends): the library holds
the decision logic — notification decoding, handler dispatch, handle
ownership, the behavior registry — and states exactly which engine calls each
operation produces and how every piece of shared state changes.
*/

use vstd::prelude::*;

pub mod dom;
pub mod engine;
pub mod event;
pub mod eventhandler;
pub mod graphics;
pub mod host;
pub mod value;
pub mod video;
pub mod window;

pub use crate::dom::{Element, HELEMENT};
pub use crate::event::EventHandler;
pub use crate::host::{Archive, Host, HostHandler};
pub use crate::value::Value;
pub use crate::window::Window;

verus! {

/// Builder for window creation; see the window module.
pub type WindowBuilder = crate::window::Builder;

use crate::engine::{
    Engine, EngineCall, SCITER_CONNECTION_TIMEOUT, SCITER_HTTPS_ERROR, SCITER_SET_DEBUG_MODE,
    SCITER_SET_GFX_LAYER, SCITER_SET_SCRIPT_RUNTIME_FEATURES, SCITER_SET_UX_THEMING,
};
use vstd::string::StringExecFns;

/// Script runtime feature: file input and output.
pub const ALLOW_FILE_IO: u8 = 1;

/// Script runtime feature: socket input and output.
pub const ALLOW_SOCKET_IO: u8 = 2;

/// Script runtime feature: `eval`.
pub const ALLOW_EVAL: u8 = 4;

/// Script runtime feature: system information.
pub const ALLOW_SYSINFO: u8 = 8;

/// Graphics backend the engine renders with.
#[allow(non_camel_case_types)]
#[derive(Clone, Copy, PartialEq, Eq, Structural, Debug)]
pub enum GFX_LAYER {
    /// Plain GDI.
    GDI,
    /// Direct2D over WARP.
    WARP,
    /// Direct2D.
    D2D,
    /// Skia.
    SKIA,
    /// Skia over OpenGL.
    SKIA_OPENGL,
    /// Let the engine pick.
    AUTO,
}

/// The wire value of a graphics backend.
pub open spec fn spec_gfx_layer_value(layer: GFX_LAYER) -> u64 {
    match layer {
        GFX_LAYER::GDI => 1,
        GFX_LAYER::WARP => 2,
        GFX_LAYER::D2D => 3,
        GFX_LAYER::SKIA => 4,
        GFX_LAYER::SKIA_OPENGL => 5,
        GFX_LAYER::AUTO => 0xFFFF,
    }
}

/// Global engine options.
#[derive(Clone, Copy)]
pub enum RuntimeOptions<'a> {
    /// Connection timeout of the HTTP client, in milliseconds.
    ConnectionTimeout(u32),
    /// On an HTTPS error: `0` - drop the connection, `1` - use the
    /// built-in dialog, `2` - accept the connection silently.
    OnHttpsError(u8),
    /// GPU black list as JSON.
    GpuBlacklist(&'a str),
    /// Script runtime features, a mask of the `ALLOW_` flags.
    ScriptFeatures(u8),
    /// Graphics backend; must be set before any window is created.
    GfxLayer(GFX_LAYER),
    /// Debug mode.
    DebugMode(bool),
    /// Use the same theme on every platform.
    UxTheming(bool),
}

/// The engine option code and plain value a global option maps to; the
/// GPU black list travels as a string and has no plain value here.
pub open spec fn spec_runtime_option(options: RuntimeOptions) -> (u32, u64) {
    match options {
        RuntimeOptions::ConnectionTimeout(ms) => (SCITER_CONNECTION_TIMEOUT, ms as u64),
        RuntimeOptions::OnHttpsError(behavior) => (SCITER_HTTPS_ERROR, behavior as u64),
        RuntimeOptions::GpuBlacklist(_) => (0u32, 0u64),
        RuntimeOptions::ScriptFeatures(mask) => (SCITER_SET_SCRIPT_RUNTIME_FEATURES, mask as u64),
        RuntimeOptions::GfxLayer(backend) => (SCITER_SET_GFX_LAYER, spec_gfx_layer_value(backend)),
        RuntimeOptions::DebugMode(enable) => (
            SCITER_SET_DEBUG_MODE,
            if enable { 1u64 } else { 0u64 },
        ),
        RuntimeOptions::UxTheming(enable) => (
            SCITER_SET_UX_THEMING,
            if enable { 1u64 } else { 0u64 },
        ),
    }
}

/// Set a global engine option: the mapped option code and value are
/// recorded against no window, the GPU black list with its JSON text.
pub fn set_options(eng: &mut Engine, options: RuntimeOptions) -> (r: Result<(), ()>)
    ensures
        r is Ok,
        final(eng).calls@.len() == old(eng).calls@.len() + 1,
        final(eng).calls@.subrange(0, old(eng).calls@.len() as int) == old(eng).calls@,
        (options matches RuntimeOptions::GpuBlacklist(json) ==> (final(eng).calls@.last()
            matches EngineCall::SetGpuBlacklist { json: j } && j@ == json@)),
        (!(options matches RuntimeOptions::GpuBlacklist(_)) ==> final(eng).calls@.last() == (
        EngineCall::SetOption {
            hwnd: 0u64,
            code: spec_runtime_option(options).0,
            value: spec_runtime_option(options).1,
        })),
        final(eng).next_hwnd == old(eng).next_hwnd,
{
    match options {
        RuntimeOptions::GpuBlacklist(json) => {
            eng.record(EngineCall::SetGpuBlacklist { json: json.to_owned() });
            Ok(())
        },
        RuntimeOptions::ConnectionTimeout(ms) => {
            eng.record(
                EngineCall::SetOption { hwnd: 0, code: SCITER_CONNECTION_TIMEOUT, value: ms as u64 },
            );
            Ok(())
        },
        RuntimeOptions::OnHttpsError(behavior) => {
            eng.record(
                EngineCall::SetOption { hwnd: 0, code: SCITER_HTTPS_ERROR, value: behavior as u64 },
            );
            Ok(())
        },
        RuntimeOptions::ScriptFeatures(mask) => {
            eng.record(
                EngineCall::SetOption {
                    hwnd: 0,
                    code: SCITER_SET_SCRIPT_RUNTIME_FEATURES,
                    value: mask as u64,
                },
            );
            Ok(())
        },
        RuntimeOptions::GfxLayer(backend) => {
            let value: u64 = match backend {
                GFX_LAYER::GDI => 1,
                GFX_LAYER::WARP => 2,
                GFX_LAYER::D2D => 3,
                GFX_LAYER::SKIA => 4,
                GFX_LAYER::SKIA_OPENGL => 5,
                GFX_LAYER::AUTO => 0xFFFF,
            };
            eng.record(EngineCall::SetOption { hwnd: 0, code: SCITER_SET_GFX_LAYER, value });
            Ok(())
        },
        RuntimeOptions::DebugMode(enable) => {
            eng.record(
                EngineCall::SetOption {
                    hwnd: 0,
                    code: SCITER_SET_DEBUG_MODE,
                    value: if enable { 1u64 } else { 0u64 },
                },
            );
            Ok(())
        },
        RuntimeOptions::UxTheming(enable) => {
            eng.record(
                EngineCall::SetOption {
                    hwnd: 0,
                    code: SCITER_SET_UX_THEMING,
                    value: if enable { 1u64 } else { 0u64 },
                },
            );
            Ok(())
        },
    }
}

/// Decimal digits of `n`, most significant first.
pub open spec fn spec_decimal(n: nat) -> Seq<char>
    decreases n,
{
    if n < 10 {
        seq![spec_digit_char(n)]
    } else {
        spec_decimal(n / 10).push(spec_digit_char(n % 10))
    }
}

/// The character for a single decimal digit.
pub open spec fn spec_digit_char(d: nat) -> char {
    if d == 0 { '0' }
    else if d == 1 { '1' }
    else if d == 2 { '2' }
    else if d == 3 { '3' }
    else if d == 4 { '4' }
    else if d == 5 { '5' }
    else if d == 6 { '6' }
    else if d == 7 { '7' }
    else if d == 8 { '8' }
    else { '9' }
}

/// One decimal digit as a string slice.
fn digit_str(d: u32) -> (r: &'static str)
    requires
        d < 10,
    ensures
        r@ == seq![spec_digit_char(d as nat)],
{
    proof {
        reveal_strlit("0");
        reveal_strlit("1");
        reveal_strlit("2");
        reveal_strlit("3");
        reveal_strlit("4");
        reveal_strlit("5");
        reveal_strlit("6");
        reveal_strlit("7");
        reveal_strlit("8");
        reveal_strlit("9");
    }
    match d {
        0 => "0",
        1 => "1",
        2 => "2",
        3 => "3",
        4 => "4",
        5 => "5",
        6 => "6",
        7 => "7",
        8 => "8",
        _ => "9",
    }
}

/// Render `n` in decimal.
pub fn u32_to_decimal(n: u32) -> (r: String)
    ensures
        r@ == spec_decimal(n as nat),
    decreases n,
{
    if n < 10 {
        String::from_str(digit_str(n))
    } else {
        let head = u32_to_decimal(n / 10);
        head.concat(digit_str(n % 10))
    }
}

/// The packed version number: the two raw engine version words combined as
/// four bytes, high half of the first word first.
pub open spec fn spec_version_num(v1: u32, v2: u32) -> u32 {
    ((v1 >> 16) << 24) | ((v1 & 0xFFFF) << 16) | ((v2 >> 16) << 8) | (v2 & 0xFFFF)
}

/// Engine version number packed into a single word (e.g. `0x04040800`).
pub fn version_num(eng: &Engine) -> (r: u32)
    ensures
        r == spec_version_num(eng.version_high, eng.version_low),
{
    let v1 = eng.version_high;
    let v2 = eng.version_low;
    ((v1 >> 16) << 24) | ((v1 & 0xFFFF) << 16) | ((v2 >> 16) << 8) | (v2 & 0xFFFF)
}

/// The dotted version string built from the two raw engine version words.
pub open spec fn spec_version_text(v1: u32, v2: u32) -> Seq<char> {
    spec_decimal((v1 >> 16) as nat) + seq!['.'] + spec_decimal((v1 & 0xFFFF) as nat) + seq![
        '.',
    ] + spec_decimal((v2 >> 16) as nat) + seq!['.'] + spec_decimal((v2 & 0xFFFF) as nat)
}

/// Engine version as a dotted string (e.g. `"4.4.8.0"`).
pub fn version(eng: &Engine) -> (r: String)
    ensures
        r@ == spec_version_text(eng.version_high, eng.version_low),
{
    proof {
        reveal_strlit(".");
    }
    let v1 = eng.version_high;
    let v2 = eng.version_low;
    let r = u32_to_decimal(v1 >> 16);
    let r = r.concat(".");
    let r = r.concat(u32_to_decimal(v1 & 0xFFFF).as_str());
    let r = r.concat(".");
    let r = r.concat(u32_to_decimal(v2 >> 16).as_str());
    let r = r.concat(".");
    let r = r.concat(u32_to_decimal(v2 & 0xFFFF).as_str());
    r
}

} // verus!
