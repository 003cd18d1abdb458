//! Host side of an engine instance: the behavior registry and the calls a
//! host makes into the engine for loading documents and data.

use vstd::prelude::*;

verus! {

use vstd::string::StrSliceExecFns;

use crate::dom::{Dom, Element};
use crate::engine::{Engine, EngineCall, SCITER_SET_DEBUG_MODE};
use crate::event::EventHandler;
use crate::eventhandler::WindowHandler;
use crate::value::Value;

/// The first entry in `entries` whose name reads `name`, if any; earlier
/// registrations win over later ones with the same name.
pub open spec fn spec_lookup(entries: Seq<(String, u64)>, name: Seq<char>) -> Option<u64>
    decreases entries.len(),
{
    if entries.len() == 0 {
        None
    } else if entries[0].0@ == name {
        Some(entries[0].1)
    } else {
        spec_lookup(entries.drop_first(), name)
    }
}

/// Host runtime support for one engine window: the behavior registry and
/// the window handle the host drives.
pub struct Host {
    /// Native window handle of the attached window.
    pub hwnd: u64,
    /// Registered behaviors: name paired with the factory token the host
    /// application resolves to a handler factory.  Append-only.
    pub behaviors: Vec<(String, u64)>,
}

impl Host {
    /// Attach a host to an existing window handle.  As part of attaching,
    /// the default callback is installed: debug output is enabled, the
    /// notification callback is set for the window, and the debug output
    /// callback is installed globally — the three calls are recorded in
    /// that order.
    pub fn attach(eng: &mut Engine, hwnd: u64) -> (r: Host)
        ensures
            r.hwnd == hwnd,
            r.behaviors@.len() == 0,
            final(eng).calls@ == old(eng).calls@.push(
                EngineCall::SetOption { hwnd: 0u64, code: SCITER_SET_DEBUG_MODE, value: 1u64 },
            ).push(EngineCall::SetCallback { hwnd }).push(
                EngineCall::SetupDebugOutput { hwnd: 0u64 },
            ),
            final(eng).next_hwnd == old(eng).next_hwnd,
    {
        let host = Host { hwnd, behaviors: Vec::new() };
        host.enable_debug(eng, true);
        eng.record(EngineCall::SetCallback { hwnd });
        eng.record(EngineCall::SetupDebugOutput { hwnd: 0 });
        host
    }

    /// Native window handle.
    pub fn get_hwnd(&self) -> (r: u64)
        ensures
            r == self.hwnd,
    {
        self.hwnd
    }

    /// Register a behavior factory under `name`.  Entries are only ever
    /// appended; duplicates are allowed and lookup prefers the earliest.
    pub fn register_behavior(&mut self, name: &str, factory: u64)
        ensures
            final(self).hwnd == old(self).hwnd,
            final(self).behaviors@.len() == old(self).behaviors@.len() + 1,
            final(self).behaviors@.subrange(0, old(self).behaviors@.len() as int) == old(
                self,
            ).behaviors@,
            final(self).behaviors@.last().0@ == name@,
            final(self).behaviors@.last().1 == factory,
    {
        let pair = (name.to_owned(), factory);
        self.behaviors.push(pair);
    }

    /// Resolve a behavior name to the factory token of the first matching
    /// registration, or `None` when no registration carries that name.
    pub fn find_behavior(&self, name: &str) -> (r: Option<u64>)
        ensures
            r == spec_lookup(self.behaviors@, name@),
    {
        let owned: String = name.to_owned();
        let mut i: usize = 0;
        proof {
            assert(self.behaviors@.skip(0) =~= self.behaviors@);
        }
        while i < self.behaviors.len()
            invariant
                i <= self.behaviors@.len(),
                owned@ == name@,
                spec_lookup(self.behaviors@, name@) == spec_lookup(
                    self.behaviors@.skip(i as int),
                    name@,
                ),
            decreases self.behaviors@.len() - i,
        {
            proof {
                assert(self.behaviors@.skip(i as int).drop_first() =~= self.behaviors@.skip(
                    i as int + 1,
                ));
            }
            if self.behaviors[i].0 == owned {
                return Some(self.behaviors[i].1);
            }
            i = i + 1;
        }
        proof {
            assert(self.behaviors@.skip(i as int) =~= Seq::<(String, u64)>::empty());
        }
        None
    }

    /// Set debug mode for this window or globally.
    pub fn enable_debug(&self, eng: &mut Engine, enable: bool)
        ensures
            final(eng).calls@ == old(eng).calls@.push(
                EngineCall::SetOption {
                    hwnd: 0,
                    code: SCITER_SET_DEBUG_MODE,
                    value: if enable { 1u64 } else { 0u64 },
                },
            ),
            final(eng).next_hwnd == old(eng).next_hwnd,
    {
        eng.record(
            EngineCall::SetOption {
                hwnd: 0,
                code: SCITER_SET_DEBUG_MODE,
                value: if enable { 1u64 } else { 0u64 },
            },
        );
    }

    /// Load an HTML document from a file or URL.
    pub fn load_file(&self, eng: &mut Engine, uri: &str)
        ensures
            final(eng).calls@.len() == old(eng).calls@.len() + 1,
            final(eng).calls@.subrange(0, old(eng).calls@.len() as int) == old(eng).calls@,
            final(eng).calls@.last() matches EngineCall::LoadFile { hwnd, uri: u } && hwnd
                == self.hwnd && u@ == uri@,
            final(eng).next_hwnd == old(eng).next_hwnd,
    {
        eng.record(EngineCall::LoadFile { hwnd: self.hwnd, uri: uri.to_owned() });
    }

    /// Load an HTML document from memory, under an optional URI.
    pub fn load_html(&self, eng: &mut Engine, html: &[u8], uri: Option<&str>)
        ensures
            final(eng).calls@.len() == old(eng).calls@.len() + 1,
            final(eng).calls@.subrange(0, old(eng).calls@.len() as int) == old(eng).calls@,
            final(eng).calls@.last() matches EngineCall::LoadHtml { hwnd, html: h, base_uri: u } && hwnd
                == self.hwnd && h@ == html@ && (match (u, uri) {
                (Some(s), Some(given)) => s@ == given@,
                (None, None) => true,
                _ => false,
            }),
            final(eng).next_hwnd == old(eng).next_hwnd,
    {
        let owned_uri: Option<String> = match uri {
            Some(s) => Some(s.to_owned()),
            None => None,
        };
        eng.record(
            EngineCall::LoadHtml { hwnd: self.hwnd, html: slice_to_vec(html), base_uri: owned_uri },
        );
    }

    /// Answer a pending resource request with data.
    pub fn data_ready(&self, eng: &mut Engine, uri: &str, data: &[u8])
        ensures
            final(eng).calls@.len() == old(eng).calls@.len() + 1,
            final(eng).calls@.subrange(0, old(eng).calls@.len() as int) == old(eng).calls@,
            final(eng).calls@.last() matches EngineCall::DataReady { hwnd, uri: u, data: d } && hwnd
                == self.hwnd && u@ == uri@ && d@ == data@,
            final(eng).next_hwnd == old(eng).next_hwnd,
    {
        eng.record(
            EngineCall::DataReady { hwnd: self.hwnd, uri: uri.to_owned(), data: slice_to_vec(data) },
        );
    }

    /// Hand data to the engine outside of a load request, or answer a
    /// delayed request identified by `request_id`.
    pub fn data_ready_async(&self, eng: &mut Engine, uri: &str, data: &[u8], request_id: Option<u64>)
        ensures
            final(eng).calls@.len() == old(eng).calls@.len() + 1,
            final(eng).calls@.subrange(0, old(eng).calls@.len() as int) == old(eng).calls@,
            final(eng).calls@.last() matches EngineCall::DataReadyAsync {
                hwnd,
                uri: u,
                data: d,
                request_id: req,
            } && hwnd == self.hwnd && u@ == uri@ && d@ == data@ && req == (match request_id {
                Some(id) => id,
                None => 0u64,
            }),
            final(eng).next_hwnd == old(eng).next_hwnd,
    {
        let req: u64 = match request_id {
            Some(id) => id,
            None => 0,
        };
        eng.record(
            EngineCall::DataReadyAsync {
                hwnd: self.hwnd,
                uri: uri.to_owned(),
                data: slice_to_vec(data),
                request_id: req,
            },
        );
    }

    /// Evaluate a script in the context of the current document.  The
    /// model engine answers every evaluation with the null value.
    pub fn eval_script(&self, eng: &mut Engine, script: &str) -> (r: Result<Value, Value>)
        ensures
            r matches Ok(v) && v is Null,
            final(eng).calls@.len() == old(eng).calls@.len() + 1,
            final(eng).calls@.subrange(0, old(eng).calls@.len() as int) == old(eng).calls@,
            final(eng).calls@.last() matches EngineCall::Eval { hwnd, script: s } && hwnd
                == self.hwnd && s@ == script@,
            final(eng).next_hwnd == old(eng).next_hwnd,
    {
        eng.record(EngineCall::Eval { hwnd: self.hwnd, script: script.to_owned() });
        Ok(Value::new())
    }

    /// Call a script function defined in the global namespace.  The model
    /// engine answers every call with the null value.
    pub fn call_function(&self, eng: &mut Engine, name: &str, args: &Vec<Value>) -> (r: Result<
        Value,
        Value,
    >)
        ensures
            r matches Ok(v) && v is Null,
            final(eng).calls@.len() == old(eng).calls@.len() + 1,
            final(eng).calls@.subrange(0, old(eng).calls@.len() as int) == old(eng).calls@,
            final(eng).calls@.last() matches EngineCall::CallFunction { hwnd, name: n, argc } && hwnd
                == self.hwnd && n@ == name@ && argc == args@.len(),
            final(eng).next_hwnd == old(eng).next_hwnd,
    {
        eng.record(
            EngineCall::CallFunction { hwnd: self.hwnd, name: name.to_owned(), argc: args.len() },
        );
        Ok(Value::new())
    }

    /// Set an engine runtime option for this window.
    pub fn set_option(&self, eng: &mut Engine, option: u32, value: u64) -> (r: Result<(), ()>)
        ensures
            r is Ok,
            final(eng).calls@ == old(eng).calls@.push(
                EngineCall::SetOption { hwnd: self.hwnd, code: option, value },
            ),
            final(eng).next_hwnd == old(eng).next_hwnd,
    {
        eng.record(EngineCall::SetOption { hwnd: self.hwnd, code: option, value });
        Ok(())
    }

    /// Set the home URL for the window's resources.
    pub fn set_home_url(&self, eng: &mut Engine, url: &str) -> (r: Result<(), ()>)
        ensures
            r is Ok,
            final(eng).calls@.len() == old(eng).calls@.len() + 1,
            final(eng).calls@.subrange(0, old(eng).calls@.len() as int) == old(eng).calls@,
            final(eng).calls@.last() matches EngineCall::SetHomeUrl { hwnd, url: u } && hwnd
                == self.hwnd && u@ == url@,
            final(eng).next_hwnd == old(eng).next_hwnd,
    {
        eng.record(EngineCall::SetHomeUrl { hwnd: self.hwnd, url: url.to_owned() });
        Ok(())
    }

    /// Set the media type of this engine instance.
    pub fn set_media_type(&self, eng: &mut Engine, media_type: &str) -> (r: Result<(), ()>)
        ensures
            r is Ok,
            final(eng).calls@.len() == old(eng).calls@.len() + 1,
            final(eng).calls@.subrange(0, old(eng).calls@.len() as int) == old(eng).calls@,
            final(eng).calls@.last() matches EngineCall::SetMediaType { hwnd, media_type: m } && hwnd
                == self.hwnd && m@ == media_type@,
            final(eng).next_hwnd == old(eng).next_hwnd,
    {
        eng.record(EngineCall::SetMediaType { hwnd: self.hwnd, media_type: media_type.to_owned() });
        Ok(())
    }

    /// Set the media variable dictionary of this engine instance.
    pub fn set_media_vars(&self, eng: &mut Engine) -> (r: Result<(), ()>)
        ensures
            r is Ok,
            final(eng).calls@ == old(eng).calls@.push(EngineCall::SetMediaVars { hwnd: self.hwnd }),
            final(eng).next_hwnd == old(eng).next_hwnd,
    {
        eng.record(EngineCall::SetMediaVars { hwnd: self.hwnd });
        Ok(())
    }

    /// Set or append the master style sheet (globally).
    pub fn set_master_css(&self, eng: &mut Engine, css: &str, append: bool) -> (r: Result<(), ()>)
        ensures
            r is Ok,
            final(eng).calls@.len() == old(eng).calls@.len() + 1,
            final(eng).calls@.subrange(0, old(eng).calls@.len() as int) == old(eng).calls@,
            final(eng).calls@.last() matches EngineCall::MasterCss { css: c, append: a } && c@
                == css@ && a == append,
            final(eng).next_hwnd == old(eng).next_hwnd,
    {
        eng.record(EngineCall::MasterCss { css: css.to_owned(), append });
        Ok(())
    }

    /// Set (reset) the style sheet of the current document.
    pub fn set_window_css(&self, eng: &mut Engine, css: &str, base_url: &str, media_type: &str) -> (r:
        Result<(), ()>)
        ensures
            r is Ok,
            final(eng).calls@.len() == old(eng).calls@.len() + 1,
            final(eng).calls@.subrange(0, old(eng).calls@.len() as int) == old(eng).calls@,
            final(eng).calls@.last() matches EngineCall::WindowCss {
                hwnd,
                css: c,
                base_url: b,
                media_type: m,
            } && hwnd == self.hwnd && c@ == css@ && b@ == base_url@ && m@ == media_type@,
            final(eng).next_hwnd == old(eng).next_hwnd,
    {
        eng.record(
            EngineCall::WindowCss {
                hwnd: self.hwnd,
                css: css.to_owned(),
                base_url: base_url.to_owned(),
                media_type: media_type.to_owned(),
            },
        );
        Ok(())
    }
}

/// Copy a byte slice into an owned vector.
fn slice_to_vec(data: &[u8]) -> (r: Vec<u8>)
    ensures
        r@ == data@,
{
    let mut out: Vec<u8> = Vec::new();
    let mut i: usize = 0;
    while i < data.len()
        invariant
            i <= data@.len(),
            out@ == data@.subrange(0, i as int),
        decreases data@.len() - i,
    {
        out.push(data[i]);
        proof {
            assert(out@ =~= data@.subrange(0, i as int + 1));
        }
        i = i + 1;
    }
    proof {
        assert(out@ =~= data@);
    }
    out
}

/// With equal names, the earlier of two registrations wins: after
/// registering `a` and then `b` under the same name on top of any existing
/// entries, lookup answers exactly what it answered with `a` alone when the
/// name was previously unregistered.
pub proof fn lemma_registry_first_wins(entries: Seq<(String, u64)>, name: Seq<char>, a: (String, u64), b: (
    String,
    u64,
))
    requires
        a.0@ == name,
        b.0@ == name,
        spec_lookup(entries, name) is None,
    ensures
        spec_lookup(entries.push(a).push(b), name) == Some(a.1),
    decreases entries.len(),
{
    if entries.len() == 0 {
        assert(entries.push(a).push(b).drop_first() =~= Seq::<(String, u64)>::empty().push(b));
    } else {
        assert(entries.push(a).push(b).drop_first() =~= entries.drop_first().push(a).push(b));
        lemma_registry_first_wins(entries.drop_first(), name, a, b);
    }
}


/// Notification code: the engine is about to download a resource.
pub const SC_LOAD_DATA: u32 = 1;

/// Notification code: a resource download completed.
pub const SC_DATA_LOADED: u32 = 2;

/// Notification code: an element asks for a named behavior.
pub const SC_ATTACH_BEHAVIOR: u32 = 4;

/// Notification code: the engine instance is being destroyed.
pub const SC_ENGINE_DESTROYED: u32 = 5;

/// Notification code: a posted notification arrived.
pub const SC_POSTED_NOTIFICATION: u32 = 6;

/// Notification code: the engine hit a critical rendering failure.
pub const SC_GRAPHICS_CRITICAL_FAILURE: u32 = 7;

/// The host's answer to a resource load request.
#[allow(non_camel_case_types)]
#[derive(Clone, Copy, PartialEq, Eq, Structural, Debug)]
pub enum LOAD_RESULT {
    /// Let the engine load the resource itself.
    LOAD_DEFAULT,
    /// Drop the request; nothing is loaded.
    LOAD_DISCARD,
    /// The host will answer later through the data-ready calls.
    LOAD_DELAYED,
    /// The host takes the request over completely.
    LOAD_MYSELF,
}

/// The wire value of a load answer.
pub open spec fn spec_load_result_code(r: LOAD_RESULT) -> u32 {
    match r {
        LOAD_RESULT::LOAD_DEFAULT => 0,
        LOAD_RESULT::LOAD_DISCARD => 1,
        LOAD_RESULT::LOAD_DELAYED => 2,
        LOAD_RESULT::LOAD_MYSELF => 3,
    }
}

/// Subsystem a debug output line comes from.
#[allow(non_camel_case_types)]
#[derive(Clone, Copy, PartialEq, Eq, Structural, Debug)]
pub enum OUTPUT_SUBSYTEMS {
    /// DOM subsystem.
    DOM,
    /// CSSS! subsystem.
    CSSS,
    /// CSS subsystem.
    CSS,
    /// Script subsystem.
    TIS,
}

/// Severity of a debug output line.
#[allow(non_camel_case_types)]
#[derive(Clone, Copy, PartialEq, Eq, Structural, Debug)]
pub enum OUTPUT_SEVERITY {
    /// Informational.
    INFO,
    /// Warning.
    WARNING,
    /// Error.
    ERROR,
}

/// Payload of a load-data notification.
pub struct ScnLoadData {
    /// The requested resource.
    pub uri: String,
    /// The request's identifier, for delayed answers; `0` means none.
    pub request_id: u64,
}

/// Payload of a data-loaded notification.
pub struct ScnDataLoaded {
    /// The downloaded resource.
    pub uri: String,
    /// The downloaded bytes.
    pub data: Vec<u8>,
    /// Download status code.
    pub status: u32,
}

/// Payload of an attach-behavior notification.
pub struct ScnAttachBehavior {
    /// Handle of the element asking for the behavior.
    pub element: u64,
    /// The declared behavior name.
    pub name: String,
}

/// One host notification from the engine, decoded.
pub enum HostNotification {
    /// The engine is about to download a resource.
    LoadData(ScnLoadData),
    /// A resource download completed.
    DataLoaded(ScnDataLoaded),
    /// An element asks for a named behavior.
    AttachBehavior(ScnAttachBehavior),
    /// The engine instance is being destroyed.
    EngineDestroyed,
    /// The engine hit a critical rendering failure.
    GraphicsCriticalFailure,
    /// Any other notification code, kept raw.
    Other(u32),
}

/// Which host hook a notification fired, with what it answered.
#[derive(Clone, Copy, PartialEq, Eq, Structural, Debug)]
pub enum HostHook {
    /// `on_data_load` fired and answered this load result.
    DataLoad(LOAD_RESULT),
    /// `on_data_loaded` fired.
    DataLoaded,
    /// `on_attach_behavior` fired; whether the application consumed the
    /// request itself, and the factory the registry resolved otherwise.
    AttachBehavior {
        /// The application's own hook consumed the request.
        by_app: bool,
        /// The registry's answer when the application declined.
        factory: Option<u64>,
    },
    /// `on_engine_destroyed` fired.
    EngineDestroyed,
    /// `on_graphics_critical_failure` fired.
    GraphicsFailure,
    /// No hook fired: the notification code is not known here.
    Ignored,
}

/// The host's answer to one notification: the numeric result handed back
/// to the engine, the behavior factory to instantiate (when one was
/// resolved), and which hook fired.
pub struct HostResponse {
    /// Numeric result for the engine.
    pub result: u32,
    /// Factory token of the behavior to create, if one was resolved.
    pub factory: Option<u64>,
    /// Which hook fired.
    pub hook: HostHook,
}

/// Host notification handler: the capability interface a host application
/// implements to steer resource loading and behavior attachment.
pub trait HostHandler {
    /// The engine is about to download a resource; the answer steers the
    /// load.
    fn on_data_load(&mut self, pnm: &ScnLoadData) -> (r: LOAD_RESULT) {
        LOAD_RESULT::LOAD_DEFAULT
    }

    /// A resource download completed.
    fn on_data_loaded(&mut self, pnm: &ScnDataLoaded) {
    }

    /// An element asks for a named behavior; `true` means the application
    /// attached one itself and the registry is not consulted.
    fn on_attach_behavior(&mut self, pnm: &ScnAttachBehavior) -> (r: bool) {
        false
    }

    /// The engine instance is being destroyed.
    fn on_engine_destroyed(&mut self) {
    }

    /// The engine hit a critical rendering failure.
    fn on_graphics_critical_failure(&mut self) {
    }

    /// A debug output line from the engine.
    fn on_debug_output(&mut self, subsystem: OUTPUT_SUBSYTEMS, severity: OUTPUT_SEVERITY, message: &str) {
    }
}

/// Dispatch one engine notification to the host handler.  Attach-behavior
/// requests go first to the application's hook; only when it declines is
/// the registry consulted, and the earliest registration of the name
/// wins.  Unknown notification codes are ignored and answer zero.
pub fn on_handle_notification<T: HostHandler>(host: &Host, me: &mut T, scn: &HostNotification) -> (r:
    HostResponse)
    ensures
        match scn {
            HostNotification::LoadData(_) => r.hook matches HostHook::DataLoad(lr) && r.result
                == spec_load_result_code(lr) && r.factory is None,
            HostNotification::DataLoaded(_) => r.hook == HostHook::DataLoaded && r.result == 0
                && r.factory is None,
            HostNotification::AttachBehavior(ab) => r.hook matches HostHook::AttachBehavior {
                by_app,
                factory,
            } && factory == r.factory && (by_app ==> r.factory is None && r.result == 1) && (!by_app
                ==> r.factory == spec_lookup(host.behaviors@, ab.name@) && r.result == (
            if r.factory is Some {
                1u32
            } else {
                0u32
            })),
            HostNotification::EngineDestroyed => r.hook == HostHook::EngineDestroyed && r.result
                == 0 && r.factory is None,
            HostNotification::GraphicsCriticalFailure => r.hook == HostHook::GraphicsFailure
                && r.result == 0 && r.factory is None,
            HostNotification::Other(_) => r.hook == HostHook::Ignored && r.result == 0
                && r.factory is None,
        },
{
    match scn {
        HostNotification::LoadData(d) => {
            let lr = me.on_data_load(d);
            let code: u32 = match lr {
                LOAD_RESULT::LOAD_DEFAULT => 0,
                LOAD_RESULT::LOAD_DISCARD => 1,
                LOAD_RESULT::LOAD_DELAYED => 2,
                LOAD_RESULT::LOAD_MYSELF => 3,
            };
            HostResponse { result: code, factory: None, hook: HostHook::DataLoad(lr) }
        },
        HostNotification::DataLoaded(d) => {
            me.on_data_loaded(d);
            HostResponse { result: 0, factory: None, hook: HostHook::DataLoaded }
        },
        HostNotification::AttachBehavior(ab) => {
            let by_app = me.on_attach_behavior(ab);
            if by_app {
                HostResponse {
                    result: 1,
                    factory: None,
                    hook: HostHook::AttachBehavior { by_app: true, factory: None },
                }
            } else {
                let factory = host.find_behavior(ab.name.as_str());
                let got = factory.is_some();
                HostResponse {
                    result: if got {
                        1
                    } else {
                        0
                    },
                    factory,
                    hook: HostHook::AttachBehavior { by_app: false, factory },
                }
            }
        },
        HostNotification::EngineDestroyed => {
            me.on_engine_destroyed();
            HostResponse { result: 0, factory: None, hook: HostHook::EngineDestroyed }
        },
        HostNotification::GraphicsCriticalFailure => {
            me.on_graphics_critical_failure();
            HostResponse { result: 0, factory: None, hook: HostHook::GraphicsFailure }
        },
        HostNotification::Other(_) => {
            HostResponse { result: 0, factory: None, hook: HostHook::Ignored }
        },
    }
}

/// Forward one debug output line to the host handler, as the engine's
/// output callback does.
pub fn on_debug_notification<T: HostHandler>(
    me: &mut T,
    subsystem: OUTPUT_SUBSYTEMS,
    severity: OUTPUT_SEVERITY,
    message: &str,
)
{
    me.on_debug_output(subsystem, severity, message);
}

impl Host {
    /// Window root element: the document root, with a fresh use of its
    /// handle, or nothing while the window has no document.
    pub fn get_root(&self, dom: &mut Dom) -> (r: Option<Element>)
        requires
            old(dom).wf(),
        ensures
            final(dom).wf(),
            old(dom).links@.len() == 0 ==> r is None && *final(dom) == *old(dom),
            old(dom).links@.len() > 0 ==> (r matches Some(e) && e.he == 1)
                && final(dom).same_but_content_at(*old(dom), 0) && final(dom).uses@[0] == (
            if old(dom).uses@[0] < u64::MAX {
                old(dom).uses@[0] + 1
            } else {
                old(dom).uses@[0] as int
            }),
    {
        let he = dom.root_handle();
        if he == 0 {
            None
        } else {
            Some(Element::from(dom, he))
        }
    }

    /// Build the window-level attachment context for a handler: the
    /// window handle paired with the handler, ready to be registered with
    /// the engine under the default subscription.
    pub fn attach_handler<H: EventHandler>(&self, handler: H) -> (r: WindowHandler<H>)
        ensures
            r.hwnd == self.hwnd,
            r.handler == handler,
    {
        WindowHandler { hwnd: self.hwnd, handler }
    }
}

/// Whether `p` is a prefix of `s`.
pub open spec fn spec_has_prefix(s: Seq<char>, p: Seq<char>) -> bool {
    s.len() >= p.len() && s.subrange(0, p.len() as int) == p
}

/// Whether `p` is a prefix of `s`.
fn str_has_prefix(s: &str, p: &str) -> (r: bool)
    ensures
        r == spec_has_prefix(s@, p@),
{
    let sn = s.unicode_len();
    let pn = p.unicode_len();
    if sn < pn {
        return false;
    }
    let mut i: usize = 0;
    while i < pn
        invariant
            i <= pn,
            pn == p@.len(),
            sn == s@.len(),
            pn <= sn,
            forall|j: int| 0 <= j < i ==> s@[j] == p@[j],
        decreases pn - i,
    {
        if s.get_char(i) != p.get_char(i) {
            proof {
                assert(s@.subrange(0, p@.len() as int)[i as int] == s@[i as int]);
            }
            return false;
        }
        i = i + 1;
    }
    proof {
        assert(s@.subrange(0, p@.len() as int) =~= p@);
    }
    true
}

/// The archive key of a request path: the engine's scheme prefix or a
/// leading double slash is dropped, anything else is kept whole.
pub open spec fn spec_archive_key(path: Seq<char>) -> Seq<char> {
    if spec_has_prefix(path, "this://app/"@) {
        path.skip("this://app/"@.len() as int)
    } else if spec_has_prefix(path, "//"@) {
        path.skip(2)
    } else {
        path
    }
}

/// The data of the first archive entry named `name`.
pub open spec fn spec_archive_lookup(entries: Seq<(String, Vec<u8>)>, name: Seq<char>) -> Option<
    Seq<u8>,
>
    decreases entries.len(),
{
    if entries.len() == 0 {
        None
    } else if entries[0].0@ == name {
        Some(entries[0].1@)
    } else {
        spec_archive_lookup(entries.drop_first(), name)
    }
}

/// A compressed resource archive, as the engine unpacks it: named items
/// with their data.  The blob itself is the engine's business; the model
/// starts from the unpacked items.
pub struct Archive {
    /// The archived items, name paired with data.
    pub entries: Vec<(String, Vec<u8>)>,
}

impl Archive {
    /// Open an archive over its unpacked items.
    pub fn open(entries: Vec<(String, Vec<u8>)>) -> (r: Archive)
        ensures
            r.entries@ == entries@,
    {
        Archive { entries }
    }

    /// An archived item's data by path.  The engine's scheme prefix
    /// (`this://app/`) or a leading double slash is dropped from the path
    /// first; a path naming no item answers nothing.
    pub fn get(&self, path: &str) -> (r: Option<&Vec<u8>>)
        ensures
            match spec_archive_lookup(self.entries@, spec_archive_key(path@)) {
                Some(d) => r matches Some(v) && v@ == d,
                None => r is None,
            },
{
        proof {
            reveal_strlit("this://app/");
            reveal_strlit("//");
        }
        let scheme = "this://app/";
        let slashes = "//";
        let skip: usize = if str_has_prefix(path, scheme) {
            scheme.unicode_len()
        } else if str_has_prefix(path, slashes) {
            2
        } else {
            0
        };
        let n = path.unicode_len();
        let mut i: usize = 0;
        proof {
            assert(self.entries@.skip(0) =~= self.entries@);
        }
        while i < self.entries.len()
            invariant
                i <= self.entries@.len(),
                skip <= n,
                n == path@.len(),
                spec_archive_key(path@) == path@.skip(skip as int),
                spec_archive_lookup(self.entries@, spec_archive_key(path@)) == spec_archive_lookup(
                    self.entries@.skip(i as int),
                    spec_archive_key(path@),
                ),
            decreases self.entries@.len() - i,
        {
            proof {
                assert(self.entries@.skip(i as int).drop_first() =~= self.entries@.skip(
                    i as int + 1,
                ));
            }
            if str_eq_from(path, skip, &self.entries[i].0) {
                return Some(&self.entries[i].1);
            }
            i = i + 1;
        }
        proof {
            assert(self.entries@.skip(i as int) =~= Seq::<(String, Vec<u8>)>::empty());
        }
        None
    }
}

/// Whether `s` from position `offset` on reads exactly `t`.
fn str_eq_from(s: &str, offset: usize, t: &String) -> (r: bool)
    requires
        offset <= s@.len(),
    ensures
        r == (s@.skip(offset as int) == t@),
{
    let sn = s.unicode_len();
    let tn = t.as_str().unicode_len();
    if sn - offset != tn {
        proof {
            assert(s@.skip(offset as int).len() != t@.len());
        }
        return false;
    }
    let mut i: usize = 0;
    while i < tn
        invariant
            i <= tn,
            offset <= s@.len(),
            sn == s@.len(),
            tn == t@.len(),
            sn - offset == tn,
            forall|j: int| 0 <= j < i ==> s@[offset + j] == t@[j],
        decreases tn - i,
    {
        if s.get_char(offset + i) != t.as_str().get_char(i) {
            proof {
                assert(s@.skip(offset as int)[i as int] == s@[offset + i]);
            }
            return false;
        }
        i = i + 1;
    }
    proof {
        assert(s@.skip(offset as int) =~= t@);
    }
    true
}

} // verus!
