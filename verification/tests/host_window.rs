//! Host, registry, notifications, archive, window and builder behaviour.

use sciter::dom::Dom;
use sciter::engine::{Engine, EngineCall, SCITER_SET_GFX_LAYER, SCITER_SET_UX_THEMING};
use sciter::host::{
    on_handle_notification, Archive, Host, HostHandler, HostHook, HostNotification, HostResponse,
    ScnAttachBehavior, ScnLoadData, LOAD_RESULT,
};
use sciter::window::{
    Builder, Options, Window, SW_CHILD, SW_CONTROLS, SW_GLASSY, SW_MAIN, SW_POPUP, SW_RESIZEABLE,
    SW_TITLEBAR, SW_TOOL,
};
use sciter::{set_options, version, version_num, RuntimeOptions, GFX_LAYER};

#[test]
fn registry_lookup_precedence() {
    // with two registrations of one name, the first wins
    let mut eng = Engine::new();
    let mut host = Host::attach(&mut eng, 7);
    host.register_behavior("video-generator", 100);
    host.register_behavior("video-generator", 200);
    assert_eq!(host.find_behavior("video-generator"), Some(100));
    assert_eq!(host.find_behavior("missing"), None);
}

#[derive(Default)]
struct Quiet {
    loads: u32,
}

impl HostHandler for Quiet {
    fn on_data_load(&mut self, _pnm: &ScnLoadData) -> LOAD_RESULT {
        self.loads += 1;
        LOAD_RESULT::LOAD_DEFAULT
    }
}

struct Greedy;

impl HostHandler for Greedy {
    fn on_attach_behavior(&mut self, _pnm: &ScnAttachBehavior) -> bool {
        true
    }
}

#[test]
fn attach_behavior_consults_registry() {
    let mut eng = Engine::new();
    let mut host = Host::attach(&mut eng, 7);
    host.register_behavior("custom-button", 5);
    let mut me = Quiet::default();

    let scn = HostNotification::AttachBehavior(ScnAttachBehavior {
        element: 3,
        name: String::from("custom-button"),
    });
    let r: HostResponse = on_handle_notification(&host, &mut me, &scn);
    assert_eq!(r.result, 1);
    assert_eq!(r.factory, Some(5));

    let scn = HostNotification::AttachBehavior(ScnAttachBehavior {
        element: 3,
        name: String::from("unknown"),
    });
    let r = on_handle_notification(&host, &mut me, &scn);
    assert_eq!(r.result, 0);
    assert_eq!(r.factory, None);
}

#[test]
fn attach_behavior_application_override_wins() {
    let mut eng = Engine::new();
    let mut host = Host::attach(&mut eng, 7);
    host.register_behavior("custom-button", 5);
    let mut me = Greedy;
    let scn = HostNotification::AttachBehavior(ScnAttachBehavior {
        element: 3,
        name: String::from("custom-button"),
    });
    let r = on_handle_notification(&host, &mut me, &scn);
    assert_eq!(r.result, 1);
    // the registry is not consulted when the application took the request
    assert_eq!(r.factory, None);
    assert_eq!(
        r.hook,
        HostHook::AttachBehavior {
            by_app: true,
            factory: None
        }
    );
}

#[test]
fn load_notification_forwards_answer() {
    let mut eng = Engine::new();
    let host = Host::attach(&mut eng, 7);
    let mut me = Quiet::default();
    let scn = HostNotification::LoadData(ScnLoadData {
        uri: String::from("this://app/index.htm"),
        request_id: 0,
    });
    let r = on_handle_notification(&host, &mut me, &scn);
    assert_eq!(me.loads, 1);
    assert_eq!(r.result, 0); // LOAD_DEFAULT
}

#[test]
fn archive_prefixes() {
    let entries = vec![
        (String::from("index.htm"), b"<html/>".to_vec()),
        (String::from("app.css"), b"body {}".to_vec()),
    ];
    let assets = Archive::open(entries);
    assert_eq!(assets.get("index.htm").map(|v| v.as_slice()), Some(&b"<html/>"[..]));
    assert_eq!(
        assets.get("this://app/index.htm").map(|v| v.as_slice()),
        Some(&b"<html/>"[..])
    );
    assert_eq!(assets.get("//app.css").map(|v| v.as_slice()), Some(&b"body {}"[..]));
    assert!(assets.get("missing.htm").is_none());
}

#[test]
fn builder_flags() {
    let b = Builder::main_window();
    assert_eq!(b.flags, SW_MAIN | SW_RESIZEABLE | SW_CONTROLS | SW_TITLEBAR);

    let b = Builder::popup_window();
    assert_eq!(b.flags, SW_POPUP | SW_CONTROLS | SW_TITLEBAR);

    assert_eq!(Builder::child_window().flags, SW_CHILD);
    assert_eq!(Builder::none().flags, SW_CHILD);
    assert_eq!(Builder::tool().flags, SW_TOOL);

    // fixed() clears what resizeable() set
    let b = Builder::main_window().fixed();
    assert_eq!(b.flags & SW_RESIZEABLE, 0);

    let b = Builder::main().glassy();
    assert_eq!(b.flags, SW_MAIN | SW_GLASSY);
}

#[test]
fn builder_rect() {
    let b = Builder::main().with_size((800, 600));
    assert_eq!((b.rect.right, b.rect.bottom), (800, 600));
    let b = b.with_pos((100, 50));
    assert_eq!((b.rect.left, b.rect.top), (100, 50));
    assert_eq!((b.rect.right, b.rect.bottom), (900, 650));
    let b = b.with_rect((1, 2, 3, 4));
    assert_eq!(
        (b.rect.left, b.rect.top, b.rect.right, b.rect.bottom),
        (1, 2, 3, 4)
    );
}

#[test]
fn window_lifecycle() {
    let mut eng = Engine::new();
    let mut w = Builder::main_window().with_title().create(&mut eng);
    assert_ne!(w.get_hwnd(), 0);
    w.set_title("hello");
    assert_eq!(w.get_title(), "hello");
    w.run_app();
    assert!(w.running);
    w.quit_app();
    assert!(!w.running);
    w.dismiss();
    assert!(w.closed);

    w.register_behavior("custom-button", 9);
    assert_eq!(w.get_host().find_behavior("custom-button"), Some(9));
}

#[test]
fn window_options_map_to_engine_calls() {
    let mut eng = Engine::new();
    let w = Window::new(&mut eng);
    let calls_before = eng.calls.len();
    w.set_options(&mut eng, Options::SmoothScroll(false)).unwrap();
    w.set_options(&mut eng, Options::FontSmoothing(3)).unwrap();
    assert_eq!(eng.calls.len(), calls_before + 2);
    match &eng.calls[calls_before] {
        EngineCall::SetOption { hwnd, code, value } => {
            assert_eq!(*hwnd, w.get_hwnd());
            assert_eq!(*code, 1); // smooth scroll
            assert_eq!(*value, 0);
        }
        _ => panic!("unexpected call"),
    }
    match &eng.calls[calls_before + 1] {
        EngineCall::SetOption { code, value, .. } => {
            assert_eq!(*code, 4); // font smoothing
            assert_eq!(*value, 3);
        }
        _ => panic!("unexpected call"),
    }
}

#[test]
fn global_options_map_to_engine_calls() {
    let mut eng = Engine::new();
    set_options(&mut eng, RuntimeOptions::GfxLayer(GFX_LAYER::SKIA)).unwrap();
    set_options(&mut eng, RuntimeOptions::UxTheming(true)).unwrap();
    set_options(&mut eng, RuntimeOptions::GpuBlacklist("[]")).unwrap();
    assert_eq!(eng.calls.len(), 3);
    match &eng.calls[0] {
        EngineCall::SetOption { hwnd, code, value } => {
            assert_eq!(*hwnd, 0);
            assert_eq!(*code, SCITER_SET_GFX_LAYER);
            assert_eq!(*value, 4);
        }
        _ => panic!("unexpected call"),
    }
    match &eng.calls[1] {
        EngineCall::SetOption { code, value, .. } => {
            assert_eq!(*code, SCITER_SET_UX_THEMING);
            assert_eq!(*value, 1);
        }
        _ => panic!("unexpected call"),
    }
    match &eng.calls[2] {
        EngineCall::SetGpuBlacklist { json } => assert_eq!(json, "[]"),
        _ => panic!("unexpected call"),
    }
}

#[test]
fn version_words() {
    let eng = Engine::with_version(0x00040004, 0x00080000);
    assert_eq!(version(&eng), "4.4.8.0");
    assert_eq!(version_num(&eng), 0x04040800);
}

#[test]
fn host_loads_and_scripts() {
    let mut eng = Engine::new();
    let host = Host::attach(&mut eng, 3);
    let calls_at_start = eng.calls.len();
    host.load_file(&mut eng, "minimal.htm");
    host.load_html(&mut eng, b"<html/>", Some("res:root"));
    host.data_ready(&mut eng, "in.png", &[1, 2, 3]);
    let rv = host.eval_script(&mut eng, "1 + 1");
    match rv {
        Ok(v) => assert!(v.is_null()),
        Err(_) => panic!("eval refused"),
    }
    assert_eq!(eng.calls.len(), calls_at_start + 4);
    match &eng.calls[calls_at_start] {
        EngineCall::LoadFile { hwnd, uri } => {
            assert_eq!(*hwnd, 3);
            assert_eq!(uri, "minimal.htm");
        }
        _ => panic!("unexpected call"),
    }

    let mut dom = Dom::new();
    assert!(host.get_root(&mut dom).is_none());
}

#[test]
fn attach_installs_callback() {
    // attaching a host enables debug output, installs the notification
    // callback for the window and the debug output callback globally
    let mut eng = Engine::new();
    let host = Host::attach(&mut eng, 5);
    assert_eq!(host.get_hwnd(), 5);
    assert_eq!(eng.calls.len(), 3);
    match &eng.calls[0] {
        EngineCall::SetOption { hwnd, code, value } => {
            assert_eq!((*hwnd, *code, *value), (0, 10, 1)); // debug mode on
        }
        _ => panic!("unexpected call"),
    }
    match &eng.calls[1] {
        EngineCall::SetCallback { hwnd } => assert_eq!(*hwnd, 5),
        _ => panic!("unexpected call"),
    }
    match &eng.calls[2] {
        EngineCall::SetupDebugOutput { hwnd } => assert_eq!(*hwnd, 0),
        _ => panic!("unexpected call"),
    }
}
