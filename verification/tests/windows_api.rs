use nativephp_tauri::api::{
    api_routes, start_child_process, ChildProcessPayload, Endpoint, HttpMethod,
};
use nativephp_tauri::window::{
    build_window_state, current_window_label, plan_open_window, WindowOpenPayload, WindowTarget,
};

fn s(x: &str) -> String {
    x.to_string()
}

#[test]
fn open_window_defaults() {
    let plan = plan_open_window(WindowOpenPayload {
        id: s("main"),
        title: None,
        url: None,
        show_dev_tools: None,
    });
    assert_eq!(plan.label, "main");
    assert_eq!(plan.target, WindowTarget::App(s("index.html")));
    assert_eq!(plan.title, "NativePHP");
    assert!(!plan.open_devtools);
}

#[test]
fn open_window_uses_localhost_for_remote_pages() {
    let plan = plan_open_window(WindowOpenPayload {
        id: s("second"),
        title: Some(s("Settings")),
        url: Some(s("http://127.0.0.1:8100/settings")),
        show_dev_tools: Some(true),
    });
    assert_eq!(plan.target, WindowTarget::External(s("http://localhost:8100/settings")));
    assert_eq!(plan.title, "Settings");
    assert!(plan.open_devtools);
}

#[test]
fn open_window_app_pages() {
    let plan = plan_open_window(WindowOpenPayload {
        id: s("w"),
        title: None,
        url: Some(s("pages/about.html")),
        show_dev_tools: Some(false),
    });
    assert_eq!(plan.target, WindowTarget::App(s("pages/about.html")));
    assert!(!plan.open_devtools);
}

#[test]
fn window_state_defaults() {
    let st = build_window_state(s("main"), None, None, None);
    assert_eq!((st.x, st.y, st.width, st.height), (0, 0, 0, 0));
    assert_eq!(st.title, "");
    assert!(!st.always_on_top);
    let st = build_window_state(s("w"), Some((-5, 7)), Some((800, 600)), Some(s("T")));
    assert_eq!((st.id.as_str(), st.x, st.y, st.width, st.height), ("w", -5, 7, 800, 600));
    assert_eq!(st.title, "T");
    assert_eq!(current_window_label(), "main");
}

#[test]
fn route_table() {
    let routes = api_routes();
    assert_eq!(routes.len(), 22);
    assert_eq!(routes[0].path, "/_native/api/window/open");
    assert_eq!(routes[0].method, HttpMethod::Post);
    assert_eq!(routes[0].endpoint, Endpoint::OpenWindow);
    assert_eq!(routes[12].path, "/_native/api/window/get/:id");
    assert_eq!(routes[12].method, HttpMethod::Get);
    assert_eq!(routes[21].path, "/_native/api/child-process/start-node");
    assert_eq!(routes[21].endpoint, Endpoint::StartChildProcess);
    for (i, a) in routes.iter().enumerate() {
        assert!(a.path.starts_with("/_native/api/"));
        for b in routes.iter().skip(i + 1) {
            assert_ne!(a.path, b.path);
        }
    }
}

#[test]
fn child_process_is_acknowledged() {
    let res = start_child_process(ChildProcessPayload {
        alias: s("queue"),
        cmd: vec![s("php"), s("artisan"), s("queue:work")],
        cwd: Some(s("/srv")),
    });
    assert_eq!(res.pid, 1);
    assert_eq!(res.settings.alias, "queue");
    assert_eq!(res.settings.cmd, vec![s("php"), s("artisan"), s("queue:work")]);
    assert_eq!(res.settings.cwd, Some(s("/srv")));
    assert_eq!(res.settings.env, None);
    assert!(!res.settings.persistent);
    assert!(!res.settings.handles_own_shutdown);
    assert_eq!(res.settings.ini_settings, None);
}
