//! The native API that the PHP application calls: its routes and the
//! answers that do not depend on the windowing system.
use vstd::prelude::*;
use vstd::string::StringExecFns;

use crate::ports::api_prefix;

verus! {

/// The HTTP methods the native API answers.
#[derive(Clone, Copy, Debug, PartialEq, Eq, Structural)]
pub enum HttpMethod {
    Get,
    Post,
}

/// The operations of the native API.
#[derive(Clone, Copy, Debug, PartialEq, Eq, Structural)]
pub enum Endpoint {
    OpenWindow,
    CloseWindow,
    HideWindow,
    ShowWindow,
    ResizeWindow,
    PositionWindow,
    AlwaysOnTopWindow,
    MaximizeWindow,
    UnmaximizeWindow,
    MinimizeWindow,
    CurrentWindow,
    AllWindows,
    GetWindow,
    ShowNotification,
    WriteClipboard,
    SetTrayMenu,
    SetWindowMenu,
    ShowDialog,
    RegisterShortcut,
    StartChildProcess,
}

/// One route: a method and a path (`:id` marks a path parameter) served by an operation.
#[derive(Debug, PartialEq, Eq)]
pub struct ApiRoute {
    pub method: HttpMethod,
    pub path: String,
    pub endpoint: Endpoint,
}

/// The value of a route.
pub open spec fn route_view(r: ApiRoute) -> (HttpMethod, Seq<char>, Endpoint) {
    (r.method, r.path@, r.endpoint)
}

/// The path of a route below the API prefix.
pub open spec fn api_path(suffix: Seq<char>) -> Seq<char> {
    api_prefix() + suffix
}

/// The routes of the native API, in the order in which they are registered.
pub open spec fn route_table() -> Seq<(HttpMethod, Seq<char>, Endpoint)> {
    seq![
        (HttpMethod::Post, api_path("window/open"@), Endpoint::OpenWindow),
        (HttpMethod::Post, api_path("window/close"@), Endpoint::CloseWindow),
        (HttpMethod::Post, api_path("window/hide"@), Endpoint::HideWindow),
        (HttpMethod::Post, api_path("window/show"@), Endpoint::ShowWindow),
        (HttpMethod::Post, api_path("window/resize"@), Endpoint::ResizeWindow),
        (HttpMethod::Post, api_path("window/position"@), Endpoint::PositionWindow),
        (HttpMethod::Post, api_path("window/always-on-top"@), Endpoint::AlwaysOnTopWindow),
        (HttpMethod::Post, api_path("window/maximize"@), Endpoint::MaximizeWindow),
        (HttpMethod::Post, api_path("window/unmaximize"@), Endpoint::UnmaximizeWindow),
        (HttpMethod::Post, api_path("window/minimize"@), Endpoint::MinimizeWindow),
        (HttpMethod::Get, api_path("window/current"@), Endpoint::CurrentWindow),
        (HttpMethod::Get, api_path("window/all"@), Endpoint::AllWindows),
        (HttpMethod::Get, api_path("window/get/:id"@), Endpoint::GetWindow),
        (HttpMethod::Post, api_path("notification"@), Endpoint::ShowNotification),
        (HttpMethod::Post, api_path("clipboard"@), Endpoint::WriteClipboard),
        (HttpMethod::Post, api_path("tray/menu"@), Endpoint::SetTrayMenu),
        (HttpMethod::Post, api_path("window/menu"@), Endpoint::SetWindowMenu),
        (HttpMethod::Post, api_path("dialog"@), Endpoint::ShowDialog),
        (HttpMethod::Post, api_path("shortcut"@), Endpoint::RegisterShortcut),
        (HttpMethod::Post, api_path("child-process/start"@), Endpoint::StartChildProcess),
        (HttpMethod::Post, api_path("child-process/start-php"@), Endpoint::StartChildProcess),
        (HttpMethod::Post, api_path("child-process/start-node"@), Endpoint::StartChildProcess),
    ]
}

fn route(routes: &mut Vec<ApiRoute>, method: HttpMethod, suffix: &str, endpoint: Endpoint)
    ensures
        final(routes)@ == old(routes)@.push(
            ApiRoute { method, path: final(routes)@.last().path, endpoint },
        ),
        final(routes)@.last().path@ == api_path(suffix@),
{
    let path = "/_native/api/".to_owned().concat(suffix);
    routes.push(ApiRoute { method, path, endpoint });
}

/// The routes of the native API, exactly `route_table()`.
pub fn api_routes() -> (routes: Vec<ApiRoute>)
    ensures
        routes@.map_values(|r: ApiRoute| route_view(r)) == route_table(),
{
    let mut routes: Vec<ApiRoute> = Vec::new();
    route(&mut routes, HttpMethod::Post, "window/open", Endpoint::OpenWindow);
    route(&mut routes, HttpMethod::Post, "window/close", Endpoint::CloseWindow);
    route(&mut routes, HttpMethod::Post, "window/hide", Endpoint::HideWindow);
    route(&mut routes, HttpMethod::Post, "window/show", Endpoint::ShowWindow);
    route(&mut routes, HttpMethod::Post, "window/resize", Endpoint::ResizeWindow);
    route(&mut routes, HttpMethod::Post, "window/position", Endpoint::PositionWindow);
    route(&mut routes, HttpMethod::Post, "window/always-on-top", Endpoint::AlwaysOnTopWindow);
    route(&mut routes, HttpMethod::Post, "window/maximize", Endpoint::MaximizeWindow);
    route(&mut routes, HttpMethod::Post, "window/unmaximize", Endpoint::UnmaximizeWindow);
    route(&mut routes, HttpMethod::Post, "window/minimize", Endpoint::MinimizeWindow);
    route(&mut routes, HttpMethod::Get, "window/current", Endpoint::CurrentWindow);
    route(&mut routes, HttpMethod::Get, "window/all", Endpoint::AllWindows);
    route(&mut routes, HttpMethod::Get, "window/get/:id", Endpoint::GetWindow);
    route(&mut routes, HttpMethod::Post, "notification", Endpoint::ShowNotification);
    route(&mut routes, HttpMethod::Post, "clipboard", Endpoint::WriteClipboard);
    route(&mut routes, HttpMethod::Post, "tray/menu", Endpoint::SetTrayMenu);
    route(&mut routes, HttpMethod::Post, "window/menu", Endpoint::SetWindowMenu);
    route(&mut routes, HttpMethod::Post, "dialog", Endpoint::ShowDialog);
    route(&mut routes, HttpMethod::Post, "shortcut", Endpoint::RegisterShortcut);
    route(&mut routes, HttpMethod::Post, "child-process/start", Endpoint::StartChildProcess);
    route(&mut routes, HttpMethod::Post, "child-process/start-php", Endpoint::StartChildProcess);
    route(&mut routes, HttpMethod::Post, "child-process/start-node", Endpoint::StartChildProcess);
    assert(routes@.map_values(|r: ApiRoute| route_view(r)) =~= route_table());
    routes
}

/// A request to start a child process.
#[derive(Debug, PartialEq, Eq)]
pub struct ChildProcessPayload {
    pub alias: String,
    pub cmd: Vec<String>,
    pub cwd: Option<String>,
}

/// The settings of a child process as the native API reports them.
#[derive(Debug, PartialEq, Eq)]
pub struct ChildProcessSettings {
    pub alias: String,
    pub cmd: Vec<String>,
    pub cwd: Option<String>,
    pub env: Option<Vec<(String, String)>>,
    pub persistent: bool,
    pub handles_own_shutdown: bool,
    pub ini_settings: Option<Vec<(String, String)>>,
}

/// The answer to a request to start a child process.
#[derive(Debug, PartialEq, Eq)]
pub struct ChildProcessResponse {
    pub pid: u32,
    pub settings: ChildProcessSettings,
}

/// Acknowledges a child process request: process id 1, the request's alias,
/// command and directory echoed, no environment or ini settings, not
/// persistent and not handling its own shutdown. No process is started.
pub fn start_child_process(payload: ChildProcessPayload) -> (res: ChildProcessResponse)
    ensures
        res.pid == 1,
        res.settings.alias == payload.alias,
        res.settings.cmd == payload.cmd,
        res.settings.cwd == payload.cwd,
        res.settings.env is None,
        !res.settings.persistent,
        !res.settings.handles_own_shutdown,
        res.settings.ini_settings is None,
{
    ChildProcessResponse {
        pid: 1,
        settings: ChildProcessSettings {
            alias: payload.alias,
            cmd: payload.cmd,
            cwd: payload.cwd,
            env: None,
            persistent: false,
            handles_own_shutdown: false,
            ini_settings: None,
        },
    }
}

} // verus!
