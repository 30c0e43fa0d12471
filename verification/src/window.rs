//! Windows: how a request to open one is turned into what the shell builds,
//! and how a window's state is reported back.
use vstd::prelude::*;

use crate::menu::text_or;
use crate::text::{
    contains, contains_seq, has_prefix, replace_all, replaced, starts_with,
};

verus! {

/// A request to open a window. The requested width and height are not used
/// when the window is built and are left to the shell.
#[derive(Debug, PartialEq, Eq)]
pub struct WindowOpenPayload {
    pub id: String,
    pub title: Option<String>,
    pub url: Option<String>,
    pub show_dev_tools: Option<bool>,
}

/// What a window shows: a remote page, or a page of the bundled application.
#[derive(Debug, PartialEq, Eq)]
pub enum WindowTarget {
    External(String),
    App(String),
}

/// The window the shell builds for an open request.
#[derive(Debug, PartialEq, Eq)]
pub struct WindowOpenPlan {
    pub label: String,
    pub target: WindowTarget,
    pub title: String,
    pub open_devtools: bool,
}

/// The URL a window opens: the requested one, else `index.html`, with
/// `127.0.0.1` replaced by `localhost` where it occurs.
pub open spec fn window_url(url: Option<String>) -> Seq<char> {
    let u = text_or(url, "index.html"@);
    if contains_seq(u, "127.0.0.1"@) {
        replaced(u, "127.0.0.1"@, "localhost"@)
    } else {
        u
    }
}

/// A URL that starts with `http` is opened as a remote page.
pub open spec fn is_external_url(u: Seq<char>) -> bool {
    has_prefix(u, "http"@)
}

/// The target's kind and text.
pub open spec fn target_view(t: WindowTarget) -> (bool, Seq<char>) {
    match t {
        WindowTarget::External(u) => (true, u@),
        WindowTarget::App(u) => (false, u@),
    }
}

/// Decides how a window is opened: labelled by the request's id, showing
/// `window_url`, as a remote page when that URL starts with `http`, titled by
/// the request's title or else `NativePHP`, with developer tools only when
/// they are asked for.
pub fn plan_open_window(payload: WindowOpenPayload) -> (plan: WindowOpenPlan)
    ensures
        plan.label@ == payload.id@,
        target_view(plan.target) == (
            is_external_url(window_url(payload.url)),
            window_url(payload.url),
        ),
        (plan.target is External) == has_prefix(window_url(payload.url), "http"@),
        plan.title@ == text_or(payload.title, "NativePHP"@),
        plan.open_devtools == (payload.show_dev_tools == Some(true)),
{
    let ghost requested = payload.url;
    let mut url = match payload.url {
        Some(u) => u,
        None => "index.html".to_owned(),
    };
    proof {
        reveal_strlit("127.0.0.1");
    }
    if contains(url.as_str(), "127.0.0.1") {
        url = replace_all(url.as_str(), "127.0.0.1", "localhost");
    }
    assert(url@ == window_url(requested));
    let target = if starts_with(url.as_str(), "http") {
        WindowTarget::External(url)
    } else {
        WindowTarget::App(url)
    };
    let title = match payload.title {
        Some(t) => t,
        None => "NativePHP".to_owned(),
    };
    let open_devtools = match payload.show_dev_tools {
        Some(b) => b,
        None => false,
    };
    WindowOpenPlan { label: payload.id, target, title, open_devtools }
}

/// The state of a window as the native API reports it.
#[derive(Debug, PartialEq, Eq)]
pub struct WindowStateResponse {
    pub id: String,
    pub x: i32,
    pub y: i32,
    pub width: u32,
    pub height: u32,
    pub title: String,
    pub always_on_top: bool,
}

/// Reports a window from what the shell could read of it: a position or a
/// size that could not be read counts as zero, a title that could not be
/// read as empty; staying on top is reported as off.
pub fn build_window_state(
    label: String,
    position: Option<(i32, i32)>,
    size: Option<(u32, u32)>,
    title: Option<String>,
) -> (state: WindowStateResponse)
    ensures
        state.id@ == label@,
        (state.x, state.y) == match position {
            Some(p) => p,
            None => (0i32, 0i32),
        },
        (state.width, state.height) == match size {
            Some(s) => s,
            None => (0u32, 0u32),
        },
        state.title@ == text_or(title, Seq::empty()),
        !state.always_on_top,
{
    let (x, y) = match position {
        Some(p) => p,
        None => (0i32, 0i32),
    };
    let (width, height) = match size {
        Some(s) => s,
        None => (0u32, 0u32),
    };
    let title = match title {
        Some(t) => t,
        None => String::new(),
    };
    WindowStateResponse { id: label, x, y, width, height, title, always_on_top: false }
}

/// The label of the window that counts as the current one.
pub open spec fn current_window_label_spec() -> Seq<char> {
    "main"@
}

/// The label of the window that counts as the current one: `main`.
pub fn current_window_label() -> (label: String)
    ensures
        label@ == current_window_label_spec(),
{
    "main".to_owned()
}

} // verus!
