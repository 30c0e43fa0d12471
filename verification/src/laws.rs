//! Properties that tie the parts of the bridge together.
use vstd::prelude::*;

use crate::api::{api_path, route_table, Endpoint, HttpMethod};
use crate::php::{
    bridge_secret_spec, handle_after_start, sidecar_args, sidecar_env, SidecarError,
};
use crate::ports::{api_base_url_spec, api_prefix, loopback_address, port_or_spec};
use crate::boot::{boot_next_step, boot_run, boot_url_spec, BootStep, BOOT_ATTEMPTS};
use crate::menu::{
    item_entries, menu_spec, role_item, text_or, MenuEntryView, MenuItemPayload, NativeMenuItem,
};
use crate::text::{contains_seq, has_prefix, occurs_at, replaced};
use crate::window::{is_external_url, window_url};

verus! {

/// The boot event is posted to the very address on which the PHP server was
/// told to listen: `http://` + that address + `/_native/api/booted`.
pub proof fn law_boot_event_reaches_sidecar(php_port: u16, app: Seq<char>, cwd: Seq<char>)
    ensures
        sidecar_args(php_port, app, cwd)[0] == "-S"@,
        boot_url_spec(php_port) == "http://"@ + sidecar_args(php_port, app, cwd)[1] + api_prefix()
            + "booted"@,
{
}

/// The secret handed to the PHP application is the one the shell presents
/// with the boot event.
pub proof fn law_shared_secret(api_port: u16, app: Seq<char>)
    ensures
        sidecar_env(api_port, app)[5] == ("NATIVEPHP_SECRET"@, bridge_secret_spec()),
{
}

/// Every route of the native API lies below the base URL that the PHP
/// application is given: its address is that URL followed by the rest of
/// the route's path.
pub proof fn law_routes_below_api_url(api_port: u16, app: Seq<char>)
    ensures
        sidecar_env(api_port, app)[1] == ("NATIVEPHP_API_URL"@, api_base_url_spec(api_port)),
        forall|i: int|
            0 <= i < route_table().len() ==> exists|rest: Seq<char>|
                #[trigger] route_table()[i].1 == api_prefix() + rest && "http://"@
                    + loopback_address(api_port) + route_table()[i].1 == api_base_url_spec(
                    api_port,
                ) + rest,
{
    assert forall|i: int| 0 <= i < route_table().len() implies exists|rest: Seq<char>|
        #[trigger] route_table()[i].1 == api_prefix() + rest && "http://"@ + loopback_address(
            api_port,
        ) + route_table()[i].1 == api_base_url_spec(api_port) + rest by {
        let p = route_table()[i].1;
        let rest = p.subrange(api_prefix().len() as int, p.len() as int);
        assert(p =~= api_prefix() + rest);
        assert("http://"@ + loopback_address(api_port) + p =~= api_base_url_spec(api_port) + rest);
    }
}

/// No two routes share a path, so registering them never collides.
pub proof fn law_route_paths_distinct()
    ensures
        forall|i: int, j: int|
            0 <= i < j < route_table().len() ==> route_table()[i].1 != route_table()[j].1,
{
    reveal_strlit("/_native/api/");
    reveal_strlit("window/open");
    reveal_strlit("window/close");
    reveal_strlit("window/hide");
    reveal_strlit("window/show");
    reveal_strlit("window/resize");
    reveal_strlit("window/position");
    reveal_strlit("window/always-on-top");
    reveal_strlit("window/maximize");
    reveal_strlit("window/unmaximize");
    reveal_strlit("window/minimize");
    reveal_strlit("window/current");
    reveal_strlit("window/all");
    reveal_strlit("window/get/:id");
    reveal_strlit("notification");
    reveal_strlit("clipboard");
    reveal_strlit("tray/menu");
    reveal_strlit("window/menu");
    reveal_strlit("dialog");
    reveal_strlit("shortcut");
    reveal_strlit("child-process/start");
    reveal_strlit("child-process/start-php");
    reveal_strlit("child-process/start-node");
    assert forall|i: int, j: int| 0 <= i < j < route_table().len() implies route_table()[i].1
        != route_table()[j].1 by {
        let a = route_table()[i].1;
        let b = route_table()[j].1;
        if a.len() == b.len() {
            assert(a[13] != b[13] || a[20] != b[20] || a[21] != b[21]);
        }
    }
}

/// The environment of the PHP server never names a variable twice, so
/// collecting it into a map loses nothing.
pub proof fn law_env_names_distinct(api_port: u16, app: Seq<char>)
    ensures
        sidecar_env(api_port, app).len() == 6,
        forall|i: int, j: int|
            0 <= i < j < 6 ==> sidecar_env(api_port, app)[i].0 != sidecar_env(api_port, app)[j].0,
{
    reveal_strlit("NATIVEPHP_RUNNING");
    reveal_strlit("NATIVEPHP_API_URL");
    reveal_strlit("APP_PATH");
    reveal_strlit("NATIVEPHP_STORAGE_PATH");
    reveal_strlit("NATIVEPHP_DATABASE_PATH");
    reveal_strlit("NATIVEPHP_SECRET");
    let e = sidecar_env(api_port, app);
    assert forall|i: int, j: int| 0 <= i < j < 6 implies e[i].0 != e[j].0 by {
        if e[i].0.len() == e[j].0.len() {
            assert(e[i].0[10] != e[j].0[10]);
        }
    }
}

/// A process recorded by a successful start is what the next stop hands
/// back; a failed start keeps whatever handle was there before.
pub proof fn law_start_then_stop<C>(before: Option<C>, child: C, failure: SidecarError)
    ensures
        handle_after_start(before, Ok(child)) == Some(child),
        handle_after_start(before, Err(failure)) == before,
{
}

proof fn lemma_boot_prefix(outcomes: Seq<bool>, k: int, m: int)
    requires
        0 <= k < outcomes.len(),
        k < BOOT_ATTEMPTS,
        outcomes[k],
        forall|j: int| 0 <= j < k ==> !outcomes[j],
        0 <= m <= outcomes.len(),
    ensures
        m <= k ==> boot_run(outcomes.take(m)) == (m as nat, false),
        m > k ==> boot_run(outcomes.take(m)) == ((k + 1) as nat, true),
    decreases m,
{
    if m > 0 {
        lemma_boot_prefix(outcomes, k, m - 1);
        assert(outcomes.take(m).drop_last() =~= outcomes.take(m - 1));
    }
}

/// Once an attempt delivers the boot event, nothing more is sent: when the
/// first success is attempt `k + 1` (within the limit), exactly `k + 1`
/// attempts are made, whatever outcomes are recorded afterwards.
pub proof fn law_boot_stops_once_delivered(outcomes: Seq<bool>, k: int)
    requires
        0 <= k < outcomes.len(),
        k < BOOT_ATTEMPTS,
        outcomes[k],
        forall|j: int| 0 <= j < k ==> !outcomes[j],
    ensures
        boot_run(outcomes) == ((k + 1) as nat, true),
        boot_next_step(boot_run(outcomes)) == BootStep::Finished,
{
    lemma_boot_prefix(outcomes, k, outcomes.len() as int);
    assert(outcomes.take(outcomes.len() as int) =~= outcomes);
}

/// Whatever the outcomes, the boot event is sent at most `BOOT_ATTEMPTS` times.
pub proof fn law_boot_attempts_bounded(outcomes: Seq<bool>)
    ensures
        boot_run(outcomes).0 <= BOOT_ATTEMPTS,
    decreases outcomes.len(),
{
    if outcomes.len() > 0 {
        law_boot_attempts_bounded(outcomes.drop_last());
    }
}

/// `n` failed attempts in a row.
pub open spec fn failures(n: nat) -> Seq<bool> {
    Seq::new(n, |i: int| false)
}

/// The number of attempts made after `n` failures.
pub open spec fn attempts_after_failures(n: nat) -> nat {
    if n <= BOOT_ATTEMPTS {
        n
    } else {
        BOOT_ATTEMPTS as nat
    }
}

/// Failed attempts are retried: after `n` failures the next step is to send
/// attempt `n + 1`, until `BOOT_ATTEMPTS` have failed, and then it stops.
pub proof fn law_boot_retries_failures(n: nat)
    ensures
        boot_run(failures(n)) == (attempts_after_failures(n), false),
        n < BOOT_ATTEMPTS ==> boot_next_step(boot_run(failures(n))) == (BootStep::Send {
            attempt: (n + 1) as u32,
            delay_secs: 1,
        }),
        n >= BOOT_ATTEMPTS ==> boot_next_step(boot_run(failures(n))) == BootStep::Finished,
    decreases n,
{
    if n > 0 {
        law_boot_retries_failures((n - 1) as nat);
        assert(failures(n).drop_last() =~= failures((n - 1) as nat));
    }
}

/// The menu of a list of items is the menu of its first part followed by the
/// menu of the rest: items are translated one by one, in order.
pub proof fn law_menu_concatenates(a: Seq<MenuItemPayload>, b: Seq<MenuItemPayload>)
    ensures
        menu_spec(a + b) == menu_spec(a) + menu_spec(b),
    decreases b.len(),
{
    if b.len() == 0 {
        assert(a + b =~= a);
        assert(menu_spec(a) + menu_spec(b) =~= menu_spec(a));
    } else {
        law_menu_concatenates(a, b.drop_last());
        assert((a + b).drop_last() =~= a + b.drop_last());
        assert((a + b).last() == b.last());
        assert(menu_spec(a + b) =~= menu_spec(a) + menu_spec(b));
    }
}

/// Each item yields at most one entry, so a menu never has more entries than items.
pub proof fn law_menu_no_larger_than_items(items: Seq<MenuItemPayload>)
    ensures
        menu_spec(items).len() <= items.len(),
    decreases items.len(),
{
    if items.len() > 0 {
        law_menu_no_larger_than_items(items.drop_last());
        assert(item_entries(items.last()).len() <= 1);
    }
}

proof fn lemma_replace_absent(s: Seq<char>, p: Seq<char>, r: Seq<char>)
    requires
        p.len() > 0,
        !contains_seq(s, p),
    ensures
        replaced(s, p, r) == s,
    decreases s.len(),
{
    if s.len() > 0 {
        let rest = s.subrange(1, s.len() as int);
        assert(!has_prefix(s, p)) by {
            if has_prefix(s, p) {
                assert(occurs_at(s, p, 0));
            }
        }
        assert(!contains_seq(rest, p)) by {
            if contains_seq(rest, p) {
                let k = choose|k: int| occurs_at(rest, p, k);
                assert(rest.subrange(k, k + p.len()) =~= s.subrange(k + 1, k + 1 + p.len()));
                assert(occurs_at(s, p, k + 1));
            }
        }
        lemma_replace_absent(rest, p, r);
        assert(seq![s[0]] + rest =~= s);
    }
}

/// The URL a window opens is the requested one (or `index.html`) with every
/// `127.0.0.1` replaced by `localhost`; where there is none it is kept as is.
pub proof fn law_window_url_uses_localhost(url: Option<String>)
    ensures
        window_url(url) == replaced(text_or(url, "index.html"@), "127.0.0.1"@, "localhost"@),
{
    reveal_strlit("127.0.0.1");
    let u = text_or(url, "index.html"@);
    if !contains_seq(u, "127.0.0.1"@) {
        lemma_replace_absent(u, "127.0.0.1"@, "localhost"@);
    }
}

/// A route with this path exists, is served by `endpoint` under `method`, and
/// no route with this path is served otherwise.
pub open spec fn path_served_by(path: Seq<char>, method: HttpMethod, endpoint: Endpoint) -> bool {
    &&& exists|i: int| 0 <= i < route_table().len() && #[trigger] route_table()[i] == (method, path, endpoint)
    &&& forall|i: int|
        0 <= i < route_table().len() && #[trigger] route_table()[i].1 == path ==> route_table()[i].0
            == method && route_table()[i].2 == endpoint
}

/// Each route is served by the operation that its path names: the window
/// verbs by the window operation of the same name, and so on for all of them.
pub proof fn law_route_endpoints_match_paths()
    ensures
        path_served_by("/_native/api/window/open"@, HttpMethod::Post, Endpoint::OpenWindow),
        path_served_by("/_native/api/window/close"@, HttpMethod::Post, Endpoint::CloseWindow),
        path_served_by("/_native/api/window/hide"@, HttpMethod::Post, Endpoint::HideWindow),
        path_served_by("/_native/api/window/show"@, HttpMethod::Post, Endpoint::ShowWindow),
        path_served_by("/_native/api/window/resize"@, HttpMethod::Post, Endpoint::ResizeWindow),
        path_served_by("/_native/api/window/position"@, HttpMethod::Post, Endpoint::PositionWindow),
        path_served_by("/_native/api/window/always-on-top"@, HttpMethod::Post, Endpoint::AlwaysOnTopWindow),
        path_served_by("/_native/api/window/maximize"@, HttpMethod::Post, Endpoint::MaximizeWindow),
        path_served_by("/_native/api/window/unmaximize"@, HttpMethod::Post, Endpoint::UnmaximizeWindow),
        path_served_by("/_native/api/window/minimize"@, HttpMethod::Post, Endpoint::MinimizeWindow),
        path_served_by("/_native/api/window/current"@, HttpMethod::Get, Endpoint::CurrentWindow),
        path_served_by("/_native/api/window/all"@, HttpMethod::Get, Endpoint::AllWindows),
        path_served_by("/_native/api/window/get/:id"@, HttpMethod::Get, Endpoint::GetWindow),
        path_served_by("/_native/api/notification"@, HttpMethod::Post, Endpoint::ShowNotification),
        path_served_by("/_native/api/clipboard"@, HttpMethod::Post, Endpoint::WriteClipboard),
        path_served_by("/_native/api/tray/menu"@, HttpMethod::Post, Endpoint::SetTrayMenu),
        path_served_by("/_native/api/window/menu"@, HttpMethod::Post, Endpoint::SetWindowMenu),
        path_served_by("/_native/api/dialog"@, HttpMethod::Post, Endpoint::ShowDialog),
        path_served_by("/_native/api/shortcut"@, HttpMethod::Post, Endpoint::RegisterShortcut),
        path_served_by("/_native/api/child-process/start"@, HttpMethod::Post, Endpoint::StartChildProcess),
        path_served_by("/_native/api/child-process/start-php"@, HttpMethod::Post, Endpoint::StartChildProcess),
        path_served_by("/_native/api/child-process/start-node"@, HttpMethod::Post, Endpoint::StartChildProcess),
{
    law_route_paths_distinct();
    reveal_strlit("/_native/api/");
    reveal_strlit("window/open");
    reveal_strlit("window/close");
    reveal_strlit("window/hide");
    reveal_strlit("window/show");
    reveal_strlit("window/resize");
    reveal_strlit("window/position");
    reveal_strlit("window/always-on-top");
    reveal_strlit("window/maximize");
    reveal_strlit("window/unmaximize");
    reveal_strlit("window/minimize");
    reveal_strlit("window/current");
    reveal_strlit("window/all");
    reveal_strlit("window/get/:id");
    reveal_strlit("notification");
    reveal_strlit("clipboard");
    reveal_strlit("tray/menu");
    reveal_strlit("window/menu");
    reveal_strlit("dialog");
    reveal_strlit("shortcut");
    reveal_strlit("child-process/start");
    reveal_strlit("child-process/start-php");
    reveal_strlit("child-process/start-node");
    reveal_strlit("/_native/api/window/open");
    reveal_strlit("/_native/api/window/close");
    reveal_strlit("/_native/api/window/hide");
    reveal_strlit("/_native/api/window/show");
    reveal_strlit("/_native/api/window/resize");
    reveal_strlit("/_native/api/window/position");
    reveal_strlit("/_native/api/window/always-on-top");
    reveal_strlit("/_native/api/window/maximize");
    reveal_strlit("/_native/api/window/unmaximize");
    reveal_strlit("/_native/api/window/minimize");
    reveal_strlit("/_native/api/window/current");
    reveal_strlit("/_native/api/window/all");
    reveal_strlit("/_native/api/window/get/:id");
    reveal_strlit("/_native/api/notification");
    reveal_strlit("/_native/api/clipboard");
    reveal_strlit("/_native/api/tray/menu");
    reveal_strlit("/_native/api/window/menu");
    reveal_strlit("/_native/api/dialog");
    reveal_strlit("/_native/api/shortcut");
    reveal_strlit("/_native/api/child-process/start");
    reveal_strlit("/_native/api/child-process/start-php");
    reveal_strlit("/_native/api/child-process/start-node");
    let t = route_table();
    assert forall|k: int| 0 <= k < t.len() implies #[trigger] path_served_by(t[k].1, t[k].0, t[k].2) by {
        assert forall|i: int| 0 <= i < t.len() && #[trigger] t[i].1 == t[k].1 implies t[i].0 == t[k].0
            && t[i].2 == t[k].2 by {
            if i < k {
                assert(t[i].1 != t[k].1);
            } else if k < i {
                assert(t[k].1 != t[i].1);
            }
        }
        assert(t[k] == (t[k].0, t[k].1, t[k].2));
    }
    assert("/_native/api/window/open"@ =~= api_path("window/open"@));
    assert(path_served_by(t[0].1, t[0].0, t[0].2));
    assert("/_native/api/window/close"@ =~= api_path("window/close"@));
    assert(path_served_by(t[1].1, t[1].0, t[1].2));
    assert("/_native/api/window/hide"@ =~= api_path("window/hide"@));
    assert(path_served_by(t[2].1, t[2].0, t[2].2));
    assert("/_native/api/window/show"@ =~= api_path("window/show"@));
    assert(path_served_by(t[3].1, t[3].0, t[3].2));
    assert("/_native/api/window/resize"@ =~= api_path("window/resize"@));
    assert(path_served_by(t[4].1, t[4].0, t[4].2));
    assert("/_native/api/window/position"@ =~= api_path("window/position"@));
    assert(path_served_by(t[5].1, t[5].0, t[5].2));
    assert("/_native/api/window/always-on-top"@ =~= api_path("window/always-on-top"@));
    assert(path_served_by(t[6].1, t[6].0, t[6].2));
    assert("/_native/api/window/maximize"@ =~= api_path("window/maximize"@));
    assert(path_served_by(t[7].1, t[7].0, t[7].2));
    assert("/_native/api/window/unmaximize"@ =~= api_path("window/unmaximize"@));
    assert(path_served_by(t[8].1, t[8].0, t[8].2));
    assert("/_native/api/window/minimize"@ =~= api_path("window/minimize"@));
    assert(path_served_by(t[9].1, t[9].0, t[9].2));
    assert("/_native/api/window/current"@ =~= api_path("window/current"@));
    assert(path_served_by(t[10].1, t[10].0, t[10].2));
    assert("/_native/api/window/all"@ =~= api_path("window/all"@));
    assert(path_served_by(t[11].1, t[11].0, t[11].2));
    assert("/_native/api/window/get/:id"@ =~= api_path("window/get/:id"@));
    assert(path_served_by(t[12].1, t[12].0, t[12].2));
    assert("/_native/api/notification"@ =~= api_path("notification"@));
    assert(path_served_by(t[13].1, t[13].0, t[13].2));
    assert("/_native/api/clipboard"@ =~= api_path("clipboard"@));
    assert(path_served_by(t[14].1, t[14].0, t[14].2));
    assert("/_native/api/tray/menu"@ =~= api_path("tray/menu"@));
    assert(path_served_by(t[15].1, t[15].0, t[15].2));
    assert("/_native/api/window/menu"@ =~= api_path("window/menu"@));
    assert(path_served_by(t[16].1, t[16].0, t[16].2));
    assert("/_native/api/dialog"@ =~= api_path("dialog"@));
    assert(path_served_by(t[17].1, t[17].0, t[17].2));
    assert("/_native/api/shortcut"@ =~= api_path("shortcut"@));
    assert(path_served_by(t[18].1, t[18].0, t[18].2));
    assert("/_native/api/child-process/start"@ =~= api_path("child-process/start"@));
    assert(path_served_by(t[19].1, t[19].0, t[19].2));
    assert("/_native/api/child-process/start-php"@ =~= api_path("child-process/start-php"@));
    assert(path_served_by(t[20].1, t[20].0, t[20].2));
    assert("/_native/api/child-process/start-node"@ =~= api_path("child-process/start-node"@));
    assert(path_served_by(t[21].1, t[21].0, t[21].2));

}

/// A menu item of type `role` whose id is `name`.
pub open spec fn is_role_item(item: MenuItemPayload, name: Seq<char>) -> bool {
    &&& item.item_type is Some
    &&& item.item_type->0@ == "role"@
    &&& item.id is Some
    &&& item.id->0@ == name
}

/// A role item whose id names a predefined item becomes the native item of
/// that same name, and nothing else.
pub proof fn law_role_items_are_native()
    ensures
        forall|item: MenuItemPayload|
            #[trigger] is_role_item(item, "undo"@) ==> menu_spec(seq![item]) == seq![
                MenuEntryView::Native(NativeMenuItem::Undo),
            ],
        forall|item: MenuItemPayload|
            #[trigger] is_role_item(item, "redo"@) ==> menu_spec(seq![item]) == seq![
                MenuEntryView::Native(NativeMenuItem::Redo),
            ],
        forall|item: MenuItemPayload|
            #[trigger] is_role_item(item, "cut"@) ==> menu_spec(seq![item]) == seq![
                MenuEntryView::Native(NativeMenuItem::Cut),
            ],
        forall|item: MenuItemPayload|
            #[trigger] is_role_item(item, "copy"@) ==> menu_spec(seq![item]) == seq![
                MenuEntryView::Native(NativeMenuItem::Copy),
            ],
        forall|item: MenuItemPayload|
            #[trigger] is_role_item(item, "paste"@) ==> menu_spec(seq![item]) == seq![
                MenuEntryView::Native(NativeMenuItem::Paste),
            ],
        forall|item: MenuItemPayload|
            #[trigger] is_role_item(item, "close"@) ==> menu_spec(seq![item]) == seq![
                MenuEntryView::Native(NativeMenuItem::CloseWindow),
            ],
        forall|item: MenuItemPayload|
            #[trigger] is_role_item(item, "quit"@) ==> menu_spec(seq![item]) == seq![
                MenuEntryView::Native(NativeMenuItem::Quit),
            ],
        forall|item: MenuItemPayload|
            #[trigger] is_role_item(item, "minimize"@) ==> menu_spec(seq![item]) == seq![
                MenuEntryView::Native(NativeMenuItem::Minimize),
            ],
        forall|item: MenuItemPayload|
            #[trigger] is_role_item(item, "hide"@) ==> menu_spec(seq![item]) == seq![
                MenuEntryView::Native(NativeMenuItem::Hide),
            ],
        forall|item: MenuItemPayload|
            #[trigger] is_role_item(item, "togglefullscreen"@) ==> menu_spec(seq![item]) == seq![
                MenuEntryView::Native(NativeMenuItem::EnterFullScreen),
            ],
{
    reveal_strlit("role");
    reveal_strlit("separator");
    reveal_strlit("undo");
    reveal_strlit("redo");
    reveal_strlit("cut");
    reveal_strlit("copy");
    reveal_strlit("paste");
    reveal_strlit("close");
    reveal_strlit("quit");
    reveal_strlit("minimize");
    reveal_strlit("hide");
    reveal_strlit("togglefullscreen");
    assert forall|item: MenuItemPayload| #[trigger] menu_spec(seq![item]) == item_entries(item) by {
        assert(seq![item].drop_last() =~= Seq::<MenuItemPayload>::empty());
        assert(menu_spec(Seq::<MenuItemPayload>::empty()) == Seq::<MenuEntryView>::empty());
        assert(Seq::<MenuEntryView>::empty() + item_entries(item) =~= item_entries(item));
    }
    assert("role"@.len() != "separator"@.len());
    assert forall|item: MenuItemPayload| #[trigger] is_role_item(item, "undo"@) implies menu_spec(
        seq![item],
    ) == seq![MenuEntryView::Native(NativeMenuItem::Undo)] by {
        assert(text_or(item.id, Seq::empty()) == "undo"@);
        assert(role_item("undo"@) == Some(NativeMenuItem::Undo));
        assert(menu_spec(seq![item]) == item_entries(item));
    }
    assert forall|item: MenuItemPayload| #[trigger] is_role_item(item, "redo"@) implies menu_spec(
        seq![item],
    ) == seq![MenuEntryView::Native(NativeMenuItem::Redo)] by {
        assert(text_or(item.id, Seq::empty()) == "redo"@);
        assert("redo"@[0] != "undo"@[0]);
        assert(role_item("redo"@) == Some(NativeMenuItem::Redo));
        assert(menu_spec(seq![item]) == item_entries(item));
    }
    assert forall|item: MenuItemPayload| #[trigger] is_role_item(item, "cut"@) implies menu_spec(
        seq![item],
    ) == seq![MenuEntryView::Native(NativeMenuItem::Cut)] by {
        assert(text_or(item.id, Seq::empty()) == "cut"@);
        assert("cut"@.len() != "undo"@.len());
        assert("cut"@.len() != "redo"@.len());
        assert(role_item("cut"@) == Some(NativeMenuItem::Cut));
        assert(menu_spec(seq![item]) == item_entries(item));
    }
    assert forall|item: MenuItemPayload| #[trigger] is_role_item(item, "copy"@) implies menu_spec(
        seq![item],
    ) == seq![MenuEntryView::Native(NativeMenuItem::Copy)] by {
        assert(text_or(item.id, Seq::empty()) == "copy"@);
        assert("copy"@[0] != "undo"@[0]);
        assert("copy"@[0] != "redo"@[0]);
        assert("copy"@.len() != "cut"@.len());
        assert(role_item("copy"@) == Some(NativeMenuItem::Copy));
        assert(menu_spec(seq![item]) == item_entries(item));
    }
    assert forall|item: MenuItemPayload| #[trigger] is_role_item(item, "paste"@) implies menu_spec(
        seq![item],
    ) == seq![MenuEntryView::Native(NativeMenuItem::Paste)] by {
        assert(text_or(item.id, Seq::empty()) == "paste"@);
        assert("paste"@.len() != "undo"@.len());
        assert("paste"@.len() != "redo"@.len());
        assert("paste"@.len() != "cut"@.len());
        assert("paste"@.len() != "copy"@.len());
        assert(role_item("paste"@) == Some(NativeMenuItem::Paste));
        assert(menu_spec(seq![item]) == item_entries(item));
    }
    assert forall|item: MenuItemPayload| #[trigger] is_role_item(item, "close"@) implies menu_spec(
        seq![item],
    ) == seq![MenuEntryView::Native(NativeMenuItem::CloseWindow)] by {
        assert(text_or(item.id, Seq::empty()) == "close"@);
        assert("close"@.len() != "undo"@.len());
        assert("close"@.len() != "redo"@.len());
        assert("close"@.len() != "cut"@.len());
        assert("close"@.len() != "copy"@.len());
        assert("close"@[0] != "paste"@[0]);
        assert(role_item("close"@) == Some(NativeMenuItem::CloseWindow));
        assert(menu_spec(seq![item]) == item_entries(item));
    }
    assert forall|item: MenuItemPayload| #[trigger] is_role_item(item, "quit"@) implies menu_spec(
        seq![item],
    ) == seq![MenuEntryView::Native(NativeMenuItem::Quit)] by {
        assert(text_or(item.id, Seq::empty()) == "quit"@);
        assert("quit"@[0] != "undo"@[0]);
        assert("quit"@[0] != "redo"@[0]);
        assert("quit"@.len() != "cut"@.len());
        assert("quit"@[0] != "copy"@[0]);
        assert("quit"@.len() != "paste"@.len());
        assert("quit"@.len() != "close"@.len());
        assert(role_item("quit"@) == Some(NativeMenuItem::Quit));
        assert(menu_spec(seq![item]) == item_entries(item));
    }
    assert forall|item: MenuItemPayload| #[trigger] is_role_item(item, "minimize"@) implies menu_spec(
        seq![item],
    ) == seq![MenuEntryView::Native(NativeMenuItem::Minimize)] by {
        assert(text_or(item.id, Seq::empty()) == "minimize"@);
        assert("minimize"@.len() != "undo"@.len());
        assert("minimize"@.len() != "redo"@.len());
        assert("minimize"@.len() != "cut"@.len());
        assert("minimize"@.len() != "copy"@.len());
        assert("minimize"@.len() != "paste"@.len());
        assert("minimize"@.len() != "close"@.len());
        assert("minimize"@.len() != "quit"@.len());
        assert(role_item("minimize"@) == Some(NativeMenuItem::Minimize));
        assert(menu_spec(seq![item]) == item_entries(item));
    }
    assert forall|item: MenuItemPayload| #[trigger] is_role_item(item, "hide"@) implies menu_spec(
        seq![item],
    ) == seq![MenuEntryView::Native(NativeMenuItem::Hide)] by {
        assert(text_or(item.id, Seq::empty()) == "hide"@);
        assert("hide"@[0] != "undo"@[0]);
        assert("hide"@[0] != "redo"@[0]);
        assert("hide"@.len() != "cut"@.len());
        assert("hide"@[0] != "copy"@[0]);
        assert("hide"@.len() != "paste"@.len());
        assert("hide"@.len() != "close"@.len());
        assert("hide"@[0] != "quit"@[0]);
        assert("hide"@.len() != "minimize"@.len());
        assert(role_item("hide"@) == Some(NativeMenuItem::Hide));
        assert(menu_spec(seq![item]) == item_entries(item));
    }
    assert forall|item: MenuItemPayload| #[trigger] is_role_item(item, "togglefullscreen"@) implies menu_spec(
        seq![item],
    ) == seq![MenuEntryView::Native(NativeMenuItem::EnterFullScreen)] by {
        assert(text_or(item.id, Seq::empty()) == "togglefullscreen"@);
        assert("togglefullscreen"@.len() != "undo"@.len());
        assert("togglefullscreen"@.len() != "redo"@.len());
        assert("togglefullscreen"@.len() != "cut"@.len());
        assert("togglefullscreen"@.len() != "copy"@.len());
        assert("togglefullscreen"@.len() != "paste"@.len());
        assert("togglefullscreen"@.len() != "close"@.len());
        assert("togglefullscreen"@.len() != "quit"@.len());
        assert("togglefullscreen"@.len() != "minimize"@.len());
        assert("togglefullscreen"@.len() != "hide"@.len());
        assert(role_item("togglefullscreen"@) == Some(NativeMenuItem::EnterFullScreen));
        assert(menu_spec(seq![item]) == item_entries(item));
    }
}

/// A page is opened as a remote one exactly when its URL begins with the
/// four characters `http`; every `https://` address is remote.
pub proof fn law_remote_pages_start_with_http(u: Seq<char>)
    ensures
        is_external_url(u) <==> (u.len() >= 4 && u[0] == 'h' && u[1] == 't' && u[2] == 't' && u[3]
            == 'p'),
        has_prefix(u, "https://"@) ==> is_external_url(u),
{
    reveal_strlit("http");
    reveal_strlit("https://");
    if u.len() >= 4 && u[0] == 'h' && u[1] == 't' && u[2] == 't' && u[3] == 'p' {
        assert(u.subrange(0, 4) =~= "http"@);
    }
    if is_external_url(u) {
        assert(u.subrange(0, 4)[0] == 'h');
        assert(u.subrange(0, 4)[1] == 't');
        assert(u.subrange(0, 4)[2] == 't');
        assert(u.subrange(0, 4)[3] == 'p');
    }
    if has_prefix(u, "https://"@) {
        assert(u.subrange(0, 8)[3] == 'p');
        assert(u.subrange(0, 4) =~= "http"@);
    }
}

/// The port chosen is the one the system offered whenever it offered one,
/// and the fallback only when it offered none.
pub proof fn law_offered_port_wins(offered: Option<u16>, fallback: u16)
    ensures
        offered matches Some(p) ==> port_or_spec(offered, fallback) == p,
        offered is None ==> port_or_spec(offered, fallback) == fallback,
{
}

/// The PHP server is told to listen on `127.0.0.1:` followed by the decimal
/// digits of its port.
pub proof fn law_sidecar_listens_on_its_port(port: u16, app: Seq<char>, cwd: Seq<char>)
    ensures
        sidecar_args(port, app, cwd)[1] == "127.0.0.1:"@ + crate::text::decimal(port as nat),
{
}

} // verus!
