//! Translation of a NativePHP menu description into the native menu that the
//! window shell shows: separators, the predefined role items, submenus and
//! custom items.
use vstd::prelude::*;
use vstd::string::StringExecFns;

use crate::text::{replace_all, replaced, same_text};

verus! {

/// A submenu as NativePHP sends it: an optional label and its items.
#[derive(Debug, PartialEq, Eq)]
pub struct MenuSubmenuPayload {
    pub label: Option<String>,
    pub submenu: Vec<MenuItemPayload>,
}

/// One menu item as NativePHP sends it. Only `item_type`, `id`, `label`,
/// `event`, `enabled`, `accelerator` and `submenu` take part in the
/// translation; the other fields are carried as received.
#[derive(Debug, PartialEq, Eq)]
pub struct MenuItemPayload {
    pub item_type: Option<String>,
    pub id: Option<String>,
    pub label: Option<String>,
    pub event: Option<String>,
    pub sublabel: Option<String>,
    pub tool_tip: Option<String>,
    pub enabled: Option<bool>,
    pub visible: Option<bool>,
    pub checked: Option<bool>,
    pub accelerator: Option<String>,
    pub icon: Option<String>,
    pub role: Option<String>,
    pub submenu: Option<MenuSubmenuPayload>,
}

/// The predefined items that the native menu provides itself.
#[derive(Clone, Copy, Debug, PartialEq, Eq, Structural)]
pub enum NativeMenuItem {
    Separator,
    Undo,
    Redo,
    Cut,
    Copy,
    Paste,
    CloseWindow,
    Quit,
    Minimize,
    Hide,
    EnterFullScreen,
}

/// One entry of the native menu.
#[derive(Debug, PartialEq, Eq)]
pub enum MenuEntry {
    Native(NativeMenuItem),
    Submenu { title: String, entries: Vec<MenuEntry> },
    Custom { id: String, title: String, disabled: bool, accelerator: Option<String> },
}

/// The mathematical value of a menu entry.
pub enum MenuEntryView {
    Native(NativeMenuItem),
    Submenu { title: Seq<char>, entries: Seq<MenuEntryView> },
    Custom { id: Seq<char>, title: Seq<char>, disabled: bool, accelerator: Option<Seq<char>> },
}

pub open spec fn opt_string_view(o: Option<String>) -> Option<Seq<char>> {
    match o {
        Some(s) => Some(s@),
        None => None,
    }
}

/// The value of an entry.
pub open spec fn entry_view(e: MenuEntry) -> MenuEntryView
    decreases e,
{
    match e {
        MenuEntry::Native(n) => MenuEntryView::Native(n),
        MenuEntry::Submenu { title, entries } => MenuEntryView::Submenu {
            title: title@,
            entries: entries_view(entries@),
        },
        MenuEntry::Custom { id, title, disabled, accelerator } => MenuEntryView::Custom {
            id: id@,
            title: title@,
            disabled,
            accelerator: opt_string_view(accelerator),
        },
    }
}

/// The values of a sequence of entries.
pub open spec fn entries_view(s: Seq<MenuEntry>) -> Seq<MenuEntryView>
    decreases s,
{
    if s.len() == 0 {
        Seq::empty()
    } else {
        entries_view(s.drop_last()).push(entry_view(s.last()))
    }
}

/// `o`'s text, or `d` where there is none.
pub open spec fn text_or(o: Option<String>, d: Seq<char>) -> Seq<char> {
    match o {
        Some(s) => s@,
        None => d,
    }
}

/// The predefined item that a role names, if it names one.
pub open spec fn role_item(role: Seq<char>) -> Option<NativeMenuItem> {
    if role == "undo"@ {
        Some(NativeMenuItem::Undo)
    } else if role == "redo"@ {
        Some(NativeMenuItem::Redo)
    } else if role == "cut"@ {
        Some(NativeMenuItem::Cut)
    } else if role == "copy"@ {
        Some(NativeMenuItem::Copy)
    } else if role == "paste"@ {
        Some(NativeMenuItem::Paste)
    } else if role == "close"@ {
        Some(NativeMenuItem::CloseWindow)
    } else if role == "quit"@ {
        Some(NativeMenuItem::Quit)
    } else if role == "minimize"@ {
        Some(NativeMenuItem::Minimize)
    } else if role == "hide"@ {
        Some(NativeMenuItem::Hide)
    } else if role == "togglefullscreen"@ {
        Some(NativeMenuItem::EnterFullScreen)
    } else {
        None
    }
}

/// The kinds of item that become a plain custom entry when they have no submenu.
pub open spec fn is_clickable_type(t: Seq<char>) -> bool {
    t == "normal"@ || t == "checkbox"@ || t == "radio"@
}

/// The accelerator as the native menu spells it: `CmdOrCtrl` becomes `CmdOrControl`.
pub open spec fn native_accelerator(a: Seq<char>) -> Seq<char> {
    replaced(a, "CmdOrCtrl"@, "CmdOrControl"@)
}

/// The custom entry of a clickable item without submenu: its id is the
/// item's id, else its event, else `unknown`; its title is its label or empty.
pub open spec fn custom_entry(item: MenuItemPayload) -> MenuEntryView {
    MenuEntryView::Custom {
        id: text_or(item.id, text_or(item.event, "unknown"@)),
        title: text_or(item.label, Seq::empty()),
        disabled: item.enabled == Some(false),
        accelerator: match item.accelerator {
            Some(a) => Some(native_accelerator(a@)),
            None => None,
        },
    }
}

/// The entries that one item contributes: none or one.
pub open spec fn item_entries(item: MenuItemPayload) -> Seq<MenuEntryView>
    decreases item, 0nat,
{
    match item.item_type {
        None => Seq::empty(),
        Some(t) => {
            if t@ == "separator"@ {
                seq![MenuEntryView::Native(NativeMenuItem::Separator)]
            } else if t@ == "role"@ && role_item(text_or(item.id, Seq::empty())) is Some {
                seq![MenuEntryView::Native(role_item(text_or(item.id, Seq::empty()))->0)]
            } else {
                match item.submenu {
                    Some(sub) => seq![
                        MenuEntryView::Submenu {
                            title: text_or(sub.label, text_or(item.label, Seq::empty())),
                            entries: menu_spec(sub.submenu@),
                        },
                    ],
                    None => if is_clickable_type(t@) {
                        seq![custom_entry(item)]
                    } else {
                        Seq::empty()
                    },
                }
            }
        },
    }
}

/// The native menu built from a list of items, in order.
pub open spec fn menu_spec(items: Seq<MenuItemPayload>) -> Seq<MenuEntryView>
    decreases items, 1nat,
{
    if items.len() == 0 {
        Seq::empty()
    } else {
        menu_spec(items.drop_last()) + item_entries(items.last())
    }
}

fn role_item_exec(role: &str) -> (r: Option<NativeMenuItem>)
    ensures
        r == role_item(role@),
{
    if same_text(role, "undo") {
        Some(NativeMenuItem::Undo)
    } else if same_text(role, "redo") {
        Some(NativeMenuItem::Redo)
    } else if same_text(role, "cut") {
        Some(NativeMenuItem::Cut)
    } else if same_text(role, "copy") {
        Some(NativeMenuItem::Copy)
    } else if same_text(role, "paste") {
        Some(NativeMenuItem::Paste)
    } else if same_text(role, "close") {
        Some(NativeMenuItem::CloseWindow)
    } else if same_text(role, "quit") {
        Some(NativeMenuItem::Quit)
    } else if same_text(role, "minimize") {
        Some(NativeMenuItem::Minimize)
    } else if same_text(role, "hide") {
        Some(NativeMenuItem::Hide)
    } else if same_text(role, "togglefullscreen") {
        Some(NativeMenuItem::EnterFullScreen)
    } else {
        None
    }
}

fn text_or_exec(o: &Option<String>, d: &str) -> (s: String)
    ensures
        s@ == text_or(*o, d@),
{
    match o {
        Some(s) => s.clone(),
        None => d.to_owned(),
    }
}

/// The native spelling of an accelerator (`CmdOrCtrl` becomes `CmdOrControl`).
pub fn tauri_accelerator(accelerator: &str) -> (out: String)
    ensures
        out@ == native_accelerator(accelerator@),
{
    proof {
        reveal_strlit("CmdOrCtrl");
    }
    replace_all(accelerator, "CmdOrCtrl", "CmdOrControl")
}

fn custom_entry_exec(item: &MenuItemPayload) -> (e: MenuEntry)
    ensures
        entry_view(e) == custom_entry(*item),
{
    let id = match &item.id {
        Some(id) => id.clone(),
        None => text_or_exec(&item.event, "unknown"),
    };
    let title = text_or_exec(&item.label, "");
    let disabled = match item.enabled {
        Some(enabled) => !enabled,
        None => false,
    };
    let accelerator = match &item.accelerator {
        Some(a) => Some(tauri_accelerator(a.as_str())),
        None => None,
    };
    proof {
        reveal_strlit("");
    }
    let e = MenuEntry::Custom { id, title, disabled, accelerator };
    assert(title@ == text_or(item.label, Seq::empty()));
    assert(id@ == text_or(item.id, text_or(item.event, "unknown"@)));
    assert(disabled == (item.enabled == Some(false)));
    assert(opt_string_view(accelerator) == match item.accelerator {
            Some(a) => Some(native_accelerator(a@)),
            None => None,
        });
    assert(entry_view(e) == MenuEntryView::Custom {
        id: id@,
        title: title@,
        disabled,
        accelerator: opt_string_view(accelerator),
    });
    e
}

/// The entry that one item contributes to the native menu, if any.
pub fn item_entry(item: &MenuItemPayload) -> (e: Option<MenuEntry>)
    ensures
        item_entries(*item) == match e {
            Some(e) => seq![entry_view(e)],
            None => Seq::<MenuEntryView>::empty(),
        },
    decreases *item, 0nat,
{
    proof {
        reveal_strlit("");
    }
    match &item.item_type {
        None => None,
        Some(t) => {
            if same_text(t.as_str(), "separator") {
                return Some(MenuEntry::Native(NativeMenuItem::Separator));
            }
            if same_text(t.as_str(), "role") {
                let role = text_or_exec(&item.id, "");
                let native = role_item_exec(role.as_str());
                assert(role@ == text_or(item.id, Seq::empty()));
                if let Some(n) = native {
                    let e = MenuEntry::Native(n);
                    assert(entry_view(e) == MenuEntryView::Native(n));
                    assert(item_entries(*item) =~= seq![MenuEntryView::Native(n)]);
                    return Some(e);
                }
            }
            match &item.submenu {
                Some(sub) => {
                    let title = match &sub.label {
                        Some(l) => l.clone(),
                        None => text_or_exec(&item.label, ""),
                    };
                    let entries = build_menu(&sub.submenu);
                    let e = MenuEntry::Submenu { title, entries };
                    assert(title@ == text_or(sub.label, text_or(item.label, Seq::empty())));
                    assert(entry_view(e) == MenuEntryView::Submenu {
                        title: title@,
                        entries: menu_spec(sub.submenu@),
                    });
                    Some(e)
                },
                None => {
                    if same_text(t.as_str(), "normal") || same_text(t.as_str(), "checkbox")
                        || same_text(t.as_str(), "radio") {
                        Some(custom_entry_exec(item))
                    } else {
                        None
                    }
                },
            }
        },
    }
}

/// Builds the native menu from NativePHP's menu items, in order: a
/// `separator` becomes a separator; a `role` item whose id names a predefined
/// item becomes that item; an item with a submenu becomes a submenu titled by
/// the submenu's label, else the item's label; a `normal`, `checkbox` or
/// `radio` item without submenu becomes a custom item; anything else is left out.
pub fn build_menu(items: &Vec<MenuItemPayload>) -> (menu: Vec<MenuEntry>)
    ensures
        entries_view(menu@) == menu_spec(items@),
    decreases items@, 1nat,
{
    let mut out: Vec<MenuEntry> = Vec::new();
    let mut i: usize = 0;
    while i < items.len()
        invariant
            i <= items@.len(),
            entries_view(out@) == menu_spec(items@.take(i as int)),
        decreases items@.len() - i,
    {
        proof {
            assert(items@.take(i + 1).drop_last() =~= items@.take(i as int));
        }
        let ghost before = out@;
        let e = item_entry(&items[i]);
        match e {
            Some(e) => {
                out.push(e);
                proof {
                    assert(out@.drop_last() =~= before);
                }
            },
            None => {},
        }
        proof {
            assert(menu_spec(items@.take(i + 1)) == menu_spec(items@.take(i as int)) + item_entries(items@[i as int]));
        }
        i = i + 1;
    }
    assert(items@.take(items@.len() as int) =~= items@);
    out
}

} // verus!
