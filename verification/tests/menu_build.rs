use nativephp_tauri::menu::{
    build_menu, item_entry, tauri_accelerator, MenuEntry, MenuItemPayload, MenuSubmenuPayload,
    NativeMenuItem,
};

fn item(item_type: Option<&str>) -> MenuItemPayload {
    MenuItemPayload {
        item_type: item_type.map(|s| s.to_string()),
        id: None,
        label: None,
        event: None,
        sublabel: None,
        tool_tip: None,
        enabled: None,
        visible: None,
        checked: None,
        accelerator: None,
        icon: None,
        role: None,
        submenu: None,
    }
}

fn s(x: &str) -> String {
    x.to_string()
}

#[test]
fn separators_and_roles() {
    let mut undo = item(Some("role"));
    undo.id = Some(s("undo"));
    let mut full = item(Some("role"));
    full.id = Some(s("togglefullscreen"));
    let mut close = item(Some("role"));
    close.id = Some(s("close"));
    let menu = build_menu(&vec![item(Some("separator")), undo, full, close]);
    assert_eq!(
        menu,
        vec![
            MenuEntry::Native(NativeMenuItem::Separator),
            MenuEntry::Native(NativeMenuItem::Undo),
            MenuEntry::Native(NativeMenuItem::EnterFullScreen),
            MenuEntry::Native(NativeMenuItem::CloseWindow),
        ]
    );
}

#[test]
fn unknown_role_without_submenu_is_left_out() {
    let mut r = item(Some("role"));
    r.id = Some(s("about"));
    let no_id_role = item(Some("role"));
    assert_eq!(build_menu(&vec![r, no_id_role, item(None), item(Some("weird"))]), vec![]);
}

#[test]
fn unknown_role_with_submenu_becomes_submenu() {
    let mut r = item(Some("role"));
    r.id = Some(s("appMenu"));
    r.label = Some(s("App"));
    r.submenu = Some(MenuSubmenuPayload { label: None, submenu: vec![item(Some("separator"))] });
    assert_eq!(
        item_entry(&r),
        Some(MenuEntry::Submenu {
            title: s("App"),
            entries: vec![MenuEntry::Native(NativeMenuItem::Separator)],
        })
    );
}

#[test]
fn custom_items() {
    let mut a = item(Some("normal"));
    a.id = Some(s("save"));
    a.label = Some(s("Save"));
    a.accelerator = Some(s("CmdOrCtrl+S"));
    let mut b = item(Some("checkbox"));
    b.event = Some(s("app.toggle"));
    b.enabled = Some(false);
    let mut c = item(Some("radio"));
    c.enabled = Some(true);
    let menu = build_menu(&vec![a, b, c]);
    assert_eq!(
        menu,
        vec![
            MenuEntry::Custom {
                id: s("save"),
                title: s("Save"),
                disabled: false,
                accelerator: Some(s("CmdOrControl+S")),
            },
            MenuEntry::Custom { id: s("app.toggle"), title: s(""), disabled: true, accelerator: None },
            MenuEntry::Custom { id: s("unknown"), title: s(""), disabled: false, accelerator: None },
        ]
    );
}

#[test]
fn nested_submenus_take_their_titles() {
    let mut inner = item(Some("normal"));
    inner.label = Some(s("Inner"));
    inner.submenu = Some(MenuSubmenuPayload { label: Some(s("Deep")), submenu: vec![] });
    let mut outer = item(Some("submenu"));
    outer.label = Some(s("File"));
    outer.submenu = Some(MenuSubmenuPayload { label: None, submenu: vec![inner] });
    let menu = build_menu(&vec![outer]);
    assert_eq!(
        menu,
        vec![MenuEntry::Submenu {
            title: s("File"),
            entries: vec![MenuEntry::Submenu { title: s("Deep"), entries: vec![] }],
        }]
    );
}

#[test]
fn accelerator_spelling() {
    assert_eq!(tauri_accelerator("CmdOrCtrl+Shift+CmdOrCtrl"), "CmdOrControl+Shift+CmdOrControl");
    assert_eq!(tauri_accelerator("Alt+F4"), "Alt+F4");
}

#[test]
fn menu_never_longer_than_items() {
    let items = vec![item(None), item(Some("separator")), item(Some("x"))];
    assert!(build_menu(&items).len() <= items.len());
}
