use webshell::menu::{
    make_root_menu, Accelerator, MenuBar, MenuEntry, MenuId, Modifier, NativeItem, Submenu,
    CLOSE_WINDOW_TITLE, FILE_CLOSE_ID, WINDOW_CLOSE_ID,
};
use webshell::platform::{Capabilities, HideStrategy, Platform};

fn close(id: u32) -> MenuEntry {
    MenuEntry::Custom {
        id: MenuId(id),
        title: "Close Window".to_string(),
        accelerator: Accelerator { modifier: Modifier::Meta, key: 'W' },
    }
}

fn titles(bar: &MenuBar) -> Vec<String> {
    bar.submenus().iter().map(|t| t.title.clone()).collect()
}

fn entries(bar: &MenuBar, i: usize) -> &Vec<MenuEntry> {
    bar.submenus()[i].submenu.entries()
}

#[test]
fn macos_menu_layout() {
    let (bar, ids) = make_root_menu("Discord", Platform::MacOs);
    assert_eq!(titles(&bar), vec!["Discord", "File", "Edit", "View", "Window"]);
    assert!(bar.submenus().iter().all(|t| t.enabled));
    assert_eq!(
        entries(&bar, 0),
        &vec![
            MenuEntry::About("Discord".to_string()),
            MenuEntry::Native(NativeItem::Separator),
            MenuEntry::Native(NativeItem::Services),
            MenuEntry::Native(NativeItem::Separator),
            MenuEntry::Native(NativeItem::Hide),
            MenuEntry::Native(NativeItem::HideOthers),
            MenuEntry::Native(NativeItem::ShowAll),
            MenuEntry::Native(NativeItem::Separator),
            MenuEntry::Native(NativeItem::Quit),
        ]
    );
    assert_eq!(entries(&bar, 1), &vec![close(1)]);
    assert_eq!(
        entries(&bar, 2),
        &vec![
            MenuEntry::Native(NativeItem::Undo),
            MenuEntry::Native(NativeItem::Redo),
            MenuEntry::Native(NativeItem::Separator),
            MenuEntry::Native(NativeItem::Cut),
            MenuEntry::Native(NativeItem::Copy),
            MenuEntry::Native(NativeItem::Paste),
            MenuEntry::Native(NativeItem::SelectAll),
        ]
    );
    assert_eq!(entries(&bar, 3), &vec![MenuEntry::Native(NativeItem::EnterFullScreen)]);
    assert_eq!(
        entries(&bar, 4),
        &vec![
            MenuEntry::Native(NativeItem::Minimize),
            MenuEntry::Native(NativeItem::Zoom),
            MenuEntry::Native(NativeItem::Separator),
            close(2),
        ]
    );
    assert_eq!(ids, vec![MenuId(1), MenuId(2)]);
}

#[test]
fn windows_menu_layout() {
    let (bar, ids) = make_root_menu("Discord", Platform::Windows);
    assert_eq!(titles(&bar), vec!["File", "Edit", "Window"]);
    assert_eq!(entries(&bar, 0), &vec![close(1), MenuEntry::Native(NativeItem::Quit)]);
    assert_eq!(
        entries(&bar, 1),
        &vec![
            MenuEntry::Native(NativeItem::Cut),
            MenuEntry::Native(NativeItem::Copy),
            MenuEntry::Native(NativeItem::Paste),
        ]
    );
    assert_eq!(entries(&bar, 2), &vec![MenuEntry::Native(NativeItem::Minimize), close(2)]);
    assert_eq!(ids, vec![MenuId(1), MenuId(2)]);
}

#[test]
fn linux_menu_layout() {
    let (bar, ids) = make_root_menu("Discord", Platform::Linux);
    assert_eq!(titles(&bar), vec!["File", "Window"]);
    assert_eq!(entries(&bar, 0), &vec![close(1), MenuEntry::Native(NativeItem::Quit)]);
    assert_eq!(entries(&bar, 1), &vec![MenuEntry::Native(NativeItem::Minimize), close(2)]);
    assert_eq!(ids, vec![MenuId(1), MenuId(2)]);
}

#[test]
fn about_entry_and_app_menu_carry_the_name() {
    let (bar, _) = make_root_menu("Chat", Platform::MacOs);
    assert_eq!(bar.submenus()[0].title, "Chat");
    assert_eq!(entries(&bar, 0)[0], MenuEntry::About("Chat".to_string()));
    let (bar, _) = make_root_menu("", Platform::MacOs);
    assert_eq!(bar.submenus()[0].title, "");
    assert_eq!(entries(&bar, 0)[0], MenuEntry::About(String::new()));
}

#[test]
fn close_ids_are_distinct_on_every_platform() {
    for p in [Platform::MacOs, Platform::Linux, Platform::Windows] {
        let (bar, ids) = make_root_menu("Discord", p);
        assert_eq!(ids.len(), 2);
        assert_ne!(ids[0], ids[1]);
        assert!(ids.iter().all(|id| id.0 != 0));
        let mut custom = Vec::new();
        for t in bar.submenus() {
            for e in t.submenu.entries() {
                if let MenuEntry::Custom { id, title, accelerator } = e {
                    assert_eq!(title, CLOSE_WINDOW_TITLE);
                    assert_eq!(*accelerator, Accelerator { modifier: Modifier::Meta, key: 'W' });
                    custom.push(*id);
                }
            }
        }
        assert_eq!(custom, ids);
    }
    assert_eq!(FILE_CLOSE_ID, 1);
    assert_eq!(WINDOW_CLOSE_ID, 2);
}

#[test]
fn submenu_builders_append_in_order() {
    let mut s = Submenu::new();
    assert!(s.entries().is_empty());
    s.add_native_item(NativeItem::Cut);
    s.add_about("App");
    let acc = Accelerator { modifier: Modifier::Ctrl, key: 'Q' };
    let id = s.add_item(MenuId(7), "Quit now", acc);
    assert_eq!(id, MenuId(7));
    assert_eq!(
        s.entries(),
        &vec![
            MenuEntry::Native(NativeItem::Cut),
            MenuEntry::About("App".to_string()),
            MenuEntry::Custom { id: MenuId(7), title: "Quit now".to_string(), accelerator: acc },
        ]
    );
    let mut bar = MenuBar::new();
    assert!(bar.submenus().is_empty());
    bar.add_submenu("Tools", false, s);
    assert_eq!(bar.submenus().len(), 1);
    assert_eq!(bar.submenus()[0].title, "Tools");
    assert!(!bar.submenus()[0].enabled);
    assert_eq!(bar.submenus()[0].submenu.entries().len(), 3);
}

#[test]
fn platform_capability_table() {
    assert_eq!(Platform::MacOs.capabilities(), Capabilities { app_menu: true, edit_menu: true });
    assert_eq!(Platform::Windows.capabilities(), Capabilities { app_menu: false, edit_menu: true });
    assert_eq!(Platform::Linux.capabilities(), Capabilities { app_menu: false, edit_menu: false });
    assert_eq!(Platform::MacOs.hide_strategy(), HideStrategy::HideApplication);
    assert_eq!(Platform::Windows.hide_strategy(), HideStrategy::MinimizeWindow);
    assert_eq!(Platform::Linux.hide_strategy(), HideStrategy::MinimizeWindow);
}
