use vstd::prelude::*;
use crate::platform::{spec_capabilities, Capabilities, Platform};

verus! {

/// Identifier of an entry added with [`Submenu::add_item`].
#[derive(Clone, Copy, Debug, PartialEq, Eq, Structural)]
pub struct MenuId(pub u32);

/// Modifier half of a keyboard shortcut.
#[derive(Clone, Copy, Debug, PartialEq, Eq, Structural)]
pub enum Modifier {
    Alt,
    Ctrl,
    Shift,
    /// The platform's primary modifier (Command, or Control where there is none).
    Meta,
}

/// A keyboard shortcut bound to a menu entry.
#[derive(Clone, Copy, Debug, PartialEq, Eq, Structural)]
pub struct Accelerator {
    pub modifier: Modifier,
    pub key: char,
}

/// Entries whose behaviour the platform supplies.
#[derive(Clone, Copy, Debug, PartialEq, Eq, Structural)]
pub enum NativeItem {
    Separator,
    Services,
    Hide,
    HideOthers,
    ShowAll,
    Quit,
    Undo,
    Redo,
    Cut,
    Copy,
    Paste,
    SelectAll,
    EnterFullScreen,
    Minimize,
    Zoom,
}

/// One entry of a submenu.
#[derive(Debug, PartialEq, Eq)]
pub enum MenuEntry {
    /// The platform's About entry for the named application.
    About(String),
    Native(NativeItem),
    /// An entry whose activation the shell handles itself.
    Custom { id: MenuId, title: String, accelerator: Accelerator },
}

/// What a [`MenuEntry`] is, with its text as a sequence of characters.
pub ghost enum EntryView {
    About(Seq<char>),
    Native(NativeItem),
    Custom { id: MenuId, title: Seq<char>, accelerator: Accelerator },
}

impl View for MenuEntry {
    type V = EntryView;

    open spec fn view(&self) -> EntryView {
        match self {
            MenuEntry::About(name) => EntryView::About(name@),
            MenuEntry::Native(item) => EntryView::Native(*item),
            MenuEntry::Custom { id, title, accelerator } => EntryView::Custom {
                id: *id,
                title: title@,
                accelerator: *accelerator,
            },
        }
    }
}

pub open spec fn view_entries(entries: Seq<MenuEntry>) -> Seq<EntryView> {
    entries.map_values(|e: MenuEntry| e@)
}

/// An ordered list of entries under one top-level title.
#[derive(Debug)]
pub struct Submenu {
    entries: Vec<MenuEntry>,
}

impl View for Submenu {
    type V = Seq<EntryView>;

    closed spec fn view(&self) -> Seq<EntryView> {
        view_entries(self.entries@)
    }
}

proof fn lemma_view_push(s: Seq<MenuEntry>, e: MenuEntry)
    ensures
        view_entries(s.push(e)) == view_entries(s).push(e@),
{
    assert(view_entries(s.push(e)) =~= view_entries(s).push(e@));
}

impl Submenu {
    pub fn new() -> (r: Submenu)
        ensures
            r@ == Seq::<EntryView>::empty(),
    {
        let r = Submenu { entries: Vec::new() };
        assert(r@ =~= Seq::<EntryView>::empty());
        r
    }

    /// The entries, in order.
    pub fn entries(&self) -> (r: &Vec<MenuEntry>)
        ensures
            view_entries(r@) == self@,
    {
        &self.entries
    }

    /// Appends an About entry for the named application.
    pub fn add_about(&mut self, app_name: &str)
        ensures
            final(self)@ == old(self)@.push(EntryView::About(app_name@)),
    {
        let e = MenuEntry::About(app_name.to_owned());
        proof {
            lemma_view_push(self.entries@, e);
        }
        self.entries.push(e);
    }

    /// Appends an entry that the platform implements.
    pub fn add_native_item(&mut self, item: NativeItem)
        ensures
            final(self)@ == old(self)@.push(EntryView::Native(item)),
    {
        let e = MenuEntry::Native(item);
        proof {
            lemma_view_push(self.entries@, e);
        }
        self.entries.push(e);
    }

    /// Appends an entry that the shell handles itself, and returns its identifier.
    pub fn add_item(&mut self, id: MenuId, title: &str, accelerator: Accelerator) -> (r: MenuId)
        ensures
            r == id,
            final(self)@ == old(self)@.push(
                EntryView::Custom { id, title: title@, accelerator },
            ),
    {
        let e = MenuEntry::Custom { id, title: title.to_owned(), accelerator };
        proof {
            lemma_view_push(self.entries@, e);
        }
        self.entries.push(e);
        id
    }
}

/// What a top-level menu is: its title, whether it is enabled, and its entries.
pub ghost struct SubmenuView {
    pub title: Seq<char>,
    pub enabled: bool,
    pub entries: Seq<EntryView>,
}

/// A submenu placed in the menu bar under a title.
#[derive(Debug)]
pub struct TopLevel {
    pub title: String,
    pub enabled: bool,
    pub submenu: Submenu,
}

impl View for TopLevel {
    type V = SubmenuView;

    open spec fn view(&self) -> SubmenuView {
        SubmenuView { title: self.title@, enabled: self.enabled, entries: self.submenu@ }
    }
}

pub open spec fn view_menus(menus: Seq<TopLevel>) -> Seq<SubmenuView> {
    menus.map_values(|t: TopLevel| t@)
}

/// The native menu bar of the shell's window, as an ordered list of submenus.
#[derive(Debug)]
pub struct MenuBar {
    menus: Vec<TopLevel>,
}

impl View for MenuBar {
    type V = Seq<SubmenuView>;

    closed spec fn view(&self) -> Seq<SubmenuView> {
        view_menus(self.menus@)
    }
}

impl MenuBar {
    pub fn new() -> (r: MenuBar)
        ensures
            r@ == Seq::<SubmenuView>::empty(),
    {
        let r = MenuBar { menus: Vec::new() };
        assert(r@ =~= Seq::<SubmenuView>::empty());
        r
    }

    /// The submenus, in order.
    pub fn submenus(&self) -> (r: &Vec<TopLevel>)
        ensures
            view_menus(r@) == self@,
    {
        &self.menus
    }

    /// Appends a submenu under the given title.
    pub fn add_submenu(&mut self, title: &str, enabled: bool, submenu: Submenu)
        ensures
            final(self)@ == old(self)@.push(
                SubmenuView { title: title@, enabled, entries: submenu@ },
            ),
    {
        let t = TopLevel { title: title.to_owned(), enabled, submenu };
        assert(view_menus(self.menus@.push(t)) =~= view_menus(self.menus@).push(t@));
        self.menus.push(t);
    }
}

pub const FILE_TITLE: &'static str = "File";

pub const EDIT_TITLE: &'static str = "Edit";

pub const VIEW_TITLE: &'static str = "View";

pub const WINDOW_TITLE: &'static str = "Window";

pub const CLOSE_WINDOW_TITLE: &'static str = "Close Window";

/// Identifier of the "Close Window" entry of the File menu.
pub const FILE_CLOSE_ID: u32 = 1;

/// Identifier of the "Close Window" entry of the Window menu.
pub const WINDOW_CLOSE_ID: u32 = 2;

/// Primary modifier and W: the shortcut of both "Close Window" entries.
pub open spec fn spec_close_accelerator() -> Accelerator {
    Accelerator { modifier: Modifier::Meta, key: 'W' }
}

pub open spec fn native(item: NativeItem) -> EntryView {
    EntryView::Native(item)
}

pub open spec fn close_entry(id: MenuId) -> EntryView {
    EntryView::Custom { id, title: CLOSE_WINDOW_TITLE@, accelerator: spec_close_accelerator() }
}

pub open spec fn app_entries(app_name: Seq<char>) -> Seq<EntryView> {
    seq![
        EntryView::About(app_name),
        native(NativeItem::Separator),
        native(NativeItem::Services),
        native(NativeItem::Separator),
        native(NativeItem::Hide),
        native(NativeItem::HideOthers),
        native(NativeItem::ShowAll),
        native(NativeItem::Separator),
        native(NativeItem::Quit),
    ]
}

pub open spec fn file_entries(caps: Capabilities) -> Seq<EntryView> {
    if caps.app_menu {
        seq![close_entry(MenuId(FILE_CLOSE_ID))]
    } else {
        seq![close_entry(MenuId(FILE_CLOSE_ID)), native(NativeItem::Quit)]
    }
}

pub open spec fn edit_entries(caps: Capabilities) -> Seq<EntryView> {
    let clipboard = seq![
        native(NativeItem::Cut),
        native(NativeItem::Copy),
        native(NativeItem::Paste),
    ];
    if caps.app_menu {
        seq![native(NativeItem::Undo), native(NativeItem::Redo), native(NativeItem::Separator)]
            + clipboard + seq![native(NativeItem::SelectAll)]
    } else {
        clipboard
    }
}

pub open spec fn window_entries(caps: Capabilities) -> Seq<EntryView> {
    if caps.app_menu {
        seq![
            native(NativeItem::Minimize),
            native(NativeItem::Zoom),
            native(NativeItem::Separator),
            close_entry(MenuId(WINDOW_CLOSE_ID)),
        ]
    } else {
        seq![native(NativeItem::Minimize), close_entry(MenuId(WINDOW_CLOSE_ID))]
    }
}

pub open spec fn top(title: Seq<char>, entries: Seq<EntryView>) -> SubmenuView {
    SubmenuView { title, enabled: true, entries }
}

/// The menu bar that the capabilities call for, submenu by submenu.
pub open spec fn spec_root_menu(app_name: Seq<char>, caps: Capabilities) -> Seq<SubmenuView> {
    let app = if caps.app_menu {
        seq![top(app_name, app_entries(app_name))]
    } else {
        Seq::empty()
    };
    let edit = if caps.edit_menu {
        seq![top(EDIT_TITLE@, edit_entries(caps))]
    } else {
        Seq::empty()
    };
    let view = if caps.app_menu {
        seq![top(VIEW_TITLE@, seq![native(NativeItem::EnterFullScreen)])]
    } else {
        Seq::empty()
    };
    app + seq![top(FILE_TITLE@, file_entries(caps))] + edit + view + seq![
        top(WINDOW_TITLE@, window_entries(caps)),
    ]
}

/// The identifiers of the two "Close Window" entries, File's first.
pub open spec fn spec_close_ids() -> Seq<MenuId> {
    seq![MenuId(FILE_CLOSE_ID), MenuId(WINDOW_CLOSE_ID)]
}

/// Builds the menu bar for the platform, and returns it with the identifiers
/// of its two "Close Window" entries.
pub fn make_root_menu(app_name: &str, platform: Platform) -> (r: (MenuBar, Vec<MenuId>))
    ensures
        r.0@ == spec_root_menu(app_name@, spec_capabilities(platform)),
        r.1@ == spec_close_ids(),
{
    let caps = platform.capabilities();
    let close_accelerator = Accelerator { modifier: Modifier::Meta, key: 'W' };
    let mut root_menu = MenuBar::new();
    let ghost app: Seq<SubmenuView> = Seq::empty();
    if caps.app_menu {
        let mut app_submenu = Submenu::new();
        app_submenu.add_about(app_name);
        app_submenu.add_native_item(NativeItem::Separator);
        app_submenu.add_native_item(NativeItem::Services);
        app_submenu.add_native_item(NativeItem::Separator);
        app_submenu.add_native_item(NativeItem::Hide);
        app_submenu.add_native_item(NativeItem::HideOthers);
        app_submenu.add_native_item(NativeItem::ShowAll);
        app_submenu.add_native_item(NativeItem::Separator);
        app_submenu.add_native_item(NativeItem::Quit);
        assert(app_submenu@ =~= app_entries(app_name@));
        root_menu.add_submenu(app_name, true, app_submenu);
        proof {
            app = seq![top(app_name@, app_entries(app_name@))];
        }
    }
    assert(root_menu@ =~= app);

    let mut file_menu = Submenu::new();
    let close1 = file_menu.add_item(MenuId(FILE_CLOSE_ID), CLOSE_WINDOW_TITLE, close_accelerator);
    if !caps.app_menu {
        file_menu.add_native_item(NativeItem::Quit);
    }
    assert(file_menu@ =~= file_entries(caps));
    root_menu.add_submenu(FILE_TITLE, true, file_menu);
    let ghost file = seq![top(FILE_TITLE@, file_entries(caps))];
    assert(root_menu@ =~= app + file);

    let ghost edit: Seq<SubmenuView> = Seq::empty();
    if caps.edit_menu {
        let mut edit_menu = Submenu::new();
        if caps.app_menu {
            edit_menu.add_native_item(NativeItem::Undo);
            edit_menu.add_native_item(NativeItem::Redo);
            edit_menu.add_native_item(NativeItem::Separator);
        }
        edit_menu.add_native_item(NativeItem::Cut);
        edit_menu.add_native_item(NativeItem::Copy);
        edit_menu.add_native_item(NativeItem::Paste);
        if caps.app_menu {
            edit_menu.add_native_item(NativeItem::SelectAll);
        }
        assert(edit_menu@ =~= edit_entries(caps));
        root_menu.add_submenu(EDIT_TITLE, true, edit_menu);
        proof {
            edit = seq![top(EDIT_TITLE@, edit_entries(caps))];
        }
    }
    assert(root_menu@ =~= app + file + edit);

    let ghost view: Seq<SubmenuView> = Seq::empty();
    if caps.app_menu {
        let mut view_menu = Submenu::new();
        view_menu.add_native_item(NativeItem::EnterFullScreen);
        assert(view_menu@ =~= seq![native(NativeItem::EnterFullScreen)]);
        root_menu.add_submenu(VIEW_TITLE, true, view_menu);
        proof {
            view = seq![top(VIEW_TITLE@, seq![native(NativeItem::EnterFullScreen)])];
        }
    }
    assert(root_menu@ =~= app + file + edit + view);

    let mut window_menu = Submenu::new();
    window_menu.add_native_item(NativeItem::Minimize);
    if caps.app_menu {
        window_menu.add_native_item(NativeItem::Zoom);
        window_menu.add_native_item(NativeItem::Separator);
    }
    let close2 = window_menu.add_item(MenuId(WINDOW_CLOSE_ID), CLOSE_WINDOW_TITLE, close_accelerator);
    assert(window_menu@ =~= window_entries(caps));
    root_menu.add_submenu(WINDOW_TITLE, true, window_menu);
    assert(root_menu@ =~= spec_root_menu(app_name@, caps));

    let ids = vec![close1, close2];
    assert(ids@ =~= spec_close_ids());
    (root_menu, ids)
}

/// The two "Close Window" identifiers are distinct and non-zero, and each labels
/// a "Close Window" entry of the menu bar: the first the File menu's, the second
/// the Window menu's, on every platform. No other entry of the bar is handled
/// by the shell.
pub proof fn lemma_close_ids_distinct(app_name: Seq<char>, caps: Capabilities)
    ensures
        spec_close_ids().len() == 2,
        spec_close_ids()[0] != spec_close_ids()[1],
        spec_close_ids()[0].0 != 0 && spec_close_ids()[1].0 != 0,
        ({
            let m = spec_root_menu(app_name, caps);
            let f = if caps.app_menu { 1int } else { 0int };
            &&& m[f].title == FILE_TITLE@
            &&& m[f].entries[0] == close_entry(spec_close_ids()[0])
            &&& m.last().title == WINDOW_TITLE@
            &&& m.last().entries.last() == close_entry(spec_close_ids()[1])
        }),
        forall|i: int, j: int|
            0 <= i < spec_root_menu(app_name, caps).len() && 0 <= j
                < spec_root_menu(app_name, caps)[i].entries.len()
                && (#[trigger] spec_root_menu(app_name, caps)[i].entries[j]) is Custom
                ==> spec_close_ids().contains(spec_root_menu(app_name, caps)[i].entries[j]->id),
{
    let m = spec_root_menu(app_name, caps);
    assert(spec_close_ids()[0] == MenuId(FILE_CLOSE_ID));
    assert(spec_close_ids()[1] == MenuId(WINDOW_CLOSE_ID));
    assert forall|i: int, j: int|
        0 <= i < m.len() && 0 <= j < m[i].entries.len() && (#[trigger] m[i].entries[j]) is Custom
        implies spec_close_ids().contains(m[i].entries[j]->id) by {
        let e = m[i].entries[j];
        assert(e == close_entry(MenuId(FILE_CLOSE_ID)) || e == close_entry(MenuId(WINDOW_CLOSE_ID)));
        if e->id == MenuId(FILE_CLOSE_ID) {
            assert(spec_close_ids()[0] == e->id);
        } else {
            assert(spec_close_ids()[1] == e->id);
        }
    }
}

/// The submenus of the bar, by title: an application menu named after the
/// application and a View menu only where the platform has the app-menu
/// convention, an Edit menu only where it has clipboard menus, and File and
/// Window always. The About/Services/Hide block and the full-screen entry occur
/// exactly where the app-menu convention holds, and the first submenu, and no
/// other, offers Quit.
pub proof fn lemma_menu_structure(app_name: Seq<char>, caps: Capabilities)
    ensures
        spec_root_menu(app_name, caps).map_values(|m: SubmenuView| m.title) == (if caps.app_menu {
            seq![app_name]
        } else {
            Seq::empty()
        }) + seq![FILE_TITLE@] + (if caps.edit_menu {
            seq![EDIT_TITLE@]
        } else {
            Seq::empty()
        }) + (if caps.app_menu {
            seq![VIEW_TITLE@]
        } else {
            Seq::empty()
        }) + seq![WINDOW_TITLE@],
        caps.app_menu <==> exists|i: int|
            0 <= i < spec_root_menu(app_name, caps).len() && (
            #[trigger] spec_root_menu(app_name, caps)[i]).entries.contains(
                native(NativeItem::Services),
            ),
        caps.app_menu <==> exists|i: int|
            0 <= i < spec_root_menu(app_name, caps).len() && (
            #[trigger] spec_root_menu(app_name, caps)[i]).entries.contains(
                native(NativeItem::EnterFullScreen),
            ),
        caps.app_menu <==> spec_root_menu(app_name, caps)[0].entries.contains(
            EntryView::About(app_name),
        ),
        forall|i: int|
            0 <= i < spec_root_menu(app_name, caps).len() ==> ((
            #[trigger] spec_root_menu(app_name, caps)[i]).entries.contains(native(NativeItem::Quit))
                <==> i == 0),
{
    let m = spec_root_menu(app_name, caps);
    let titles = m.map_values(|m: SubmenuView| m.title);
    let expected = (if caps.app_menu {
        seq![app_name]
    } else {
        Seq::empty()
    }) + seq![FILE_TITLE@] + (if caps.edit_menu {
        seq![EDIT_TITLE@]
    } else {
        Seq::empty()
    }) + (if caps.app_menu {
        seq![VIEW_TITLE@]
    } else {
        Seq::empty()
    }) + seq![WINDOW_TITLE@];
    assert(titles =~= expected);
    let services = native(NativeItem::Services);
    if caps.app_menu {
        assert(m[0].entries[2] == services);
        assert(m[0].entries.contains(services));
        assert(m[2 + (if caps.edit_menu { 1int } else { 0int })].entries[0] == native(
            NativeItem::EnterFullScreen,
        ));
        assert(m[0].entries[0] == EntryView::About(app_name));
        assert(m[0].entries[8] == native(NativeItem::Quit));
    } else {
        assert(m[0].entries[1] == native(NativeItem::Quit));
        assert forall|i: int| 0 <= i < m.len() implies !(#[trigger] m[i]).entries.contains(
            services,
        ) && !m[i].entries.contains(native(NativeItem::EnterFullScreen)) by {
            assert(forall|j: int|
                0 <= j < m[i].entries.len() ==> m[i].entries[j] != services && m[i].entries[j]
                    != native(NativeItem::EnterFullScreen));
        }
        assert(forall|j: int| 0 <= j < m[0].entries.len() ==> m[0].entries[j] is Custom || m[0].entries[j] is Native);
    }
    assert forall|i: int| 1 <= i < m.len() implies !(#[trigger] m[i]).entries.contains(
        native(NativeItem::Quit),
    ) by {
        assert(forall|j: int| 0 <= j < m[i].entries.len() ==> m[i].entries[j] != native(NativeItem::Quit));
    }
}

} // verus!
