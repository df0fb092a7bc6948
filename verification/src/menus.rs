//! The application menu: the theme choices it offers, the decisions taken on
//! a click, and the search for a check item inside a menu tree.

use vstd::prelude::*;

use crate::config::AppConfig;
use crate::text::{str_eq, string_of};

verus! {

/// A theme that the Theme submenu offers.
#[derive(Clone, Copy, Debug, PartialEq, Eq, Structural)]
pub enum ThemeChoice {
    Light,
    Dark,
    System,
}

/// The check marks of the three items of the Theme submenu.
#[derive(Clone, Copy, Debug, PartialEq, Eq, Structural)]
pub struct ThemeChecks {
    pub light: bool,
    pub dark: bool,
    pub system: bool,
}

/// A page that the Help menu opens.
#[derive(Clone, Copy, Debug, PartialEq, Eq, Structural)]
pub enum HelpLink {
    Repository,
    Issues,
}

/// What a click on an item of the application menu asks for.
#[derive(Clone, Copy, Debug, PartialEq, Eq, Structural)]
pub enum MenuCommand {
    /// Tell the window to look for an update (event `check-update`).
    CheckForUpdates,
    /// Switch to a theme: save it, set the check marks, tell the window.
    ApplyTheme(ThemeChoice),
    /// Open a page in the browser.
    OpenLink(HelpLink),
    /// Nothing to do.
    Nothing,
}

/// The command that a click on the item with id `id` stands for.
pub open spec fn menu_command(id: Seq<char>) -> MenuCommand {
    if id == "check_updates"@ {
        MenuCommand::CheckForUpdates
    } else if id == "theme_light"@ {
        MenuCommand::ApplyTheme(ThemeChoice::Light)
    } else if id == "theme_dark"@ {
        MenuCommand::ApplyTheme(ThemeChoice::Dark)
    } else if id == "theme_system"@ {
        MenuCommand::ApplyTheme(ThemeChoice::System)
    } else if id == "help_github"@ {
        MenuCommand::OpenLink(HelpLink::Repository)
    } else if id == "help_issues"@ {
        MenuCommand::OpenLink(HelpLink::Issues)
    } else {
        MenuCommand::Nothing
    }
}

/// Decides what a click on the application menu item with id `id` does.
pub fn handle_menu_event(id: &str) -> (r: MenuCommand)
    ensures
        r == menu_command(id@),
{
    if str_eq(id, "check_updates") {
        MenuCommand::CheckForUpdates
    } else if str_eq(id, "theme_light") {
        MenuCommand::ApplyTheme(ThemeChoice::Light)
    } else if str_eq(id, "theme_dark") {
        MenuCommand::ApplyTheme(ThemeChoice::Dark)
    } else if str_eq(id, "theme_system") {
        MenuCommand::ApplyTheme(ThemeChoice::System)
    } else if str_eq(id, "help_github") {
        MenuCommand::OpenLink(HelpLink::Repository)
    } else if str_eq(id, "help_issues") {
        MenuCommand::OpenLink(HelpLink::Issues)
    } else {
        MenuCommand::Nothing
    }
}

/// The check marks that the Theme submenu shows after a switch to `choice`.
pub open spec fn checks_for(choice: ThemeChoice) -> ThemeChecks {
    ThemeChecks {
        light: choice == ThemeChoice::Light,
        dark: choice == ThemeChoice::Dark,
        system: choice == ThemeChoice::System,
    }
}

/// The dark-mode setting that a switch to `choice` saves; the system theme
/// leaves the saved setting as it is.
pub open spec fn saved_dark_mode(choice: ThemeChoice) -> Option<bool> {
    match choice {
        ThemeChoice::Light => Some(false),
        ThemeChoice::Dark => Some(true),
        ThemeChoice::System => None,
    }
}

/// The check marks of the Theme submenu when the menu is built at start-up
/// from the saved dark-mode setting.
pub open spec fn startup_checks(dark_mode: bool) -> ThemeChecks {
    ThemeChecks { light: !dark_mode, dark: dark_mode, system: false }
}

impl ThemeChoice {
    /// The check marks after a switch to this theme.
    pub fn checks(&self) -> (r: ThemeChecks)
        ensures
            r == checks_for(*self),
    {
        ThemeChecks {
            light: *self == ThemeChoice::Light,
            dark: *self == ThemeChoice::Dark,
            system: *self == ThemeChoice::System,
        }
    }

    /// The dark-mode setting to save, if any.
    pub fn saved_dark_mode(&self) -> (r: Option<bool>)
        ensures
            r == saved_dark_mode(*self),
    {
        match self {
            ThemeChoice::Light => Some(false),
            ThemeChoice::Dark => Some(true),
            ThemeChoice::System => None,
        }
    }

    /// The settings to save after a switch to this theme: `config` with the
    /// dark-mode setting of the theme; nothing to save for the system theme.
    pub fn settings_to_save(&self, config: AppConfig) -> (r: Option<AppConfig>)
        ensures
            match saved_dark_mode(*self) {
                Some(d) => r matches Some(c) && c.dark_mode == d && c.shortcut == config.shortcut,
                None => r is None,
            },
    {
        match self.saved_dark_mode() {
            Some(d) => Some(AppConfig { shortcut: config.shortcut, dark_mode: d }),
            None => None,
        }
    }

    /// The name of the theme in the `set-theme` event sent to the window.
    pub fn event_payload(&self) -> (r: String)
        ensures
            r@ == match *self {
                ThemeChoice::Light => "light"@,
                ThemeChoice::Dark => "dark"@,
                ThemeChoice::System => "auto"@,
            },
    {
        match self {
            ThemeChoice::Light => string_of("light"),
            ThemeChoice::Dark => string_of("dark"),
            ThemeChoice::System => string_of("auto"),
        }
    }
}

/// The check marks of the Theme submenu at start-up.
pub fn startup_theme_checks(dark_mode: bool) -> (r: ThemeChecks)
    ensures
        r == startup_checks(dark_mode),
{
    ThemeChecks { light: !dark_mode, dark: dark_mode, system: false }
}

impl HelpLink {
    /// The address of the page.
    pub fn url(&self) -> (r: String)
        ensures
            r@ == match *self {
                HelpLink::Repository => "https://github.com/OSpoon/tray-ocr-app"@,
                HelpLink::Issues => "https://github.com/OSpoon/tray-ocr-app/issues"@,
            },
    {
        match self {
            HelpLink::Repository => string_of("https://github.com/OSpoon/tray-ocr-app"),
            HelpLink::Issues => string_of("https://github.com/OSpoon/tray-ocr-app/issues"),
        }
    }
}

/// After any theme switch exactly one item of the Theme submenu is checked:
/// the one of the chosen theme.
pub proof fn lemma_one_theme_checked(choice: ThemeChoice)
    ensures
        checks_for(choice).light == (choice == ThemeChoice::Light),
        checks_for(choice).dark == (choice == ThemeChoice::Dark),
        checks_for(choice).system == (choice == ThemeChoice::System),
        (checks_for(choice).light as int) + (checks_for(choice).dark as int)
            + (checks_for(choice).system as int) == 1,
{
}

/// A switch to the light or the dark theme saves the setting from which the
/// next start-up shows the same check marks.
pub proof fn lemma_saved_theme_restored(choice: ThemeChoice)
    requires
        choice != ThemeChoice::System,
    ensures
        saved_dark_mode(choice) is Some,
        startup_checks(saved_dark_mode(choice).unwrap()) == checks_for(choice),
{
}

/// A standard item of the application menu, provided by the system.
#[derive(Clone, Copy, Debug, PartialEq, Eq, Structural)]
pub enum StandardItem {
    Services,
    Hide,
    HideOthers,
    ShowAll,
    Quit,
}

/// An entry of the application menu.
#[derive(Debug)]
pub enum AppMenuEntry {
    /// The About item, with its label and copyright line.
    About { label: String, copyright: String },
    /// A standard item.
    Standard(StandardItem),
    /// A plain item with its id and label.
    Item { id: String, label: String },
    /// A check item with its id, label and check mark.
    Check { id: String, label: String, checked: bool },
    /// A separator line.
    Separator,
    /// A submenu with its label and entries.
    Submenu { label: String, entries: Vec<AppMenuEntry> },
}

pub open spec fn is_app_item(e: AppMenuEntry, id: Seq<char>, label: Seq<char>) -> bool {
    e matches AppMenuEntry::Item { id: i, label: l } && i@ == id && l@ == label
}

pub open spec fn is_app_check(e: AppMenuEntry, id: Seq<char>, label: Seq<char>, checked: bool) -> bool {
    e matches AppMenuEntry::Check { id: i, label: l, checked: c } && i@ == id && l@ == label && c
        == checked
}

/// Whether `entries` is the Theme submenu's content for the given check marks.
pub open spec fn is_theme_entries(entries: Seq<AppMenuEntry>, checks: ThemeChecks) -> bool {
    &&& entries.len() == 3
    &&& is_app_check(entries[0], "theme_light"@, "Light"@, checks.light)
    &&& is_app_check(entries[1], "theme_dark"@, "Dark"@, checks.dark)
    &&& is_app_check(entries[2], "theme_system"@, "System"@, checks.system)
}

/// Whether `entries` is the content of the menu named after the application:
/// About, the Theme submenu, the update check, Services, the Hide items and
/// Quit, with separators between the groups.
pub open spec fn is_app_submenu(entries: Seq<AppMenuEntry>, dark_mode: bool) -> bool {
    &&& entries.len() == 12
    &&& entries[0] matches AppMenuEntry::About { label, copyright } && label@ == "About TrayOCR"@
        && copyright@ == "© 2026 OSpoon"@
    &&& entries[1] is Separator
    &&& entries[2] matches AppMenuEntry::Submenu { label, entries: theme } && label@ == "Theme"@
        && is_theme_entries(theme@, startup_checks(dark_mode))
    &&& is_app_item(entries[3], "check_updates"@, "Check for Updates…"@)
    &&& entries[4] is Separator
    &&& entries[5] == AppMenuEntry::Standard(StandardItem::Services)
    &&& entries[6] is Separator
    &&& entries[7] == AppMenuEntry::Standard(StandardItem::Hide)
    &&& entries[8] == AppMenuEntry::Standard(StandardItem::HideOthers)
    &&& entries[9] == AppMenuEntry::Standard(StandardItem::ShowAll)
    &&& entries[10] is Separator
    &&& entries[11] == AppMenuEntry::Standard(StandardItem::Quit)
}

/// Whether `entries` is the application menu: the menu named after the
/// application, then Help with the links to the repository and its issues.
pub open spec fn is_app_menu(entries: Seq<AppMenuEntry>, app_name: Seq<char>, dark_mode: bool) -> bool {
    &&& entries.len() == 2
    &&& entries[0] matches AppMenuEntry::Submenu { label, entries: app } && label@ == app_name
        && is_app_submenu(app@, dark_mode)
    &&& entries[1] matches AppMenuEntry::Submenu { label, entries: help } && label@ == "Help"@
        && help@.len() == 2 && is_app_item(help@[0], "help_github"@, "GitHub"@) && is_app_item(
        help@[1],
        "help_issues"@,
        "Issues"@,
    )
}

fn app_item(id: &str, label: &str) -> (r: AppMenuEntry)
    ensures
        is_app_item(r, id@, label@),
{
    AppMenuEntry::Item { id: string_of(id), label: string_of(label) }
}

fn app_check(id: &str, label: &str, checked: bool) -> (r: AppMenuEntry)
    ensures
        is_app_check(r, id@, label@, checked),
{
    AppMenuEntry::Check { id: string_of(id), label: string_of(label), checked }
}

/// The entries of the application menu, given the application's name and
/// the saved dark-mode setting, which sets the Theme check marks.
pub fn app_menu_entries(app_name: &str, dark_mode: bool) -> (r: Vec<AppMenuEntry>)
    ensures
        is_app_menu(r@, app_name@, dark_mode),
{
    let checks = startup_theme_checks(dark_mode);
    let mut theme: Vec<AppMenuEntry> = Vec::new();
    theme.push(app_check("theme_light", "Light", checks.light));
    theme.push(app_check("theme_dark", "Dark", checks.dark));
    theme.push(app_check("theme_system", "System", checks.system));

    let mut app: Vec<AppMenuEntry> = Vec::new();
    app.push(
        AppMenuEntry::About {
            label: string_of("About TrayOCR"),
            copyright: string_of("© 2026 OSpoon"),
        },
    );
    app.push(AppMenuEntry::Separator);
    app.push(AppMenuEntry::Submenu { label: string_of("Theme"), entries: theme });
    app.push(app_item("check_updates", "Check for Updates…"));
    app.push(AppMenuEntry::Separator);
    app.push(AppMenuEntry::Standard(StandardItem::Services));
    app.push(AppMenuEntry::Separator);
    app.push(AppMenuEntry::Standard(StandardItem::Hide));
    app.push(AppMenuEntry::Standard(StandardItem::HideOthers));
    app.push(AppMenuEntry::Standard(StandardItem::ShowAll));
    app.push(AppMenuEntry::Separator);
    app.push(AppMenuEntry::Standard(StandardItem::Quit));

    let mut help: Vec<AppMenuEntry> = Vec::new();
    help.push(app_item("help_github", "GitHub"));
    help.push(app_item("help_issues", "Issues"));

    let mut r: Vec<AppMenuEntry> = Vec::new();
    r.push(AppMenuEntry::Submenu { label: string_of(app_name), entries: app });
    r.push(AppMenuEntry::Submenu { label: string_of("Help"), entries: help });
    r
}

/// The shape of a menu, as far as the search for check items reads it.
#[derive(Debug)]
pub enum MenuTree {
    /// A check item with its id.
    Check { id: String },
    /// A submenu with its entries, in order.
    Submenu { items: Vec<MenuTree> },
    /// Any other entry: a plain item, a separator, a predefined item.
    Other,
}

/// The path, relative to `item`, of the first check item with id `id` met in
/// a depth-first walk of `item`; the empty path names `item` itself.
pub open spec fn find_in_item(item: MenuTree, id: Seq<char>) -> Option<Seq<usize>>
    decreases item, 0int,
{
    match item {
        MenuTree::Check { id: item_id } => if item_id@ == id {
            Some(Seq::<usize>::empty())
        } else {
            None
        },
        MenuTree::Submenu { items } => find_in_items(items, id, 0),
        MenuTree::Other => None,
    }
}

/// The path of the first check item with id `id` met in a depth-first walk of
/// the entries `items[start..]`: the index of the entry, then the path inside
/// it.
pub open spec fn find_in_items(items: Vec<MenuTree>, id: Seq<char>, start: int) -> Option<
    Seq<usize>,
>
    decreases items, items.len() - start,
{
    if start < 0 || start >= items.len() {
        None
    } else {
        match find_in_item(items[start], id) {
            Some(p) => Some(seq![start as usize] + p),
            None => find_in_items(items, id, start + 1),
        }
    }
}

/// The entry that a non-empty path reaches inside the list `items`.
pub open spec fn entry_at(items: Vec<MenuTree>, path: Seq<usize>) -> Option<MenuTree>
    decreases path.len(),
{
    if path.len() == 0 || path[0] >= items.len() {
        None
    } else if path.len() == 1 {
        Some(items[path[0] as int])
    } else {
        match items[path[0] as int] {
            MenuTree::Submenu { items: sub } => entry_at(sub, path.drop_first()),
            _ => None,
        }
    }
}

/// Whether an entry is a check item with id `id`.
pub open spec fn is_check_with_id(entry: Option<MenuTree>, id: Seq<char>) -> bool {
    match entry {
        Some(MenuTree::Check { id: item_id }) => item_id@ == id,
        _ => false,
    }
}

pub open spec fn path_view(p: Option<Vec<usize>>) -> Option<Seq<usize>> {
    match p {
        Some(v) => Some(v@),
        None => None,
    }
}

/// Finds a check item with id `id` inside one menu entry; the path is
/// relative to that entry.
pub fn find_check_item_in_kind(item: &MenuTree, id: &str) -> (r: Option<Vec<usize>>)
    ensures
        path_view(r) == find_in_item(*item, id@),
    decreases item, 0int,
{
    match item {
        MenuTree::Check { id: item_id } => {
            if str_eq(item_id.as_str(), id) {
                Some(Vec::new())
            } else {
                None
            }
        },
        MenuTree::Submenu { items } => find_in_entries(items, id, 0),
        MenuTree::Other => None,
    }
}

fn find_in_entries(items: &Vec<MenuTree>, id: &str, start: usize) -> (r: Option<Vec<usize>>)
    requires
        start <= items.len(),
    ensures
        path_view(r) == find_in_items(*items, id@, start as int),
    decreases items, items.len() - start,
{
    if start >= items.len() {
        return None;
    }
    match find_check_item_in_kind(&items[start], id) {
        Some(p) => {
            let mut path = p;
            path.insert(0, start);
            assert(path@ =~= seq![start] + find_in_item(items@[start as int], id@).unwrap());
            Some(path)
        },
        None => find_in_entries(items, id, start + 1),
    }
}

/// Finds the first check item with id `id` in a menu, walking its entries
/// depth first; returns its path: the index of a top-level entry, then the
/// indices inside the submenus down to the item.
pub fn find_check_item(menu: &Vec<MenuTree>, id: &str) -> (r: Option<Vec<usize>>)
    ensures
        path_view(r) == find_in_items(*menu, id@, 0),
{
    find_in_entries(menu, id, 0)
}

/// What the search finds is a check item with the id looked for.
pub proof fn lemma_find_reaches_check(items: Vec<MenuTree>, id: Seq<char>, start: int)
    requires
        find_in_items(items, id, start) is Some,
    ensures
        is_check_with_id(entry_at(items, find_in_items(items, id, start).unwrap()), id),
    decreases items, items.len() - start,
{
    let p = find_in_items(items, id, start).unwrap();
    match find_in_item(items[start], id) {
        Some(q) => {
            assert(p == seq![start as usize] + q);
            assert(p.drop_first() =~= q);
            match items[start] {
                MenuTree::Check { id: item_id } => {
                    assert(q.len() == 0);
                },
                MenuTree::Submenu { items: sub } => {
                    lemma_find_reaches_check(sub, id, 0);
                },
                MenuTree::Other => {},
            }
        },
        None => {
            lemma_find_reaches_check(items, id, start + 1);
        },
    }
}

/// When the search finds nothing, no entry after `start` holds a check item
/// with the id looked for, at any depth.
pub proof fn lemma_find_none_complete(items: Vec<MenuTree>, id: Seq<char>, start: int, path: Seq<usize>)
    requires
        0 <= start,
        find_in_items(items, id, start) is None,
        path.len() > 0,
        start <= path[0],
    ensures
        !is_check_with_id(entry_at(items, path), id),
    decreases items, items.len() - start,
{
    if start < items.len() {
        if path[0] == start {
            assert(find_in_item(items[start], id) is None);
            if path.len() > 1 {
                match items[start] {
                    MenuTree::Submenu { items: sub } => {
                        lemma_find_none_complete(sub, id, 0, path.drop_first());
                    },
                    _ => {},
                }
            }
        } else {
            lemma_find_none_complete(items, id, start + 1, path);
        }
    }
}

/// The search of a whole menu fails only where the menu holds no check item
/// with the id looked for.
pub proof fn lemma_find_check_item_complete(menu: Vec<MenuTree>, id: Seq<char>, path: Seq<usize>)
    requires
        find_in_items(menu, id, 0) is None,
    ensures
        !is_check_with_id(entry_at(menu, path), id),
{
    if path.len() > 0 {
        lemma_find_none_complete(menu, id, 0, path);
    }
}

/// Whether the path `q` and the path `p` first differ at position `i`, with
/// `q` taking the earlier entry there.
pub open spec fn branches_before_at(q: Seq<usize>, p: Seq<usize>, i: int) -> bool {
    0 <= i < q.len() && i < p.len() && q.take(i) == p.take(i) && q[i] < p[i]
}

/// Whether a depth-first walk meets the entry at path `q` before the entry
/// at path `p`: `q` leads to an ancestor of it, or branches off earlier.
pub open spec fn walked_before(q: Seq<usize>, p: Seq<usize>) -> bool {
    ||| (q.len() < p.len() && q == p.take(q.len() as int))
    ||| exists|i: int| #[trigger] branches_before_at(q, p, i)
}

proof fn lemma_walked_before_tail(j: usize, q: Seq<usize>, p: Seq<usize>)
    requires
        walked_before(seq![j] + q, seq![j] + p),
    ensures
        walked_before(q, p),
{
    let qq = seq![j] + q;
    let pp = seq![j] + p;
    if qq.len() < pp.len() && qq == pp.take(qq.len() as int) {
        assert(q =~= qq.drop_first());
        assert(p.take(q.len() as int) =~= pp.take(qq.len() as int).drop_first());
    } else {
        let i = choose|i: int| #[trigger] branches_before_at(qq, pp, i);
        assert(qq[0] == pp[0]);
        assert(i > 0);
        assert(q.take(i - 1) =~= qq.take(i).drop_first());
        assert(p.take(i - 1) =~= pp.take(i).drop_first());
        assert(q[i - 1] == qq[i] && p[i - 1] == pp[i]);
        assert(branches_before_at(q, p, i - 1));
    }
}

/// No check item with the id looked for lies at a path that a depth-first
/// walk of the entries `items[start..]` meets before the one found.
pub proof fn lemma_find_is_first(items: Vec<MenuTree>, id: Seq<char>, start: int, q: Seq<usize>)
    requires
        0 <= start,
        find_in_items(items, id, start) is Some,
        q.len() > 0,
        start <= q[0],
        is_check_with_id(entry_at(items, q), id),
    ensures
        !walked_before(q, find_in_items(items, id, start).unwrap()),
    decreases items, items.len() - start,
{
    let p = find_in_items(items, id, start).unwrap();
    match find_in_item(items[start], id) {
        None => {
            if q[0] == start {
                // The entry at `start` holds no such item at any depth.
                if q.len() > 1 {
                    match items[start] {
                        MenuTree::Submenu { items: sub } => {
                            lemma_find_none_complete(sub, id, 0, q.drop_first());
                        },
                        _ => {},
                    }
                }
            } else {
                lemma_find_is_first(items, id, start + 1, q);
            }
        },
        Some(r) => {
            assert(p == seq![start as usize] + r);
            if q[0] > start {
                if walked_before(q, p) {
                    if q.len() < p.len() && q == p.take(q.len() as int) {
                        assert(q[0] == p[0]);
                    } else {
                        let i = choose|i: int| #[trigger] branches_before_at(q, p, i);
                        if i > 0 {
                            assert(q.take(i)[0] == p.take(i)[0]);
                        }
                    }
                }
            } else {
                assert(q =~= seq![start as usize] + q.drop_first());
                match items[start] {
                    MenuTree::Check { .. } => {
                        assert(r.len() == 0);
                        if walked_before(q, p) {
                            if !(q.len() < p.len() && q == p.take(q.len() as int)) {
                                let i = choose|i: int| #[trigger] branches_before_at(q, p, i);
                            }
                        }
                    },
                    MenuTree::Submenu { items: sub } => {
                        if q.len() > 1 {
                            lemma_find_is_first(sub, id, 0, q.drop_first());
                            if walked_before(q, p) {
                                lemma_walked_before_tail(start as usize, q.drop_first(), r);
                            }
                        }
                    },
                    MenuTree::Other => {},
                }
            }
        },
    }
}

/// The check item that the search of a whole menu finds is the first one
/// with the id looked for in a depth-first walk: no other lies before it.
pub proof fn lemma_find_check_item_first(menu: Vec<MenuTree>, id: Seq<char>, q: Seq<usize>)
    requires
        find_in_items(menu, id, 0) is Some,
        is_check_with_id(entry_at(menu, q), id),
    ensures
        !walked_before(q, find_in_items(menu, id, 0).unwrap()),
{
    lemma_find_is_first(menu, id, 0, q);
}

/// The ids of the application menu's items and the commands they give.
pub proof fn lemma_menu_vocabulary()
    ensures
        menu_command("check_updates"@) == MenuCommand::CheckForUpdates,
        menu_command("theme_light"@) == MenuCommand::ApplyTheme(ThemeChoice::Light),
        menu_command("theme_dark"@) == MenuCommand::ApplyTheme(ThemeChoice::Dark),
        menu_command("theme_system"@) == MenuCommand::ApplyTheme(ThemeChoice::System),
        menu_command("help_github"@) == MenuCommand::OpenLink(HelpLink::Repository),
        menu_command("help_issues"@) == MenuCommand::OpenLink(HelpLink::Issues),
{
    reveal_strlit("check_updates");
    reveal_strlit("theme_light");
    reveal_strlit("theme_dark");
    reveal_strlit("theme_system");
    reveal_strlit("help_github");
    reveal_strlit("help_issues");
    assert("theme_light"@[0] != "check_updates"@[0]);
    assert("theme_dark"@.len() != "theme_light"@.len() && "theme_dark"@[0] != "check_updates"@[0]);
    assert("theme_system"@[6] != "theme_light"@[6] && "theme_system"@[6] != "theme_dark"@[6]);
    assert("theme_system"@[0] != "check_updates"@[0]);
    assert("help_github"@[0] != "check_updates"@[0] && "help_github"@[0] != "theme_light"@[0]);
    assert("help_github"@[0] != "theme_dark"@[0] && "help_github"@[0] != "theme_system"@[0]);
    assert("help_issues"@[0] != "check_updates"@[0] && "help_issues"@[0] != "theme_light"@[0]);
    assert("help_issues"@[0] != "theme_dark"@[0] && "help_issues"@[0] != "theme_system"@[0]);
    assert("help_issues"@[5] != "help_github"@[5]);
}

} // verus!
