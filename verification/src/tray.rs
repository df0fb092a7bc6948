//! The tray icon: what its menu items and its clicks do.

use vstd::prelude::*;

use crate::text::{str_eq, string_of};

verus! {

/// What a click on an item of the tray menu asks for.
#[derive(Clone, Copy, Debug, PartialEq, Eq, Structural)]
pub enum TrayAction {
    /// Leave the application.
    Quit,
    /// Capture an area of the screen and recognize its text.
    Screenshot,
    /// Flip the window's always-on-top setting, then rebuild the menu.
    TogglePin,
    /// Show and focus the window; first ask it to record a new hotkey
    /// where `record_shortcut` says so.
    ShowWindow { record_shortcut: bool },
    /// Flip the launch-at-login setting, then rebuild the menu.
    ToggleAutostart,
    /// Nothing to do.
    Nothing,
}

/// The action of the tray menu item with id `id`.
pub open spec fn tray_action(id: Seq<char>) -> TrayAction {
    if id == "quit"@ {
        TrayAction::Quit
    } else if id == "screenshot"@ {
        TrayAction::Screenshot
    } else if id == "pin"@ {
        TrayAction::TogglePin
    } else if id == "show"@ {
        TrayAction::ShowWindow { record_shortcut: false }
    } else if id == "shortcut"@ {
        TrayAction::ShowWindow { record_shortcut: true }
    } else if id == "autostart"@ {
        TrayAction::ToggleAutostart
    } else {
        TrayAction::Nothing
    }
}

/// Decides what a click on the tray menu item with id `id` does.
pub fn tray_menu_action(id: &str) -> (r: TrayAction)
    ensures
        r == tray_action(id@),
{
    if str_eq(id, "quit") {
        TrayAction::Quit
    } else if str_eq(id, "screenshot") {
        TrayAction::Screenshot
    } else if str_eq(id, "pin") {
        TrayAction::TogglePin
    } else if str_eq(id, "show") {
        TrayAction::ShowWindow { record_shortcut: false }
    } else if str_eq(id, "shortcut") {
        TrayAction::ShowWindow { record_shortcut: true }
    } else if str_eq(id, "autostart") {
        TrayAction::ToggleAutostart
    } else {
        TrayAction::Nothing
    }
}

/// The always-on-top setting after a click on the pin item, from the
/// current one.
pub fn pin_after_toggle(on_top: bool) -> (r: bool)
    ensures
        r == !on_top,
{
    !on_top
}

/// The launch-at-login setting after a click on its item, from the current
/// one: `true` asks to enable it, `false` to disable it.
pub fn autostart_after_toggle(enabled: bool) -> (r: bool)
    ensures
        r == !enabled,
{
    !enabled
}

/// A mouse button.
#[derive(Clone, Copy, Debug, PartialEq, Eq, Structural)]
pub enum MouseButton {
    Left,
    Right,
    Middle,
}

/// Whether a mouse button went down or up.
#[derive(Clone, Copy, Debug, PartialEq, Eq, Structural)]
pub enum ButtonState {
    Up,
    Down,
}

/// What a click on the tray icon asks for.
#[derive(Clone, Copy, Debug, PartialEq, Eq, Structural)]
pub enum TrayClickAction {
    /// Show and focus the window.
    ShowWindow,
    /// Rebuild the tray menu, so that its check marks are current.
    RefreshMenu,
    /// Nothing to do.
    Nothing,
}

/// The action of a click on the tray icon.
pub open spec fn click_action(button: MouseButton, state: ButtonState) -> TrayClickAction {
    match (button, state) {
        (MouseButton::Left, ButtonState::Up) => TrayClickAction::ShowWindow,
        (MouseButton::Right, ButtonState::Up) => TrayClickAction::RefreshMenu,
        _ => TrayClickAction::Nothing,
    }
}

/// Decides what a click on the tray icon does: releasing the left button
/// shows the window, releasing the right one refreshes the menu.
pub fn tray_click_action(button: MouseButton, state: ButtonState) -> (r: TrayClickAction)
    ensures
        r == click_action(button, state),
{
    match (button, state) {
        (MouseButton::Left, ButtonState::Up) => TrayClickAction::ShowWindow,
        (MouseButton::Right, ButtonState::Up) => TrayClickAction::RefreshMenu,
        _ => TrayClickAction::Nothing,
    }
}

/// An entry of the tray menu.
#[derive(Debug)]
pub enum TrayMenuEntry {
    /// A plain item with its id and label.
    Item { id: String, label: String },
    /// A check item with its id, label and check mark.
    Check { id: String, label: String, checked: bool },
    /// A separator line.
    Separator,
}

/// Whether `e` is the plain item with the given id and label.
pub open spec fn is_item(e: TrayMenuEntry, id: Seq<char>, label: Seq<char>) -> bool {
    e matches TrayMenuEntry::Item { id: i, label: l } && i@ == id && l@ == label
}

/// Whether `e` is the check item with the given id, label and check mark.
pub open spec fn is_check(e: TrayMenuEntry, id: Seq<char>, label: Seq<char>, checked: bool) -> bool {
    e matches TrayMenuEntry::Check { id: i, label: l, checked: c } && i@ == id && l@ == label && c
        == checked
}

/// The id of an entry, if it has one.
pub open spec fn entry_id(e: TrayMenuEntry) -> Option<Seq<char>> {
    match e {
        TrayMenuEntry::Item { id, .. } => Some(id@),
        TrayMenuEntry::Check { id, .. } => Some(id@),
        TrayMenuEntry::Separator => None,
    }
}

/// Whether `entries` is the tray menu: capture, show, a separator, the
/// always-on-top check, the hotkey change, the launch-at-login check, a
/// separator and quit.
pub open spec fn is_tray_menu(entries: Seq<TrayMenuEntry>, is_pinned: bool, autostart_enabled: bool) -> bool {
    &&& entries.len() == 8
    &&& is_item(entries[0], "screenshot"@, "Screenshot OCR"@)
    &&& is_item(entries[1], "show"@, "Show Window"@)
    &&& entries[2] is Separator
    &&& is_check(entries[3], "pin"@, "Always on Top"@, is_pinned)
    &&& is_item(entries[4], "shortcut"@, "Change Hotkey"@)
    &&& is_check(entries[5], "autostart"@, "Launch at Login"@, autostart_enabled)
    &&& entries[6] is Separator
    &&& is_item(entries[7], "quit"@, "Quit"@)
}

fn item(id: &str, label: &str) -> (r: TrayMenuEntry)
    ensures
        is_item(r, id@, label@),
{
    TrayMenuEntry::Item { id: string_of(id), label: string_of(label) }
}

fn check(id: &str, label: &str, checked: bool) -> (r: TrayMenuEntry)
    ensures
        is_check(r, id@, label@, checked),
{
    TrayMenuEntry::Check { id: string_of(id), label: string_of(label), checked }
}

/// The entries of the tray menu, in order, given whether the window stays on
/// top and whether the application launches at login.
pub fn tray_menu_entries(is_pinned: bool, autostart_enabled: bool) -> (r: Vec<TrayMenuEntry>)
    ensures
        is_tray_menu(r@, is_pinned, autostart_enabled),
{
    let mut r: Vec<TrayMenuEntry> = Vec::new();
    r.push(item("screenshot", "Screenshot OCR"));
    r.push(item("show", "Show Window"));
    r.push(TrayMenuEntry::Separator);
    r.push(check("pin", "Always on Top", is_pinned));
    r.push(item("shortcut", "Change Hotkey"));
    r.push(check("autostart", "Launch at Login", autostart_enabled));
    r.push(TrayMenuEntry::Separator);
    r.push(item("quit", "Quit"));
    r
}

/// Every item of the tray menu does something when clicked.
pub proof fn lemma_tray_entries_have_actions(
    entries: Seq<TrayMenuEntry>,
    is_pinned: bool,
    autostart_enabled: bool,
    i: int,
)
    requires
        is_tray_menu(entries, is_pinned, autostart_enabled),
        0 <= i < entries.len(),
        entry_id(entries[i]) is Some,
    ensures
        tray_action(entry_id(entries[i]).unwrap()) != TrayAction::Nothing,
{
}

/// Only releasing the left button shows the window, only releasing the right
/// button refreshes the menu, and pressing a button does nothing.
pub proof fn lemma_click_actions(button: MouseButton, state: ButtonState)
    ensures
        click_action(button, state) == TrayClickAction::ShowWindow <==> (button
            == MouseButton::Left && state == ButtonState::Up),
        click_action(button, state) == TrayClickAction::RefreshMenu <==> (button
            == MouseButton::Right && state == ButtonState::Up),
        state == ButtonState::Down ==> click_action(button, state) == TrayClickAction::Nothing,
        button == MouseButton::Middle ==> click_action(button, state) == TrayClickAction::Nothing,
{
}

/// The ids of the tray menu's items and the actions they give.
pub proof fn lemma_tray_vocabulary()
    ensures
        tray_action("quit"@) == TrayAction::Quit,
        tray_action("screenshot"@) == TrayAction::Screenshot,
        tray_action("pin"@) == TrayAction::TogglePin,
        tray_action("show"@) == (TrayAction::ShowWindow { record_shortcut: false }),
        tray_action("shortcut"@) == (TrayAction::ShowWindow { record_shortcut: true }),
        tray_action("autostart"@) == TrayAction::ToggleAutostart,
{
    reveal_strlit("quit");
    reveal_strlit("screenshot");
    reveal_strlit("pin");
    reveal_strlit("show");
    reveal_strlit("shortcut");
    reveal_strlit("autostart");
    assert("screenshot"@[0] != "quit"@[0]);
    assert("pin"@[0] != "quit"@[0] && "pin"@[0] != "screenshot"@[0]);
    assert("show"@[0] != "quit"@[0] && "show"@[1] != "screenshot"@[1] && "show"@[0] != "pin"@[0]);
    assert("shortcut"@[0] != "quit"@[0] && "shortcut"@[1] != "screenshot"@[1]);
    assert("shortcut"@[0] != "pin"@[0] && "shortcut"@.len() != "show"@.len());
    assert("autostart"@[0] != "quit"@[0] && "autostart"@[0] != "screenshot"@[0]);
    assert("autostart"@[0] != "pin"@[0] && "autostart"@[0] != "show"@[0]);
    assert("autostart"@[0] != "shortcut"@[0]);
}

} // verus!
