use vstd::prelude::*;
use vstd::string::*;
use crate::text::same_text;

verus! {

/// What a click on a tray menu entry asks for.
#[derive(PartialEq, Eq, Structural, Debug, Clone, Copy)]
pub enum MenuAction {
    /// Show and focus the main window.
    OpenWindow,
    /// Open the web app in the browser.
    OpenWeb,
    /// Flip launch-at-login.
    ToggleAutostart,
    /// Exit the application.
    Quit,
    /// An id that the menu does not hold: nothing happens.
    Ignore,
}

/// The action behind a menu entry id.
pub open spec fn menu_action_of(id: Seq<char>) -> MenuAction {
    if id == "open_window"@ {
        MenuAction::OpenWindow
    } else if id == "open_web"@ {
        MenuAction::OpenWeb
    } else if id == "auto_start"@ {
        MenuAction::ToggleAutostart
    } else if id == "quit"@ {
        MenuAction::Quit
    } else {
        MenuAction::Ignore
    }
}

/// The action that a click on the menu entry `id` asks for.
pub fn menu_action(id: &str) -> (r: MenuAction)
    ensures
        r == menu_action_of(id@),
{
    if same_text(id, "open_window") {
        MenuAction::OpenWindow
    } else if same_text(id, "open_web") {
        MenuAction::OpenWeb
    } else if same_text(id, "auto_start") {
        MenuAction::ToggleAutostart
    } else if same_text(id, "quit") {
        MenuAction::Quit
    } else {
        MenuAction::Ignore
    }
}

/// One entry of the tray menu. `checked` is `Some` for a check entry, with
/// its state, and `None` for a plain one.
pub struct MenuEntry {
    pub id: String,
    pub label: String,
    pub checked: Option<bool>,
}

/// The ids of the tray menu's entries, top to bottom.
pub open spec fn menu_ids() -> Seq<Seq<char>> {
    seq!["open_window"@, "open_web"@, "auto_start"@, "quit"@]
}

/// The labels of the tray menu's entries, top to bottom.
pub open spec fn menu_labels() -> Seq<Seq<char>> {
    seq!["Open"@, "Open in web"@, "Launch at startup"@, "Quit Dynbox"@]
}

/// The actions of the tray menu's entries, top to bottom.
pub open spec fn menu_actions() -> Seq<MenuAction> {
    seq![MenuAction::OpenWindow, MenuAction::OpenWeb, MenuAction::ToggleAutostart, MenuAction::Quit]
}

fn entry(id: &str, label: &str, checked: Option<bool>) -> (r: MenuEntry)
    ensures
        r.id@ == id@,
        r.label@ == label@,
        r.checked == checked,
{
    MenuEntry { id: String::from_str(id), label: String::from_str(label), checked }
}

/// The tray menu: open the window, open the web app, the launch-at-login
/// check entry (checked as `autostart_enabled` says), and quit.
pub fn tray_menu_entries(autostart_enabled: bool) -> (r: Vec<MenuEntry>)
    ensures
        r@.len() == 4,
        forall|i: int|
            0 <= i < 4 ==> (#[trigger] r@[i]).id@ == menu_ids()[i] && r@[i].label@
                == menu_labels()[i],
        r@[0].checked is None,
        r@[1].checked is None,
        r@[2].checked == Some(autostart_enabled),
        r@[3].checked is None,
{
    let mut v: Vec<MenuEntry> = Vec::new();
    v.push(entry("open_window", "Open", None));
    v.push(entry("open_web", "Open in web", None));
    v.push(entry("auto_start", "Launch at startup", Some(autostart_enabled)));
    v.push(entry("quit", "Quit Dynbox", None));
    v
}

/// Each entry of the tray menu dispatches to its own action, and none is ignored.
pub proof fn lemma_menu_ids_dispatch(i: int)
    requires
        0 <= i < 4,
    ensures
        menu_action_of(menu_ids()[i]) == menu_actions()[i],
        menu_actions()[i] != MenuAction::Ignore,
{
    reveal_strlit("open_window");
    reveal_strlit("open_web");
    reveal_strlit("auto_start");
    reveal_strlit("quit");
    assert("open_web"@.len() != "open_window"@.len());
    assert("auto_start"@[0] != "open_window"@[0]);
    assert("auto_start"@[0] != "open_web"@[0]);
    assert("quit"@.len() != "open_window"@.len());
    assert("quit"@.len() != "open_web"@.len());
    assert("quit"@.len() != "auto_start"@.len());
}

} // verus!
