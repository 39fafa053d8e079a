//! From triggers (a tray menu entry, a click on the tray icon, the global
//! hotkey) to the operation each one asks for.

use crate::operation::Command;
use vstd::prelude::*;

verus! {

/// A mouse button.
#[derive(Debug, Clone, Copy, PartialEq, Eq, Structural)]
pub enum MouseButton {
    Left,
    Right,
    Middle,
}

/// Which way a hotkey went.
#[derive(Debug, Clone, Copy, PartialEq, Eq, Structural)]
pub enum KeyState {
    Pressed,
    Released,
}

/// A key combination: the modifiers held and the code of the key.
#[derive(Debug, Clone)]
pub struct Shortcut {
    pub control: bool,
    pub shift: bool,
    pub alt: bool,
    pub meta: bool,
    pub key: String,
}

/// Something that happened outside and may ask for an operation.
#[derive(Debug, Clone)]
pub enum Trigger {
    /// The tray menu entry with identifier `id` was chosen.
    MenuItem { id: String },
    /// The tray icon was clicked with `button`.
    TrayClick { button: MouseButton },
    /// A registered hotkey was pressed or released.
    Hotkey { shortcut: Shortcut, state: KeyState },
}

/// What a trigger comes to.
#[derive(Debug, Clone, Copy, PartialEq, Eq, Structural)]
pub enum Dispatch {
    /// Run this window operation.
    Run(Command),
    /// End the process at once, with `QUIT_EXIT_CODE`.
    Quit,
    /// Nothing to do.
    Ignore,
}

/// The exit code of the process when the tray menu ends it.
pub const QUIT_EXIT_CODE: i32 = 0;

/// One entry of the tray menu.
#[derive(Debug, Clone, Copy)]
pub struct MenuEntry {
    pub id: &'static str,
    pub label: &'static str,
}

impl Shortcut {
    /// The fixed binding of the daily window: control and the key I, and no
    /// other modifier.
    pub open spec fn is_daily_binding(self) -> bool {
        &&& self.control
        &&& !self.shift
        &&& !self.alt
        &&& !self.meta
        &&& self.key@ == "KeyI"@
    }

    /// The fixed binding of the daily window.
    pub fn daily() -> (shortcut: Shortcut)
        ensures
            shortcut.is_daily_binding(),
            shortcut.control && !shortcut.shift && !shortcut.alt && !shortcut.meta,
            shortcut.key@ == "KeyI"@,
    {
        Shortcut { control: true, shift: false, alt: false, meta: false, key: "KeyI".to_owned() }
    }

    /// Whether this is the binding of the daily window.
    pub fn matches_daily(&self) -> (hit: bool)
        ensures
            hit == self.is_daily_binding(),
    {
        self.control && !self.shift && !self.alt && !self.meta && same_text(&self.key, "KeyI")
    }
}

fn same_text(text: &String, literal: &str) -> (same: bool)
    ensures
        same == (text@ == literal@),
{
    let owned = literal.to_owned();
    *text == owned
}

/// What the tray menu entry with identifier `id` asks for: the quick-task and
/// daily entries toggle the daily window, the planner entry opens the
/// planner, the main entry shows the main window, the quit entry ends the
/// process. Any other identifier asks for nothing.
pub open spec fn menu_choice(id: Seq<char>) -> Dispatch {
    if id == "quick_task"@ || id == "daily"@ {
        Dispatch::Run(Command::ToggleDaily)
    } else if id == "planner"@ {
        Dispatch::Run(Command::OpenPlanner)
    } else if id == "main"@ {
        Dispatch::Run(Command::ShowMain)
    } else if id == "quit"@ {
        Dispatch::Quit
    } else {
        Dispatch::Ignore
    }
}

/// What `trigger` asks for. A menu entry goes by its identifier. A click on
/// the tray icon toggles the daily window if it was the left button. The
/// hotkey toggles the daily window when the daily binding is pressed; its
/// release, and any other key combination, asks for nothing.
pub open spec fn resolved(trigger: Trigger) -> Dispatch {
    match trigger {
        Trigger::MenuItem { id } => menu_choice(id@),
        Trigger::TrayClick { button } => if button == MouseButton::Left {
            Dispatch::Run(Command::ToggleDaily)
        } else {
            Dispatch::Ignore
        },
        Trigger::Hotkey { shortcut, state } => if shortcut.is_daily_binding() && state
            == KeyState::Pressed {
            Dispatch::Run(Command::ToggleDaily)
        } else {
            Dispatch::Ignore
        },
    }
}

/// Maps a trigger to what it asks for.
pub fn dispatch(trigger: &Trigger) -> (choice: Dispatch)
    ensures
        choice == resolved(*trigger),
{
    match trigger {
        Trigger::MenuItem { id } => {
            if same_text(id, "quick_task") || same_text(id, "daily") {
                Dispatch::Run(Command::ToggleDaily)
            } else if same_text(id, "planner") {
                Dispatch::Run(Command::OpenPlanner)
            } else if same_text(id, "main") {
                Dispatch::Run(Command::ShowMain)
            } else if same_text(id, "quit") {
                Dispatch::Quit
            } else {
                Dispatch::Ignore
            }
        },
        Trigger::TrayClick { button } => match button {
            MouseButton::Left => Dispatch::Run(Command::ToggleDaily),
            _ => Dispatch::Ignore,
        },
        Trigger::Hotkey { shortcut, state } => {
            if shortcut.matches_daily() {
                match state {
                    KeyState::Pressed => Dispatch::Run(Command::ToggleDaily),
                    KeyState::Released => Dispatch::Ignore,
                }
            } else {
                Dispatch::Ignore
            }
        },
    }
}

/// The entries of the tray menu, in the order in which they are shown.
pub open spec fn tray_entries() -> Seq<MenuEntry> {
    seq![
        MenuEntry { id: "quick_task", label: "➕ Tâche rapide" },
        MenuEntry { id: "daily", label: "📅 Vue quotidienne" },
        MenuEntry { id: "planner", label: "📋 Planificateur" },
        MenuEntry { id: "main", label: "🏠 Fenêtre principale" },
        MenuEntry { id: "quit", label: "❌ Quitter" },
    ]
}

/// The entries of the tray menu, in the order in which they are shown.
pub fn tray_menu() -> (menu: Vec<MenuEntry>)
    ensures
        menu@ == tray_entries(),
{
    let menu = vec![
        MenuEntry { id: "quick_task", label: "➕ Tâche rapide" },
        MenuEntry { id: "daily", label: "📅 Vue quotidienne" },
        MenuEntry { id: "planner", label: "📋 Planificateur" },
        MenuEntry { id: "main", label: "🏠 Fenêtre principale" },
        MenuEntry { id: "quit", label: "❌ Quitter" },
    ];
    assert(menu@ =~= tray_entries());
    menu
}

/// Every entry of the tray menu asks for something: the first two toggle the
/// daily window, the third opens the planner, the fourth shows the main
/// window, the last ends the process.
pub proof fn lemma_tray_menu_handled()
    ensures
        tray_entries().len() == 5,
        menu_choice(tray_entries()[0].id@) == Dispatch::Run(Command::ToggleDaily),
        menu_choice(tray_entries()[1].id@) == Dispatch::Run(Command::ToggleDaily),
        menu_choice(tray_entries()[2].id@) == Dispatch::Run(Command::OpenPlanner),
        menu_choice(tray_entries()[3].id@) == Dispatch::Run(Command::ShowMain),
        menu_choice(tray_entries()[4].id@) == Dispatch::Quit,
{
    reveal_strlit("quick_task");
    reveal_strlit("daily");
    reveal_strlit("planner");
    reveal_strlit("main");
    reveal_strlit("quit");
    assert("quick_task"@.len() == 10);
    assert("daily"@.len() == 5);
    assert("planner"@.len() == 7);
    assert("main"@.len() == 4 && "main"@[0] == 'm');
    assert("quit"@.len() == 4 && "quit"@[0] == 'q');
}

} // verus!
