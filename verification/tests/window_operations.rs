use listik::dispatch::{
    dispatch, tray_menu, Dispatch, KeyState, MouseButton, Shortcut, Trigger, QUIT_EXIT_CODE,
};
use listik::operation::{
    begin, can_begin, daily_spec, open_planner_window, planner_spec, show_main_window,
    toggle_daily_window,
    Command, Running, Step,
};
use listik::window::{
    WindowAction, WindowError, WindowName, WindowRegistry, WindowSpec, WindowState,
};

fn running(step: Step) -> Running {
    match step {
        Step::Perform(run) => run,
        Step::Finished { .. } => panic!("the operation ended early"),
    }
}

fn finished(step: Step) -> (WindowRegistry, Result<(), WindowError>) {
    match step {
        Step::Perform(_) => panic!("a call is still due"),
        Step::Finished { registry, result } => (registry, result),
    }
}

fn kind(action: &WindowAction) -> (&'static str, WindowName) {
    match action {
        WindowAction::Create(spec) => ("create", spec.name),
        WindowAction::Show(name) => ("show", *name),
        WindowAction::Focus(name) => ("focus", *name),
        WindowAction::Close(name) => ("close", *name),
    }
}

fn with_main() -> WindowRegistry {
    let mut registry = WindowRegistry::new();
    registry.ensure(WindowSpec {
        name: WindowName::Main,
        title: "Listik",
        route: "/",
        width: 800,
        height: 600,
        centered: true,
        decorations: true,
        resizable: true,
        transparent: false,
    });
    registry
}

#[test]
fn daily_layout_is_fixed() {
    let spec = daily_spec();
    assert_eq!(spec.name, WindowName::Daily);
    assert_eq!(spec.title, "Tâches du jour");
    assert_eq!(spec.route, "/daily");
    assert_eq!((spec.width, spec.height), (420, 650));
    assert!(spec.centered);
    assert!(!spec.decorations);
    assert!(!spec.resizable);
    assert!(spec.transparent);
}

#[test]
fn planner_layout_is_fixed() {
    let spec = planner_spec();
    assert_eq!(spec.name, WindowName::Planner);
    assert_eq!(spec.title, "Planificateur Listik");
    assert_eq!(spec.route, "/planner");
    assert_eq!((spec.width, spec.height), (1200, 800));
    assert!(spec.centered);
    assert!(!spec.decorations);
    assert!(spec.resizable);
    assert!(!spec.transparent);
}

#[test]
fn toggle_daily_when_absent_creates_shows_and_focuses() {
    let run = running(toggle_daily_window(WindowRegistry::new()));
    match run.action() {
        WindowAction::Create(spec) => {
            assert_eq!(spec.name, WindowName::Daily);
            assert_eq!((spec.width, spec.height), (420, 650));
            assert!(spec.transparent);
        },
        other => panic!("unexpected call {:?}", other),
    }
    let run = running(run.resume(Ok(())));
    assert_eq!(kind(&run.action()), ("show", WindowName::Daily));
    let run = running(run.resume(Ok(())));
    assert_eq!(kind(&run.action()), ("focus", WindowName::Daily));
    let (registry, result) = finished(run.resume(Ok(())));
    assert!(result.is_ok());
    assert_eq!(registry.state(WindowName::Daily), WindowState::VisibleFocused);
    assert_eq!(registry.created(), 1);
}

#[test]
fn toggle_daily_three_times_goes_visible_absent_visible() {
    let registry = WindowRegistry::new();
    let registry = running(toggle_daily_window(registry)).settle();
    assert_eq!(registry.state(WindowName::Daily), WindowState::VisibleFocused);
    let first = registry.lookup(WindowName::Daily).expect("the daily window is live");
    let registry = running(toggle_daily_window(registry)).settle();
    assert_eq!(registry.state(WindowName::Daily), WindowState::Absent);
    assert_eq!(registry.lookup(WindowName::Daily), None);
    let registry = running(toggle_daily_window(registry)).settle();
    assert_eq!(registry.state(WindowName::Daily), WindowState::VisibleFocused);
    let second = registry.lookup(WindowName::Daily).expect("the daily window is live");
    assert_ne!(first, second);
    assert_eq!(registry.created(), 2);
}

#[test]
fn toggle_daily_destroys_a_window_in_any_state() {
    let mut hidden = WindowRegistry::new();
    hidden.ensure(daily_spec());
    let mut unfocused = WindowRegistry::new();
    unfocused.ensure(daily_spec());
    unfocused.show(WindowName::Daily);
    let mut focused = WindowRegistry::new();
    let handle = focused.ensure(daily_spec());
    assert!(focused.show_and_focus(handle).is_ok());
    for registry in [hidden, unfocused, focused] {
        let run = running(toggle_daily_window(registry));
        assert_eq!(kind(&run.action()), ("close", WindowName::Daily));
        let (registry, result) = finished(run.resume(Ok(())));
        assert!(result.is_ok());
        assert_eq!(registry.state(WindowName::Daily), WindowState::Absent);
        assert_eq!(registry.created(), 1);
    }
}

#[test]
fn a_failed_creation_leaves_the_registry_as_it_was() {
    let run = running(toggle_daily_window(WindowRegistry::new()));
    let (registry, result) = finished(run.resume(Err("cannot create".to_string())));
    match result {
        Err(WindowError::PlatformFailure { message }) => assert_eq!(message, "cannot create"),
        other => panic!("unexpected result {:?}", other),
    }
    assert_eq!(registry.state(WindowName::Daily), WindowState::Absent);
    assert_eq!(registry.created(), 0);
}

#[test]
fn a_failed_show_keeps_the_created_window_hidden() {
    let run = running(toggle_daily_window(WindowRegistry::new()));
    let run = running(run.resume(Ok(())));
    let (registry, result) = finished(run.resume(Err("cannot show".to_string())));
    assert!(matches!(result, Err(WindowError::PlatformFailure { .. })));
    assert_eq!(registry.state(WindowName::Daily), WindowState::CreatedHidden);
    let run = running(toggle_daily_window(registry));
    assert_eq!(kind(&run.action()), ("close", WindowName::Daily));
}

#[test]
fn a_failed_focus_keeps_the_window_visible_without_focus() {
    let run = running(toggle_daily_window(WindowRegistry::new()));
    let run = running(run.resume(Ok(())));
    let run = running(run.resume(Ok(())));
    let (registry, result) = finished(run.resume(Err("cannot focus".to_string())));
    match result {
        Err(error) => assert_eq!(error.message(), "cannot focus"),
        Ok(()) => panic!("the failure was lost"),
    }
    assert_eq!(registry.state(WindowName::Daily), WindowState::VisibleUnfocused);
}

#[test]
fn a_failed_close_keeps_the_window() {
    let registry = running(toggle_daily_window(WindowRegistry::new())).settle();
    let handle = registry.lookup(WindowName::Daily);
    let run = running(toggle_daily_window(registry));
    let (registry, result) = finished(run.resume(Err("cannot close".to_string())));
    assert!(matches!(result, Err(WindowError::PlatformFailure { .. })));
    assert_eq!(registry.lookup(WindowName::Daily), handle);
    assert_eq!(registry.state(WindowName::Daily), WindowState::VisibleFocused);
}

#[test]
fn open_planner_when_absent_creates_it_with_the_fixed_layout() {
    let run = running(open_planner_window(WindowRegistry::new()));
    match run.action() {
        WindowAction::Create(spec) => {
            assert_eq!(spec.name, WindowName::Planner);
            assert_eq!((spec.width, spec.height), (1200, 800));
            assert!(spec.centered);
            assert!(!spec.decorations);
            assert!(spec.resizable);
            assert_eq!(spec.route, "/planner");
        },
        other => panic!("unexpected call {:?}", other),
    }
    let run = running(run.resume(Ok(())));
    assert_eq!(kind(&run.action()), ("show", WindowName::Planner));
    let run = running(run.resume(Ok(())));
    assert_eq!(kind(&run.action()), ("focus", WindowName::Planner));
    let (registry, result) = finished(run.resume(Ok(())));
    assert!(result.is_ok());
    assert!(registry.lookup(WindowName::Planner).is_some());
    assert_eq!(registry.state(WindowName::Planner), WindowState::VisibleFocused);
    assert_eq!(registry.created(), 1);
    let layout = registry.layout(WindowName::Planner).expect("the planner has a layout");
    assert_eq!((layout.width, layout.height), (1200, 800));
}

#[test]
fn a_failed_show_keeps_the_created_planner_hidden() {
    let run = running(open_planner_window(WindowRegistry::new()));
    let run = running(run.resume(Ok(())));
    let (registry, result) = finished(run.resume(Err("cannot show".to_string())));
    assert!(matches!(result, Err(WindowError::PlatformFailure { .. })));
    assert_eq!(registry.state(WindowName::Planner), WindowState::CreatedHidden);
    let run = running(open_planner_window(registry));
    assert_eq!(kind(&run.action()), ("show", WindowName::Planner));
}

#[test]
fn open_planner_again_shows_the_same_window() {
    let registry = running(open_planner_window(WindowRegistry::new())).settle();
    assert_eq!(registry.state(WindowName::Planner), WindowState::VisibleFocused);
    let handle = registry.lookup(WindowName::Planner).expect("the planner is live");
    let run = running(open_planner_window(registry));
    assert_eq!(kind(&run.action()), ("show", WindowName::Planner));
    let run = running(run.resume(Ok(())));
    assert_eq!(kind(&run.action()), ("focus", WindowName::Planner));
    let (registry, result) = finished(run.resume(Ok(())));
    assert!(result.is_ok());
    assert_eq!(registry.lookup(WindowName::Planner), Some(handle));
    assert_eq!(registry.state(WindowName::Planner), WindowState::VisibleFocused);
    assert_eq!(registry.created(), 1);
    let registry = running(open_planner_window(registry)).settle();
    assert_eq!(registry.lookup(WindowName::Planner), Some(handle));
    assert_eq!(registry.state(WindowName::Planner), WindowState::VisibleFocused);
    assert_eq!(registry.created(), 1);
}

#[test]
fn show_main_without_a_main_window_is_not_found_and_creates_nothing() {
    let (registry, result) = finished(show_main_window(WindowRegistry::new()));
    assert!(matches!(result, Err(WindowError::WindowNotFound)));
    assert_eq!(registry.lookup(WindowName::Main), None);
    assert_eq!(registry.created(), 0);
    let (registry, result) = finished(show_main_window(registry));
    match result {
        Err(error) => assert_eq!(error.message(), "Fenêtre principale introuvable"),
        Ok(()) => panic!("the main window cannot be there"),
    }
    assert_eq!(registry.created(), 0);
}

#[test]
fn show_main_with_a_main_window_shows_and_focuses_it() {
    let registry = with_main();
    let handle = registry.lookup(WindowName::Main).expect("the main window is live");
    let run = running(show_main_window(registry));
    assert_eq!(kind(&run.action()), ("show", WindowName::Main));
    let run = running(run.resume(Ok(())));
    assert_eq!(kind(&run.action()), ("focus", WindowName::Main));
    let (registry, result) = finished(run.resume(Ok(())));
    assert!(result.is_ok());
    assert_eq!(registry.lookup(WindowName::Main), Some(handle));
    assert_eq!(registry.state(WindowName::Main), WindowState::VisibleFocused);
    assert_eq!(registry.created(), 1);
}

#[test]
fn operations_leave_other_windows_alone() {
    let registry = with_main();
    let registry = running(open_planner_window(registry)).settle();
    let registry = running(toggle_daily_window(registry)).settle();
    assert_eq!(registry.state(WindowName::Main), WindowState::CreatedHidden);
    assert_eq!(registry.state(WindowName::Planner), WindowState::VisibleFocused);
    assert_eq!(registry.state(WindowName::Daily), WindowState::VisibleFocused);
    let planner = registry.lookup(WindowName::Planner);
    let registry = running(toggle_daily_window(registry)).settle();
    assert_eq!(registry.state(WindowName::Main), WindowState::CreatedHidden);
    assert_eq!(registry.state(WindowName::Planner), WindowState::VisibleFocused);
    assert_eq!(registry.lookup(WindowName::Planner), planner);
    assert_eq!(registry.state(WindowName::Daily), WindowState::Absent);
    assert_eq!(registry.created(), 3);
}

#[test]
fn begin_starts_the_operation_of_each_command() {
    let run = running(begin(WindowRegistry::new(), Command::ToggleDaily));
    assert_eq!(kind(&run.action()), ("create", WindowName::Daily));
    let run = running(begin(WindowRegistry::new(), Command::OpenPlanner));
    assert_eq!(kind(&run.action()), ("create", WindowName::Planner));
    let (_, result) = finished(begin(WindowRegistry::new(), Command::ShowMain));
    assert!(matches!(result, Err(WindowError::WindowNotFound)));
    let run = running(begin(with_main(), Command::ShowMain));
    assert_eq!(kind(&run.action()), ("show", WindowName::Main));
}

#[test]
fn menu_entries_resolve_to_their_operations() {
    let choose = |id: &str| dispatch(&Trigger::MenuItem { id: id.to_string() });
    assert_eq!(choose("quick_task"), Dispatch::Run(Command::ToggleDaily));
    assert_eq!(choose("daily"), Dispatch::Run(Command::ToggleDaily));
    assert_eq!(choose("planner"), Dispatch::Run(Command::OpenPlanner));
    assert_eq!(choose("main"), Dispatch::Run(Command::ShowMain));
    assert_eq!(choose("quit"), Dispatch::Quit);
    assert_eq!(choose(""), Dispatch::Ignore);
    assert_eq!(choose("Daily"), Dispatch::Ignore);
    assert_eq!(choose("quit "), Dispatch::Ignore);
    assert_eq!(choose("settings"), Dispatch::Ignore);
    assert_eq!(QUIT_EXIT_CODE, 0);
}

#[test]
fn tray_menu_has_five_entries_that_are_all_handled() {
    let menu = tray_menu();
    let ids: Vec<&str> = menu.iter().map(|entry| entry.id).collect();
    assert_eq!(ids, vec!["quick_task", "daily", "planner", "main", "quit"]);
    let labels: Vec<&str> = menu.iter().map(|entry| entry.label).collect();
    assert_eq!(
        labels,
        vec![
            "➕ Tâche rapide",
            "📅 Vue quotidienne",
            "📋 Planificateur",
            "🏠 Fenêtre principale",
            "❌ Quitter",
        ]
    );
    for entry in menu.iter() {
        assert_ne!(dispatch(&Trigger::MenuItem { id: entry.id.to_string() }), Dispatch::Ignore);
    }
}

#[test]
fn left_click_on_the_tray_icon_toggles_the_daily_window() {
    let click = |button: MouseButton| dispatch(&Trigger::TrayClick { button });
    assert_eq!(click(MouseButton::Left), Dispatch::Run(Command::ToggleDaily));
    assert_eq!(click(MouseButton::Right), Dispatch::Ignore);
    assert_eq!(click(MouseButton::Middle), Dispatch::Ignore);
}

#[test]
fn hotkey_toggles_on_press_only() {
    let press = Trigger::Hotkey { shortcut: Shortcut::daily(), state: KeyState::Pressed };
    let release = Trigger::Hotkey { shortcut: Shortcut::daily(), state: KeyState::Released };
    assert_eq!(dispatch(&press), Dispatch::Run(Command::ToggleDaily));
    assert_eq!(dispatch(&release), Dispatch::Ignore);
}

#[test]
fn daily_binding_is_control_and_the_key_i() {
    let binding = Shortcut::daily();
    assert!(binding.control);
    assert!(!binding.shift);
    assert!(!binding.alt);
    assert!(!binding.meta);
    assert_eq!(binding.key, "KeyI");
    assert!(binding.matches_daily());
}

#[test]
fn other_key_combinations_ask_for_nothing() {
    let with = |change: fn(&mut Shortcut)| {
        let mut shortcut = Shortcut::daily();
        change(&mut shortcut);
        let hit = shortcut.matches_daily();
        (hit, dispatch(&Trigger::Hotkey { shortcut, state: KeyState::Pressed }))
    };
    assert_eq!(with(|s| s.control = false), (false, Dispatch::Ignore));
    assert_eq!(with(|s| s.shift = true), (false, Dispatch::Ignore));
    assert_eq!(with(|s| s.alt = true), (false, Dispatch::Ignore));
    assert_eq!(with(|s| s.meta = true), (false, Dispatch::Ignore));
    assert_eq!(with(|s| s.key = "KeyJ".to_string()), (false, Dispatch::Ignore));
    assert_eq!(with(|s| s.key = "keyi".to_string()), (false, Dispatch::Ignore));
    assert_eq!(with(|_| ()), (true, Dispatch::Run(Command::ToggleDaily)));
}

#[test]
fn every_command_can_begin_on_a_fresh_registry() {
    let registry = WindowRegistry::new();
    assert!(can_begin(&registry, Command::ToggleDaily));
    assert!(can_begin(&registry, Command::OpenPlanner));
    assert!(can_begin(&registry, Command::ShowMain));
}

#[test]
fn show_main_finds_a_window_that_was_observed() {
    let mut registry = WindowRegistry::new();
    registry.observe(WindowName::Main, WindowState::CreatedHidden);
    let registry = running(show_main_window(registry)).settle();
    assert_eq!(registry.state(WindowName::Main), WindowState::VisibleFocused);
    assert_eq!(registry.created(), 1);
}
