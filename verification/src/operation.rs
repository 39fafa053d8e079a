//! The three window operations, each as a short run of calls into the window
//! system. The library decides which call comes next; the caller makes the
//! call and reports how it went. An operation takes the registry with it and
//! hands it back when it ends, so no two operations can ever run on one
//! registry at the same time.

use crate::window::{
    RegistryModel, WindowAction, WindowError, WindowName, WindowRegistry, WindowSpec, WindowState,
};
use vstd::prelude::*;

verus! {

/// A window operation that a trigger can ask for.
#[derive(Debug, Clone, Copy, PartialEq, Eq, Structural)]
pub enum Command {
    /// Create and show the daily window, or destroy it if it exists.
    ToggleDaily,
    /// Show the planner window, creating it first if need be.
    OpenPlanner,
    /// Show the main window, which must exist already.
    ShowMain,
}

/// The layout of the daily window: a small fixed popup without frame.
pub open spec fn daily_layout() -> WindowSpec {
    WindowSpec {
        name: WindowName::Daily,
        title: "Tâches du jour",
        route: "/daily",
        width: 420,
        height: 650,
        centered: true,
        decorations: false,
        resizable: false,
        transparent: true,
    }
}

/// The layout of the planner window: large, without frame, resizable.
pub open spec fn planner_layout() -> WindowSpec {
    WindowSpec {
        name: WindowName::Planner,
        title: "Planificateur Listik",
        route: "/planner",
        width: 1200,
        height: 800,
        centered: true,
        decorations: false,
        resizable: true,
        transparent: false,
    }
}

/// The layout of the daily window.
pub fn daily_spec() -> (spec: WindowSpec)
    ensures
        spec == daily_layout(),
{
    WindowSpec {
        name: WindowName::Daily,
        title: "Tâches du jour",
        route: "/daily",
        width: 420,
        height: 650,
        centered: true,
        decorations: false,
        resizable: false,
        transparent: true,
    }
}

/// The layout of the planner window.
pub fn planner_spec() -> (spec: WindowSpec)
    ensures
        spec == planner_layout(),
{
    WindowSpec {
        name: WindowName::Planner,
        title: "Planificateur Listik",
        route: "/planner",
        width: 1200,
        height: 800,
        centered: true,
        decorations: false,
        resizable: true,
        transparent: false,
    }
}

/// The window that `command` is about.
pub open spec fn target(command: Command) -> WindowName {
    match command {
        Command::ToggleDaily => WindowName::Daily,
        Command::OpenPlanner => WindowName::Planner,
        Command::ShowMain => WindowName::Main,
    }
}

/// The calls that `command` makes, in order, on a registry that stands at
/// `registry`. The daily window is created, shown and focused, or else
/// destroyed; the planner window is shown and focused, after it has been
/// created if it was absent; the main window is shown and focused, and never
/// created.
pub open spec fn plan_for(command: Command, registry: RegistryModel) -> Seq<WindowAction> {
    match command {
        Command::ToggleDaily => if registry.present(WindowName::Daily) {
            seq![WindowAction::Close(WindowName::Daily)]
        } else {
            seq![
                WindowAction::Create(daily_layout()),
                WindowAction::Show(WindowName::Daily),
                WindowAction::Focus(WindowName::Daily),
            ]
        },
        Command::OpenPlanner => if registry.present(WindowName::Planner) {
            seq![
                WindowAction::Show(WindowName::Planner),
                WindowAction::Focus(WindowName::Planner),
            ]
        } else {
            seq![
                WindowAction::Create(planner_layout()),
                WindowAction::Show(WindowName::Planner),
                WindowAction::Focus(WindowName::Planner),
            ]
        },
        Command::ShowMain => if registry.present(WindowName::Main) {
            seq![WindowAction::Show(WindowName::Main), WindowAction::Focus(WindowName::Main)]
        } else {
            Seq::empty()
        },
    }
}

/// Whether `command` can start on `registry`: where it creates a window, a
/// serial number must still be free.
pub open spec fn can_start(command: Command, registry: RegistryModel) -> bool {
    command != Command::ShowMain ==> registry.has_room_for(target(command))
}

/// The registry after every call of `actions` has been carried out in order.
pub open spec fn performed(registry: RegistryModel, actions: Seq<WindowAction>) -> RegistryModel
    decreases actions.len(),
{
    if actions.len() == 0 {
        registry
    } else {
        performed(registry.applied(actions[0]), actions.drop_first())
    }
}

/// An operation under way: the registry as it stands, and the calls that are
/// still to be made. The first of them is the one to make now.
pub struct Running {
    registry: WindowRegistry,
    plan: Vec<WindowAction>,
    at: usize,
}

/// Where an operation stands after a step.
pub enum Step {
    /// A call is to be made: `0.action()`. Report its outcome with
    /// `0.resume(..)`.
    Perform(Running),
    /// The operation is over. The registry is handed back with the result.
    Finished { registry: WindowRegistry, result: Result<(), WindowError> },
}

impl Running {
    #[verifier::type_invariant]
    closed spec fn inv(self) -> bool {
        &&& self.at < self.plan@.len()
        &&& self.registry@.admits(self.plan@[self.at as int])
        &&& forall|i: int|
            self.at < i < self.plan@.len() ==> !(#[trigger] self.plan@[i] is Create)
    }

    /// The registry as it stands: every call reported as done is recorded.
    pub closed spec fn registry(self) -> RegistryModel {
        self.registry@
    }

    /// The calls still to be made, the current one first. Never empty.
    pub closed spec fn pending(self) -> Seq<WindowAction> {
        self.plan@.subrange(self.at as int, self.plan@.len() as int)
    }

    /// The registry that the operation ends with if every pending call
    /// succeeds.
    pub open spec fn goal(self) -> RegistryModel {
        performed(self.registry(), self.pending())
    }

    fn start(registry: WindowRegistry, plan: Vec<WindowAction>) -> (run: Running)
        requires
            plan@.len() > 0,
            registry@.admits(plan@[0]),
            forall|i: int| 0 < i < plan@.len() ==> !(#[trigger] plan@[i] is Create),
        ensures
            run.registry() == registry@,
            run.pending() == plan@,
    {
        assert(plan@.subrange(0, plan@.len() as int) =~= plan@);
        Running { registry, plan, at: 0 }
    }

    /// The call to make now.
    pub fn action(&self) -> (action: WindowAction)
        ensures
            self.pending().len() > 0,
            action == self.pending()[0],
    {
        proof {
            use_type_invariant(self);
        }
        self.plan[self.at]
    }

    /// Takes the outcome of the current call. A failure ends the operation
    /// with the window system's message and leaves the registry as it
    /// stands. A success is recorded; then the next call is due, or, after
    /// the last one, the operation has succeeded.
    pub fn resume(self, outcome: Result<(), String>) -> (step: Step)
        ensures
            self.pending().len() > 0,
            match outcome {
                Err(message) => step.finished_with(
                    self.registry(),
                    Err(WindowError::PlatformFailure { message }),
                ),
                Ok(_) => if self.pending().len() > 1 {
                    step.performs(
                        self.registry().applied(self.pending()[0]),
                        self.pending().drop_first(),
                    )
                } else {
                    step.finished_with(self.registry().applied(self.pending()[0]), Ok(()))
                },
            },
            outcome is Ok ==> (step matches Step::Perform(next) ==> next.goal() == self.goal()),
            outcome is Ok ==> (step matches Step::Finished { registry, result } ==> registry@
                == self.goal()),
    {
        proof {
            use_type_invariant(&self);
        }
        let ghost before = self;
        let Running { registry, plan, at } = self;
        let mut registry = registry;
        match outcome {
            Err(message) => Step::Finished {
                registry,
                result: Err(WindowError::PlatformFailure { message }),
            },
            Ok(_) => {
                let action = plan[at];
                registry.record(action);
                proof {
                    let rest = before.pending().drop_first();
                    assert(rest =~= plan@.subrange(at + 1, plan@.len() as int));
                    if rest.len() == 0 {
                        assert(performed(registry@, rest) == registry@);
                    }
                }
                let total = plan.len();
                if at + 1 < total {
                    Step::Perform(Running { registry, plan, at: at + 1 })
                } else {
                    Step::Finished { registry, result: Ok(()) }
                }
            },
        }
    }

    /// Carries the operation through as if every pending call succeeded, and
    /// hands back the registry it ends with.
    pub fn settle(self) -> (registry: WindowRegistry)
        ensures
            registry@ == self.goal(),
    {
        let ghost goal = self.goal();
        let mut step = self.resume(Ok(()));
        loop
            invariant
                goal == self.goal(),
                step matches Step::Perform(run) ==> run.goal() == goal,
                step matches Step::Finished { registry, result } ==> registry@ == goal,
            decreases
                (if let Step::Perform(run) = step {
                    run.pending().len()
                } else {
                    0
                }),
        {
            match step {
                Step::Perform(run) => {
                    step = run.resume(Ok(()));
                },
                Step::Finished { registry, result } => {
                    return registry;
                },
            }
        }
    }
}

impl Step {
    /// A call is due, with the registry standing at `registry` and the calls
    /// `pending` still to be made.
    pub open spec fn performs(self, registry: RegistryModel, pending: Seq<WindowAction>) -> bool {
        &&& self matches Step::Perform(run)
        &&& run.registry() == registry
        &&& run.pending() == pending
    }

    /// The operation is over with `result`, and the registry stands at
    /// `registry`.
    pub open spec fn finished_with(
        self,
        registry: RegistryModel,
        result: Result<(), WindowError>,
    ) -> bool {
        &&& self matches Step::Finished { registry: ended, result: outcome }
        &&& ended@ == registry
        &&& outcome == result
    }
}

/// Toggles the daily window. If it is absent it is created with its fixed
/// layout, then shown, then focused; if it is there, in whatever state, it is
/// destroyed.
pub fn toggle_daily_window(registry: WindowRegistry) -> (step: Step)
    requires
        can_start(Command::ToggleDaily, registry@),
    ensures
        step.performs(registry@, plan_for(Command::ToggleDaily, registry@)),
{
    let plan = if let Some(_window) = registry.lookup(WindowName::Daily) {
        vec![WindowAction::Close(WindowName::Daily)]
    } else {
        vec![
            WindowAction::Create(daily_spec()),
            WindowAction::Show(WindowName::Daily),
            WindowAction::Focus(WindowName::Daily),
        ]
    };
    assert(plan@ =~= plan_for(Command::ToggleDaily, registry@));
    Step::Perform(Running::start(registry, plan))
}

/// Opens the planner window. If it is there it is shown and focused, the
/// same window as before; if it is absent it is created with its fixed
/// layout, then shown, then focused.
pub fn open_planner_window(registry: WindowRegistry) -> (step: Step)
    requires
        can_start(Command::OpenPlanner, registry@),
    ensures
        step.performs(registry@, plan_for(Command::OpenPlanner, registry@)),
{
    let planner_window = registry.lookup(WindowName::Planner);
    let plan = match planner_window {
        Some(_window) => vec![
            WindowAction::Show(WindowName::Planner),
            WindowAction::Focus(WindowName::Planner),
        ],
        None => vec![
            WindowAction::Create(planner_spec()),
            WindowAction::Show(WindowName::Planner),
            WindowAction::Focus(WindowName::Planner),
        ],
    };
    assert(plan@ =~= plan_for(Command::OpenPlanner, registry@));
    Step::Perform(Running::start(registry, plan))
}

/// Shows the main window and gives it the focus. The main window is never
/// created here: if it is absent the operation fails at once, with no call
/// made and the registry untouched.
pub fn show_main_window(registry: WindowRegistry) -> (step: Step)
    ensures
        if registry@.present(WindowName::Main) {
            step.performs(registry@, plan_for(Command::ShowMain, registry@))
        } else {
            step.finished_with(registry@, Err(WindowError::WindowNotFound))
        },
{
    let main_window = registry.lookup(WindowName::Main);
    match main_window {
        Some(_window) => {
            let plan = vec![
                WindowAction::Show(WindowName::Main),
                WindowAction::Focus(WindowName::Main),
            ];
            Step::Perform(Running::start(registry, plan))
        },
        None => Step::Finished { registry, result: Err(WindowError::WindowNotFound) },
    }
}

/// Whether `command` can start on `registry`.
pub fn can_begin(registry: &WindowRegistry, command: Command) -> (ready: bool)
    ensures
        ready == can_start(command, registry@),
{
    match command {
        Command::ToggleDaily => registry.has_room_for(WindowName::Daily),
        Command::OpenPlanner => registry.has_room_for(WindowName::Planner),
        Command::ShowMain => true,
    }
}

/// Starts `command` on `registry`.
pub fn begin(registry: WindowRegistry, command: Command) -> (step: Step)
    requires
        can_start(command, registry@),
    ensures
        if plan_for(command, registry@).len() > 0 {
            step.performs(registry@, plan_for(command, registry@))
        } else {
            step.finished_with(registry@, Err(WindowError::WindowNotFound))
        },
{
    match command {
        Command::ToggleDaily => toggle_daily_window(registry),
        Command::OpenPlanner => open_planner_window(registry),
        Command::ShowMain => show_main_window(registry),
    }
}

/// The registry after `command` has run on `registry` with every call
/// succeeding.
pub open spec fn completed(command: Command, registry: RegistryModel) -> RegistryModel {
    performed(registry, plan_for(command, registry))
}

proof fn lemma_performed_one(registry: RegistryModel, a: WindowAction)
    ensures
        performed(registry, seq![a]) == registry.applied(a),
{
    reveal_with_fuel(performed, 2);
}

proof fn lemma_performed_two(registry: RegistryModel, a: WindowAction, b: WindowAction)
    ensures
        performed(registry, seq![a, b]) == registry.applied(a).applied(b),
{
    assert(seq![a, b].drop_first() =~= seq![b]);
    lemma_performed_one(registry.applied(a), b);
}

proof fn lemma_performed_three(
    registry: RegistryModel,
    a: WindowAction,
    b: WindowAction,
    c: WindowAction,
)
    ensures
        performed(registry, seq![a, b, c]) == registry.applied(a).applied(b).applied(c),
{
    assert(seq![a, b, c].drop_first() =~= seq![b, c]);
    lemma_performed_two(registry.applied(a), b, c);
}

/// What each command comes to when every call succeeds, in terms of the
/// registry's own operations.
pub proof fn lemma_completed(registry: RegistryModel)
    ensures
        completed(Command::ToggleDaily, registry) == if registry.present(WindowName::Daily) {
            registry.closed(WindowName::Daily)
        } else {
            registry.ensured(daily_layout()).shown(WindowName::Daily).focused(WindowName::Daily)
        },
        completed(Command::OpenPlanner, registry) == if registry.present(WindowName::Planner) {
            registry.shown(WindowName::Planner).focused(WindowName::Planner)
        } else {
            registry.ensured(planner_layout()).shown(WindowName::Planner).focused(
                WindowName::Planner,
            )
        },
        completed(Command::ShowMain, registry) == registry.shown(WindowName::Main).focused(
            WindowName::Main,
        ),
{
    lemma_performed_one(registry, WindowAction::Close(WindowName::Daily));
    lemma_performed_three(
        registry,
        WindowAction::Create(daily_layout()),
        WindowAction::Show(WindowName::Daily),
        WindowAction::Focus(WindowName::Daily),
    );
    lemma_performed_two(
        registry,
        WindowAction::Show(WindowName::Planner),
        WindowAction::Focus(WindowName::Planner),
    );
    lemma_performed_three(
        registry,
        WindowAction::Create(planner_layout()),
        WindowAction::Show(WindowName::Planner),
        WindowAction::Focus(WindowName::Planner),
    );
    lemma_performed_two(
        registry,
        WindowAction::Show(WindowName::Main),
        WindowAction::Focus(WindowName::Main),
    );
}

/// A command that can start leaves the registry well formed, touches no
/// window but its own, and creates at most one window.
pub proof fn lemma_completed_wf(command: Command, registry: RegistryModel, other: WindowName)
    requires
        registry.wf(),
        can_start(command, registry),
        other != target(command),
    ensures
        completed(command, registry).wf(),
        completed(command, registry).present(other) == registry.present(other),
        registry.present(other) ==> completed(command, registry).windows[other]
            == registry.windows[other],
        registry.created <= completed(command, registry).created <= registry.created + 1,
{
    lemma_completed(registry);
    let after = completed(command, registry);
    assert forall|name: WindowName| #[trigger]
        after.windows.dom().contains(name) implies after.windows[name].filed_under(
        name,
        after.created,
    ) by {
        if registry.windows.dom().contains(name) {
        }
    }
}

/// Toggling the daily window while it is absent leaves it visible and
/// focused; toggling again leaves it absent, with the live windows as they
/// were at the start; a third toggle leaves it visible and focused again.
pub proof fn lemma_toggle_daily_cycle(registry: RegistryModel)
    requires
        !registry.present(WindowName::Daily),
    ensures
        ({
            let once = completed(Command::ToggleDaily, registry);
            let twice = completed(Command::ToggleDaily, once);
            let thrice = completed(Command::ToggleDaily, twice);
            &&& once.state(WindowName::Daily) == WindowState::VisibleFocused
            &&& once.windows[WindowName::Daily].layout == Some(daily_layout())
            &&& twice.state(WindowName::Daily) == WindowState::Absent
            &&& twice.windows == registry.windows
            &&& thrice.state(WindowName::Daily) == WindowState::VisibleFocused
        }),
{
    let once = completed(Command::ToggleDaily, registry);
    let twice = completed(Command::ToggleDaily, once);
    lemma_completed(registry);
    lemma_completed(once);
    lemma_completed(twice);
    assert(twice.windows =~= registry.windows);
}

/// Toggling the daily window while it is present, in whatever state,
/// destroys it.
pub proof fn lemma_toggle_daily_destroys(registry: RegistryModel)
    requires
        registry.present(WindowName::Daily),
    ensures
        completed(Command::ToggleDaily, registry).state(WindowName::Daily) == WindowState::Absent,
        completed(Command::ToggleDaily, registry).created == registry.created,
{
    lemma_completed(registry);
}

/// Showing the main window never creates a window: no call of its plan is a
/// creation, and while the main window is absent there is no call at all,
/// so the registry stays as it is.
pub proof fn lemma_show_main_creates_nothing(registry: RegistryModel)
    ensures
        forall|i: int|
            0 <= i < plan_for(Command::ShowMain, registry).len() ==> !(#[trigger] plan_for(
                Command::ShowMain,
                registry,
            )[i] is Create),
        completed(Command::ShowMain, registry).created == registry.created,
        !registry.present(WindowName::Main) ==> {
            &&& plan_for(Command::ShowMain, registry).len() == 0
            &&& completed(Command::ShowMain, registry) == registry
        },
{
    lemma_completed(registry);
}

/// Opening the planner while it is absent creates it with its fixed layout
/// (1200 by 800, centered, without decorations, resizable) and leaves it
/// visible and focused. Opening it again creates nothing: the same window,
/// with the same layout, is shown and focused.
pub proof fn lemma_open_planner_twice(registry: RegistryModel)
    requires
        registry.wf(),
        !registry.present(WindowName::Planner),
        registry.created < u64::MAX,
    ensures
        ({
            let once = completed(Command::OpenPlanner, registry);
            let twice = completed(Command::OpenPlanner, once);
            &&& once.lookup(WindowName::Planner) is Some
            &&& once.created == registry.created + 1
            &&& once.state(WindowName::Planner) == WindowState::VisibleFocused
            &&& once.windows[WindowName::Planner].layout == Some(planner_layout())
            &&& planner_layout().width == 1200
            &&& planner_layout().height == 800
            &&& planner_layout().centered
            &&& !planner_layout().decorations
            &&& planner_layout().resizable
            &&& twice.lookup(WindowName::Planner) == once.lookup(WindowName::Planner)
            &&& twice.windows[WindowName::Planner].layout == Some(planner_layout())
            &&& twice.created == once.created
            &&& twice.state(WindowName::Planner) == WindowState::VisibleFocused
        }),
{
    let once = completed(Command::OpenPlanner, registry);
    lemma_completed(registry);
    lemma_completed(once);
}

} // verus!
