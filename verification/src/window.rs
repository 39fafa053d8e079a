//! The registry of the application's windows: at most one live window per
//! name, each with an identity, a state and, where the registry had it
//! created, the layout it was created with.

use vstd::prelude::*;

verus! {

/// The names under which a window can exist.
#[derive(Debug, Clone, Copy, PartialEq, Eq, Structural)]
pub enum WindowName {
    Main,
    Daily,
    Planner,
}

impl WindowName {
    /// The label under which the window system knows the window.
    pub open spec fn label_text(self) -> Seq<char> {
        match self {
            WindowName::Main => "main"@,
            WindowName::Daily => "daily"@,
            WindowName::Planner => "planner"@,
        }
    }

    /// The label under which the window system knows the window.
    pub fn label(&self) -> (label: &'static str)
        ensures
            label@ == self.label_text(),
    {
        match self {
            WindowName::Main => "main",
            WindowName::Daily => "daily",
            WindowName::Planner => "planner",
        }
    }
}

/// Where a window stands in its life.
#[derive(Debug, Clone, Copy, PartialEq, Eq, Structural)]
pub enum WindowState {
    Absent,
    CreatedHidden,
    VisibleFocused,
    VisibleUnfocused,
}

impl WindowState {
    /// The state of a window as the window system reports it: whether it
    /// exists, whether it is visible, whether it holds the input focus. A
    /// hidden window counts as unfocused whatever is reported of its focus.
    pub open spec fn seen_as(live: bool, visible: bool, focused: bool) -> WindowState {
        if !live {
            WindowState::Absent
        } else if !visible {
            WindowState::CreatedHidden
        } else if focused {
            WindowState::VisibleFocused
        } else {
            WindowState::VisibleUnfocused
        }
    }

    /// The state of a window as the window system reports it.
    pub fn seen(live: bool, visible: bool, focused: bool) -> (state: WindowState)
        ensures
            state == WindowState::seen_as(live, visible, focused),
    {
        if !live {
            WindowState::Absent
        } else if !visible {
            WindowState::CreatedHidden
        } else if focused {
            WindowState::VisibleFocused
        } else {
            WindowState::VisibleUnfocused
        }
    }
}

/// The fixed parameters a window is created with.
#[derive(Debug, Clone, Copy)]
pub struct WindowSpec {
    pub name: WindowName,
    pub title: &'static str,
    pub route: &'static str,
    pub width: u32,
    pub height: u32,
    pub centered: bool,
    pub decorations: bool,
    pub resizable: bool,
    pub transparent: bool,
}

/// The identity of one live window: its name and the serial number it got
/// when it was created. A window created later under the same name has
/// another serial number.
#[derive(Debug, Clone, Copy, PartialEq, Eq, Structural)]
pub struct Handle {
    pub name: WindowName,
    pub instance: u64,
}

/// What the registry keeps of a live window.
#[derive(Debug, Clone, Copy)]
pub struct Window {
    pub handle: Handle,
    pub state: WindowState,
    pub layout: Option<WindowSpec>,
}

impl Window {
    /// The window is rightly filed under `name` in a registry that has given
    /// out `created` serial numbers: it carries that name, a serial number
    /// that was given out, a state other than absent, and a layout, if any,
    /// made for that name.
    pub open spec fn filed_under(self, name: WindowName, created: nat) -> bool {
        &&& self.handle.name == name
        &&& 1 <= self.handle.instance <= created
        &&& self.state != WindowState::Absent
        &&& (self.layout matches Some(spec) ==> spec.name == name)
    }
}

/// One call into the window system.
#[derive(Debug, Clone, Copy)]
pub enum WindowAction {
    /// Create the window `0.name` with the layout `0`.
    Create(WindowSpec),
    /// Make the window visible.
    Show(WindowName),
    /// Give the window the input focus.
    Focus(WindowName),
    /// Destroy the window.
    Close(WindowName),
}

/// Why a window operation failed.
#[derive(Debug)]
pub enum WindowError {
    /// A window that had to exist already does not.
    WindowNotFound,
    /// The window system refused a call; the message is its own.
    PlatformFailure { message: String },
}

impl WindowError {
    /// The failure as the one line of text that callers outside get.
    pub open spec fn text(self) -> Seq<char> {
        match self {
            WindowError::WindowNotFound => "Fenêtre principale introuvable"@,
            WindowError::PlatformFailure { message } => message@,
        }
    }

    /// The failure as the one line of text that callers outside get.
    pub fn message(&self) -> (line: String)
        ensures
            line@ == self.text(),
    {
        match self {
            WindowError::WindowNotFound => "Fenêtre principale introuvable".to_owned(),
            WindowError::PlatformFailure { message } => message.clone(),
        }
    }
}

/// The registry as a mathematical value: the live windows by name, and how
/// many windows have been created so far.
pub struct RegistryModel {
    pub windows: Map<WindowName, Window>,
    pub created: nat,
}

impl RegistryModel {
    /// No window, none ever created.
    pub open spec fn empty() -> RegistryModel {
        RegistryModel { windows: Map::empty(), created: 0 }
    }

    /// Every live window is filed under its own name, is in a state other
    /// than absent, and carries a serial number that has been given out.
    pub open spec fn wf(self) -> bool {
        forall|name: WindowName| #[trigger]
            self.windows.dom().contains(name) ==> self.windows[name].filed_under(
                name,
                self.created,
            )
    }

    pub open spec fn present(self, name: WindowName) -> bool {
        self.windows.dom().contains(name)
    }

    pub open spec fn lookup(self, name: WindowName) -> Option<Handle> {
        if self.present(name) {
            Some(self.windows[name].handle)
        } else {
            None
        }
    }

    pub open spec fn state(self, name: WindowName) -> WindowState {
        if self.present(name) {
            self.windows[name].state
        } else {
            WindowState::Absent
        }
    }

    /// `handle` is the identity of the window that is live under its name.
    pub open spec fn is_live(self, handle: Handle) -> bool {
        self.lookup(handle.name) == Some(handle)
    }

    /// The number of live windows named `name`: one or none.
    pub open spec fn live_count(self, name: WindowName) -> nat {
        if self.present(name) {
            1
        } else {
            0
        }
    }

    /// Whether a window named `name` can be asked for: it is there, or a
    /// serial number is still free for a new one.
    pub open spec fn has_room_for(self, name: WindowName) -> bool {
        self.present(name) || self.created < u64::MAX
    }

    /// The registry with a new window under `name`, in state `state` and with
    /// the next serial number.
    pub open spec fn entered(
        self,
        name: WindowName,
        state: WindowState,
        layout: Option<WindowSpec>,
    ) -> RegistryModel {
        RegistryModel {
            windows: self.windows.insert(
                name,
                Window {
                    handle: Handle { name, instance: (self.created + 1) as u64 },
                    state,
                    layout,
                },
            ),
            created: self.created + 1,
        }
    }

    /// The registry after a window has been asked for: an existing one is
    /// kept as it is; otherwise one is created, hidden, with the next serial
    /// number and the layout `spec`.
    pub open spec fn ensured(self, spec: WindowSpec) -> RegistryModel {
        if self.present(spec.name) {
            self
        } else {
            self.entered(spec.name, WindowState::CreatedHidden, Some(spec))
        }
    }

    /// The registry with the window `name`, if there is one, in state `state`.
    pub open spec fn with_state(self, name: WindowName, state: WindowState) -> RegistryModel {
        if self.present(name) {
            RegistryModel {
                windows: self.windows.insert(name, Window { state, ..self.windows[name] }),
                ..self
            }
        } else {
            self
        }
    }

    /// The registry after the window `name` has been made visible: a hidden
    /// window becomes visible without focus, a visible one stays as it is.
    pub open spec fn shown(self, name: WindowName) -> RegistryModel {
        if self.state(name) == WindowState::CreatedHidden {
            self.with_state(name, WindowState::VisibleUnfocused)
        } else {
            self
        }
    }

    /// The registry after the window `name` has been given the input focus:
    /// a visible window becomes focused, a hidden one cannot hold the focus.
    pub open spec fn focused(self, name: WindowName) -> RegistryModel {
        if self.state(name) == WindowState::VisibleUnfocused {
            self.with_state(name, WindowState::VisibleFocused)
        } else {
            self
        }
    }

    /// The registry after the window `name` has been destroyed.
    pub open spec fn closed(self, name: WindowName) -> RegistryModel {
        RegistryModel { windows: self.windows.remove(name), ..self }
    }

    /// The registry brought in line with what the window system shows of the
    /// window `name`. A window that is gone is forgotten. One that is there
    /// is taken in state `seen`: a known window keeps its identity and its
    /// layout, an unknown one is entered as new, with no layout on record.
    pub open spec fn observed(self, name: WindowName, seen: WindowState) -> RegistryModel {
        if seen == WindowState::Absent {
            self.closed(name)
        } else if self.present(name) {
            self.with_state(name, seen)
        } else {
            self.entered(name, seen, None)
        }
    }

    /// The registry after the window system has carried out `action`.
    pub open spec fn applied(self, action: WindowAction) -> RegistryModel {
        match action {
            WindowAction::Create(spec) => self.ensured(spec),
            WindowAction::Show(name) => self.shown(name),
            WindowAction::Focus(name) => self.focused(name),
            WindowAction::Close(name) => self.closed(name),
        }
    }

    /// Whether `action` can be recorded: a creation needs a serial number
    /// that is still free.
    pub open spec fn admits(self, action: WindowAction) -> bool {
        action matches WindowAction::Create(spec) ==> self.has_room_for(spec.name)
    }
}

/// The registry: the only owner of the mapping from names to live windows.
pub struct WindowRegistry {
    main: Option<Window>,
    daily: Option<Window>,
    planner: Option<Window>,
    created: u64,
}

impl View for WindowRegistry {
    type V = RegistryModel;

    closed spec fn view(&self) -> RegistryModel {
        RegistryModel {
            windows: Map::new(
                |name: WindowName| self.slot(name) is Some,
                |name: WindowName| self.slot(name)->0,
            ),
            created: self.created as nat,
        }
    }
}

impl WindowRegistry {
    closed spec fn slot(self, name: WindowName) -> Option<Window> {
        match name {
            WindowName::Main => self.main,
            WindowName::Daily => self.daily,
            WindowName::Planner => self.planner,
        }
    }

    closed spec fn slot_ok(self, name: WindowName) -> bool {
        self.slot(name) matches Some(window) ==> window.filed_under(name, self.created as nat)
    }

    #[verifier::type_invariant]
    closed spec fn inv(self) -> bool {
        &&& self.slot_ok(WindowName::Main)
        &&& self.slot_ok(WindowName::Daily)
        &&& self.slot_ok(WindowName::Planner)
    }

    proof fn lemma_inv_wf(self)
        requires
            self.inv(),
        ensures
            self@.wf(),
    {
        assert forall|name: WindowName| #[trigger]
            self@.windows.dom().contains(name) implies self@.windows[name].filed_under(
            name,
            self@.created,
        ) by {
            assert(self.slot_ok(name));
        }
    }

    fn entry(&self, name: WindowName) -> (found: Option<Window>)
        ensures
            found is Some <==> self@.present(name),
            found matches Some(window) ==> window == self@.windows[name],
            self@.wf(),
    {
        proof {
            use_type_invariant(self);
            self.lemma_inv_wf();
        }
        match name {
            WindowName::Main => self.main,
            WindowName::Daily => self.daily,
            WindowName::Planner => self.planner,
        }
    }

    fn put(&mut self, window: Window)
        requires
            old(self)@.present(window.handle.name),
            window.filed_under(window.handle.name, old(self)@.created),
        ensures
            final(self)@ == (RegistryModel {
                windows: old(self)@.windows.insert(window.handle.name, window),
                ..old(self)@
            }),
    {
        proof {
            use_type_invariant(&*self);
        }
        let ghost before = self@;
        match window.handle.name {
            WindowName::Main => {
                self.main = Some(window);
            },
            WindowName::Daily => {
                self.daily = Some(window);
            },
            WindowName::Planner => {
                self.planner = Some(window);
            },
        }
        assert(self@.windows =~= before.windows.insert(window.handle.name, window));
    }

    /// A registry without windows.
    pub fn new() -> (registry: WindowRegistry)
        ensures
            registry@ == RegistryModel::empty(),
    {
        let registry = WindowRegistry { main: None, daily: None, planner: None, created: 0 };
        assert(registry@.windows =~= Map::empty());
        registry
    }

    /// How many windows have been created so far.
    pub fn created(&self) -> (count: u64)
        ensures
            count == self@.created,
    {
        self.created
    }

    /// The live window named `name`, if there is one. Changes nothing.
    pub fn lookup(&self, name: WindowName) -> (found: Option<Handle>)
        ensures
            found == self@.lookup(name),
            self@.wf(),
    {
        match self.entry(name) {
            Some(window) => Some(window.handle),
            None => None,
        }
    }

    /// The state of the window named `name`.
    pub fn state(&self, name: WindowName) -> (state: WindowState)
        ensures
            state == self@.state(name),
            state == WindowState::Absent <==> !self@.present(name),
            self@.wf(),
    {
        match self.entry(name) {
            Some(window) => window.state,
            None => WindowState::Absent,
        }
    }

    /// The layout that the window named `name` was created with: none if
    /// there is no such window, or if the registry did not have it created.
    pub fn layout(&self, name: WindowName) -> (layout: Option<WindowSpec>)
        ensures
            layout == if self@.present(name) {
                self@.windows[name].layout
            } else {
                None
            },
    {
        match self.entry(name) {
            Some(window) => window.layout,
            None => None,
        }
    }

    /// Whether a window named `name` can be asked for.
    pub fn has_room_for(&self, name: WindowName) -> (room: bool)
        ensures
            room == self@.has_room_for(name),
    {
        self.lookup(name).is_some() || self.created < u64::MAX
    }

    fn enter(&mut self, name: WindowName, state: WindowState, layout: Option<WindowSpec>) -> (handle:
        Handle)
        requires
            !old(self)@.present(name),
            old(self)@.created < u64::MAX,
            state != WindowState::Absent,
            layout matches Some(spec) ==> spec.name == name,
        ensures
            final(self)@ == old(self)@.entered(name, state, layout),
            final(self)@.lookup(name) == Some(handle),
    {
        proof {
            use_type_invariant(&*self);
        }
        let ghost before = self@;
        let handle = Handle { name, instance: self.created + 1 };
        let window = Window { handle, state, layout };
        self.created = self.created + 1;
        match name {
            WindowName::Main => {
                self.main = Some(window);
            },
            WindowName::Daily => {
                self.daily = Some(window);
            },
            WindowName::Planner => {
                self.planner = Some(window);
            },
        }
        assert(self@.windows =~= before.windows.insert(name, window));
        handle
    }

    /// Hands out the window named `spec.name`: the one that is live, or else
    /// a new one, created hidden with the layout `spec`.
    pub fn ensure(&mut self, spec: WindowSpec) -> (handle: Handle)
        requires
            old(self)@.has_room_for(spec.name),
        ensures
            final(self)@ == old(self)@.ensured(spec),
            final(self)@.lookup(spec.name) == Some(handle),
            old(self)@.present(spec.name) ==> old(self)@.lookup(spec.name) == Some(handle),
    {
        match self.entry(spec.name) {
            Some(window) => window.handle,
            None => self.enter(spec.name, WindowState::CreatedHidden, Some(spec)),
        }
    }

    fn set_state(&mut self, name: WindowName, state: WindowState)
        requires
            state != WindowState::Absent,
        ensures
            final(self)@ == old(self)@.with_state(name, state),
    {
        if let Some(window) = self.entry(name) {
            self.put(Window { state, ..window });
        }
    }

    fn remove(&mut self, name: WindowName)
        ensures
            final(self)@ == old(self)@.closed(name),
    {
        proof {
            use_type_invariant(&*self);
        }
        let ghost before = self@;
        match name {
            WindowName::Main => {
                self.main = None;
            },
            WindowName::Daily => {
                self.daily = None;
            },
            WindowName::Planner => {
                self.planner = None;
            },
        }
        assert(self@.windows =~= before.windows.remove(name));
    }

    /// Whether `handle` is the identity of a window that is live now.
    pub fn is_live(&self, handle: Handle) -> (live: bool)
        ensures
            live == self@.is_live(handle),
    {
        match self.entry(handle.name) {
            Some(window) => window.handle.instance == handle.instance,
            None => false,
        }
    }

    /// Records that the window named `name` was made visible.
    pub fn show(&mut self, name: WindowName)
        ensures
            final(self)@ == old(self)@.shown(name),
    {
        if let WindowState::CreatedHidden = self.state(name) {
            self.set_state(name, WindowState::VisibleUnfocused);
        }
    }

    /// Records that the window named `name` was given the input focus.
    pub fn focus(&mut self, name: WindowName)
        ensures
            final(self)@ == old(self)@.focused(name),
    {
        if let WindowState::VisibleUnfocused = self.state(name) {
            self.set_state(name, WindowState::VisibleFocused);
        }
    }

    /// Makes the window `handle` visible and gives it the input focus. Fails,
    /// and changes nothing, exactly when `handle` is not a live window.
    pub fn show_and_focus(&mut self, handle: Handle) -> (done: Result<(), WindowError>)
        ensures
            done is Ok <==> old(self)@.is_live(handle),
            done is Err ==> done == Err::<(), WindowError>(WindowError::WindowNotFound),
            done is Ok ==> final(self)@ == old(self)@.shown(handle.name).focused(handle.name),
            done is Ok ==> final(self)@.state(handle.name) == WindowState::VisibleFocused,
            done is Err ==> final(self)@ == old(self)@,
    {
        proof {
            use_type_invariant(&*self);
            self.lemma_inv_wf();
        }
        if self.is_live(handle) {
            self.show(handle.name);
            self.focus(handle.name);
            Ok(())
        } else {
            Err(WindowError::WindowNotFound)
        }
    }

    /// Destroys the window `handle` and forgets it. Fails, and changes
    /// nothing, exactly when `handle` is not a live window.
    pub fn close(&mut self, handle: Handle) -> (done: Result<(), WindowError>)
        ensures
            done is Ok <==> old(self)@.is_live(handle),
            done is Err ==> done == Err::<(), WindowError>(WindowError::WindowNotFound),
            done is Ok ==> final(self)@ == old(self)@.closed(handle.name),
            done is Ok ==> final(self)@.state(handle.name) == WindowState::Absent,
            done is Err ==> final(self)@ == old(self)@,
    {
        if self.is_live(handle) {
            self.remove(handle.name);
            Ok(())
        } else {
            Err(WindowError::WindowNotFound)
        }
    }

    /// Whether `action` can be recorded.
    pub fn admits(&self, action: &WindowAction) -> (room: bool)
        ensures
            room == self@.admits(*action),
    {
        match action {
            WindowAction::Create(spec) => self.has_room_for(spec.name),
            _ => true,
        }
    }

    /// Brings the registry in line with what the window system shows of the
    /// window `name`, which it reports in state `seen`.
    pub fn observe(&mut self, name: WindowName, seen: WindowState)
        requires
            seen != WindowState::Absent ==> old(self)@.has_room_for(name),
        ensures
            final(self)@ == old(self)@.observed(name, seen),
            final(self)@.state(name) == seen,
    {
        match seen {
            WindowState::Absent => self.remove(name),
            _ => {
                if self.lookup(name).is_some() {
                    self.set_state(name, seen);
                } else {
                    let _ = self.enter(name, seen, None);
                }
            },
        }
    }

    /// Records that the window system has carried out `action`.
    pub fn record(&mut self, action: WindowAction)
        requires
            old(self)@.admits(action),
        ensures
            final(self)@ == old(self)@.applied(action),
    {
        match action {
            WindowAction::Create(spec) => {
                let _ = self.ensure(spec);
            },
            WindowAction::Show(name) => self.show(name),
            WindowAction::Focus(name) => self.focus(name),
            WindowAction::Close(name) => self.remove(name),
        }
    }
}

/// Carrying out a call that the registry admits keeps it well formed.
pub proof fn lemma_applied_wf(registry: RegistryModel, action: WindowAction)
    requires
        registry.wf(),
        registry.admits(action),
    ensures
        registry.applied(action).wf(),
        registry.created <= registry.applied(action).created <= registry.created + 1,
{
    let after = registry.applied(action);
    assert forall|name: WindowName| #[trigger]
        after.windows.dom().contains(name) implies after.windows[name].filed_under(
        name,
        after.created,
    ) by {
        if registry.windows.dom().contains(name) {
        }
    }
}

/// Asking for a window twice in a row, whatever layouts the two requests
/// carry, leaves exactly one live window of that name: the second request
/// creates nothing, changes nothing, and hands out the window of the first.
pub proof fn lemma_ensure_twice(registry: RegistryModel, first: WindowSpec, second: WindowSpec)
    requires
        first.name == second.name,
    ensures
        registry.ensured(first).ensured(second) == registry.ensured(first),
        registry.ensured(first).lookup(first.name) is Some,
        registry.ensured(first).ensured(second).lookup(first.name) == registry.ensured(
            first,
        ).lookup(first.name),
        registry.ensured(first).ensured(second).live_count(first.name) == 1,
        registry.ensured(first).ensured(second).created == registry.created + (if registry.present(
            first.name,
        ) {
            0nat
        } else {
            1nat
        }),
{
}

/// Showing and focusing a live window leaves it visible and focused, and
/// doing so again changes nothing.
pub proof fn lemma_show_and_focus_idempotent(registry: RegistryModel, name: WindowName)
    requires
        registry.wf(),
        registry.present(name),
    ensures
        registry.shown(name).focused(name).state(name) == WindowState::VisibleFocused,
        registry.shown(name).focused(name).lookup(name) == registry.lookup(name),
        registry.shown(name).focused(name).shown(name).focused(name) == registry.shown(
            name,
        ).focused(name),
{
}

/// After a window is closed its name is free, and the next request for it
/// creates a window with a new identity.
pub proof fn lemma_close_then_ensure(registry: RegistryModel, handle: Handle, spec: WindowSpec)
    requires
        registry.wf(),
        registry.is_live(handle),
        spec.name == handle.name,
        registry.created < u64::MAX,
    ensures
        registry.closed(handle.name).lookup(handle.name) is None,
        registry.closed(handle.name).ensured(spec).lookup(handle.name) matches Some(renewed)
            && renewed != handle,
        registry.closed(handle.name).ensured(spec).state(handle.name)
            == WindowState::CreatedHidden,
{
}

/// Observing a window leaves it in the state that was seen, keeps the
/// identity and layout of a window that was known and is still there,
/// creates at most one window, and changes nothing when repeated.
pub proof fn lemma_observed(registry: RegistryModel, name: WindowName, seen: WindowState)
    requires
        registry.wf(),
        seen != WindowState::Absent ==> registry.has_room_for(name),
    ensures
        registry.observed(name, seen).wf(),
        registry.observed(name, seen).state(name) == seen,
        registry.present(name) && seen != WindowState::Absent ==> {
            &&& registry.observed(name, seen).lookup(name) == registry.lookup(name)
            &&& registry.observed(name, seen).windows[name].layout == registry.windows[name].layout
            &&& registry.observed(name, seen).created == registry.created
        },
        registry.created <= registry.observed(name, seen).created <= registry.created + 1,
        registry.observed(name, seen).observed(name, seen) == registry.observed(name, seen),
{
    let after = registry.observed(name, seen);
    assert forall|other: WindowName| #[trigger]
        after.windows.dom().contains(other) implies after.windows[other].filed_under(
        other,
        after.created,
    ) by {
        if registry.windows.dom().contains(other) {
        }
    }
    assert(after.observed(name, seen).windows =~= after.windows);
}

} // verus!
