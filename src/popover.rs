//! The single popover window shown from the tray icon, as a three-state
//! machine. The controller decides what the window host must do on each
//! toggle; the host does it and reports back whether it worked.
use vstd::prelude::*;

verus! {

/// Identifier of the popover window.
pub const WINDOW_LABEL: &'static str = "main";

/// Title of the popover window.
pub const WINDOW_TITLE: &'static str = "Yeeet";

/// Where the popover stands on the screen.
#[derive(PartialEq, Eq, Structural, Clone, Copy, Debug)]
pub enum Anchor {
    /// Below the tray icon, centred on it horizontally.
    TrayBottomCenter,
}

/// How the popover window is made: fixed when it is created.
#[derive(PartialEq, Eq, Structural, Clone, Copy, Debug)]
pub struct WindowConfig {
    pub width: u32,
    pub height: u32,
    pub resizable: bool,
    pub decorated: bool,
    pub transparent: bool,
    pub taskbar_visible: bool,
    pub visible_at_creation: bool,
    pub visible_on_all_workspaces: bool,
    pub anchor: Anchor,
}

/// The popover's creation settings: 360 by 450 logical units, neither
/// resizable nor decorated, transparent, kept off the taskbar, created
/// hidden, shown on every workspace, placed below the tray icon.
pub fn popover_config() -> (c: WindowConfig)
    ensures
        c.width == 360,
        c.height == 450,
        !c.resizable,
        !c.decorated,
        c.transparent,
        !c.taskbar_visible,
        !c.visible_at_creation,
        c.visible_on_all_workspaces,
        c.anchor == Anchor::TrayBottomCenter,
{
    WindowConfig {
        width: 360,
        height: 450,
        resizable: false,
        decorated: false,
        transparent: true,
        taskbar_visible: false,
        visible_at_creation: false,
        visible_on_all_workspaces: true,
        anchor: Anchor::TrayBottomCenter,
    }
}

#[derive(PartialEq, Eq, Structural, Clone, Copy, Debug)]
pub enum PopoverState {
    Absent,
    Hidden,
    Visible,
}

/// What the window host is asked to do on a toggle.
#[derive(PartialEq, Eq, Structural, Clone, Copy, Debug)]
pub enum WindowAction {
    /// Create the window hidden, place it at the anchor, show it, focus it.
    CreateAndShow,
    /// Place the existing window at the anchor, show it, focus it.
    Show,
    /// Hide the existing window.
    Hide,
}

/// Why the window host could not do what it was asked.
#[derive(PartialEq, Eq, Structural, Clone, Copy, Debug)]
pub enum WindowError {
    /// No window was created.
    CreationFailed,
    /// The window could not be placed at the anchor, so it was not shown.
    PositionFailed,
    /// The window could not be shown or hidden.
    VisibilityFailed,
}

/// The action that a toggle takes in state `s`.
pub open spec fn action_for(s: PopoverState) -> WindowAction {
    match s {
        PopoverState::Absent => WindowAction::CreateAndShow,
        PopoverState::Hidden => WindowAction::Show,
        PopoverState::Visible => WindowAction::Hide,
    }
}

/// The state after a toggle from `s` whose action ended with `outcome`.
/// A failed creation leaves no window; a created window that could not be
/// shown stays hidden; a failed show or hide changes nothing.
pub open spec fn state_after(s: PopoverState, outcome: Result<(), WindowError>) -> PopoverState {
    match (s, outcome) {
        (PopoverState::Absent, Ok(())) => PopoverState::Visible,
        (PopoverState::Absent, Err(WindowError::CreationFailed)) => PopoverState::Absent,
        (PopoverState::Absent, Err(_)) => PopoverState::Hidden,
        (PopoverState::Hidden, Ok(())) => PopoverState::Visible,
        (PopoverState::Hidden, Err(_)) => PopoverState::Hidden,
        (PopoverState::Visible, Ok(())) => PopoverState::Hidden,
        (PopoverState::Visible, Err(_)) => PopoverState::Visible,
    }
}

/// The number of windows created when a toggle from `s` ended with `outcome`.
pub open spec fn created_by(s: PopoverState, outcome: Result<(), WindowError>) -> nat {
    if s == PopoverState::Absent && state_after(s, outcome) != PopoverState::Absent {
        1
    } else {
        0
    }
}

/// State and number of windows created so far after toggles that ended with
/// `outcomes`, in order, starting with no window.
pub open spec fn run(outcomes: Seq<Result<(), WindowError>>) -> (PopoverState, nat)
    decreases outcomes.len(),
{
    if outcomes.len() == 0 {
        (PopoverState::Absent, 0)
    } else {
        let (s, n) = run(outcomes.drop_last());
        (state_after(s, outcomes.last()), n + created_by(s, outcomes.last()))
    }
}

/// Owner of the popover window's lifecycle.
pub struct PopoverWindowController {
    state: PopoverState,
    windows_created: u64,
}

impl PopoverWindowController {
    pub closed spec fn spec_state(&self) -> PopoverState {
        self.state
    }

    /// How many windows this controller has had created.
    pub closed spec fn spec_windows_created(&self) -> nat {
        self.windows_created as nat
    }

    /// A window exists exactly when the state is not `Absent`, and only one
    /// was ever created.
    pub open spec fn wf(&self) -> bool {
        &&& self.spec_windows_created() <= 1
        &&& (self.spec_state() == PopoverState::Absent) == (self.spec_windows_created() == 0)
    }

    pub fn new() -> (r: PopoverWindowController)
        ensures
            r.wf(),
            r.spec_state() == PopoverState::Absent,
            r.spec_windows_created() == 0,
    {
        PopoverWindowController { state: PopoverState::Absent, windows_created: 0 }
    }

    pub fn state(&self) -> (r: PopoverState)
        ensures
            r == self.spec_state(),
    {
        self.state
    }

    pub fn windows_created(&self) -> (r: u64)
        ensures
            r as nat == self.spec_windows_created(),
    {
        self.windows_created
    }

    /// The action that the next toggle asks of the window host.
    pub fn plan_toggle(&self) -> (a: WindowAction)
        ensures
            a == action_for(self.spec_state()),
    {
        match self.state {
            PopoverState::Absent => WindowAction::CreateAndShow,
            PopoverState::Hidden => WindowAction::Show,
            PopoverState::Visible => WindowAction::Hide,
        }
    }

    /// Records how the host's attempt at the planned action ended.
    pub fn finish_toggle(&mut self, outcome: Result<(), WindowError>)
        requires
            old(self).wf(),
        ensures
            final(self).wf(),
            final(self).spec_state() == state_after(old(self).spec_state(), outcome),
            final(self).spec_windows_created() == old(self).spec_windows_created() + created_by(
                old(self).spec_state(),
                outcome,
            ),
    {
        match self.state {
            PopoverState::Absent => match outcome {
                Ok(()) => {
                    self.state = PopoverState::Visible;
                    self.windows_created = 1;
                },
                Err(WindowError::CreationFailed) => {},
                Err(_) => {
                    self.state = PopoverState::Hidden;
                    self.windows_created = 1;
                },
            },
            PopoverState::Hidden => {
                if outcome.is_ok() {
                    self.state = PopoverState::Visible;
                }
            },
            PopoverState::Visible => {
                if outcome.is_ok() {
                    self.state = PopoverState::Hidden;
                }
            },
        }
    }
}

/// Whatever the outcomes of a sequence of toggles, at most one window has
/// ever been created, and one exists exactly when the state is not `Absent`.
pub proof fn lemma_single_window(outcomes: Seq<Result<(), WindowError>>)
    ensures
        run(outcomes).1 <= 1,
        (run(outcomes).0 == PopoverState::Absent) == (run(outcomes).1 == 0),
    decreases outcomes.len(),
{
    if outcomes.len() > 0 {
        lemma_single_window(outcomes.drop_last());
    }
}

/// From no window, successful toggles give `Visible` with one window, then
/// `Hidden` with that same window, then `Visible` again, still with one.
pub proof fn lemma_toggle_cycle()
    ensures
        run(seq![Ok(())]) == (PopoverState::Visible, 1nat),
        run(seq![Ok(()), Ok(())]) == (PopoverState::Hidden, 1nat),
        run(seq![Ok(()), Ok(()), Ok(())]) == (PopoverState::Visible, 1nat),
{
    let ok: Result<(), WindowError> = Ok(());
    assert(seq![ok].drop_last() =~= Seq::<Result<(), WindowError>>::empty());
    assert(seq![ok, ok].drop_last() =~= seq![ok]);
    assert(seq![ok, ok, ok].drop_last() =~= seq![ok, ok]);
    assert(run(Seq::<Result<(), WindowError>>::empty()) == (PopoverState::Absent, 0nat));
    assert(seq![ok].last() == ok);
    assert(seq![ok, ok].last() == ok);
    assert(seq![ok, ok, ok].last() == ok);
    assert(run(seq![ok]) == (PopoverState::Visible, 1nat));
    assert(run(seq![ok, ok]) == (PopoverState::Hidden, 1nat));
}

} // verus!
