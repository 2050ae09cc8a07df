//! The visibility controller: the one owner of the window's shown/hidden
//! state, and the rules by which events change it.
//!
//! The controller decides; the host performs. Each handled event yields the
//! `WindowAction` that the host is to carry out on the window.

use crate::shortcut::ShortcutSpec;
use vstd::prelude::*;

verus! {

/// Whether the window is on screen.
#[derive(Clone, Copy, Debug, PartialEq, Eq, Structural)]
pub enum Visibility {
    Shown,
    Hidden,
}

/// The state of a key in a shortcut event.
#[derive(Clone, Copy, Debug, PartialEq, Eq, Structural)]
pub enum KeyState {
    Pressed,
    Released,
}

/// What can happen to the window.
#[derive(Clone, Copy, Debug, PartialEq, Eq, Structural)]
pub enum Event {
    /// The window lost input focus.
    FocusLost,
    /// A registered shortcut changed key state.
    ShortcutPressed { shortcut: ShortcutSpec, state: KeyState },
    /// The UI layer asked for the window to be hidden.
    HideRequested,
}

/// What the host is to do to the window after an event.
#[derive(Clone, Copy, Debug, PartialEq, Eq, Structural)]
pub enum WindowAction {
    /// Leave the window as it is.
    Nothing,
    /// Hide the window.
    Hide,
    /// Show the window, then give it input focus.
    ShowAndFocus,
}

/// The transition rules.
///
/// - Losing focus hides a shown window and does nothing to a hidden one.
/// - The active shortcut, pressed, shows and focuses the window whatever its
///   state; a release, or another shortcut, changes nothing.
/// - A hide request hides the window whatever its state.
pub open spec fn transition(active: ShortcutSpec, visibility: Visibility, event: Event) -> (
    Visibility,
    WindowAction,
) {
    match event {
        Event::FocusLost => match visibility {
            Visibility::Shown => (Visibility::Hidden, WindowAction::Hide),
            Visibility::Hidden => (Visibility::Hidden, WindowAction::Nothing),
        },
        Event::ShortcutPressed { shortcut, state } => if shortcut == active && state
            == KeyState::Pressed {
            (Visibility::Shown, WindowAction::ShowAndFocus)
        } else {
            (visibility, WindowAction::Nothing)
        },
        Event::HideRequested => (Visibility::Hidden, WindowAction::Hide),
    }
}

/// What a controller holds: the window's visibility and the active shortcut.
pub struct ControllerState {
    pub visibility: Visibility,
    pub shortcut: ShortcutSpec,
}

/// The owner of the window's visibility.
#[derive(Debug, PartialEq, Eq)]
pub struct VisibilityController {
    visibility: Visibility,
    shortcut: ShortcutSpec,
}

impl View for VisibilityController {
    type V = ControllerState;

    closed spec fn view(&self) -> ControllerState {
        ControllerState { visibility: self.visibility, shortcut: self.shortcut }
    }
}

impl VisibilityController {
    /// A controller for a window whose visibility is `visibility`, toggled
    /// by `shortcut`.
    pub fn new(shortcut: ShortcutSpec, visibility: Visibility) -> (c: VisibilityController)
        ensures
            c@ == (ControllerState { visibility, shortcut }),
    {
        VisibilityController { visibility, shortcut }
    }

    /// The window's visibility.
    pub fn visibility(&self) -> (v: Visibility)
        ensures
            v == self@.visibility,
    {
        self.visibility
    }

    /// The active shortcut.
    pub fn shortcut(&self) -> (s: ShortcutSpec)
        ensures
            s == self@.shortcut,
    {
        self.shortcut
    }

    /// Handles one event: moves to the next state and returns what the host
    /// is to do to the window. The active shortcut never changes.
    pub fn handle(&mut self, event: Event) -> (action: WindowAction)
        ensures
            final(self)@.shortcut == old(self)@.shortcut,
            (final(self)@.visibility, action) == transition(
                old(self)@.shortcut,
                old(self)@.visibility,
                event,
            ),
    {
        match event {
            Event::FocusLost => match self.visibility {
                Visibility::Shown => {
                    self.visibility = Visibility::Hidden;
                    WindowAction::Hide
                },
                Visibility::Hidden => WindowAction::Nothing,
            },
            Event::ShortcutPressed { shortcut, state } => {
                if shortcut.same_as(&self.shortcut) && state == KeyState::Pressed {
                    self.visibility = Visibility::Shown;
                    WindowAction::ShowAndFocus
                } else {
                    WindowAction::Nothing
                }
            },
            Event::HideRequested => {
                self.visibility = Visibility::Hidden;
                WindowAction::Hide
            },
        }
    }
}

/// Hands `event` to the controller of the primary window, if there is one.
///
/// Without a primary window the event is dropped: nothing changes and
/// nothing is asked of the host.
pub fn dispatch(window: &mut Option<VisibilityController>, event: Event) -> (action: WindowAction)
    ensures
        match *old(window) {
            None => *final(window) is None && action == WindowAction::Nothing,
            Some(before) => *final(window) matches Some(after) && after@.shortcut
                == before@.shortcut && (after@.visibility, action) == transition(
                before@.shortcut,
                before@.visibility,
                event,
            ),
        },
{
    match window {
        Some(controller) => controller.handle(event),
        None => WindowAction::Nothing,
    }
}

/// Losing focus leaves the window hidden. A shown window is hidden by it; a
/// second loss of focus right after the first asks nothing of the window.
pub proof fn law_focus_lost_hides_once(active: ShortcutSpec, visibility: Visibility)
    ensures
        transition(active, visibility, Event::FocusLost).0 == Visibility::Hidden,
        visibility == Visibility::Shown ==> transition(active, visibility, Event::FocusLost).1
            == WindowAction::Hide,
        transition(
            active,
            transition(active, visibility, Event::FocusLost).0,
            Event::FocusLost,
        ) == (Visibility::Hidden, WindowAction::Nothing),
{
}

/// A key release changes nothing; of shortcut events only a press of the
/// active shortcut shows and focuses the window.
pub proof fn law_only_press_shows(
    active: ShortcutSpec,
    visibility: Visibility,
    shortcut: ShortcutSpec,
    state: KeyState,
)
    ensures
        state == KeyState::Released ==> transition(
            active,
            visibility,
            Event::ShortcutPressed { shortcut, state },
        ) == (visibility, WindowAction::Nothing),
        transition(active, visibility, Event::ShortcutPressed { shortcut, state }).1
            == WindowAction::ShowAndFocus <==> state == KeyState::Pressed && shortcut == active,
        transition(
            active,
            visibility,
            Event::ShortcutPressed { shortcut: active, state: KeyState::Pressed },
        ) == (Visibility::Shown, WindowAction::ShowAndFocus),
{
}

/// Transitions are idempotent: handling the same event a second time leaves
/// the visibility where the first handling put it.
pub proof fn law_transition_idempotent(active: ShortcutSpec, visibility: Visibility, event: Event)
    ensures
        transition(active, transition(active, visibility, event).0, event).0 == transition(
            active,
            visibility,
            event,
        ).0,
{
}

/// The state follows the actions: a window asked to hide is held as hidden,
/// one asked to show as shown, and one asked nothing keeps its visibility.
pub proof fn law_state_follows_action(active: ShortcutSpec, visibility: Visibility, event: Event)
    ensures
        match transition(active, visibility, event).1 {
            WindowAction::Hide => transition(active, visibility, event).0 == Visibility::Hidden,
            WindowAction::ShowAndFocus => transition(active, visibility, event).0
                == Visibility::Shown,
            WindowAction::Nothing => transition(active, visibility, event).0 == visibility,
        },
{
}

} // verus!
