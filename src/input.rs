//! On-screen navigation through the display server's input method.
use vstd::prelude::*;

use crate::event::{Event, KeyCode};
use crate::text::text_is;

verus! {

/// A navigation action of the input method.
#[derive(Debug, Clone, Copy, PartialEq, Eq, Structural)]
pub enum InputAction {
    MoveUp,
    MoveDown,
    MoveLeft,
    MoveRight,
    Submit,
}

/// What the input method is asked to commit.
#[derive(Debug, Clone, PartialEq, Eq)]
pub enum InputCommand {
    Action(InputAction),
    /// Literal text.
    Text(String),
}

/// The text that the exit key sends: the escape character.
pub open spec fn escape_text() -> Seq<char> {
    seq!['\u{1b}']
}

/// What an initial press of `key` commits, described over its text.
pub open spec fn input_command_for(key: KeyCode) -> Option<(Option<InputAction>, Seq<char>)> {
    match key {
        KeyCode::Up => Some((Some(InputAction::MoveUp), Seq::empty())),
        KeyCode::Down => Some((Some(InputAction::MoveDown), Seq::empty())),
        KeyCode::Left => Some((Some(InputAction::MoveLeft), Seq::empty())),
        KeyCode::Right => Some((Some(InputAction::MoveRight), Seq::empty())),
        KeyCode::Select => Some((Some(InputAction::Submit), Seq::empty())),
        KeyCode::Exit => Some((None, escape_text())),
        _ => None,
    }
}

/// The shape of an input command: its action, or its text.
pub open spec fn command_shape(c: InputCommand) -> (Option<InputAction>, Seq<char>) {
    match c {
        InputCommand::Action(a) => (Some(a), Seq::empty()),
        InputCommand::Text(t) => (None, t@),
    }
}

/// What the input method commits on `event`: a move or a submit for an
/// initial press of an arrow or select key, the escape character for the
/// exit key, and nothing otherwise.
pub fn input_command(event: &Event) -> (r: Option<InputCommand>)
    ensures
        match event.initial_key() {
            Some(key) => match input_command_for(key) {
                Some(shape) => r matches Some(c) && command_shape(c) == shape,
                None => r is None,
            },
            None => r is None,
        },
{
    match event.initial_key_of() {
        Some(KeyCode::Up) => Some(InputCommand::Action(InputAction::MoveUp)),
        Some(KeyCode::Down) => Some(InputCommand::Action(InputAction::MoveDown)),
        Some(KeyCode::Left) => Some(InputCommand::Action(InputAction::MoveLeft)),
        Some(KeyCode::Right) => Some(InputCommand::Action(InputAction::MoveRight)),
        Some(KeyCode::Select) => Some(InputCommand::Action(InputAction::Submit)),
        Some(KeyCode::Exit) => {
            let text = "\u{1b}".to_owned();
            proof {
                reveal_strlit("\u{1b}");
                assert(text@ =~= escape_text());
            }
            Some(InputCommand::Text(text))
        },
        _ => None,
    }
}

/// The globals of the display server that the input method needs.
#[derive(Debug, Clone, Copy, PartialEq, Eq, Structural)]
pub enum Global {
    Seat,
    InputMethodManager,
    /// A global that the input method does not use.
    Other,
}

pub open spec fn global_of(interface: Seq<char>) -> Global {
    if interface == "wl_seat"@ {
        Global::Seat
    } else if interface == "gamescope_input_method_manager"@ {
        Global::InputMethodManager
    } else {
        Global::Other
    }
}

/// Which of the needed globals an announced interface name is.
pub fn global_kind(interface: &str) -> (r: Global)
    ensures
        r == global_of(interface@),
{
    proof {
        reveal_strlit("wl_seat");
        reveal_strlit("gamescope_input_method_manager");
    }
    if text_is(interface, "wl_seat") {
        Global::Seat
    } else if text_is(interface, "gamescope_input_method_manager") {
        Global::InputMethodManager
    } else {
        Global::Other
    }
}

/// How far the input method has been set up from the announced globals.
#[derive(Debug, Clone, Copy, PartialEq, Eq, Structural)]
pub struct InputMethodSetup {
    pub seat_bound: bool,
    pub manager_bound: bool,
    pub created: bool,
}

/// What to do on an announced global.
#[derive(Debug, Clone, Copy, PartialEq, Eq, Structural)]
pub struct SetupStep {
    /// The global to bind, if any.
    pub bind: Option<Global>,
    /// Whether to create the input method on the bound seat and manager.
    pub create: bool,
}

impl InputMethodSetup {
    /// Nothing bound yet.
    pub fn new() -> (r: InputMethodSetup)
        ensures
            r == (InputMethodSetup { seat_bound: false, manager_bound: false, created: false }),
    {
        InputMethodSetup { seat_bound: false, manager_bound: false, created: false }
    }

    /// A global with interface name `interface` was announced. The first
    /// seat and the first manager are bound, later ones are left alone, and
    /// the input method is created once, as soon as both are bound.
    pub fn on_global(&mut self, interface: &str) -> (r: SetupStep)
        ensures
            r.bind == (match global_of(interface@) {
                Global::Seat => if old(self).seat_bound {
                    None
                } else {
                    Some(Global::Seat)
                },
                Global::InputMethodManager => if old(self).manager_bound {
                    None
                } else {
                    Some(Global::InputMethodManager)
                },
                Global::Other => None,
            }),
            final(self).seat_bound == (old(self).seat_bound || global_of(interface@) is Seat),
            final(self).manager_bound == (old(self).manager_bound || global_of(interface@)
                is InputMethodManager),
            r.create == (!old(self).created && final(self).seat_bound && final(self).manager_bound),
            final(self).created == (old(self).created || r.create),
    {
        let bind = match global_kind(interface) {
            Global::Seat => if self.seat_bound {
                None
            } else {
                self.seat_bound = true;
                Some(Global::Seat)
            },
            Global::InputMethodManager => if self.manager_bound {
                None
            } else {
                self.manager_bound = true;
                Some(Global::InputMethodManager)
            },
            Global::Other => None,
        };
        let create = !self.created && self.seat_bound && self.manager_bound;
        if create {
            self.created = true;
        }
        SetupStep { bind, create }
    }
}

} // verus!
