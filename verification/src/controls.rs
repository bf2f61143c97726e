//! The interaction state of the viewer and its reaction to input.
//!
//! The caller owns the event loop. It turns each event of the window system
//! into an [`Input`], hands it to [`Controls::handle`] and carries out the
//! [`Command`] that comes back. Once per frame it reports the cursor position
//! to [`Controls::track`] and pans the picture by the distance returned.

use vstd::prelude::*;

verus! {

/// A key, as far as the viewer tells keys apart.
#[derive(Clone, Copy, Debug, PartialEq, Eq)]
pub enum Key {
    /// Leaves the viewer.
    Escape,
    /// Switches the flashlight on and off.
    F,
    /// Any other key.
    Other,
}

/// A mouse button, as far as the viewer tells buttons apart.
#[derive(Clone, Copy, Debug, PartialEq, Eq)]
pub enum Button {
    /// Drags the picture while held.
    Left,
    /// Any other button.
    Other,
}

/// An event of the window system, reduced to what the viewer reacts to.
#[derive(Clone, Copy, Debug, PartialEq, Eq)]
pub enum Input {
    /// The window system asks the viewer to close.
    Quit,
    /// A key went down.
    KeyDown { key: Key },
    /// The wheel turned by `notches`, away from the user if positive, while
    /// the left control key was held (`ctrl`) or not.
    Wheel { notches: i32, ctrl: bool },
    /// A mouse button went down with the cursor at (`x`, `y`).
    ButtonDown { button: Button, x: i32, y: i32 },
    /// A mouse button went up.
    ButtonUp { button: Button },
    /// Anything else.
    Other,
}

/// One of the two shader programs that draw the picture.
#[derive(Clone, Copy, Debug, PartialEq, Eq)]
pub enum Program {
    /// Draws the whole picture.
    Plain,
    /// Draws the picture inside a circle around the cursor.
    Flashlight,
}

/// What the caller has to do in answer to an input.
#[derive(Clone, Copy, Debug, PartialEq, Eq)]
pub enum Command {
    /// Nothing.
    Nothing,
    /// Leave the event loop without drawing another frame.
    Exit,
    /// Make this program the one that draws.
    Use { program: Program },
    /// Change the radius of the flashlight by this many steps.
    Widen { notches: i32 },
    /// Change the zoom factor by this many steps.
    Zoom { notches: i32 },
}

/// The interaction state: which program draws, and the drag in progress.
#[derive(Clone, Copy, Debug, PartialEq, Eq)]
pub struct Controls {
    /// The left button is held and the picture follows the cursor.
    pub dragging: bool,
    /// The flashlight program draws.
    pub flashlight: bool,
    /// Horizontal cursor position up to which the drag has been applied.
    pub anchor_x: i32,
    /// Vertical cursor position up to which the drag has been applied.
    pub anchor_y: i32,
}

impl Controls {
    /// The state in which the viewer starts.
    pub open spec fn initial() -> Controls {
        Controls { dragging: false, flashlight: false, anchor_x: 0, anchor_y: 0 }
    }

    /// The program that draws in this state.
    pub open spec fn program(self) -> Program {
        if self.flashlight {
            Program::Flashlight
        } else {
            Program::Plain
        }
    }

    /// The state that follows `self` on `input`.
    pub open spec fn next(self, input: Input) -> Controls {
        match input {
            Input::KeyDown { key: Key::F } => Controls { flashlight: !self.flashlight, ..self },
            Input::ButtonDown { button: Button::Left, x, y } => Controls {
                dragging: true,
                anchor_x: x,
                anchor_y: y,
                ..self
            },
            Input::ButtonUp { button: Button::Left } => Controls { dragging: false, ..self },
            _ => self,
        }
    }

    /// The command that `input` gives rise to in state `self`.
    pub open spec fn command(self, input: Input) -> Command {
        match input {
            Input::Quit => Command::Exit,
            Input::KeyDown { key: Key::Escape } => Command::Exit,
            Input::KeyDown { key: Key::F } => Command::Use { program: self.next(input).program() },
            Input::Wheel { notches, ctrl } => if ctrl {
                Command::Widen { notches }
            } else {
                Command::Zoom { notches }
            },
            _ => Command::Nothing,
        }
    }

    /// The distance by which the picture moves when the cursor is seen at
    /// (`x`, `y`): to the right and up, in pixels. Screen coordinates grow
    /// downwards, so the vertical part is turned round.
    pub open spec fn pull(self, x: int, y: int) -> (int, int) {
        if self.dragging {
            (x - self.anchor_x, self.anchor_y - y)
        } else {
            (0, 0)
        }
    }

    /// The state after the cursor was seen at (`x`, `y`).
    pub open spec fn followed(self, x: i32, y: i32) -> Controls {
        if self.dragging {
            Controls { anchor_x: x, anchor_y: y, ..self }
        } else {
            self
        }
    }

    /// Creates the initial state.
    pub fn new() -> (controls: Controls)
        ensures
            controls == Controls::initial(),
    {
        Controls { dragging: false, flashlight: false, anchor_x: 0, anchor_y: 0 }
    }

    /// Tells which program draws.
    pub fn active_program(&self) -> (program: Program)
        ensures
            program == self.program(),
    {
        if self.flashlight {
            Program::Flashlight
        } else {
            Program::Plain
        }
    }

    /// Reacts to one input: updates the state and says what the caller has to
    /// do.
    pub fn handle(&mut self, input: Input) -> (command: Command)
        ensures
            *final(self) == old(self).next(input),
            command == old(self).command(input),
    {
        match input {
            Input::Quit => Command::Exit,
            Input::KeyDown { key } => match key {
                Key::Escape => Command::Exit,
                Key::F => {
                    self.flashlight = !self.flashlight;
                    Command::Use { program: self.active_program() }
                },
                Key::Other => Command::Nothing,
            },
            Input::Wheel { notches, ctrl } => {
                if ctrl {
                    Command::Widen { notches }
                } else {
                    Command::Zoom { notches }
                }
            },
            Input::ButtonDown { button, x, y } => {
                match button {
                    Button::Left => {
                        self.dragging = true;
                        self.anchor_x = x;
                        self.anchor_y = y;
                    },
                    Button::Other => {},
                }
                Command::Nothing
            },
            Input::ButtonUp { button } => {
                match button {
                    Button::Left => {
                        self.dragging = false;
                    },
                    Button::Other => {},
                }
                Command::Nothing
            },
            Input::Other => Command::Nothing,
        }
    }

    /// Takes the cursor position of the current frame and returns the distance
    /// by which the picture has to move. While a drag is in progress the
    /// position becomes the new anchor.
    pub fn track(&mut self, x: i32, y: i32) -> (delta: (i64, i64))
        ensures
            delta.0 == old(self).pull(x as int, y as int).0,
            delta.1 == old(self).pull(x as int, y as int).1,
            *final(self) == old(self).followed(x, y),
    {
        if self.dragging {
            let delta = (x as i64 - self.anchor_x as i64, self.anchor_y as i64 - y as i64);
            self.anchor_x = x;
            self.anchor_y = y;
            delta
        } else {
            (0, 0)
        }
    }
}

/// Pressing the flashlight key twice leads back to the same state, and each
/// press asks for the program of the state it leads to.
pub proof fn lemma_toggle_twice(state: Controls)
    ensures
        state.next(Input::KeyDown { key: Key::F }).next(Input::KeyDown { key: Key::F }) == state,
        state.next(Input::KeyDown { key: Key::F }).program() != state.program(),
        state.command(Input::KeyDown { key: Key::F }) == (Command::Use {
            program: state.next(Input::KeyDown { key: Key::F }).program(),
        }),
{
}

/// The viewer is left on a request to quit and on the escape key, on nothing
/// else, and an input that leaves it changes nothing.
pub proof fn lemma_exit(state: Controls, input: Input)
    ensures
        state.command(input) == Command::Exit <==> input == Input::Quit || input == (Input::KeyDown {
            key: Key::Escape,
        }),
        state.command(input) == Command::Exit ==> state.next(input) == state,
{
}

/// Only the flashlight key changes the program that draws, and a command to
/// use a program always names the one that draws afterwards.
pub proof fn lemma_program_follows_commands(state: Controls, input: Input)
    ensures
        state.next(input).program() != state.program() <==> input == (Input::KeyDown { key: Key::F }),
        forall|program: Program|
            state.command(input) == (Command::Use { program }) ==> state.next(input).program()
                == program,
{
}

/// While a drag is in progress the distances of successive frames add up to
/// the distance from the first anchor to the last cursor position.
pub proof fn lemma_pull_adds(state: Controls, x1: i32, y1: i32, x2: i32, y2: i32)
    requires
        state.dragging,
    ensures
        state.pull(x1 as int, y1 as int).0 + state.followed(x1, y1).pull(x2 as int, y2 as int).0
            == state.pull(x2 as int, y2 as int).0,
        state.pull(x1 as int, y1 as int).1 + state.followed(x1, y1).pull(x2 as int, y2 as int).1
            == state.pull(x2 as int, y2 as int).1,
        state.followed(x1, y1).followed(x2, y2) == state.followed(x2, y2),
{
}

} // verus!
