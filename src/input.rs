use vstd::prelude::*;
use crate::field::{HALF_PADDLE, HEIGHT};
use crate::game::Game;

verus! {

/// A key press, as far as the game tells keys apart.
#[derive(Clone, Copy, Debug, PartialEq, Eq)]
pub enum Key {
    Char(char),
    Up,
    Down,
    Other,
}

/// What a key press asks of the game.
#[derive(Clone, Copy, Debug, PartialEq, Eq)]
pub enum Command {
    Quit,
    LeftUp,
    LeftDown,
    RightUp,
    RightDown,
    Ignore,
}

/// `q` quits, `w` and `s` move the left paddle, the arrow keys the right
/// one; every other key is ignored.
pub open spec fn command_of(key: Key) -> Command {
    match key {
        Key::Char(c) => if c == 'q' {
            Command::Quit
        } else if c == 'w' {
            Command::LeftUp
        } else if c == 's' {
            Command::LeftDown
        } else {
            Command::Ignore
        },
        Key::Up => Command::RightUp,
        Key::Down => Command::RightDown,
        Key::Other => Command::Ignore,
    }
}

/// A paddle centre after a move up: one row, unless that would take the
/// paddle past the top of the field.
pub open spec fn raised(p: int) -> int {
    if p > HALF_PADDLE {
        p - 1
    } else {
        p
    }
}

/// A paddle centre after a move down: one row, unless that would take the
/// paddle past the bottom of the field.
pub open spec fn lowered(p: int) -> int {
    if p < HEIGHT - HALF_PADDLE {
        p + 1
    } else {
        p
    }
}

/// The left paddle's centre after `cmd`.
pub open spec fn left_after(p: int, cmd: Command) -> int {
    match cmd {
        Command::LeftUp => raised(p),
        Command::LeftDown => lowered(p),
        _ => p,
    }
}

/// The right paddle's centre after `cmd`.
pub open spec fn right_after(p: int, cmd: Command) -> int {
    match cmd {
        Command::RightUp => raised(p),
        Command::RightDown => lowered(p),
        _ => p,
    }
}

/// The command a key press stands for.
pub fn command_for(key: Key) -> (cmd: Command)
    ensures
        cmd == command_of(key),
{
    match key {
        Key::Char(c) => if c == 'q' {
            Command::Quit
        } else if c == 'w' {
            Command::LeftUp
        } else if c == 's' {
            Command::LeftDown
        } else {
            Command::Ignore
        },
        Key::Up => Command::RightUp,
        Key::Down => Command::RightDown,
        Key::Other => Command::Ignore,
    }
}

impl Game {
    /// Carries out a command: moves a paddle by one row where it stays on
    /// the field, and returns `false` exactly when the command is to quit.
    /// The ball and the scores are left as they are.
    pub fn apply(&mut self, cmd: Command) -> (running: bool)
        ensures
            running == (cmd != Command::Quit),
            final(self).left_paddle_y == left_after(old(self).left_paddle_y as int, cmd),
            final(self).right_paddle_y == right_after(old(self).right_paddle_y as int, cmd),
            final(self).ball_x == old(self).ball_x,
            final(self).ball_y == old(self).ball_y,
            final(self).ball_dx == old(self).ball_dx,
            final(self).ball_dy == old(self).ball_dy,
            final(self).left_score == old(self).left_score,
            final(self).right_score == old(self).right_score,
    {
        match cmd {
            Command::Quit => {
                return false;
            },
            Command::LeftUp => {
                if self.left_paddle_y > HALF_PADDLE {
                    self.left_paddle_y = self.left_paddle_y - 1;
                }
            },
            Command::LeftDown => {
                if self.left_paddle_y < HEIGHT - HALF_PADDLE {
                    self.left_paddle_y = self.left_paddle_y + 1;
                }
            },
            Command::RightUp => {
                if self.right_paddle_y > HALF_PADDLE {
                    self.right_paddle_y = self.right_paddle_y - 1;
                }
            },
            Command::RightDown => {
                if self.right_paddle_y < HEIGHT - HALF_PADDLE {
                    self.right_paddle_y = self.right_paddle_y + 1;
                }
            },
            Command::Ignore => {},
        }
        true
    }
}

} // verus!
