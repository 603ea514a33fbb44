//! Headings, keys, and the rule that turns a key press into a heading.

use vstd::prelude::*;

verus! {

/// One of the four headings a snake can have.
#[derive(Clone, Copy, Debug, PartialEq, Eq, Structural)]
pub enum Direction {
    Right,
    Left,
    Up,
    Down,
}

impl Direction {
    /// The heading that points the other way along the same axis.
    pub open spec fn spec_opposite(self) -> Direction {
        match self {
            Direction::Right => Direction::Left,
            Direction::Left => Direction::Right,
            Direction::Up => Direction::Down,
            Direction::Down => Direction::Up,
        }
    }

    /// Horizontal component of the unit vector of this heading.
    pub open spec fn dx(self) -> int {
        match self {
            Direction::Right => 1,
            Direction::Left => -1,
            Direction::Up => 0,
            Direction::Down => 0,
        }
    }

    /// Vertical component of the unit vector of this heading. The y axis
    /// grows downwards, so `Up` is `-1`.
    pub open spec fn dy(self) -> int {
        match self {
            Direction::Right => 0,
            Direction::Left => 0,
            Direction::Up => -1,
            Direction::Down => 1,
        }
    }

    /// The heading that points the other way along the same axis.
    #[verifier::when_used_as_spec(spec_opposite)]
    pub fn opposite(self) -> (r: Direction)
        ensures
            r == self.spec_opposite(),
    {
        match self {
            Direction::Right => Direction::Left,
            Direction::Left => Direction::Right,
            Direction::Up => Direction::Down,
            Direction::Down => Direction::Up,
        }
    }
}

/// What the game tells apart among the buttons of the input devices: the
/// four arrow keys, and everything else.
#[derive(Clone, Copy, Debug, PartialEq, Eq, Structural)]
pub enum Key {
    Up,
    Down,
    Left,
    Right,
    Other,
}

impl Key {
    /// The heading that this key asks for, if it asks for one.
    pub open spec fn spec_direction(self) -> Option<Direction> {
        match self {
            Key::Up => Some(Direction::Up),
            Key::Down => Some(Direction::Down),
            Key::Left => Some(Direction::Left),
            Key::Right => Some(Direction::Right),
            Key::Other => None,
        }
    }

    /// The heading that this key asks for, if it asks for one.
    #[verifier::when_used_as_spec(spec_direction)]
    pub fn direction(self) -> (wanted: Option<Direction>)
        ensures
            wanted == self.spec_direction(),
    {
        match self {
            Key::Up => Some(Direction::Up),
            Key::Down => Some(Direction::Down),
            Key::Left => Some(Direction::Left),
            Key::Right => Some(Direction::Right),
            Key::Other => None,
        }
    }
}

/// The heading after `key` is pressed while heading `current`: the one the
/// key asks for, unless the key asks for none or for a reversal, which
/// would run the snake into its own neck.
pub open spec fn steer(current: Direction, key: Key) -> Direction {
    match key.direction() {
        Some(wanted) => if wanted == current.opposite() {
            current
        } else {
            wanted
        },
        None => current,
    }
}

/// A key that asks for the reverse of the current heading changes nothing.
pub proof fn lemma_steer_refuses_reversal(current: Direction, key: Key)
    requires
        key.direction() == Some(current.opposite()),
    ensures
        steer(current, key) == current,
{
}

/// Any other arrow key sets the heading it asks for.
pub proof fn lemma_steer_takes_turn(current: Direction, key: Key, wanted: Direction)
    requires
        key.direction() == Some(wanted),
        wanted != current.opposite(),
    ensures
        steer(current, key) == wanted,
{
}

/// A key that is no arrow key changes nothing.
pub proof fn lemma_steer_ignores_other_keys(current: Direction, key: Key)
    requires
        key.direction() is None,
    ensures
        steer(current, key) == current,
{
}

/// Pressing the same key a second time changes nothing more. This holds for
/// every key, a refused one included.
pub proof fn lemma_steer_idempotent(current: Direction, key: Key)
    ensures
        steer(steer(current, key), key) == steer(current, key),
{
}

/// No key press ever yields the reverse of the heading it started from.
pub proof fn lemma_steer_never_reverses(current: Direction, key: Key)
    ensures
        steer(current, key) != current.opposite(),
{
}

} // verus!
