//! The four directions of the world grid.

use vstd::prelude::*;

verus! {

/// A direction on the world grid.
#[derive(Clone, Copy, Debug, PartialEq, Eq, Hash, Structural)]
pub enum Direction {
    Left,
    Right,
    Up,
    Down,
}

/// The direction a word names (`left`, `right`, `up` or `down`).
pub open spec fn direction_named(word: Seq<char>) -> Option<Direction> {
    if word == "left"@ {
        Some(Direction::Left)
    } else if word == "right"@ {
        Some(Direction::Right)
    } else if word == "up"@ {
        Some(Direction::Up)
    } else if word == "down"@ {
        Some(Direction::Down)
    } else {
        None
    }
}

/// The direction a word names.
pub fn parse_direction(word: &Vec<char>) -> (direction: Option<Direction>)
    ensures
        direction == direction_named(word@),
{
    if crate::text::is_word(word, "left") {
        Some(Direction::Left)
    } else if crate::text::is_word(word, "right") {
        Some(Direction::Right)
    } else if crate::text::is_word(word, "up") {
        Some(Direction::Up)
    } else if crate::text::is_word(word, "down") {
        Some(Direction::Down)
    } else {
        None
    }
}

/// The name `Debug` gives a direction.
pub open spec fn direction_debug(direction: Direction) -> Seq<char> {
    match direction {
        Direction::Left => "Left"@,
        Direction::Right => "Right"@,
        Direction::Up => "Up"@,
        Direction::Down => "Down"@,
    }
}

/// The name `Debug` gives a direction, as characters.
pub fn direction_debug_name(direction: Direction) -> (name: Vec<char>)
    ensures
        name@ == direction_debug(direction),
{
    match direction {
        Direction::Left => crate::text::chars_of("Left"),
        Direction::Right => crate::text::chars_of("Right"),
        Direction::Up => crate::text::chars_of("Up"),
        Direction::Down => crate::text::chars_of("Down"),
    }
}

} // verus!
