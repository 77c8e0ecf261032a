//! A cell position that moves in steps up to a bound.

use vstd::prelude::*;

verus! {

/// A column and a row of a character grid.
pub struct Position {
    pub x: u16,
    pub y: u16,
}

impl Position {
    pub fn new(x: u16, y: u16) -> (p: Self)
        ensures
            p.x == x,
            p.y == y,
    {
        Self { x, y }
    }

    /// Moves `jump` rows up while the row is below `clamp`; a position at or
    /// above `clamp` stays.
    pub fn move_up(&mut self, jump: u16, clamp: u16)
        requires
            old(self).y > clamp ==> jump <= old(self).y,
        ensures
            final(self).x == old(self).x,
            final(self).y == if old(self).y > clamp {
                old(self).y - jump
            } else {
                old(self).y as int
            },
    {
        if self.y > clamp {
            self.y -= jump;
        }
    }

    /// Moves `jump` rows down while the row is above `clamp`; a position at
    /// or below `clamp` stays.
    pub fn move_down(&mut self, jump: u16, clamp: u16)
        requires
            old(self).y < clamp ==> old(self).y + jump <= u16::MAX,
        ensures
            final(self).x == old(self).x,
            final(self).y == if old(self).y < clamp {
                old(self).y + jump
            } else {
                old(self).y as int
            },
    {
        if self.y < clamp {
            self.y += jump;
        }
    }

    /// Moves `jump` columns left while the column is right of `clamp`.
    pub fn move_left(&mut self, jump: u16, clamp: u16)
        requires
            old(self).x > clamp ==> jump <= old(self).x,
        ensures
            final(self).y == old(self).y,
            final(self).x == if old(self).x > clamp {
                old(self).x - jump
            } else {
                old(self).x as int
            },
    {
        if self.x > clamp {
            self.x -= jump;
        }
    }

    /// Moves `jump` columns right while the column is left of `clamp`.
    pub fn move_right(&mut self, jump: u16, clamp: u16)
        requires
            old(self).x < clamp ==> old(self).x + jump <= u16::MAX,
        ensures
            final(self).y == old(self).y,
            final(self).x == if old(self).x < clamp {
                old(self).x + jump
            } else {
                old(self).x as int
            },
    {
        if self.x < clamp {
            self.x += jump;
        }
    }
}

} // verus!
