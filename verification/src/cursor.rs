use vstd::prelude::*;

verus! {

/// A 2D position on the playfield. Moves are single steps and perform no
/// bounds checking of their own: callers keep the cursor inside the grid by
/// testing against the grid dimensions before each move.
pub struct Cursor {
    x: i32,
    y: i32,
}

impl Cursor {
    /// The horizontal coordinate, as a mathematical integer.
    pub closed spec fn spec_x(&self) -> int {
        self.x as int
    }

    /// The vertical coordinate, as a mathematical integer.
    pub closed spec fn spec_y(&self) -> int {
        self.y as int
    }

    pub fn new(x: i32, y: i32) -> (c: Cursor)
        ensures
            c.spec_x() == x,
            c.spec_y() == y,
    {
        Cursor { x, y }
    }

    pub fn get_x(&self) -> (r: i32)
        ensures
            r == self.spec_x(),
    {
        self.x
    }

    pub fn get_y(&self) -> (r: i32)
        ensures
            r == self.spec_y(),
    {
        self.y
    }

    pub fn up(&mut self)
        requires
            i32::MIN < old(self).spec_y(),
        ensures
            final(self).spec_x() == old(self).spec_x(),
            final(self).spec_y() == old(self).spec_y() - 1,
    {
        self.y = self.y - 1;
    }

    pub fn down(&mut self)
        requires
            old(self).spec_y() < i32::MAX,
        ensures
            final(self).spec_x() == old(self).spec_x(),
            final(self).spec_y() == old(self).spec_y() + 1,
    {
        self.y = self.y + 1;
    }

    pub fn left(&mut self)
        requires
            i32::MIN < old(self).spec_x(),
        ensures
            final(self).spec_x() == old(self).spec_x() - 1,
            final(self).spec_y() == old(self).spec_y(),
    {
        self.x = self.x - 1;
    }

    pub fn right(&mut self)
        requires
            old(self).spec_x() < i32::MAX,
        ensures
            final(self).spec_x() == old(self).spec_x() + 1,
            final(self).spec_y() == old(self).spec_y(),
    {
        self.x = self.x + 1;
    }
}

} // verus!
