//! Picture sizes in pixels.

use vstd::prelude::*;

verus! {

#[derive(Clone, Copy, Debug, PartialEq, Eq, Structural)]
pub struct Size {
    pub width: usize,
    pub height: usize,
}

/// `number`, or one where it is less.
pub open spec fn at_least_one(number: int) -> int {
    if number < 1 {
        1
    } else {
        number
    }
}

impl Size {
    /// The size that a caller's two numbers stand for: a side is never less than one pixel.
    pub open spec fn of_sides(width: int, height: int) -> Size {
        Size { width: at_least_one(width) as usize, height: at_least_one(height) as usize }
    }

    /// The same size with neither side less than one pixel.
    pub open spec fn nonempty(self) -> Size {
        Size::of_sides(self.width as int, self.height as int)
    }

    /// The size after a quarter turn.
    pub open spec fn turned(self) -> Size {
        Size { width: self.height, height: self.width }
    }

    pub fn from_sides(width: i32, height: i32) -> (size: Size)
        ensures
            size == Size::of_sides(width as int, height as int),
            size.width == at_least_one(width as int),
            size.height == at_least_one(height as int),
    {
        Size {
            width: if width < 1 {
                1
            } else {
                width as usize
            },
            height: if height < 1 {
                1
            } else {
                height as usize
            },
        }
    }

    pub fn clamped(self) -> (size: Size)
        ensures
            size == self.nonempty(),
    {
        Size {
            width: if self.width < 1 {
                1
            } else {
                self.width
            },
            height: if self.height < 1 {
                1
            } else {
                self.height
            },
        }
    }
}

/// A side of at least one pixel is kept as it is, and any lesser one becomes one pixel.
pub proof fn law_sides(width: int, height: int)
    requires
        width <= usize::MAX,
        height <= usize::MAX,
    ensures
        width >= 1 ==> Size::of_sides(width, height).width == width,
        width < 1 ==> Size::of_sides(width, height).width == 1,
        height >= 1 ==> Size::of_sides(width, height).height == height,
        height < 1 ==> Size::of_sides(width, height).height == 1,
{
}

/// Only an empty side changes where a size is made nonempty, and a turn swaps the sides.
pub proof fn law_nonempty_and_turned(size: Size)
    ensures
        size.width >= 1 ==> size.nonempty().width == size.width,
        size.width == 0 ==> size.nonempty().width == 1,
        size.height >= 1 ==> size.nonempty().height == size.height,
        size.height == 0 ==> size.nonempty().height == 1,
        size.turned().width == size.height,
        size.turned().height == size.width,
{
}

} // verus!
