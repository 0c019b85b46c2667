use vstd::prelude::*;

verus! {

/// A rectangle in physical pixels, as hosts exchange it with a view.
#[derive(Clone, Copy, Debug, PartialEq, Eq, Structural)]
pub struct ViewRect {
    pub left: i32,
    pub top: i32,
    pub right: i32,
    pub bottom: i32,
}

impl ViewRect {
    /// The width of the rectangle, negative if its sides are swapped.
    pub open spec fn spec_width(self) -> int {
        self.right - self.left
    }

    /// The height of the rectangle, negative if its sides are swapped.
    pub open spec fn spec_height(self) -> int {
        self.bottom - self.top
    }

    /// The rectangle of this size at the origin.
    pub open spec fn at_origin(width: i32, height: i32) -> ViewRect {
        ViewRect { left: 0, top: 0, right: width, bottom: height }
    }

    /// Whether both dimensions of the rectangle can be represented.
    pub open spec fn is_measurable(self) -> bool {
        &&& i32::MIN <= self.spec_width() <= i32::MAX
        &&& i32::MIN <= self.spec_height() <= i32::MAX
    }

    /// Makes the rectangle of this size at the origin.
    pub fn from_size(width: i32, height: i32) -> (rect: ViewRect)
        ensures
            rect == ViewRect::at_origin(width, height),
            rect.left == 0 && rect.top == 0 && rect.right == width && rect.bottom == height,
            rect.spec_width() == width,
            rect.spec_height() == height,
            rect.is_measurable(),
    {
        ViewRect { left: 0, top: 0, right: width, bottom: height }
    }

    /// Computes the width.
    pub fn width(self) -> (width: i32)
        requires
            i32::MIN <= self.spec_width() <= i32::MAX,
        ensures
            width == self.spec_width(),
            self.left + width == self.right,
    {
        self.right - self.left
    }

    /// Computes the height.
    pub fn height(self) -> (height: i32)
        requires
            i32::MIN <= self.spec_height() <= i32::MAX,
        ensures
            height == self.spec_height(),
            self.top + height == self.bottom,
    {
        self.bottom - self.top
    }
}

/// The extents of a rectangle lead from its left to its right side and from its top to its
/// bottom, and it can be measured if and only if both fit.
pub proof fn lemma_extents(rect: ViewRect)
    ensures
        rect.left + rect.spec_width() == rect.right,
        rect.top + rect.spec_height() == rect.bottom,
        rect.is_measurable() <==> i32::MIN <= rect.right - rect.left <= i32::MAX && i32::MIN
            <= rect.bottom - rect.top <= i32::MAX,
{
}

/// The rectangle of a size at the origin begins there and ends at that size.
pub proof fn lemma_at_origin(width: i32, height: i32)
    ensures
        ViewRect::at_origin(width, height).left == 0,
        ViewRect::at_origin(width, height).top == 0,
        ViewRect::at_origin(width, height).right == width,
        ViewRect::at_origin(width, height).bottom == height,
{
}

} // verus!
