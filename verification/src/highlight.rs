//! Which axis of a reading stands out in the live view.

use vstd::prelude::*;

verus! {

/// How an axis stands out among the three of a reading.
#[derive(Debug, Copy, Clone, PartialEq, Eq, Hash, Structural)]
pub enum Max {
    /// The axis does not stand out.
    Neither,
    /// The axis has the largest magnitude, below zero.
    Negative,
    /// The axis has the largest magnitude, above zero.
    Positive,
}

impl Max {
    /// The mark with its sign turned where `flip` holds.
    pub open spec fn flipped(self, flip: bool) -> Max {
        match self {
            Max::Neither => Max::Neither,
            Max::Negative => if flip {
                Max::Positive
            } else {
                Max::Negative
            },
            Max::Positive => if flip {
                Max::Negative
            } else {
                Max::Positive
            },
        }
    }

    /// Turns the sign of the mark where `flip` holds.
    pub fn flip_if(self, flip: bool) -> (mark: Max)
        ensures
            mark == self.flipped(flip),
    {
        match self {
            Max::Neither => Max::Neither,
            Max::Negative => {
                if flip {
                    Max::Positive
                } else {
                    Max::Negative
                }
            },
            Max::Positive => {
                if flip {
                    Max::Negative
                } else {
                    Max::Positive
                }
            },
        }
    }
}

/// The magnitude of a component.
pub open spec fn magnitude(value: int) -> int {
    if value > 0 {
        value
    } else {
        -value
    }
}

/// The mark of a component among three: it stands out where its magnitude is
/// larger than that of both others, by its sign.
pub open spec fn mark_of(value: int, other: int, third: int) -> Max {
    if magnitude(value) > magnitude(other) && magnitude(value) > magnitude(third) {
        if value > 0 {
            Max::Positive
        } else {
            Max::Negative
        }
    } else {
        Max::Neither
    }
}

/// Marks the axis whose component has the largest magnitude, by the sign of
/// the component. Where two components share the largest magnitude, no axis
/// is marked.
pub fn highlight_axis_3(x: i16, y: i16, z: i16) -> (marks: (Max, Max, Max))
    ensures
        marks.0 == mark_of(x as int, y as int, z as int),
        marks.1 == mark_of(y as int, x as int, z as int),
        marks.2 == mark_of(z as int, x as int, y as int),
{
    let (x, x_pos): (i32, bool) = if x > 0 {
        (x as i32, true)
    } else {
        (-(x as i32), false)
    };
    let (y, y_pos): (i32, bool) = if y > 0 {
        (y as i32, true)
    } else {
        (-(y as i32), false)
    };
    let (z, z_pos): (i32, bool) = if z > 0 {
        (z as i32, true)
    } else {
        (-(z as i32), false)
    };
    if x > y && x > z {
        (Max::Positive.flip_if(!x_pos), Max::Neither, Max::Neither)
    } else if y > x && y > z {
        (Max::Neither, Max::Positive.flip_if(!y_pos), Max::Neither)
    } else if z > x && z > y {
        (Max::Neither, Max::Neither, Max::Positive.flip_if(!z_pos))
    } else {
        (Max::Neither, Max::Neither, Max::Neither)
    }
}

/// At most one axis is marked.
pub proof fn lemma_one_axis_stands_out(x: int, y: int, z: int)
    ensures
        mark_of(x, y, z) != Max::Neither ==> mark_of(y, x, z) == Max::Neither && mark_of(z, x, y)
            == Max::Neither,
        mark_of(y, x, z) != Max::Neither ==> mark_of(z, x, y) == Max::Neither,
{
}

} // verus!
