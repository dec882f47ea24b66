use vstd::prelude::*;

verus! {

/// One of the two players, named by the side of the court they defend.
#[derive(Clone, Copy, Debug, PartialEq, Eq, Structural)]
pub enum Side {
    Left,
    Right,
}

impl Side {
    /// The other player.
    pub open spec fn spec_opposite(self) -> Side {
        match self {
            Side::Left => Side::Right,
            Side::Right => Side::Left,
        }
    }

    /// The other player.
    pub fn opposite(self) -> (other: Side)
        ensures
            other == self.spec_opposite(),
    {
        match self {
            Side::Left => Side::Right,
            Side::Right => Side::Left,
        }
    }

    /// The horizontal sign of a serve toward this side: `1` toward the
    /// right edge, `-1` toward the left edge.
    pub fn serve_sign(self) -> (sign: i32)
        ensures
            sign == (if self == Side::Right { 1int } else { -1int }),
    {
        match self {
            Side::Right => 1,
            Side::Left => -1,
        }
    }
}

/// Taking the other player twice gives back the same player, and the other
/// player is never the same one.
pub proof fn lemma_opposite_involution(side: Side)
    ensures
        side.spec_opposite().spec_opposite() == side,
        side.spec_opposite() != side,
{
}

} // verus!
