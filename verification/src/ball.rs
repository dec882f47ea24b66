use vstd::prelude::*;
use crate::side::Side;

verus! {

/// The factor by which the ball's speed is scaled: 1.0, 0.5 or 2.0.
#[derive(Clone, Copy, Debug, PartialEq, Eq, Structural)]
pub enum Pace {
    Normal,
    Slow,
    Fast,
}

/// The discrete state of a ball: who touched it last, and its pace.
#[derive(Clone, Copy, Debug, PartialEq, Eq, Structural)]
pub struct Ball {
    /// The player whose paddle the ball last bounced off, if any.
    pub last_hit_by: Option<Side>,
    pub pace: Pace,
}

impl Pace {
    /// The speed factor in half units: 2 for 1.0, 1 for 0.5, 4 for 2.0.
    pub fn halves(self) -> (h: u32)
        ensures
            h == (match self {
                Pace::Normal => 2u32,
                Pace::Slow => 1u32,
                Pace::Fast => 4u32,
            }),
    {
        match self {
            Pace::Normal => 2,
            Pace::Slow => 1,
            Pace::Fast => 4,
        }
    }
}

impl Ball {
    /// A new ball: nobody has touched it and it moves at its normal pace.
    pub fn new() -> (b: Ball)
        ensures
            b.last_hit_by == Option::<Side>::None,
            b.pace == Pace::Normal,
    {
        Ball { last_hit_by: None, pace: Pace::Normal }
    }

    /// The player credited with an ability the ball runs into: the one who
    /// touched it last, or the left player if nobody has.
    pub open spec fn spec_collector(self) -> Side {
        match self.last_hit_by {
            Some(side) => side,
            None => Side::Left,
        }
    }

    /// The player credited with an ability the ball runs into.
    pub fn collector(&self) -> (side: Side)
        ensures
            side == self.spec_collector(),
    {
        match self.last_hit_by {
            Some(side) => side,
            None => Side::Left,
        }
    }

    /// Records that the ball bounced off `side`'s paddle.
    pub fn hit_by(&mut self, side: Side)
        ensures
            *final(self) == (Ball { last_hit_by: Some(side), ..*old(self) }),
    {
        self.last_hit_by = Some(side);
    }
}

/// An ability is credited to the player who touched the ball last, and to
/// the left player while nobody has touched it.
pub proof fn lemma_collector(ball: Ball, side: Side)
    ensures
        ball.last_hit_by == Some(side) ==> ball.spec_collector() == side,
        ball.last_hit_by.is_none() ==> ball.spec_collector() == Side::Left,
{
}

} // verus!
