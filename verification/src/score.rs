use vstd::prelude::*;
use crate::paddle::{Paddle, MIN_HEIGHT, shrunk_height, raised_speed};
use crate::screen::GameState;
use crate::side::Side;

verus! {

/// The score at which a player wins the match.
pub const WIN_SCORE: u32 = 5;

/// Points won by each player.
#[derive(Clone, Copy, Debug, PartialEq, Eq, Structural)]
pub struct Score {
    pub left: u32,
    pub right: u32,
}

impl Default for Score {
    fn default() -> (s: Self)
        ensures
            s == (Score { left: 0, right: 0 }),
    {
        Score { left: 0, right: 0 }
    }
}

/// Who, if anyone, won a point this frame.
#[derive(Clone, Copy, Debug, PartialEq, Eq, Structural)]
pub enum ScoreResult {
    NoPoint,
    LeftScored,
    RightScored,
}

/// The outcome of checking whether the ball left the court: the point, if
/// any, and which shields sent the ball back (the ball is then put back on
/// the edge of the court, heading inward).
#[derive(Clone, Copy, Debug, PartialEq, Eq, Structural)]
pub struct ExitOutcome {
    pub result: ScoreResult,
    pub left_bounce: bool,
    pub right_bounce: bool,
}

/// What follows a point.
#[derive(Clone, Copy, Debug, PartialEq, Eq, Structural)]
pub struct PointOutcome {
    /// The screen that comes next: the end of the match or a countdown.
    pub next: GameState,
    /// The player who won the match, if the point decided it.
    pub winner: Option<Side>,
    /// Whether the conceding player's paddle reached its smallest height
    /// and flashes.
    pub loser_flash: bool,
}

impl Score {
    /// The score, the paddles and the outcome after the ball left the court
    /// on the left (`left_exit`), on the right (`right_exit`), or neither.
    /// The left edge is looked at first; a point there ends the check.
    pub open spec fn spec_update(self, left_exit: bool, right_exit: bool, left: Paddle, right: Paddle)
        -> (Score, Paddle, Paddle, ExitOutcome)
    {
        if left_exit && !left.shield_active {
            (
                Score { right: (self.right + 1) as u32, ..self },
                left,
                right,
                ExitOutcome { result: ScoreResult::RightScored, left_bounce: false, right_bounce: false },
            )
        } else {
            let left_bounce = left_exit;
            let l = if left_bounce { Paddle { shield_active: false, ..left } } else { left };
            if right_exit && !right.shield_active {
                (
                    Score { left: (self.left + 1) as u32, ..self },
                    l,
                    right,
                    ExitOutcome { result: ScoreResult::LeftScored, left_bounce, right_bounce: false },
                )
            } else {
                let right_bounce = right_exit;
                let r = if right_bounce { Paddle { shield_active: false, ..right } } else { right };
                (self, l, r, ExitOutcome { result: ScoreResult::NoPoint, left_bounce, right_bounce })
            }
        }
    }

    /// Whether `spec_update` would award a point to a player whose count
    /// cannot grow any more.
    pub open spec fn update_overflows(self, left_exit: bool, right_exit: bool, left: Paddle, right: Paddle) -> bool {
        let result = self.spec_update(left_exit, right_exit, left, right).3.result;
        ||| result == ScoreResult::RightScored && self.right == u32::MAX
        ||| result == ScoreResult::LeftScored && self.left == u32::MAX
    }

    /// Awards a point when the ball has left the court, unless a shield on
    /// that side sends it back; a shield is used up by the exit it stops.
    pub fn update(&mut self, left_exit: bool, right_exit: bool, left: &mut Paddle, right: &mut Paddle) -> (out: ExitOutcome)
        requires
            !old(self).update_overflows(left_exit, right_exit, *old(left), *old(right)),
        ensures
            (*final(self), *final(left), *final(right), out)
                == old(self).spec_update(left_exit, right_exit, *old(left), *old(right)),
    {
        if left_exit {
            if left.shield_active {
                left.shield_active = false;
            } else {
                self.right = self.right + 1;
                return ExitOutcome { result: ScoreResult::RightScored, left_bounce: false, right_bounce: false };
            }
        }
        if right_exit {
            if right.shield_active {
                right.shield_active = false;
            } else {
                self.left = self.left + 1;
                return ExitOutcome { result: ScoreResult::LeftScored, left_bounce: left_exit, right_bounce: false };
            }
        }
        ExitOutcome { result: ScoreResult::NoPoint, left_bounce: left_exit, right_bounce: right_exit }
    }
}

/// The winner of the match once `scorer` has won a point and the score is
/// `score`. After a point for the left player both scores are looked at,
/// after one for the right player only the right score.
pub open spec fn spec_winner(scorer: Side, score: Score) -> Option<Side> {
    match scorer {
        Side::Left => if score.left >= WIN_SCORE {
            Some(Side::Left)
        } else if score.right >= WIN_SCORE {
            Some(Side::Right)
        } else {
            None
        },
        Side::Right => if score.right >= WIN_SCORE {
            Some(Side::Right)
        } else {
            None
        },
    }
}

/// Settles a point that `scorer` has just won, the score already counting
/// it: the other player's paddle shrinks, both paddles speed up, and the
/// match either ends or goes on after a countdown. The ball is then served
/// toward `scorer`.
pub fn resolve_point(scorer: Side, score: &Score, left: &mut Paddle, right: &mut Paddle) -> (out: PointOutcome)
    ensures
        ({
            let loser = scorer.spec_opposite();
            let old_loser = crate::ability::paddle_of(loser, *old(left), *old(right));
            let new_loser = crate::ability::paddle_of(loser, *final(left), *final(right));
            let old_winner = crate::ability::paddle_of(scorer, *old(left), *old(right));
            let new_winner = crate::ability::paddle_of(scorer, *final(left), *final(right));
            &&& new_loser == (Paddle {
                height: shrunk_height(old_loser.height),
                speed_quarters: raised_speed(old_loser.speed_quarters),
                ..old_loser
            })
            &&& new_winner == (Paddle { speed_quarters: raised_speed(old_winner.speed_quarters), ..old_winner })
            &&& out.loser_flash == (new_loser.height <= MIN_HEIGHT)
        }),
        out.winner == spec_winner(scorer, *score),
        out.next == (if out.winner.is_some() { GameState::GameOver } else { GameState::Countdown }),
{
    let loser_flash = match scorer {
        Side::Left => right.shrink(),
        Side::Right => left.shrink(),
    };
    left.update_speed();
    right.update_speed();
    let winner = match scorer {
        Side::Left => if score.left >= WIN_SCORE {
            Some(Side::Left)
        } else if score.right >= WIN_SCORE {
            Some(Side::Right)
        } else {
            None
        },
        Side::Right => if score.right >= WIN_SCORE {
            Some(Side::Right)
        } else {
            None
        },
    };
    let next = if winner.is_some() { GameState::GameOver } else { GameState::Countdown };
    PointOutcome { next, winner, loser_flash }
}

/// At most one point is won per check, and only by the player on the side
/// opposite the edge the ball left by; a shield that sends the ball back
/// is used up.
pub proof fn lemma_one_point_per_exit(score: Score, left_exit: bool, right_exit: bool, left: Paddle, right: Paddle)
    requires
        !score.update_overflows(left_exit, right_exit, left, right),
    ensures
        ({
            let (s, l, r, out) = score.spec_update(left_exit, right_exit, left, right);
            &&& out.result == ScoreResult::NoPoint ==> s == score
            &&& out.result == ScoreResult::LeftScored ==> right_exit && s.left == score.left + 1 && s.right == score.right
            &&& out.result == ScoreResult::RightScored ==> left_exit && s.right == score.right + 1 && s.left == score.left
            &&& out.left_bounce ==> left.shield_active && !l.shield_active
            &&& out.right_bounce ==> right.shield_active && !r.shield_active
            &&& !left_exit ==> l == left
            &&& (!right_exit || out.result == ScoreResult::RightScored) ==> r == right
        }),
{
}

/// First to `WIN_SCORE` points wins: during a match both scores are below
/// it, and a point wins the match exactly when it brings the scorer's count
/// to `WIN_SCORE`; the match is never won by the player who conceded.
pub proof fn lemma_first_to_win_score(score: Score, left_exit: bool, right_exit: bool, left: Paddle, right: Paddle)
    requires
        score.left < WIN_SCORE,
        score.right < WIN_SCORE,
    ensures
        ({
            let (s, l, r, out) = score.spec_update(left_exit, right_exit, left, right);
            &&& out.result == ScoreResult::LeftScored
                ==> spec_winner(Side::Left, s) == (if s.left == WIN_SCORE { Some(Side::Left) } else { None::<Side> })
            &&& out.result == ScoreResult::RightScored
                ==> spec_winner(Side::Right, s) == (if s.right == WIN_SCORE { Some(Side::Right) } else { None::<Side> })
        }),
{
}

/// The whole table of what leaving the court does. Leaving on the left
/// gives the right player a point unless the left shield is up, in which
/// case the shield is spent and the ball comes back; only if no point was
/// won on the left, leaving on the right gives the left player a point
/// unless the right shield is up, in which case that shield is spent and
/// the ball comes back. A point adds exactly one to the scorer's count.
pub proof fn lemma_exit_table(score: Score, left_exit: bool, right_exit: bool, left: Paddle, right: Paddle)
    requires
        !score.update_overflows(left_exit, right_exit, left, right),
    ensures
        ({
            let (s, l, r, out) = score.spec_update(left_exit, right_exit, left, right);
            let left_point = left_exit && !left.shield_active;
            &&& left_point ==> {
                &&& out == (ExitOutcome { result: ScoreResult::RightScored, left_bounce: false, right_bounce: false })
                &&& s.left == score.left && s.right == score.right + 1
                &&& l == left && r == right
            }
            &&& !left_point ==> {
                &&& out.left_bounce == left_exit
                &&& left_exit ==> l == (Paddle { shield_active: false, ..left })
                &&& !left_exit ==> l == left
                &&& right_exit && right.shield_active ==> {
                    &&& out.result == ScoreResult::NoPoint && out.right_bounce
                    &&& s == score
                    &&& r == (Paddle { shield_active: false, ..right })
                }
                &&& right_exit && !right.shield_active ==> {
                    &&& out.result == ScoreResult::LeftScored && !out.right_bounce
                    &&& s.left == score.left + 1 && s.right == score.right
                    &&& r == right
                }
                &&& !right_exit ==> out.result == ScoreResult::NoPoint && !out.right_bounce && s == score && r == right
            }
        }),
{
}

/// Who wins after a point: the left player once the left score reaches
/// five; after a left point with the left score under five, the right
/// player if the right score has reached five; after a right point, the
/// right player exactly when the right score has reached five; nobody
/// otherwise.
pub proof fn lemma_winner_table(scorer: Side, score: Score)
    ensures
        scorer == Side::Left && score.left >= 5 ==> spec_winner(scorer, score) == Some(Side::Left),
        scorer == Side::Left && score.left < 5 && score.right >= 5 ==> spec_winner(scorer, score) == Some(Side::Right),
        scorer == Side::Left && score.left < 5 && score.right < 5 ==> spec_winner(scorer, score) == None::<Side>,
        scorer == Side::Right && score.right >= 5 ==> spec_winner(scorer, score) == Some(Side::Right),
        scorer == Side::Right && score.right < 5 ==> spec_winner(scorer, score) == None::<Side>,
{
}

} // verus!
