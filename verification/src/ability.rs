use vstd::prelude::*;
use crate::ball::{Ball, Pace};
use crate::paddle::{Paddle, PADDLE_HEIGHT};
use crate::side::Side;

verus! {

/// How many kinds of ability there are; a random roll below this picks one.
pub const ABILITY_KINDS: i32 = 8;

/// The abilities that float on the court until the ball runs into them.
#[derive(Clone, Copy, Debug, PartialEq, Eq, Structural)]
pub enum AbilityType {
    /// Doubles the collector's paddle.
    TwicePaddle,
    /// Halves the opponent's paddle.
    HalfPaddle,
    /// Halves the ball's speed.
    SlowBall,
    /// Doubles the ball's speed.
    FastBall,
    /// Stops the opponent's paddle.
    FreezeOpponent,
    /// Swaps the opponent's up and down keys.
    ReverseControls,
    /// Lets the collector's side bounce the ball back once.
    Shield,
    /// Adds a second ball.
    MultipleBalls,
}

/// An ability whose effect lasts until its timer runs out; `target` is the
/// opponent of the player who collected it.
#[derive(Clone, Copy, Debug, PartialEq, Eq, Structural)]
pub struct ActiveEffect {
    pub kind: AbilityType,
    pub target: Side,
}

/// What collecting an ability leaves behind besides the changed paddles
/// and ball: an effect to time, and a second ball to put on the court.
#[derive(Clone, Copy, Debug, PartialEq, Eq, Structural)]
pub struct Collected {
    pub effect: Option<ActiveEffect>,
    /// The state of an extra ball, copied from the ball that collected.
    pub extra_ball: Option<Ball>,
}

/// `side`'s paddle out of the two.
pub open spec fn paddle_of(side: Side, left: Paddle, right: Paddle) -> Paddle {
    match side {
        Side::Left => left,
        Side::Right => right,
    }
}

/// Replaces `side`'s paddle by `p` in the pair `(left, right)`.
pub open spec fn with_paddle(side: Side, p: Paddle, left: Paddle, right: Paddle) -> (Paddle, Paddle) {
    match side {
        Side::Left => (p, right),
        Side::Right => (left, p),
    }
}

impl AbilityType {
    /// The ability that a roll of a die with `ABILITY_KINDS` faces picks.
    pub open spec fn spec_from_roll(roll: int) -> AbilityType {
        if roll == 0 {
            AbilityType::TwicePaddle
        } else if roll == 1 {
            AbilityType::HalfPaddle
        } else if roll == 2 {
            AbilityType::SlowBall
        } else if roll == 3 {
            AbilityType::FastBall
        } else if roll == 4 {
            AbilityType::FreezeOpponent
        } else if roll == 5 {
            AbilityType::ReverseControls
        } else if roll == 6 {
            AbilityType::Shield
        } else {
            AbilityType::MultipleBalls
        }
    }

    /// The ability that `roll` picks; every roll outside `0..7` picks
    /// `MultipleBalls`.
    pub fn from_roll(roll: i32) -> (kind: AbilityType)
        ensures
            kind == Self::spec_from_roll(roll as int),
    {
        match roll {
            0 => AbilityType::TwicePaddle,
            1 => AbilityType::HalfPaddle,
            2 => AbilityType::SlowBall,
            3 => AbilityType::FastBall,
            4 => AbilityType::FreezeOpponent,
            5 => AbilityType::ReverseControls,
            6 => AbilityType::Shield,
            _ => AbilityType::MultipleBalls,
        }
    }

    /// A random ability, picked by a roll in `0..ABILITY_KINDS`.
    pub fn random() -> (kind: AbilityType)
        ensures
            exists|roll: int| 0 <= roll < ABILITY_KINDS && kind == #[trigger] Self::spec_from_roll(roll),
    {
        let roll = gen_range_i32(0, ABILITY_KINDS);
        Self::from_roll(roll)
    }

    /// Whether collecting this ability starts a timed effect.
    pub open spec fn leaves_effect(self) -> bool {
        !(self == AbilityType::MultipleBalls || self == AbilityType::Shield)
    }

    /// How many seconds this ability's effect lasts.
    pub open spec fn spec_duration_secs(self) -> u32 {
        match self {
            AbilityType::TwicePaddle | AbilityType::HalfPaddle | AbilityType::SlowBall => 5,
            AbilityType::FastBall | AbilityType::ReverseControls => 4,
            AbilityType::FreezeOpponent => 3,
            AbilityType::MultipleBalls => 6,
            AbilityType::Shield => 5,
        }
    }

    /// How many seconds this ability's effect lasts.
    pub fn duration_secs(self) -> (secs: u32)
        ensures
            secs == self.spec_duration_secs(),
    {
        match self {
            AbilityType::TwicePaddle | AbilityType::HalfPaddle | AbilityType::SlowBall => 5,
            AbilityType::FastBall | AbilityType::ReverseControls => 4,
            AbilityType::FreezeOpponent => 3,
            AbilityType::MultipleBalls => 6,
            AbilityType::Shield => 5,
        }
    }

    /// The ball, the left and the right paddle after `ball` runs into this
    /// ability, and what else the collection leaves behind.
    pub open spec fn spec_collect(self, ball: Ball, left: Paddle, right: Paddle) -> (Ball, Paddle, Paddle, Collected) {
        let collector = ball.spec_collector();
        let target = collector.spec_opposite();
        let effect = if self.leaves_effect() {
            Some(ActiveEffect { kind: self, target })
        } else {
            None
        };
        match self {
            AbilityType::TwicePaddle => {
                let p = paddle_of(collector, left, right);
                let (l, r) = with_paddle(collector, Paddle { height: (2 * PADDLE_HEIGHT) as u32, ..p }, left, right);
                (ball, l, r, Collected { effect, extra_ball: None })
            },
            AbilityType::HalfPaddle => {
                let p = paddle_of(target, left, right);
                let (l, r) = with_paddle(target, Paddle { height: (PADDLE_HEIGHT / 2) as u32, ..p }, left, right);
                (ball, l, r, Collected { effect, extra_ball: None })
            },
            AbilityType::SlowBall => (Ball { pace: Pace::Slow, ..ball }, left, right, Collected { effect, extra_ball: None }),
            AbilityType::FastBall => (Ball { pace: Pace::Fast, ..ball }, left, right, Collected { effect, extra_ball: None }),
            AbilityType::FreezeOpponent => {
                let p = paddle_of(target, left, right);
                let (l, r) = with_paddle(target, Paddle { is_frozen: true, ..p }, left, right);
                (ball, l, r, Collected { effect, extra_ball: None })
            },
            AbilityType::ReverseControls => {
                let p = paddle_of(target, left, right);
                let (l, r) = with_paddle(target, Paddle { controls_reversed: true, ..p }, left, right);
                (ball, l, r, Collected { effect, extra_ball: None })
            },
            AbilityType::Shield => {
                let p = paddle_of(collector, left, right);
                let (l, r) = with_paddle(collector, Paddle { shield_active: true, ..p }, left, right);
                (ball, l, r, Collected { effect, extra_ball: None })
            },
            AbilityType::MultipleBalls => (ball, left, right, Collected { effect, extra_ball: Some(ball) }),
        }
    }

    /// Applies this ability, which `ball` has just run into, to the ball
    /// and the paddles. The player who touched the ball last collects it.
    pub fn collect(self, ball: &mut Ball, left: &mut Paddle, right: &mut Paddle) -> (c: Collected)
        ensures
            (*final(ball), *final(left), *final(right), c) == self.spec_collect(*old(ball), *old(left), *old(right)),
    {
        let collector = ball.collector();
        let target = collector.opposite();
        match self {
            AbilityType::TwicePaddle => {
                if collector == Side::Left {
                    left.height = 2 * PADDLE_HEIGHT;
                } else {
                    right.height = 2 * PADDLE_HEIGHT;
                }
            },
            AbilityType::HalfPaddle => {
                if target == Side::Left {
                    left.height = PADDLE_HEIGHT / 2;
                } else {
                    right.height = PADDLE_HEIGHT / 2;
                }
            },
            AbilityType::SlowBall => {
                ball.pace = Pace::Slow;
            },
            AbilityType::FastBall => {
                ball.pace = Pace::Fast;
            },
            AbilityType::FreezeOpponent => {
                if target == Side::Left {
                    left.is_frozen = true;
                } else {
                    right.is_frozen = true;
                }
            },
            AbilityType::ReverseControls => {
                if target == Side::Left {
                    left.controls_reversed = true;
                } else {
                    right.controls_reversed = true;
                }
            },
            AbilityType::Shield => {
                if collector == Side::Left {
                    left.shield_active = true;
                } else {
                    right.shield_active = true;
                }
            },
            AbilityType::MultipleBalls => {},
        }
        let extra_ball = if self == AbilityType::MultipleBalls {
            Some(*ball)
        } else {
            None
        };
        let effect = if self != AbilityType::MultipleBalls && self != AbilityType::Shield {
            Some(ActiveEffect { kind: self, target })
        } else {
            None
        };
        Collected { effect, extra_ball }
    }
}

impl ActiveEffect {
    /// The ball, the left and the right paddle once this effect has run
    /// out, and whether the extra balls leave the court.
    pub open spec fn spec_expire(self, ball: Ball, left: Paddle, right: Paddle) -> (Ball, Paddle, Paddle, bool) {
        match self.kind {
            AbilityType::TwicePaddle => {
                let side = self.target.spec_opposite();
                let (l, r) = with_paddle(side, Paddle { height: PADDLE_HEIGHT, ..paddle_of(side, left, right) }, left, right);
                (ball, l, r, false)
            },
            AbilityType::HalfPaddle => {
                let side = self.target;
                let (l, r) = with_paddle(side, Paddle { height: PADDLE_HEIGHT, ..paddle_of(side, left, right) }, left, right);
                (ball, l, r, false)
            },
            AbilityType::SlowBall | AbilityType::FastBall => (Ball { pace: Pace::Normal, ..ball }, left, right, false),
            AbilityType::FreezeOpponent => (ball, Paddle { is_frozen: false, ..left }, Paddle { is_frozen: false, ..right }, false),
            AbilityType::ReverseControls => (
                ball,
                Paddle { controls_reversed: false, ..left },
                Paddle { controls_reversed: false, ..right },
                false,
            ),
            AbilityType::MultipleBalls => (ball, left, right, true),
            AbilityType::Shield => (ball, left, right, false),
        }
    }

    /// Ends this effect when its timer runs out: paddles get their starting
    /// height back, the ball its normal pace, frozen and reversed paddles
    /// are released. Returns whether the extra balls are to be removed.
    pub fn expire(self, ball: &mut Ball, left: &mut Paddle, right: &mut Paddle) -> (clear_extra_balls: bool)
        ensures
            (*final(ball), *final(left), *final(right), clear_extra_balls) == self.spec_expire(*old(ball), *old(left), *old(right)),
    {
        match self.kind {
            AbilityType::TwicePaddle => {
                if self.target == Side::Right {
                    left.height = PADDLE_HEIGHT;
                } else {
                    right.height = PADDLE_HEIGHT;
                }
                false
            },
            AbilityType::HalfPaddle => {
                if self.target == Side::Left {
                    left.height = PADDLE_HEIGHT;
                } else {
                    right.height = PADDLE_HEIGHT;
                }
                false
            },
            AbilityType::SlowBall | AbilityType::FastBall => {
                ball.pace = Pace::Normal;
                false
            },
            AbilityType::FreezeOpponent => {
                left.is_frozen = false;
                right.is_frozen = false;
                false
            },
            AbilityType::ReverseControls => {
                left.controls_reversed = false;
                right.controls_reversed = false;
                false
            },
            AbilityType::MultipleBalls => true,
            AbilityType::Shield => false,
        }
    }
}

impl AbilityType {
    /// Whether the things this ability would change, were `ball` to run
    /// into it, are at their resting values: the affected paddle at its
    /// starting height, the ball at its normal pace, no paddle frozen or
    /// reversed.
    pub open spec fn at_rest(self, ball: Ball, left: Paddle, right: Paddle) -> bool {
        let collector = ball.spec_collector();
        let target = collector.spec_opposite();
        match self {
            AbilityType::TwicePaddle => paddle_of(collector, left, right).height == PADDLE_HEIGHT,
            AbilityType::HalfPaddle => paddle_of(target, left, right).height == PADDLE_HEIGHT,
            AbilityType::SlowBall | AbilityType::FastBall => ball.pace == Pace::Normal,
            AbilityType::FreezeOpponent => !left.is_frozen && !right.is_frozen,
            AbilityType::ReverseControls => !left.controls_reversed && !right.controls_reversed,
            AbilityType::Shield | AbilityType::MultipleBalls => true,
        }
    }
}

/// An ability with a timed effect is aimed at the opponent of the player
/// who collected it, and when the effect runs out, the ball and both
/// paddles are back to what they were before the collection, provided what
/// the ability changes was at rest then.
pub proof fn lemma_expiry_undoes_collection(kind: AbilityType, ball: Ball, left: Paddle, right: Paddle)
    requires
        kind.leaves_effect(),
        kind.at_rest(ball, left, right),
    ensures
        ({
            let (b, l, r, c) = kind.spec_collect(ball, left, right);
            &&& c.effect == Some(ActiveEffect { kind, target: ball.spec_collector().spec_opposite() })
            &&& c.extra_ball.is_none()
            &&& c.effect.unwrap().spec_expire(b, l, r) == (ball, left, right, false)
        }),
{
}

/// Shields and extra balls start no timed effect; an extra ball is a copy
/// of the ball that collected it.
pub proof fn lemma_untimed_abilities(kind: AbilityType, ball: Ball, left: Paddle, right: Paddle)
    requires
        !kind.leaves_effect(),
    ensures
        ({
            let (b, l, r, c) = kind.spec_collect(ball, left, right);
            &&& c.effect.is_none()
            &&& b == ball
            &&& (kind == AbilityType::MultipleBalls ==> c.extra_ball == Some(ball) && l == left && r == right)
            &&& (kind == AbilityType::Shield ==> c.extra_ball.is_none()
                && paddle_of(ball.spec_collector(), l, r).shield_active)
        }),
{
}

/// Abilities that help (a doubled paddle, a shield) change only the
/// collector's paddle; abilities that hinder (a halved paddle, freezing,
/// reversed controls) change only the opponent's; the ball's pace is the
/// only thing the ball abilities change.
pub proof fn lemma_collection_sides(kind: AbilityType, ball: Ball, left: Paddle, right: Paddle)
    ensures
        ({
            let collector = ball.spec_collector();
            let target = collector.spec_opposite();
            let (b, l, r, c) = kind.spec_collect(ball, left, right);
            &&& (kind == AbilityType::TwicePaddle || kind == AbilityType::Shield)
                ==> paddle_of(target, l, r) == paddle_of(target, left, right) && b == ball
            &&& (kind == AbilityType::HalfPaddle || kind == AbilityType::FreezeOpponent
                || kind == AbilityType::ReverseControls)
                ==> paddle_of(collector, l, r) == paddle_of(collector, left, right) && b == ball
            &&& (kind == AbilityType::SlowBall || kind == AbilityType::FastBall)
                ==> l == left && r == right && b.last_hit_by == ball.last_hit_by
        }),
{
}

/// Collecting an ability and ending an effect keep both paddles in the
/// states a match can reach.
pub proof fn lemma_abilities_keep_paddles_wf(
    kind: AbilityType,
    effect: ActiveEffect,
    ball: Ball,
    left: Paddle,
    right: Paddle,
)
    requires
        left.wf(),
        right.wf(),
    ensures
        kind.spec_collect(ball, left, right).1.wf(),
        kind.spec_collect(ball, left, right).2.wf(),
        effect.spec_expire(ball, left, right).1.wf(),
        effect.spec_expire(ball, left, right).2.wf(),
{
}

/// What each ability does, whatever the paddles and the ball were before:
/// the player who touched the ball last (the left player if nobody did)
/// collects it. A doubled paddle is twice the starting height and a halved
/// one half of it, however much the paddle had shrunk; a freeze or reversal
/// hits the collector's opponent, a shield the collector's own side; an
/// extra ball copies the collecting ball. Nothing else changes, and every
/// ability but Shield and MultipleBalls starts an effect aimed at the
/// opponent.
pub proof fn lemma_collect_outcomes(kind: AbilityType, ball: Ball, left: Paddle, right: Paddle)
    ensures
        ({
            let (b, l, r, c) = kind.spec_collect(ball, left, right);
            let by_right = ball.last_hit_by == Some(Side::Right);
            let opponent = if by_right { Side::Left } else { Side::Right };
            &&& kind == AbilityType::TwicePaddle ==> {
                &&& by_right ==> r == (Paddle { height: (2 * PADDLE_HEIGHT) as u32, ..right }) && l == left
                &&& !by_right ==> l == (Paddle { height: (2 * PADDLE_HEIGHT) as u32, ..left }) && r == right
                &&& b == ball
                &&& c == (Collected { effect: Some(ActiveEffect { kind, target: opponent }), extra_ball: None })
            }
            &&& kind == AbilityType::HalfPaddle ==> {
                &&& by_right ==> l == (Paddle { height: PADDLE_HEIGHT / 2, ..left }) && r == right
                &&& !by_right ==> r == (Paddle { height: PADDLE_HEIGHT / 2, ..right }) && l == left
                &&& b == ball
                &&& c == (Collected { effect: Some(ActiveEffect { kind, target: opponent }), extra_ball: None })
            }
            &&& kind == AbilityType::SlowBall ==> {
                &&& b == (Ball { pace: Pace::Slow, ..ball }) && l == left && r == right
                &&& c == (Collected { effect: Some(ActiveEffect { kind, target: opponent }), extra_ball: None })
            }
            &&& kind == AbilityType::FastBall ==> {
                &&& b == (Ball { pace: Pace::Fast, ..ball }) && l == left && r == right
                &&& c == (Collected { effect: Some(ActiveEffect { kind, target: opponent }), extra_ball: None })
            }
            &&& kind == AbilityType::FreezeOpponent ==> {
                &&& by_right ==> l == (Paddle { is_frozen: true, ..left }) && r == right
                &&& !by_right ==> r == (Paddle { is_frozen: true, ..right }) && l == left
                &&& b == ball
                &&& c == (Collected { effect: Some(ActiveEffect { kind, target: opponent }), extra_ball: None })
            }
            &&& kind == AbilityType::ReverseControls ==> {
                &&& by_right ==> l == (Paddle { controls_reversed: true, ..left }) && r == right
                &&& !by_right ==> r == (Paddle { controls_reversed: true, ..right }) && l == left
                &&& b == ball
                &&& c == (Collected { effect: Some(ActiveEffect { kind, target: opponent }), extra_ball: None })
            }
            &&& kind == AbilityType::Shield ==> {
                &&& by_right ==> r == (Paddle { shield_active: true, ..right }) && l == left
                &&& !by_right ==> l == (Paddle { shield_active: true, ..left }) && r == right
                &&& b == ball
                &&& c == (Collected { effect: None, extra_ball: None })
            }
            &&& kind == AbilityType::MultipleBalls ==> {
                &&& b == ball && l == left && r == right
                &&& c == (Collected { effect: None, extra_ball: Some(ball) })
            }
        }),
{
}

/// What ending each effect does, whatever happened to the paddles and the
/// ball while it lasted: the paddle the effect resized (the collector's for
/// TwicePaddle, the target's for HalfPaddle) gets its starting height back,
/// even if it shrank meanwhile; a slowed or sped-up ball gets its normal
/// pace; freezing and reversal are lifted from both paddles; extra balls are
/// removed only when MultipleBalls ends. Nothing else changes.
pub proof fn lemma_expire_outcomes(effect: ActiveEffect, ball: Ball, left: Paddle, right: Paddle)
    ensures
        ({
            let (b, l, r, clear) = effect.spec_expire(ball, left, right);
            let on_right = effect.target == Side::Right;
            &&& clear == (effect.kind == AbilityType::MultipleBalls)
            &&& effect.kind == AbilityType::TwicePaddle ==> {
                &&& on_right ==> l == (Paddle { height: PADDLE_HEIGHT, ..left }) && r == right
                &&& !on_right ==> r == (Paddle { height: PADDLE_HEIGHT, ..right }) && l == left
                &&& b == ball
            }
            &&& effect.kind == AbilityType::HalfPaddle ==> {
                &&& on_right ==> r == (Paddle { height: PADDLE_HEIGHT, ..right }) && l == left
                &&& !on_right ==> l == (Paddle { height: PADDLE_HEIGHT, ..left }) && r == right
                &&& b == ball
            }
            &&& (effect.kind == AbilityType::SlowBall || effect.kind == AbilityType::FastBall)
                ==> b == (Ball { pace: Pace::Normal, ..ball }) && l == left && r == right
            &&& effect.kind == AbilityType::FreezeOpponent ==> b == ball
                && l == (Paddle { is_frozen: false, ..left }) && r == (Paddle { is_frozen: false, ..right })
            &&& effect.kind == AbilityType::ReverseControls ==> b == ball
                && l == (Paddle { controls_reversed: false, ..left })
                && r == (Paddle { controls_reversed: false, ..right })
            &&& (effect.kind == AbilityType::Shield || effect.kind == AbilityType::MultipleBalls)
                ==> b == ball && l == left && r == right
        }),
{
}

/// The roll of each face picks its own ability, in the order the abilities
/// are listed, and every roll outside `0..7` picks MultipleBalls; so a roll
/// in `0..ABILITY_KINDS` can pick every ability.
pub proof fn lemma_roll_table(roll: int)
    ensures
        roll == 0 ==> AbilityType::spec_from_roll(roll) == AbilityType::TwicePaddle,
        roll == 1 ==> AbilityType::spec_from_roll(roll) == AbilityType::HalfPaddle,
        roll == 2 ==> AbilityType::spec_from_roll(roll) == AbilityType::SlowBall,
        roll == 3 ==> AbilityType::spec_from_roll(roll) == AbilityType::FastBall,
        roll == 4 ==> AbilityType::spec_from_roll(roll) == AbilityType::FreezeOpponent,
        roll == 5 ==> AbilityType::spec_from_roll(roll) == AbilityType::ReverseControls,
        roll == 6 ==> AbilityType::spec_from_roll(roll) == AbilityType::Shield,
        (roll < 0 || roll >= 7) ==> AbilityType::spec_from_roll(roll) == AbilityType::MultipleBalls,
{
}

/// How long each effect lasts: five seconds for a resized paddle or a
/// slowed ball, four for a sped-up ball or reversed controls, three for a
/// freeze.
pub proof fn lemma_duration_table(kind: AbilityType)
    ensures
        (kind == AbilityType::TwicePaddle || kind == AbilityType::HalfPaddle || kind == AbilityType::SlowBall)
            ==> kind.spec_duration_secs() == 5,
        (kind == AbilityType::FastBall || kind == AbilityType::ReverseControls) ==> kind.spec_duration_secs() == 4,
        kind == AbilityType::FreezeOpponent ==> kind.spec_duration_secs() == 3,
        kind == AbilityType::MultipleBalls ==> kind.spec_duration_secs() == 6,
        kind == AbilityType::Shield ==> kind.spec_duration_secs() == 5,
{
}

/// A uniformly drawn integer in `low..high`.
///
/// Calls `macroquad::rand::gen_range` (quad-rand's global generator). Its
/// source scales a 32-bit random number into `[low, high)` in `f64` and
/// truncates; for `0 <= low < high <= 2^20` that computation is exact, so
/// the result lies in `low..high`. Nothing is claimed about which value.
#[verifier::external_body]
fn gen_range_i32(low: i32, high: i32) -> (r: i32)
    requires
        0 <= low < high <= 0x10_0000,
    ensures
        low <= r < high,
{
    macroquad::rand::gen_range(low, high)
}

} // verus!
