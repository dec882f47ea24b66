use vstd::prelude::*;

verus! {

// Paddle heights are counted in half pixels: every height the game ever
// gives a paddle (80 px, doubled, halved, less 12.5 px per lost point,
// never below 30 px) is a whole number of half pixels.

/// The height a paddle starts with, 80 px, in half pixels.
pub const PADDLE_HEIGHT: u32 = 160;

/// How much a paddle loses when its player concedes a point, 12.5 px.
pub const SHRINK_STEP: u32 = 25;

/// The smallest height that shrinking leaves a paddle, 30 px.
pub const MIN_HEIGHT: u32 = 60;

/// Paddle speed multipliers are counted in quarters: 1.0 is four quarters.
pub const BASE_SPEED_QUARTERS: u32 = 4;

/// The largest speed multiplier, 3.0.
pub const MAX_SPEED_QUARTERS: u32 = 12;

/// The discrete state of a paddle: its height, its speed multiplier and
/// the flags that abilities set on it.
#[derive(Clone, Copy, Debug, PartialEq, Eq, Structural)]
pub struct Paddle {
    /// Height in half pixels.
    pub height: u32,
    /// Speed multiplier in quarters.
    pub speed_quarters: u32,
    /// The computer moves this paddle.
    pub is_ai: bool,
    /// The paddle does not move while frozen.
    pub is_frozen: bool,
    /// Up and down are swapped for this paddle's player.
    pub controls_reversed: bool,
    /// The next time the ball leaves the court on this side, it bounces back.
    pub shield_active: bool,
}

/// How a paddle is moved this frame.
#[derive(Clone, Copy, Debug, PartialEq, Eq, Structural)]
pub enum Steer {
    /// It stays where it is, and is not even clamped to the court.
    Frozen,
    /// The computer follows the ball.
    Ai,
    /// The player's keys move it: down first, then up.
    Keys { down: bool, up: bool },
}

/// The height after conceding a point: 12.5 px less, but at least 30 px.
pub open spec fn shrunk_height(height: u32) -> u32 {
    if height >= MIN_HEIGHT + SHRINK_STEP {
        (height - SHRINK_STEP) as u32
    } else {
        MIN_HEIGHT
    }
}

/// The speed multiplier after a point: a quarter more, but at most 3.0.
pub open spec fn raised_speed(quarters: u32) -> u32 {
    if quarters < MAX_SPEED_QUARTERS {
        (quarters + 1) as u32
    } else {
        MAX_SPEED_QUARTERS
    }
}

impl Paddle {
    /// The states a paddle can reach in a match: its height lies between
    /// the shrinking limit and twice the starting height, and its speed
    /// multiplier between 1.0 and 3.0.
    pub open spec fn wf(self) -> bool {
        &&& MIN_HEIGHT <= self.height <= 2 * PADDLE_HEIGHT
        &&& BASE_SPEED_QUARTERS <= self.speed_quarters <= MAX_SPEED_QUARTERS
    }

    /// A fresh paddle: full height, speed 1.0, no ability acting on it.
    pub fn new(is_ai: bool) -> (p: Paddle)
        ensures
            p.height == PADDLE_HEIGHT,
            p.speed_quarters == BASE_SPEED_QUARTERS,
            p.is_ai == is_ai,
            !p.is_frozen,
            !p.controls_reversed,
            !p.shield_active,
            p.wf(),
    {
        Paddle {
            height: PADDLE_HEIGHT,
            speed_quarters: BASE_SPEED_QUARTERS,
            is_ai,
            is_frozen: false,
            controls_reversed: false,
            shield_active: false,
        }
    }

    /// Raises the speed multiplier by a quarter, up to 3.0.
    pub fn update_speed(&mut self)
        ensures
            *final(self) == (Paddle { speed_quarters: raised_speed(old(self).speed_quarters), ..*old(self) }),
            old(self).speed_quarters < MAX_SPEED_QUARTERS ==> final(self).speed_quarters == old(self).speed_quarters + 1,
            old(self).speed_quarters >= MAX_SPEED_QUARTERS ==> final(self).speed_quarters == MAX_SPEED_QUARTERS,
    {
        if self.speed_quarters < MAX_SPEED_QUARTERS {
            self.speed_quarters = self.speed_quarters + 1;
        } else {
            self.speed_quarters = MAX_SPEED_QUARTERS;
        }
    }

    /// Shrinks the paddle after its player conceded a point. Returns whether
    /// it is now at its smallest, in which case it flashes.
    pub fn shrink(&mut self) -> (flash: bool)
        ensures
            *final(self) == (Paddle { height: shrunk_height(old(self).height), ..*old(self) }),
            flash == (final(self).height <= MIN_HEIGHT),
            flash == (old(self).height <= MIN_HEIGHT + SHRINK_STEP),
            old(self).height >= MIN_HEIGHT + SHRINK_STEP ==> final(self).height == old(self).height - SHRINK_STEP,
            old(self).height < MIN_HEIGHT + SHRINK_STEP ==> final(self).height == MIN_HEIGHT,
    {
        if self.height >= MIN_HEIGHT + SHRINK_STEP {
            self.height = self.height - SHRINK_STEP;
        } else {
            self.height = MIN_HEIGHT;
        }
        self.height <= MIN_HEIGHT
    }

    /// How the paddle moves this frame, given which of its player's keys
    /// are held: a frozen paddle does not move, the computer steers its
    /// own paddle, and reversed controls swap the keys.
    pub fn steer(&self, going_up_held: bool, going_down_held: bool) -> (s: Steer)
        ensures
            s == (if self.is_frozen {
                Steer::Frozen
            } else if self.is_ai {
                Steer::Ai
            } else if self.controls_reversed {
                Steer::Keys { down: going_up_held, up: going_down_held }
            } else {
                Steer::Keys { down: going_down_held, up: going_up_held }
            }),
    {
        if self.is_frozen {
            return Steer::Frozen;
        }
        let (up, down) = if self.controls_reversed {
            (going_down_held, going_up_held)
        } else {
            (going_up_held, going_down_held)
        };
        if self.is_ai {
            Steer::Ai
        } else {
            Steer::Keys { down, up }
        }
    }
}

/// The height after conceding `n` points in a row.
pub open spec fn shrunk_times(height: u32, n: nat) -> u32
    decreases n,
{
    if n == 0 {
        height
    } else {
        shrunk_times(shrunk_height(height), (n - 1) as nat)
    }
}

/// Shrinking and speeding up keep a paddle in the states a match can
/// reach: it never gets smaller than 30 px nor faster than 3.0, and
/// neither operation makes it taller or slower.
pub proof fn lemma_point_keeps_paddle_wf(p: Paddle)
    requires
        p.wf(),
    ensures
        (Paddle { height: shrunk_height(p.height), ..p }).wf(),
        (Paddle { speed_quarters: raised_speed(p.speed_quarters), ..p }).wf(),
        MIN_HEIGHT <= shrunk_height(p.height) <= p.height,
        p.speed_quarters <= raised_speed(p.speed_quarters) <= MAX_SPEED_QUARTERS,
{
}

/// A paddle that keeps conceding points reaches its smallest height once
/// the points have taken off its excess over 30 px, 12.5 px each, and then
/// stays there; from the starting height that takes four points.
pub proof fn lemma_shrinking_reaches_minimum(height: u32, n: nat)
    requires
        MIN_HEIGHT <= height,
        n * SHRINK_STEP >= height - MIN_HEIGHT,
    ensures
        shrunk_times(height, n) == MIN_HEIGHT,
        shrunk_times(PADDLE_HEIGHT, 4) == MIN_HEIGHT,
        shrunk_times(PADDLE_HEIGHT, 3) > MIN_HEIGHT,
    decreases n,
{
    reveal_with_fuel(shrunk_times, 5);
    if n > 0 {
        let h = shrunk_height(height);
        if h == MIN_HEIGHT {
            lemma_minimum_is_fixed((n - 1) as nat);
        } else {
            lemma_shrinking_reaches_minimum(h, (n - 1) as nat);
        }
    }
}

/// Shrinking a paddle that is at its smallest height leaves it there.
pub proof fn lemma_minimum_is_fixed(n: nat)
    ensures
        shrunk_times(MIN_HEIGHT, n) == MIN_HEIGHT,
    decreases n,
{
    if n > 0 {
        lemma_minimum_is_fixed((n - 1) as nat);
    }
}

/// Conceding a point takes exactly 12.5 px off a paddle of any height, a
/// doubled paddle included, unless that would leave it under 30 px, in
/// which case it becomes 30 px; it flashes exactly when it ends at 30 px.
pub proof fn lemma_shrink_takes_one_step(height: u32)
    ensures
        height >= MIN_HEIGHT + SHRINK_STEP ==> shrunk_height(height) + SHRINK_STEP == height,
        height < MIN_HEIGHT + SHRINK_STEP ==> shrunk_height(height) == MIN_HEIGHT,
        shrunk_height(height) >= MIN_HEIGHT,
        (shrunk_height(height) == MIN_HEIGHT) == (height <= MIN_HEIGHT + SHRINK_STEP),
{
}

/// A point raises a speed multiplier below 3.0 by exactly a quarter, and
/// leaves one at or above 3.0 at 3.0.
pub proof fn lemma_speed_takes_one_step(quarters: u32)
    ensures
        quarters < MAX_SPEED_QUARTERS ==> raised_speed(quarters) == quarters + 1,
        quarters >= MAX_SPEED_QUARTERS ==> raised_speed(quarters) == MAX_SPEED_QUARTERS,
{
}

} // verus!
