use pong::ability::{AbilityType, ActiveEffect, ABILITY_KINDS};
use pong::ball::{Ball, Pace};
use pong::paddle::{Paddle, Steer, MAX_SPEED_QUARTERS, MIN_HEIGHT, PADDLE_HEIGHT};
use pong::score::{resolve_point, Score, ScoreResult, WIN_SCORE};
use pong::screen::{moved_selection, Command, Difficulty, GameState, Keys};
use pong::side::Side;

fn keys(up: bool, down: bool, enter: bool, escape: bool) -> Keys {
    Keys { up, down, enter, escape }
}

const NONE: Keys = Keys { up: false, down: false, enter: false, escape: false };

#[test]
fn side_opposite_and_serve() {
    assert_eq!(Side::Left.opposite(), Side::Right);
    assert_eq!(Side::Right.opposite(), Side::Left);
    assert_eq!(Side::Left.opposite().opposite(), Side::Left);
    assert_eq!(Side::Right.serve_sign(), 1);
    assert_eq!(Side::Left.serve_sign(), -1);
}

#[test]
fn new_paddle_is_at_rest() {
    let p = Paddle::new(true);
    assert_eq!(p.height, 160);
    assert_eq!(p.speed_quarters, 4);
    assert!(p.is_ai);
    assert!(!p.is_frozen && !p.controls_reversed && !p.shield_active);
}

#[test]
fn shrinking_stops_at_thirty_pixels_and_flashes() {
    let mut p = Paddle::new(false);
    let heights: Vec<u32> = (0..6)
        .map(|_| {
            p.shrink();
            p.height
        })
        .collect();
    // 80 px, 67.5, 55, 42.5, 30, 30, 30 in half pixels
    assert_eq!(heights, vec![135, 110, 85, 60, 60, 60]);
    let mut q = Paddle::new(false);
    assert!(!q.shrink());
    assert!(!q.shrink());
    assert!(!q.shrink());
    assert!(q.shrink());
    assert!(q.shrink());
    assert_eq!(q.height, MIN_HEIGHT);
}

#[test]
fn shrinking_a_halved_paddle_goes_to_the_minimum() {
    let mut p = Paddle::new(false);
    p.height = PADDLE_HEIGHT / 2;
    assert!(p.shrink());
    assert_eq!(p.height, MIN_HEIGHT);
}

#[test]
fn speed_multiplier_rises_by_quarters_up_to_three() {
    let mut p = Paddle::new(false);
    let mut seen = Vec::new();
    for _ in 0..10 {
        p.update_speed();
        seen.push(p.speed_quarters);
    }
    assert_eq!(seen, vec![5, 6, 7, 8, 9, 10, 11, 12, 12, 12]);
    assert_eq!(p.speed_quarters, MAX_SPEED_QUARTERS);
}

#[test]
fn steering_follows_keys_and_flags() {
    let mut p = Paddle::new(false);
    assert_eq!(p.steer(true, false), Steer::Keys { down: false, up: true });
    assert_eq!(p.steer(false, true), Steer::Keys { down: true, up: false });
    p.controls_reversed = true;
    assert_eq!(p.steer(true, false), Steer::Keys { down: true, up: false });
    p.is_frozen = true;
    assert_eq!(p.steer(true, true), Steer::Frozen);
    let ai = Paddle::new(true);
    assert_eq!(ai.steer(true, false), Steer::Ai);
}

#[test]
fn ball_collector_defaults_to_left() {
    let mut b = Ball::new();
    assert_eq!(b.collector(), Side::Left);
    b.hit_by(Side::Right);
    assert_eq!(b.collector(), Side::Right);
    assert_eq!(b.last_hit_by, Some(Side::Right));
    assert_eq!(Pace::Normal.halves(), 2);
    assert_eq!(Pace::Slow.halves(), 1);
    assert_eq!(Pace::Fast.halves(), 4);
}

#[test]
fn rolls_pick_abilities() {
    let kinds: Vec<AbilityType> = (0..ABILITY_KINDS).map(AbilityType::from_roll).collect();
    assert_eq!(
        kinds,
        vec![
            AbilityType::TwicePaddle,
            AbilityType::HalfPaddle,
            AbilityType::SlowBall,
            AbilityType::FastBall,
            AbilityType::FreezeOpponent,
            AbilityType::ReverseControls,
            AbilityType::Shield,
            AbilityType::MultipleBalls,
        ]
    );
    assert_eq!(AbilityType::from_roll(-3), AbilityType::MultipleBalls);
    assert_eq!(AbilityType::from_roll(42), AbilityType::MultipleBalls);
}

#[test]
fn random_abilities_vary() {
    let mut seen = Vec::new();
    for _ in 0..500 {
        let k = AbilityType::random();
        if !seen.contains(&k) {
            seen.push(k);
        }
    }
    assert!(seen.len() >= 4, "only {:?}", seen);
}

#[test]
fn durations() {
    assert_eq!(AbilityType::TwicePaddle.duration_secs(), 5);
    assert_eq!(AbilityType::HalfPaddle.duration_secs(), 5);
    assert_eq!(AbilityType::SlowBall.duration_secs(), 5);
    assert_eq!(AbilityType::FastBall.duration_secs(), 4);
    assert_eq!(AbilityType::ReverseControls.duration_secs(), 4);
    assert_eq!(AbilityType::FreezeOpponent.duration_secs(), 3);
    assert_eq!(AbilityType::MultipleBalls.duration_secs(), 6);
    assert_eq!(AbilityType::Shield.duration_secs(), 5);
}

fn fresh() -> (Ball, Paddle, Paddle) {
    (Ball::new(), Paddle::new(false), Paddle::new(true))
}

#[test]
fn twice_paddle_helps_the_collector_and_expires() {
    let (mut b, mut l, mut r) = fresh();
    b.hit_by(Side::Right);
    let (b0, l0, r0) = (b, l, r);
    let c = AbilityType::TwicePaddle.collect(&mut b, &mut l, &mut r);
    assert_eq!(r.height, 320);
    assert_eq!(l, l0);
    assert_eq!(c.effect, Some(ActiveEffect { kind: AbilityType::TwicePaddle, target: Side::Left }));
    assert_eq!(c.extra_ball, None);
    let clear = c.effect.unwrap().expire(&mut b, &mut l, &mut r);
    assert!(!clear);
    assert_eq!((b, l, r), (b0, l0, r0));
}

#[test]
fn half_paddle_hits_the_opponent_and_expires() {
    let (mut b, mut l, mut r) = fresh();
    let (b0, l0, r0) = (b, l, r);
    // nobody touched the ball: the left player collects
    let c = AbilityType::HalfPaddle.collect(&mut b, &mut l, &mut r);
    assert_eq!(r.height, 80);
    assert_eq!(l, l0);
    let e = c.effect.unwrap();
    assert_eq!(e.target, Side::Right);
    e.expire(&mut b, &mut l, &mut r);
    assert_eq!((b, l, r), (b0, l0, r0));
}

#[test]
fn ball_pace_abilities() {
    let (mut b, mut l, mut r) = fresh();
    let c = AbilityType::SlowBall.collect(&mut b, &mut l, &mut r);
    assert_eq!(b.pace, Pace::Slow);
    c.effect.unwrap().expire(&mut b, &mut l, &mut r);
    assert_eq!(b.pace, Pace::Normal);
    let c = AbilityType::FastBall.collect(&mut b, &mut l, &mut r);
    assert_eq!(b.pace, Pace::Fast);
    c.effect.unwrap().expire(&mut b, &mut l, &mut r);
    assert_eq!(b.pace, Pace::Normal);
}

#[test]
fn freeze_and_reverse_target_the_opponent_and_release_both() {
    let (mut b, mut l, mut r) = fresh();
    b.hit_by(Side::Right);
    let c = AbilityType::FreezeOpponent.collect(&mut b, &mut l, &mut r);
    assert!(l.is_frozen && !r.is_frozen);
    let c2 = AbilityType::ReverseControls.collect(&mut b, &mut l, &mut r);
    assert!(l.controls_reversed && !r.controls_reversed);
    c.effect.unwrap().expire(&mut b, &mut l, &mut r);
    assert!(!l.is_frozen && !r.is_frozen);
    assert!(l.controls_reversed);
    c2.effect.unwrap().expire(&mut b, &mut l, &mut r);
    assert!(!l.controls_reversed && !r.controls_reversed);
}

#[test]
fn shield_and_extra_ball_leave_no_timed_effect() {
    let (mut b, mut l, mut r) = fresh();
    b.hit_by(Side::Right);
    let c = AbilityType::Shield.collect(&mut b, &mut l, &mut r);
    assert!(r.shield_active && !l.shield_active);
    assert_eq!(c.effect, None);
    b.pace = Pace::Fast;
    let c = AbilityType::MultipleBalls.collect(&mut b, &mut l, &mut r);
    assert_eq!(c.effect, None);
    assert_eq!(c.extra_ball, Some(b));
    let clear = ActiveEffect { kind: AbilityType::MultipleBalls, target: Side::Left }.expire(&mut b, &mut l, &mut r);
    assert!(clear);
}

#[test]
fn score_starts_at_zero() {
    let s = Score::default();
    assert_eq!((s.left, s.right), (0, 0));
}

#[test]
fn ball_out_on_the_left_is_a_point_for_the_right() {
    let (_, mut l, mut r) = fresh();
    let mut s = Score::default();
    let out = s.update(true, false, &mut l, &mut r);
    assert_eq!(out.result, ScoreResult::RightScored);
    assert_eq!((s.left, s.right), (0, 1));
    let out = s.update(false, true, &mut l, &mut r);
    assert_eq!(out.result, ScoreResult::LeftScored);
    assert_eq!((s.left, s.right), (1, 1));
    let out = s.update(false, false, &mut l, &mut r);
    assert_eq!(out.result, ScoreResult::NoPoint);
    assert_eq!((s.left, s.right), (1, 1));
}

#[test]
fn a_shield_stops_one_exit() {
    let (_, mut l, mut r) = fresh();
    l.shield_active = true;
    let mut s = Score::default();
    let out = s.update(true, false, &mut l, &mut r);
    assert_eq!(out.result, ScoreResult::NoPoint);
    assert!(out.left_bounce && !out.right_bounce);
    assert!(!l.shield_active);
    assert_eq!((s.left, s.right), (0, 0));
    let out = s.update(true, false, &mut l, &mut r);
    assert_eq!(out.result, ScoreResult::RightScored);
    assert_eq!(s.right, 1);
}

#[test]
fn left_exit_is_checked_first() {
    let (_, mut l, mut r) = fresh();
    r.shield_active = true;
    let mut s = Score::default();
    let out = s.update(true, true, &mut l, &mut r);
    assert_eq!(out.result, ScoreResult::RightScored);
    assert!(r.shield_active);
    assert_eq!((s.left, s.right), (0, 1));
}

#[test]
fn a_point_shrinks_the_loser_and_speeds_both() {
    let (_, mut l, mut r) = fresh();
    let s = Score { left: 1, right: 0 };
    let out = resolve_point(Side::Left, &s, &mut l, &mut r);
    assert_eq!(r.height, 135);
    assert_eq!(l.height, 160);
    assert_eq!((l.speed_quarters, r.speed_quarters), (5, 5));
    assert_eq!(out.winner, None);
    assert_eq!(out.next, GameState::Countdown);
    assert!(!out.loser_flash);
}

#[test]
fn first_to_five_wins() {
    let (_, mut l, mut r) = fresh();
    let mut s = Score { left: 4, right: 4 };
    let out = s.update(false, true, &mut l, &mut r);
    assert_eq!(out.result, ScoreResult::LeftScored);
    let p = resolve_point(Side::Left, &s, &mut l, &mut r);
    assert_eq!(p.winner, Some(Side::Left));
    assert_eq!(p.next, GameState::GameOver);

    let mut s = Score { left: 4, right: 4 };
    s.update(true, false, &mut l, &mut r);
    let p = resolve_point(Side::Right, &s, &mut l, &mut r);
    assert_eq!(p.winner, Some(Side::Right));
    assert_eq!(WIN_SCORE, 5);
}

#[test]
fn a_full_match_to_five() {
    let (_, mut l, mut r) = fresh();
    let mut s = Score::default();
    let mut state = GameState::Playing;
    let mut points = 0;
    while state != GameState::GameOver {
        let out = s.update(true, false, &mut l, &mut r);
        assert_eq!(out.result, ScoreResult::RightScored);
        let p = resolve_point(Side::Right, &s, &mut l, &mut r);
        state = p.next;
        points += 1;
        if state == GameState::GameOver {
            assert_eq!(p.winner, Some(Side::Right));
            assert!(p.loser_flash);
        }
    }
    assert_eq!(points, 5);
    assert_eq!(l.height, MIN_HEIGHT);
    assert_eq!(r.height, PADDLE_HEIGHT);
}

#[test]
fn difficulties() {
    assert_eq!(Difficulty::Easy.config(), (200, 40));
    assert_eq!(Difficulty::Medium.config(), (280, 20));
    assert_eq!(Difficulty::Hard.config(), (450, 5));
    assert_eq!(Difficulty::from_selection(0), Difficulty::Easy);
    assert_eq!(Difficulty::from_selection(1), Difficulty::Medium);
    assert_eq!(Difficulty::from_selection(2), Difficulty::Hard);
    assert_eq!(Difficulty::from_selection(7), Difficulty::Hard);
}

#[test]
fn menu_selection_stays_in_the_list() {
    assert_eq!(moved_selection(0, keys(false, true, false, false)), 1);
    assert_eq!(moved_selection(3, keys(false, true, false, false)), 3);
    assert_eq!(moved_selection(0, keys(true, false, false, false)), 0);
    assert_eq!(moved_selection(2, keys(true, false, false, false)), 1);
    assert_eq!(moved_selection(3, keys(true, true, false, false)), 2);
    assert_eq!(moved_selection(0, keys(true, true, false, false)), 0);
}

#[test]
fn main_menu_options() {
    let enter = keys(false, false, true, false);
    assert_eq!(
        GameState::Menu { selected: 0 }.step(enter, false),
        (GameState::DifficultySelect { selected: 0 }, Command::Continue)
    );
    assert_eq!(
        GameState::Menu { selected: 1 }.step(enter, false),
        (GameState::Countdown, Command::StartMatch(None))
    );
    assert_eq!(
        GameState::Menu { selected: 2 }.step(enter, false),
        (GameState::Controls { in_game: false }, Command::Continue)
    );
    assert_eq!(GameState::Menu { selected: 3 }.step(enter, false).1, Command::Quit);
    assert_eq!(
        GameState::Menu { selected: 1 }.step(keys(false, true, false, false), false),
        (GameState::Menu { selected: 2 }, Command::Continue)
    );
}

#[test]
fn difficulty_menu() {
    let enter = keys(false, false, true, false);
    assert_eq!(
        GameState::DifficultySelect { selected: 2 }.step(enter, false),
        (GameState::Countdown, Command::StartMatch(Some(Difficulty::Hard)))
    );
    assert_eq!(
        GameState::DifficultySelect { selected: 3 }.step(enter, false),
        (GameState::Menu { selected: 0 }, Command::Continue)
    );
    assert_eq!(
        GameState::DifficultySelect { selected: 1 }.step(keys(false, false, false, true), false),
        (GameState::Menu { selected: 0 }, Command::Continue)
    );
    // Enter and Escape together: the match is set up, but the menu shows
    assert_eq!(
        GameState::DifficultySelect { selected: 0 }.step(keys(false, false, true, true), false),
        (GameState::Menu { selected: 0 }, Command::StartMatch(Some(Difficulty::Easy)))
    );
}

#[test]
fn controls_playing_countdown_and_game_over() {
    let esc = keys(false, false, false, true);
    let enter = keys(false, false, true, false);
    assert_eq!(GameState::Playing.step(esc, false).0, GameState::Controls { in_game: true });
    assert_eq!(GameState::Playing.step(NONE, false).0, GameState::Playing);
    assert_eq!(GameState::Controls { in_game: true }.step(esc, false).0, GameState::Playing);
    assert_eq!(GameState::Controls { in_game: true }.step(enter, false).0, GameState::Menu { selected: 0 });
    assert_eq!(GameState::Controls { in_game: false }.step(esc, false).0, GameState::Menu { selected: 2 });
    assert_eq!(GameState::Controls { in_game: false }.step(enter, false).0, GameState::Controls { in_game: false });
    assert_eq!(GameState::Countdown.step(NONE, false).0, GameState::Countdown);
    assert_eq!(GameState::Countdown.step(NONE, true).0, GameState::Playing);
    assert_eq!(GameState::GameOver.step(NONE, false).0, GameState::GameOver);
    assert_eq!(GameState::GameOver.step(enter, false).0, GameState::Menu { selected: 0 });
}
