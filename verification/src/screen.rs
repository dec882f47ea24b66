use vstd::prelude::*;

verus! {

/// How many options the main menu and the difficulty menu each list.
pub const MENU_OPTIONS: usize = 4;

/// The screen the game shows. The countdown's own timer is kept by the
/// caller.
#[derive(Clone, Copy, Debug, PartialEq, Eq, Structural)]
pub enum GameState {
    Playing,
    GameOver,
    Countdown,
    /// The main menu: Single Player, Multi Player, Controls, Exit.
    Menu { selected: usize },
    /// The controls help, shown from the menu or over a paused match.
    Controls { in_game: bool },
    /// The difficulty menu: Easy, Medium, Hard, Back.
    DifficultySelect { selected: usize },
}

/// How fast and how precisely the computer plays.
#[derive(Clone, Copy, Debug, PartialEq, Eq, Structural)]
pub enum Difficulty {
    Easy,
    Medium,
    Hard,
}

/// The keys pressed this frame.
#[derive(Clone, Copy, Debug, PartialEq, Eq, Structural)]
pub struct Keys {
    pub up: bool,
    pub down: bool,
    pub enter: bool,
    pub escape: bool,
}

/// What the caller does besides showing the next screen.
#[derive(Clone, Copy, Debug, PartialEq, Eq, Structural)]
pub enum Command {
    Continue,
    /// Leave the program.
    Quit,
    /// Set up a new match: scores to zero, fresh paddles, no abilities, the
    /// ball served to the right at its base speed; the right paddle is
    /// played by the computer at the given difficulty, or by a person.
    StartMatch(Option<Difficulty>),
}

impl Difficulty {
    /// The computer's paddle speed in pixels per second, and the distance in
    /// pixels from the ball within which it does not move.
    pub open spec fn spec_config(self) -> (u32, u32) {
        match self {
            Difficulty::Easy => (200, 40),
            Difficulty::Medium => (280, 20),
            Difficulty::Hard => (450, 5),
        }
    }

    /// The computer's paddle speed (pixels per second) and dead zone
    /// (pixels) at this difficulty.
    pub fn config(&self) -> (cfg: (u32, u32))
        ensures
            cfg == self.spec_config(),
    {
        match self {
            Difficulty::Easy => (200, 40),
            Difficulty::Medium => (280, 20),
            Difficulty::Hard => (450, 5),
        }
    }

    /// The difficulty listed at position `selected` of the difficulty menu;
    /// any position past the second means `Hard`.
    pub open spec fn spec_from_selection(selected: usize) -> Difficulty {
        if selected == 0 {
            Difficulty::Easy
        } else if selected == 1 {
            Difficulty::Medium
        } else {
            Difficulty::Hard
        }
    }

    /// The difficulty listed at position `selected` of the difficulty menu.
    pub fn from_selection(selected: usize) -> (d: Difficulty)
        ensures
            d == Self::spec_from_selection(selected),
    {
        match selected {
            0 => Difficulty::Easy,
            1 => Difficulty::Medium,
            _ => Difficulty::Hard,
        }
    }
}

/// The highlighted menu position after this frame's keys: Down moves one
/// place down but not past the last option, then Up moves one place up but
/// not past the first.
pub open spec fn spec_moved_selection(selected: usize, keys: Keys) -> usize {
    let after_down = if keys.down {
        if selected + 1 <= MENU_OPTIONS - 1 {
            (selected + 1) as usize
        } else {
            (MENU_OPTIONS - 1) as usize
        }
    } else {
        selected
    };
    if keys.up {
        if after_down != 0 {
            (after_down - 1) as usize
        } else {
            0
        }
    } else {
        after_down
    }
}

/// Moves the highlighted menu position for this frame's keys.
pub fn moved_selection(selected: usize, keys: Keys) -> (s: usize)
    requires
        keys.down ==> selected < usize::MAX,
    ensures
        s == spec_moved_selection(selected, keys),
{
    let mut s = selected;
    if keys.down {
        s = if s + 1 < MENU_OPTIONS - 1 { s + 1 } else { MENU_OPTIONS - 1 };
    }
    if keys.up {
        s = if s != 0 { s - 1 } else { 0 };
    }
    s
}

impl GameState {
    /// The states the game can be in: a menu highlights one of its options.
    pub open spec fn wf(self) -> bool {
        match self {
            GameState::Menu { selected } => selected < MENU_OPTIONS,
            GameState::DifficultySelect { selected } => selected < MENU_OPTIONS,
            _ => true,
        }
    }

    /// Whether moving a menu's highlight down this frame would step past the
    /// largest `usize`.
    pub open spec fn step_overflows(self, keys: Keys) -> bool {
        match self {
            GameState::Menu { selected } => keys.down && selected == usize::MAX,
            GameState::DifficultySelect { selected } => keys.down && selected == usize::MAX,
            _ => false,
        }
    }

    /// The next screen and command after one frame with `keys` pressed on
    /// this screen. `countdown_over` says whether the countdown's timer has
    /// run out this frame. A point won while playing is settled afterwards,
    /// by `resolve_point`.
    pub open spec fn spec_step(self, keys: Keys, countdown_over: bool) -> (GameState, Command) {
        match self {
            GameState::Menu { selected } => {
                let s = spec_moved_selection(selected, keys);
                if !keys.enter {
                    (GameState::Menu { selected: s }, Command::Continue)
                } else if s == 0 {
                    (GameState::DifficultySelect { selected: 0 }, Command::Continue)
                } else if s == 1 {
                    (GameState::Countdown, Command::StartMatch(None))
                } else if s == 2 {
                    (GameState::Controls { in_game: false }, Command::Continue)
                } else if s == 3 {
                    (GameState::Menu { selected: s }, Command::Quit)
                } else {
                    (GameState::Menu { selected: s }, Command::Continue)
                }
            },
            GameState::Controls { in_game } => {
                let after_escape = if !keys.escape {
                    self
                } else if in_game {
                    GameState::Playing
                } else {
                    GameState::Menu { selected: 2 }
                };
                if in_game && keys.enter {
                    (GameState::Menu { selected: 0 }, Command::Continue)
                } else {
                    (after_escape, Command::Continue)
                }
            },
            GameState::Playing => {
                if keys.escape {
                    (GameState::Controls { in_game: true }, Command::Continue)
                } else {
                    (GameState::Playing, Command::Continue)
                }
            },
            GameState::GameOver => {
                if keys.enter {
                    (GameState::Menu { selected: 0 }, Command::Continue)
                } else {
                    (GameState::GameOver, Command::Continue)
                }
            },
            GameState::Countdown => {
                if countdown_over {
                    (GameState::Playing, Command::Continue)
                } else {
                    (GameState::Countdown, Command::Continue)
                }
            },
            GameState::DifficultySelect { selected } => {
                let s = spec_moved_selection(selected, keys);
                let (next, command) = if !keys.enter {
                    (GameState::DifficultySelect { selected: s }, Command::Continue)
                } else if s == 3 {
                    (GameState::Menu { selected: 0 }, Command::Continue)
                } else {
                    (GameState::Countdown, Command::StartMatch(Some(Difficulty::spec_from_selection(s))))
                };
                if keys.escape {
                    (GameState::Menu { selected: 0 }, command)
                } else {
                    (next, command)
                }
            },
        }
    }

    /// Handles one frame's keys on this screen.
    pub fn step(self, keys: Keys, countdown_over: bool) -> (r: (GameState, Command))
        requires
            !self.step_overflows(keys),
        ensures
            r == self.spec_step(keys, countdown_over),
    {
        match self {
            GameState::Menu { selected } => {
                let s = moved_selection(selected, keys);
                if keys.enter {
                    match s {
                        0 => (GameState::DifficultySelect { selected: 0 }, Command::Continue),
                        1 => (GameState::Countdown, Command::StartMatch(None)),
                        2 => (GameState::Controls { in_game: false }, Command::Continue),
                        3 => (GameState::Menu { selected: s }, Command::Quit),
                        _ => (GameState::Menu { selected: s }, Command::Continue),
                    }
                } else {
                    (GameState::Menu { selected: s }, Command::Continue)
                }
            },
            GameState::Controls { in_game } => {
                let mut next = self;
                if keys.escape {
                    if in_game {
                        next = GameState::Playing;
                    } else {
                        next = GameState::Menu { selected: 2 };
                    }
                }
                if in_game && keys.enter {
                    next = GameState::Menu { selected: 0 };
                }
                (next, Command::Continue)
            },
            GameState::Playing => {
                if keys.escape {
                    (GameState::Controls { in_game: true }, Command::Continue)
                } else {
                    (GameState::Playing, Command::Continue)
                }
            },
            GameState::GameOver => {
                if keys.enter {
                    (GameState::Menu { selected: 0 }, Command::Continue)
                } else {
                    (GameState::GameOver, Command::Continue)
                }
            },
            GameState::Countdown => {
                if countdown_over {
                    (GameState::Playing, Command::Continue)
                } else {
                    (GameState::Countdown, Command::Continue)
                }
            },
            GameState::DifficultySelect { selected } => {
                let s = moved_selection(selected, keys);
                let mut next = GameState::DifficultySelect { selected: s };
                let mut command = Command::Continue;
                if keys.enter {
                    if s == 3 {
                        next = GameState::Menu { selected: 0 };
                    } else {
                        command = Command::StartMatch(Some(Difficulty::from_selection(s)));
                        next = GameState::Countdown;
                    }
                }
                if keys.escape {
                    next = GameState::Menu { selected: 0 };
                }
                (next, command)
            },
        }
    }
}

/// The highlighted position never leaves a menu's list of options, and the
/// game only ever moves between the states a match can reach.
pub proof fn lemma_step_keeps_wf(state: GameState, keys: Keys, countdown_over: bool)
    requires
        state.wf(),
    ensures
        state.spec_step(keys, countdown_over).0.wf(),
{
}

/// A match only starts from a menu with Enter, and it starts with a
/// countdown unless Escape was pressed in the same frame on the difficulty
/// menu; the program is only left from the Exit option of the main menu.
pub proof fn lemma_commands(state: GameState, keys: Keys, countdown_over: bool)
    ensures
        ({
            let (next, command) = state.spec_step(keys, countdown_over);
            &&& command is StartMatch ==> keys.enter && (state is Menu || state is DifficultySelect)
            &&& command is StartMatch && !keys.escape ==> next == GameState::Countdown
            &&& command == Command::Quit ==> keys.enter && next == (GameState::Menu { selected: 3 })
                && state is Menu
            &&& command == Command::StartMatch(None) ==> state is Menu
        }),
{
}

/// Escape always leaves the difficulty menu for the main menu, and leaves
/// the controls help for the menu or, over a paused match, for the match
/// (unless Enter in the same frame returns to the menu).
pub proof fn lemma_escape_goes_back(state: GameState, keys: Keys, countdown_over: bool)
    requires
        keys.escape,
    ensures
        ({
            let (next, _) = state.spec_step(keys, countdown_over);
            &&& state is DifficultySelect ==> next == (GameState::Menu { selected: 0 })
            &&& state == (GameState::Controls { in_game: false }) ==> next == (GameState::Menu { selected: 2 })
            &&& state == (GameState::Controls { in_game: true }) && !keys.enter ==> next == GameState::Playing
            &&& state == GameState::Playing ==> next == (GameState::Controls { in_game: true })
        }),
{
}

/// What Down and Up do to a menu's highlight: Down moves it one place down
/// unless it is on the last option (or past it, where it lands on the last
/// option), Up then moves it one place up unless it is on the first.
pub proof fn lemma_selection_moves(selected: usize, keys: Keys)
    requires
        keys.down ==> selected < usize::MAX,
    ensures
        !keys.down && !keys.up ==> spec_moved_selection(selected, keys) == selected,
        keys.down && !keys.up && selected < 3 ==> spec_moved_selection(selected, keys) == selected + 1,
        keys.down && !keys.up && selected >= 3 ==> spec_moved_selection(selected, keys) == 3,
        !keys.down && keys.up && selected > 0 ==> spec_moved_selection(selected, keys) == selected - 1,
        !keys.down && keys.up && selected == 0 ==> spec_moved_selection(selected, keys) == 0,
        keys.down && keys.up && selected < 3 ==> spec_moved_selection(selected, keys) == selected,
        keys.down && keys.up && selected >= 3 ==> spec_moved_selection(selected, keys) == 2,
{
}

/// The difficulty menu lists Easy, Medium, Hard, Back; the computer plays
/// Easy at 200 px/s with a 40 px dead zone, Medium at 280 px/s with 20 px,
/// Hard at 450 px/s with 5 px: the harder, the faster and the closer it
/// follows the ball.
pub proof fn lemma_difficulty_table(selected: usize, d: Difficulty)
    ensures
        selected == 0 ==> Difficulty::spec_from_selection(selected) == Difficulty::Easy,
        selected == 1 ==> Difficulty::spec_from_selection(selected) == Difficulty::Medium,
        selected >= 2 ==> Difficulty::spec_from_selection(selected) == Difficulty::Hard,
        d == Difficulty::Easy ==> d.spec_config() == (200u32, 40u32),
        d == Difficulty::Medium ==> d.spec_config() == (280u32, 20u32),
        d == Difficulty::Hard ==> d.spec_config() == (450u32, 5u32),
        Difficulty::Easy.spec_config().0 < Difficulty::Medium.spec_config().0,
        Difficulty::Medium.spec_config().0 < Difficulty::Hard.spec_config().0,
        Difficulty::Easy.spec_config().1 > Difficulty::Medium.spec_config().1,
        Difficulty::Medium.spec_config().1 > Difficulty::Hard.spec_config().1,
{
}

/// Enter on the difficulty menu, without Escape, starts a match against the
/// computer at the difficulty highlighted after this frame's arrow keys
/// (Easy, Medium, Hard for the first three options), beginning with a
/// countdown; on Back it returns to the main menu with its first option
/// highlighted.
pub proof fn lemma_difficulty_enter(selected: usize, keys: Keys, countdown_over: bool)
    requires
        keys.enter,
        !keys.escape,
        keys.down ==> selected < usize::MAX,
    ensures
        ({
            let s = spec_moved_selection(selected, keys);
            let r = (GameState::DifficultySelect { selected }).spec_step(keys, countdown_over);
            &&& s == 0 ==> r == (GameState::Countdown, Command::StartMatch(Some(Difficulty::Easy)))
            &&& s == 1 ==> r == (GameState::Countdown, Command::StartMatch(Some(Difficulty::Medium)))
            &&& s == 2 ==> r == (GameState::Countdown, Command::StartMatch(Some(Difficulty::Hard)))
            &&& s == 3 ==> r == (GameState::Menu { selected: 0 }, Command::Continue)
            &&& s > 3 ==> r == (GameState::Countdown, Command::StartMatch(Some(Difficulty::Hard)))
        }),
        !keys.up && !keys.down && selected == 1 ==> (GameState::DifficultySelect { selected }).spec_step(keys, countdown_over)
            == (GameState::Countdown, Command::StartMatch(Some(Difficulty::Medium))),
{
}

/// Without Enter a menu stays, with the highlight moved by the arrow keys,
/// and nothing starts; Escape is ignored on the main menu and leaves the
/// difficulty menu for the main menu.
pub proof fn lemma_menu_browse(selected: usize, keys: Keys, countdown_over: bool)
    requires
        !keys.enter,
    ensures
        !keys.escape ==> (GameState::DifficultySelect { selected }).spec_step(keys, countdown_over)
            == (GameState::DifficultySelect { selected: spec_moved_selection(selected, keys) }, Command::Continue),
        keys.escape ==> (GameState::DifficultySelect { selected }).spec_step(keys, countdown_over)
            == (GameState::Menu { selected: 0 }, Command::Continue),
        (GameState::Menu { selected }).spec_step(keys, countdown_over)
            == (GameState::Menu { selected: spec_moved_selection(selected, keys) }, Command::Continue),
{
}

/// Enter and Escape together on the difficulty menu: the match of the
/// highlighted difficulty is still set up (unless Back is highlighted), but
/// the main menu is shown.
pub proof fn lemma_difficulty_enter_escape(selected: usize, keys: Keys, countdown_over: bool)
    requires
        keys.enter,
        keys.escape,
        keys.down ==> selected < usize::MAX,
    ensures
        ({
            let s = spec_moved_selection(selected, keys);
            let r = (GameState::DifficultySelect { selected }).spec_step(keys, countdown_over);
            &&& r.0 == (GameState::Menu { selected: 0 })
            &&& s == 0 ==> r.1 == Command::StartMatch(Some(Difficulty::Easy))
            &&& s == 1 ==> r.1 == Command::StartMatch(Some(Difficulty::Medium))
            &&& s == 2 ==> r.1 == Command::StartMatch(Some(Difficulty::Hard))
            &&& s == 3 ==> r.1 == Command::Continue
        }),
{
}

/// Enter on the main menu acts on the option highlighted after this frame's
/// arrow keys: Single Player opens the difficulty menu, Multi Player starts
/// a match between two people after a countdown, Controls shows the help
/// outside a match, Exit leaves the program.
pub proof fn lemma_menu_enter(selected: usize, keys: Keys, countdown_over: bool)
    requires
        keys.enter,
        keys.down ==> selected < usize::MAX,
    ensures
        ({
            let s = spec_moved_selection(selected, keys);
            let r = (GameState::Menu { selected }).spec_step(keys, countdown_over);
            &&& s == 0 ==> r == (GameState::DifficultySelect { selected: 0 }, Command::Continue)
            &&& s == 1 ==> r == (GameState::Countdown, Command::StartMatch(None))
            &&& s == 2 ==> r == (GameState::Controls { in_game: false }, Command::Continue)
            &&& s == 3 ==> r.1 == Command::Quit
            &&& s > 3 ==> r == (GameState::Menu { selected: s }, Command::Continue)
        }),
{
}

/// The other screens: the countdown gives way to play exactly when its
/// timer runs out; the end of a match returns to the main menu on Enter;
/// play pauses into the controls help on Escape; the help over a paused
/// match resumes on Escape and quits to the menu on Enter; none of them
/// starts a match or leaves the program.
pub proof fn lemma_other_screens(keys: Keys, countdown_over: bool)
    ensures
        GameState::Countdown.spec_step(keys, countdown_over)
            == (if countdown_over { (GameState::Playing, Command::Continue) } else { (GameState::Countdown, Command::Continue) }),
        GameState::GameOver.spec_step(keys, countdown_over)
            == (if keys.enter { (GameState::Menu { selected: 0 }, Command::Continue) } else { (GameState::GameOver, Command::Continue) }),
        GameState::Playing.spec_step(keys, countdown_over)
            == (if keys.escape { (GameState::Controls { in_game: true }, Command::Continue) } else { (GameState::Playing, Command::Continue) }),
        (GameState::Controls { in_game: true }).spec_step(keys, countdown_over) == (if keys.enter {
            (GameState::Menu { selected: 0 }, Command::Continue)
        } else if keys.escape {
            (GameState::Playing, Command::Continue)
        } else {
            (GameState::Controls { in_game: true }, Command::Continue)
        }),
        (GameState::Controls { in_game: false }).spec_step(keys, countdown_over) == (if keys.escape {
            (GameState::Menu { selected: 2 }, Command::Continue)
        } else {
            (GameState::Controls { in_game: false }, Command::Continue)
        }),
{
}

} // verus!
