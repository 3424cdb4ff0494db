use vstd::prelude::*;
use crate::obstacle::{random_in_range, Obstacle, GAP_MAX, GAP_MIN, SCREEN_HEIGHT, SCREEN_WIDTH};
use crate::player::{Player, PlayerView};

verus! {

/// Physics advances once the accumulated frame time exceeds this many
/// microseconds.
pub const FRAME_DURATION_US: u64 = 75_000;

/// Column a new body starts at.
pub const START_X: i32 = 5;

/// Row a new body starts at.
pub const START_Y: i32 = 25;

/// The mode of a session.
#[derive(Clone, Copy, Debug, PartialEq, Eq, Structural)]
pub enum GameMode {
    Menu,
    Playing,
    End,
}

/// The key presses the game reacts to.
#[derive(Clone, Copy, Debug, PartialEq, Eq, Structural)]
pub enum Key {
    /// Start a game from the menu.
    P,
    /// Leave from the menu.
    Q,
    /// Flap while playing.
    Space,
    /// Any other key.
    Other,
}

/// One game session: its mode, the body, the live obstacle and the score.
#[derive(Clone, Copy, Debug, PartialEq, Eq)]
pub struct State {
    pub mode: GameMode,
    /// Microseconds accumulated since the last physics step.
    pub frame_time: u64,
    pub player: Player,
    pub obstacle: Obstacle,
    pub score: i32,
}

/// A `Player` with the values of a view that fits in machine integers.
pub open spec fn player_of(v: PlayerView) -> Player {
    Player { x: v.x as i32, y: v.y as i32, velocity: v.velocity as i32 }
}

impl State {
    /// The machine integers hold every value that a tick in `Playing` computes.
    pub open spec fn can_play(self) -> bool {
        &&& self.player.can_step()
        &&& self.player.can_flap()
        &&& self.player.x < i32::MAX - SCREEN_WIDTH
        &&& self.score < i32::MAX
    }

    /// The session a tick in `Playing` leads to, after `elapsed` microseconds,
    /// with a flap or not, where a replacement obstacle would center its gap
    /// on `gap_y`.
    pub open spec fn played(self, elapsed: u64, flap: bool, gap_y: i32) -> State {
        let acc = self.frame_time as int + elapsed as int;
        let stepped = acc > FRAME_DURATION_US;
        let p1 = if stepped { self.player@.step() } else { self.player@ };
        let p2 = if flap { p1.flap() } else { p1 };
        let passed = p2.x > self.obstacle.x;
        let score = if passed { self.score + 1 } else { self.score as int };
        let obstacle = if passed {
            Obstacle::placed(p2.x + SCREEN_WIDTH, score, gap_y as int)
        } else {
            self.obstacle
        };
        let ended = p2.y > SCREEN_HEIGHT || obstacle.hits(p2);
        State {
            mode: if ended { GameMode::End } else { GameMode::Playing },
            frame_time: if stepped { 0 } else { acc as u64 },
            player: player_of(p2),
            obstacle,
            score: score as i32,
        }
    }

    /// The session a start from the menu leads to: a fresh body, score zero,
    /// and a fresh obstacle one screen width into the world.
    pub open spec fn restarted(self, gap_y: i32) -> State {
        State {
            mode: GameMode::Playing,
            frame_time: 0,
            player: Player { x: START_X, y: START_Y, velocity: crate::player::START_VELOCITY },
            obstacle: Obstacle::placed(SCREEN_WIDTH as int, 0, gap_y as int),
            score: 0,
        }
    }

    /// The session and the quit request a tick leads to in any mode.
    pub open spec fn advanced(self, elapsed: u64, key: Option<Key>, gap_y: i32) -> (State, bool) {
        match self.mode {
            GameMode::Menu => {
                if key == Some(Key::P) {
                    (self.restarted(gap_y), false)
                } else {
                    (self, key == Some(Key::Q))
                }
            },
            GameMode::Playing => (self.played(elapsed, key == Some(Key::Space), gap_y), false),
            GameMode::End => (self, false),
        }
    }

    /// A session in the menu, with a body at the start position and an
    /// obstacle one screen width into the world.
    pub fn new() -> (r: State)
        ensures
            r.mode == GameMode::Menu,
            r.frame_time == 0,
            r.player == Player::new_spec(START_X, START_Y),
            r.score == 0,
            r.obstacle.x == SCREEN_WIDTH,
            r.obstacle.size == 2,
            GAP_MIN <= r.obstacle.gap_y < GAP_MAX,
    {
        State {
            mode: GameMode::Menu,
            frame_time: 0,
            player: Player::new(START_X, START_Y),
            obstacle: Obstacle::new(SCREEN_WIDTH, 0),
            score: 0,
        }
    }

    /// Starts a game: fresh body, score zero, accumulator zero, and a fresh
    /// obstacle whose gap is centered on `gap_y`.
    pub fn restart(&mut self, gap_y: i32)
        ensures
            *final(self) == old(self).restarted(gap_y),
    {
        self.player = Player::new(START_X, START_Y);
        self.frame_time = 0;
        self.score = 0;
        self.obstacle = Obstacle::with_gap(SCREEN_WIDTH, 0, gap_y);
        self.mode = GameMode::Playing;
    }

    /// The menu's reaction to a key: `P` starts a game, `Q` asks to quit
    /// (the result), anything else changes nothing.
    pub fn main_menu(&mut self, key: Option<Key>, gap_y: i32) -> (quit: bool)
        ensures
            key == Some(Key::P) ==> *final(self) == old(self).restarted(gap_y),
            key != Some(Key::P) ==> *final(self) == *old(self),
            quit == (key == Some(Key::Q)),
    {
        match key {
            Some(Key::P) => {
                self.restart(gap_y);
                false
            },
            Some(Key::Q) => true,
            _ => false,
        }
    }

    /// One tick of play: accumulate the elapsed time and take a physics step
    /// once it exceeds the frame duration, flap on `Space`, score and replace
    /// the obstacle once the body has passed it (centering the new gap on
    /// `gap_y`), and end the game when the body fell off the screen or hit
    /// the wall.
    pub fn play(&mut self, elapsed: u64, key: Option<Key>, gap_y: i32)
        requires
            old(self).can_play(),
        ensures
            *final(self) == old(self).played(elapsed, key == Some(Key::Space), gap_y),
            final(self).score >= old(self).score,
            final(self).player.y > SCREEN_HEIGHT ==> final(self).mode == GameMode::End,
    {
        let acc = self.frame_time.saturating_add(elapsed);
        if acc > FRAME_DURATION_US {
            self.frame_time = 0;
            self.player.gravity_and_move();
        } else {
            self.frame_time = acc;
        }
        if key == Some(Key::Space) {
            self.player.flap();
        }
        if self.player.x > self.obstacle.x {
            self.score = self.score + 1;
            self.obstacle = Obstacle::with_gap(self.player.x + SCREEN_WIDTH, self.score, gap_y);
        }
        if self.player.y > SCREEN_HEIGHT || self.obstacle.hit_obstacle(&self.player) {
            self.mode = GameMode::End;
        } else {
            self.mode = GameMode::Playing;
        }
    }

    /// One tick in whichever mode the session is in, where a new obstacle
    /// would center its gap on `gap_y`; the result asks to quit.
    pub fn advance(&mut self, elapsed: u64, key: Option<Key>, gap_y: i32) -> (quit: bool)
        requires
            old(self).mode == GameMode::Playing ==> old(self).can_play(),
        ensures
            (*final(self), quit) == old(self).advanced(elapsed, key, gap_y),
    {
        match self.mode {
            GameMode::Menu => self.main_menu(key, gap_y),
            GameMode::Playing => {
                self.play(elapsed, key, gap_y);
                false
            },
            GameMode::End => false,
        }
    }

    /// One tick, with the gap of any new obstacle centered on a row drawn
    /// uniformly from `GAP_MIN..GAP_MAX`; the result asks to quit.
    pub fn tick(&mut self, elapsed: u64, key: Option<Key>) -> (quit: bool)
        requires
            old(self).mode == GameMode::Playing ==> old(self).can_play(),
        ensures
            exists|g: i32|
                GAP_MIN <= g < GAP_MAX && (*final(self), quit) == #[trigger] old(self).advanced(elapsed, key, g),
    {
        let gap_y = random_in_range(GAP_MIN, GAP_MAX);
        self.advance(elapsed, key, gap_y)
    }
}

} // verus!
