use vstd::prelude::*;

verus! {

/// Velocity a freshly created body starts with, in tenths of a cell per step.
pub const START_VELOCITY: i32 = 20;

/// Gravity's increment to the velocity per physics step, in tenths.
pub const GRAVITY: i32 = 2;

/// Gravity only accelerates the body while its velocity is at most this value.
pub const TERMINAL_THRESHOLD: i32 = 10;

/// How far a flap lifts the body, in cells.
pub const FLAP_LIFT: i32 = 2;

/// `v / d` rounded toward zero, as a cast of a float to an integer does.
pub open spec fn trunc_div(v: int, d: int) -> int {
    if v >= 0 {
        v / d
    } else {
        -((-v) / d)
    }
}

/// The falling body, in world coordinates.
#[derive(Clone, Copy, Debug, PartialEq, Eq)]
pub struct Player {
    /// Horizontal world position.
    pub x: i32,
    /// Vertical world position; rows grow downward.
    pub y: i32,
    /// Vertical velocity in tenths of a cell per physics step; positive is down.
    pub velocity: i32,
}

/// The mathematical model of a `Player`.
pub ghost struct PlayerView {
    pub x: int,
    pub y: int,
    pub velocity: int,
}

impl PlayerView {
    /// Velocity after one physics step: gravity applies while it is at most
    /// the threshold.
    pub open spec fn next_velocity(self) -> int {
        if self.velocity <= TERMINAL_THRESHOLD {
            self.velocity + GRAVITY
        } else {
            self.velocity
        }
    }

    /// One physics step: accelerate, fall by the whole cells of the new
    /// velocity, advance one column, and clamp at the top row.
    pub open spec fn step(self) -> PlayerView {
        let v = self.next_velocity();
        let y = self.y + trunc_div(v, 10);
        PlayerView { x: self.x + 1, y: if y < 0 { 0 } else { y }, velocity: v }
    }

    /// A flap: velocity to zero and an instant lift of two cells.
    pub open spec fn flap(self) -> PlayerView {
        PlayerView { x: self.x, y: self.y - FLAP_LIFT, velocity: 0 }
    }

    /// The body after `n` physics steps without a flap.
    pub open spec fn fall(self, n: nat) -> PlayerView
        decreases n,
    {
        if n == 0 {
            self
        } else {
            self.fall((n - 1) as nat).step()
        }
    }

    /// The view fits in the machine integers of a `Player`.
    pub open spec fn fits(self) -> bool {
        &&& i32::MIN <= self.x <= i32::MAX
        &&& i32::MIN <= self.y <= i32::MAX
        &&& i32::MIN <= self.velocity <= i32::MAX
    }
}

impl View for Player {
    type V = PlayerView;

    open spec fn view(&self) -> PlayerView {
        PlayerView { x: self.x as int, y: self.y as int, velocity: self.velocity as int }
    }
}

/// Without flaps, a body that is not moving upward keeps falling: between
/// any two points of a run of physics steps its velocity does not decrease,
/// and once above the threshold it no longer changes; its row does not
/// decrease, and after the first step it is never above the top row; it
/// advances one column per step.
pub proof fn lemma_free_fall(p: PlayerView, i: nat, j: nat)
    requires
        p.velocity >= 0,
        i <= j,
    ensures
        p.fall(i).velocity <= p.fall(j).velocity,
        p.fall(i).velocity > TERMINAL_THRESHOLD ==> p.fall(j).velocity == p.fall(i).velocity,
        p.fall(i).y <= p.fall(j).y,
        j > 0 ==> p.fall(j).y >= 0,
        p.fall(j).x == p.x + j,
    decreases j,
{
    if j > 0 {
        let jm: nat = (j - 1) as nat;
        lemma_free_fall(p, 0, jm);
        if i < j {
            lemma_free_fall(p, i, jm);
        }
    }
}

/// `v / 10` rounded toward zero.
fn trunc_tenths(v: i32) -> (r: i32)
    ensures
        r == trunc_div(v as int, 10),
{
    if v >= 0 {
        v / 10
    } else {
        let m: i64 = -(v as i64);
        let q: i64 = m / 10;
        -(q as i32)
    }
}

impl Player {
    /// A body at `(x, y)` falling with the start velocity.
    pub open spec fn new_spec(x: i32, y: i32) -> Player {
        Player { x, y, velocity: START_VELOCITY }
    }

    /// A body at `(x, y)` falling with the start velocity.
    pub fn new(x: i32, y: i32) -> (r: Player)
        ensures
            r == Player::new_spec(x, y),
            r.x == x,
            r.y == y,
            r.velocity == START_VELOCITY,
    {
        Player { x, y, velocity: START_VELOCITY }
    }

    /// A physics step does not leave the machine integers.
    pub open spec fn can_step(&self) -> bool {
        self@.step().fits()
    }

    /// A flap does not leave the machine integers.
    pub open spec fn can_flap(&self) -> bool {
        self.y >= i32::MIN + FLAP_LIFT
    }

    /// Advances the body by one physics step.
    pub fn gravity_and_move(&mut self)
        requires
            old(self).can_step(),
        ensures
            final(self)@ == old(self)@.step(),
    {
        if self.velocity <= TERMINAL_THRESHOLD {
            self.velocity = self.velocity + GRAVITY;
        }
        let dy = trunc_tenths(self.velocity);
        let y: i64 = self.y as i64 + dy as i64;
        self.y = if y < 0 { 0 } else { y as i32 };
        self.x = self.x + 1;
    }

    /// Stops the fall and lifts the body by two cells at once.
    pub fn flap(&mut self)
        requires
            old(self).can_flap(),
        ensures
            final(self)@ == old(self)@.flap(),
    {
        self.velocity = 0;
        self.y = self.y - FLAP_LIFT;
    }
}

} // verus!
