use vstd::prelude::*;
use crate::player::{trunc_div, Player, PlayerView};
use bracket_lib::prelude::RandomNumberGenerator;

verus! {

/// Rows of the display; a body below the last one has fallen off.
pub const SCREEN_HEIGHT: i32 = 50;

/// Columns of the display.
pub const SCREEN_WIDTH: i32 = 80;

/// Lowest row a gap may be centered on.
pub const GAP_MIN: i32 = 10;

/// Gap centers lie strictly above this row.
pub const GAP_MAX: i32 = 40;

/// The narrowest gap.
pub const MIN_GAP_SIZE: i32 = 2;

/// Relies on bracket_lib's `RandomNumberGenerator::new` and
/// `RandomNumberGenerator::range`: a freshly seeded generator's draw in
/// `lo..hi`, lower bound included, upper bound excluded (`range` panics on an
/// empty range, hence the `requires`).
#[verifier::external_body]
pub(crate) fn random_in_range(lo: i32, hi: i32) -> (r: i32)
    requires
        lo < hi,
    ensures
        lo <= r < hi,
{
    RandomNumberGenerator::new().range(lo, hi)
}

/// The larger of two integers.
pub open spec fn max_int(a: int, b: int) -> int {
    if a >= b {
        a
    } else {
        b
    }
}

/// One wall with a gap in it, in world coordinates.
#[derive(Clone, Copy, Debug, PartialEq, Eq)]
pub struct Obstacle {
    /// Horizontal world position of the wall.
    pub x: i32,
    /// Row the gap is centered on.
    pub gap_y: i32,
    /// Height of the gap.
    pub size: i32,
}

impl Obstacle {
    /// Half the gap, rounded toward zero.
    pub open spec fn half_size(self) -> int {
        trunc_div(self.size as int, 2)
    }

    /// First row of the gap.
    pub open spec fn gap_top(self) -> int {
        self.gap_y - self.half_size()
    }

    /// Row just below the gap: the lower wall starts here.
    pub open spec fn gap_bottom(self) -> int {
        self.gap_y + self.half_size()
    }

    /// The body is level with the wall and outside the gap.
    pub open spec fn hits(self, p: PlayerView) -> bool {
        p.x == self.x && (p.y < self.gap_top() || p.y > self.gap_bottom())
    }

    /// The rows the wall covers on screen, top part first, each in ascending
    /// order.
    pub open spec fn wall_rows(self) -> Seq<int> {
        let top = self.gap_top();
        let bottom = self.gap_bottom();
        let n_top: nat = if top > 0 { top as nat } else { 0 };
        let n_bottom: nat = if bottom < SCREEN_HEIGHT { (SCREEN_HEIGHT - bottom) as nat } else { 0 };
        Seq::new(n_top, |i: int| i) + Seq::new(n_bottom, |i: int| bottom + i)
    }

    /// The obstacle placed at `x` whose gap is centered on `gap_y`, sized for
    /// `score`.
    pub open spec fn placed(x: int, score: int, gap_y: int) -> Obstacle {
        Obstacle { x: x as i32, gap_y: gap_y as i32, size: max_int(MIN_GAP_SIZE as int, score) as i32 }
    }

    /// An obstacle at `x` sized for `score`, its gap centered on a row drawn
    /// uniformly from `GAP_MIN..GAP_MAX`.
    pub fn new(x: i32, score: i32) -> (r: Obstacle)
        ensures
            r.x == x,
            r.size == max_int(MIN_GAP_SIZE as int, score as int),
            score <= MIN_GAP_SIZE ==> r.size == MIN_GAP_SIZE,
            GAP_MIN <= r.gap_y < GAP_MAX,
    {
        let gap_y = random_in_range(GAP_MIN, GAP_MAX);
        Obstacle::with_gap(x, score, gap_y)
    }

    /// An obstacle at `x` sized for `score`, its gap centered on `gap_y`.
    pub fn with_gap(x: i32, score: i32, gap_y: i32) -> (r: Obstacle)
        ensures
            r == Obstacle::placed(x as int, score as int, gap_y as int),
            r.x == x,
            r.gap_y == gap_y,
            r.size == max_int(MIN_GAP_SIZE as int, score as int),
            score <= MIN_GAP_SIZE ==> r.size == MIN_GAP_SIZE,
    {
        let size = if score > MIN_GAP_SIZE { score } else { MIN_GAP_SIZE };
        Obstacle { x, gap_y, size }
    }

    /// Half the gap, rounded toward zero, as a machine integer.
    fn half(&self) -> (r: i32)
        ensures
            r == self.half_size(),
    {
        if self.size >= 0 {
            self.size / 2
        } else {
            let m: i64 = -(self.size as i64);
            -((m / 2) as i32)
        }
    }

    /// Whether the body collides with this wall: only when level with it, and
    /// then when above or below the gap.
    pub fn hit_obstacle(&self, player: &Player) -> (r: bool)
        ensures
            r == self.hits(player@),
            player.x != self.x ==> !r,
    {
        let half = self.half() as i64;
        let x_match = self.x == player.x;
        let above_gap = (player.y as i64) < self.gap_y as i64 - half;
        let below_gap = (player.y as i64) > self.gap_y as i64 + half;
        x_match && (above_gap || below_gap)
    }

    /// The cells the wall covers when the body is at column `player_x`: the
    /// wall's screen column with each row of `wall_rows`.
    pub fn wall_cells(&self, player_x: i32) -> (r: Vec<(i32, i32)>)
        requires
            i32::MIN <= self.x - player_x <= i32::MAX,
            self.size >= 0,
        ensures
            r@.len() == self.wall_rows().len(),
            forall|i: int|
                0 <= i < r@.len() ==> r@[i].0 == self.x - player_x && r@[i].1 == #[trigger] self.wall_rows()[i],
    {
        let screen_x = self.x - player_x;
        let half = self.half() as i64;
        let top: i64 = self.gap_y as i64 - half;
        let bottom: i64 = self.gap_y as i64 + half;
        let ghost rows = self.wall_rows();
        let ghost n_top: int = if top > 0 { top as int } else { 0 };
        let ghost n_bottom: int = if bottom < SCREEN_HEIGHT { SCREEN_HEIGHT - bottom } else { 0 };
        assert(rows.len() == n_top + n_bottom);
        let mut cells: Vec<(i32, i32)> = Vec::new();
        let mut y: i32 = 0;
        while (y as i64) < top
            invariant
                0 <= y <= n_top,
                n_top <= i32::MAX,
                rows.len() == n_top + n_bottom,
                n_top == if top > 0 { top as int } else { 0 },
                top == self.gap_top(),
                bottom == self.gap_bottom(),
                rows == self.wall_rows(),
                screen_x == self.x - player_x,
                cells@.len() == y,
                forall|i: int| 0 <= i < y ==> (#[trigger] cells@[i]).0 == screen_x && cells@[i].1 == rows[i],
            decreases top - y,
        {
            assert(rows[y as int] == y);
            cells.push((screen_x, y));
            y = y + 1;
        }
        let mut y: i64 = bottom;
        while y < SCREEN_HEIGHT as i64
            invariant
                bottom <= y,
                bottom < SCREEN_HEIGHT ==> y <= SCREEN_HEIGHT,
                bottom >= SCREEN_HEIGHT ==> y == bottom,
                top == self.gap_top(),
                bottom == self.gap_bottom(),
                rows == self.wall_rows(),
                screen_x == self.x - player_x,
                cells@.len() == n_top + (y - bottom),
                n_top == if top > 0 { top as int } else { 0 },
                n_bottom == if bottom < SCREEN_HEIGHT { SCREEN_HEIGHT - bottom } else { 0 },
                rows.len() == n_top + n_bottom,
                i32::MIN <= bottom,
                forall|i: int| 0 <= i < cells@.len() ==> (#[trigger] cells@[i]).0 == screen_x && cells@[i].1 == rows[i],
            decreases SCREEN_HEIGHT - y,
        {
            assert(rows[n_top + (y - bottom)] == y);
            cells.push((screen_x, y as i32));
            y = y + 1;
        }
        cells
    }
}

} // verus!
