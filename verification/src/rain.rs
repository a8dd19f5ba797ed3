//! The particle field: its kinds of precipitation, its state and the
//! per-frame update.

use vstd::prelude::*;

use crate::random::{random_bool, random_i16};

verus! {

broadcast use vstd::array::group_array_axioms;

/// The kind of precipitation that a row of particles carries.
#[derive(Clone, Copy, Debug, PartialEq, Eq, PartialOrd, Ord, Structural)]
pub enum RainType {
    Snow,
    Rain,
    Hale,
}

/// How many pixels a particle of kind `t` falls per frame.
pub open spec fn fall_speed(t: RainType) -> int {
    match t {
        RainType::Snow => 3,
        RainType::Rain => 4,
        RainType::Hale => 5,
    }
}

impl RainType {
    /// The vertical speed of this kind, in pixels per frame.
    pub fn fall_speed(&self) -> (s: i16)
        ensures
            s == fall_speed(*self),
    {
        match self {
            RainType::Snow => 3,
            RainType::Rain => 4,
            RainType::Hale => 5,
        }
    }
}

/// Where a row at height `y` of kind `t` goes in one frame: a row that has
/// passed the bottom edge `y_limit` re-enters above the top at `-draw` and
/// takes on the `current` kind; any other row falls by its kind's speed.
pub open spec fn next_row(y: int, t: RainType, y_limit: int, current: RainType, draw: int) -> (
    int,
    RainType,
) {
    if y > y_limit {
        (-draw, current)
    } else {
        (y + fall_speed(t), t)
    }
}

/// Where a particle at column `x` goes in one frame, with wind `v` and the
/// right edge `x_limit`: it moves by `v`; past the left edge (`-5`) it
/// re-enters `x_limit + 5` further right, past `x_limit` it re-enters
/// `x_limit + 5` further left, and otherwise, while `snowing`, it drifts
/// one pixel right (`coin`) or left.
pub open spec fn next_x(x: int, v: int, x_limit: int, snowing: bool, coin: bool) -> int {
    let moved = x + v;
    if moved < -5 {
        moved + x_limit + 5
    } else if moved > x_limit {
        moved - (x_limit + 5)
    } else if snowing {
        if coin {
            moved + 1
        } else {
            moved - 1
        }
    } else {
        moved
    }
}

/// Whether a particle at column `x` may stand at `x2` after one frame,
/// whichever way the snow drift falls.
pub open spec fn x_step_allows(x: int, x2: int, v: int, x_limit: int, snowing: bool) -> bool {
    x2 == next_x(x, v, x_limit, snowing, true) || x2 == next_x(x, v, x_limit, snowing, false)
}

/// Whether a row at `y` of kind `t` may stand at `y2` with kind `t2` after
/// one frame: a row past `y_limit` re-enters somewhere in `-spacing..=-1`
/// with the `current` kind; any other row falls by its kind's speed and
/// keeps its kind.
pub open spec fn row_step_allows(
    y: int,
    t: RainType,
    y2: int,
    t2: RainType,
    y_limit: int,
    spacing: int,
    current: RainType,
) -> bool {
    if y > y_limit {
        -spacing <= y2 <= -1 && t2 == current
    } else {
        y2 == y + fall_speed(t) && t2 == t
    }
}

/// One frame of a row: the new height and kind of a row at `y` of kind
/// `rain_type`, given the re-entry depth `draw` (used only when the row has
/// passed `y_limit`).
pub fn step_row(y: i16, rain_type: RainType, y_limit: i16, current: RainType, draw: i16) -> (r: (
    i16,
    RainType,
))
    requires
        y_limit <= i16::MAX - 5,
        draw > i16::MIN,
    ensures
        r.0 == next_row(y as int, rain_type, y_limit as int, current, draw as int).0,
        r.1 == next_row(y as int, rain_type, y_limit as int, current, draw as int).1,
{
    if y > y_limit {
        (-draw, current)
    } else {
        (y + rain_type.fall_speed(), rain_type)
    }
}

/// Whether the arithmetic of one frame of a particle at column `x` stays
/// within `i16`: the move by the wind `v`, the wrap distance `x_limit + 5`
/// where the particle wraps around an edge, and the one-pixel drift to the
/// right while `snowing`.
pub open spec fn column_step_fits(x: int, v: int, x_limit: int, snowing: bool) -> bool {
    let moved = x + v;
    &&& i16::MIN <= moved <= i16::MAX
    &&& (moved < -5 || moved > x_limit) ==> x_limit + 5 <= i16::MAX
    &&& (snowing && -5 <= moved <= x_limit) ==> moved + 1 <= i16::MAX
}

/// One frame of a particle's column: where a particle at `x` goes with wind
/// `x_velocity` and right edge `x_limit`; `coin` picks the drift direction
/// while `snowing`, and is ignored when it is not or when the particle
/// wraps around an edge.
pub fn step_column(x: i16, x_velocity: i16, x_limit: i16, snowing: bool, coin: bool) -> (r: i16)
    requires
        -5 <= x_limit,
        column_step_fits(x as int, x_velocity as int, x_limit as int, snowing),
    ensures
        r == next_x(x as int, x_velocity as int, x_limit as int, snowing, coin),
        x + x_velocity < -5 ==> r == x + x_velocity + x_limit + 5,
        x + x_velocity > x_limit ==> r == x + x_velocity - (x_limit + 5),
        -5 <= x + x_velocity <= x_limit && !snowing ==> r == x + x_velocity,
        -5 <= x + x_velocity <= x_limit && snowing && coin ==> r == x + x_velocity + 1,
        -5 <= x + x_velocity <= x_limit && snowing && !coin ==> r == x + x_velocity - 1,
{
    let moved = x + x_velocity;
    if moved < -5 {
        moved + (x_limit + 5)
    } else if moved > x_limit {
        moved - (x_limit + 5)
    } else if snowing {
        if coin {
            moved + 1
        } else {
            moved - 1
        }
    } else {
        moved
    }
}

/// A particle inside `-6..=x_limit + 1` stays there after a frame, whatever
/// the wind within `-10..=10` and whatever the drift, once the field is at
/// least five pixels wide.
pub proof fn lemma_column_stays_in_band(x: int, v: int, x_limit: int, snowing: bool, coin: bool)
    requires
        -6 <= x <= x_limit + 1,
        -10 <= v <= 10,
        5 <= x_limit,
    ensures
        -6 <= next_x(x, v, x_limit, snowing, coin) <= x_limit + 1,
{
}

/// Number of rows of particles.
pub const ROWS: usize = 64;

/// Number of particles in each row.
pub const COLUMNS: usize = 64;

/// Number of particles in the field.
pub const PARTICLES: usize = 4096;

/// The abstract state of a [`Rain`] field.
pub struct RainView {
    /// The height of each row.
    pub ys: Seq<i16>,
    /// The column of each particle; particle `i * COLUMNS + c` is the `c`-th of row `i`.
    pub xs: Seq<i16>,
    /// The kind of each row.
    pub rows: Seq<RainType>,
    /// The wind: how far every particle moves sideways per frame.
    pub x_velocity: i16,
    /// The right edge of the field.
    pub x_limit: i16,
    /// The bottom edge of the field.
    pub y_limit: i16,
    /// The distance between neighbouring rows; rows re-enter up to this far above the top.
    pub y_spacing: i16,
    /// The kind that rows take on when they re-enter.
    pub current: RainType,
}

/// The spacing of `ROWS` rows over a field `y_limit` high: `y_limit / ROWS`, rounded up.
pub open spec fn row_spacing(y_limit: int) -> int {
    (y_limit + 63) / 64
}

/// The lowest height a row can have: the top row's start less the largest
/// jitter, a quarter of the row spacing.
pub open spec fn row_floor(y_limit: int) -> int {
    -(y_limit / 2) - row_spacing(y_limit) / 4
}

/// The height at which row `i` starts, before its jitter: the rows are laid
/// out from half a field above the top, `row_spacing` apart.
pub open spec fn row_start(y_limit: int, i: int) -> int {
    -(y_limit / 2) + i * row_spacing(y_limit)
}

impl RainView {
    /// The invariant of a field: it has its sizes, the edges are those a
    /// field is made with, and every row lies within
    /// `row_floor(y_limit)..=y_limit + 5`.
    pub open spec fn wf(self) -> bool {
        &&& self.ys.len() == ROWS
        &&& self.rows.len() == ROWS
        &&& self.xs.len() == PARTICLES
        &&& 1 <= self.x_limit
        &&& 193 <= self.y_limit <= 32704
        &&& self.y_spacing == row_spacing(self.y_limit as int)
        &&& forall|i: int|
            0 <= i < ROWS ==> row_floor(self.y_limit as int) <= #[trigger] self.ys[i] <= self.y_limit
                + 5
    }

    /// Whether the next frame's arithmetic stays within `i16` for every
    /// particle.
    pub open spec fn frame_fits(self) -> bool {
        forall|j: int|
            0 <= j < PARTICLES ==> column_step_fits(
                #[trigger] self.xs[j] as int,
                self.x_velocity as int,
                self.x_limit as int,
                self.current == RainType::Snow,
            )
    }

    /// A field that can run for ever: well-formed, at least five and at
    /// most 32756 pixels wide, with the wind within `-10..=10` and every
    /// particle within `-6..=x_limit + 1`.
    pub open spec fn steady(self) -> bool {
        &&& self.wf()
        &&& 5 <= self.x_limit <= 32756
        &&& -10 <= self.x_velocity <= 10
        &&& forall|j: int| 0 <= j < PARTICLES ==> -6 <= #[trigger] self.xs[j] <= self.x_limit + 1
    }

    /// Whether `next` is a state that one frame can lead to from this one:
    /// the wind, the edges, the spacing and the current kind stay; every row
    /// takes a step that [`row_step_allows`], and every particle one that
    /// [`x_step_allows`].
    pub open spec fn advances_to(self, next: RainView) -> bool {
        &&& next.ys.len() == ROWS
        &&& next.rows.len() == ROWS
        &&& next.xs.len() == PARTICLES
        &&& next.x_velocity == self.x_velocity
        &&& next.x_limit == self.x_limit
        &&& next.y_limit == self.y_limit
        &&& next.y_spacing == self.y_spacing
        &&& next.current == self.current
        &&& forall|i: int|
            0 <= i < ROWS ==> row_step_allows(
                self.ys[i] as int,
                self.rows[i],
                #[trigger] next.ys[i] as int,
                next.rows[i],
                self.y_limit as int,
                self.y_spacing as int,
                self.current,
            )
        &&& forall|j: int|
            0 <= j < PARTICLES ==> x_step_allows(
                self.xs[j] as int,
                #[trigger] next.xs[j] as int,
                self.x_velocity as int,
                self.x_limit as int,
                self.current == RainType::Snow,
            )
    }
}

/// A field of falling particles, `ROWS` rows of `COLUMNS` particles each.
pub struct Rain {
    y: [i16; ROWS],
    x: [i16; PARTICLES],
    row_state: [RainType; ROWS],
    x_velocity: i16,
    x_limit: i16,
    y_limit: i16,
    y_spacing: i16,
    current_state: RainType,
}

impl View for Rain {
    type V = RainView;

    closed spec fn view(&self) -> RainView {
        RainView {
            ys: self.y@,
            xs: self.x@,
            rows: self.row_state@,
            x_velocity: self.x_velocity,
            x_limit: self.x_limit,
            y_limit: self.y_limit,
            y_spacing: self.y_spacing,
            current: self.current_state,
        }
    }
}

impl Rain {
    /// Makes a field from its samples: row `i` starts at `row_start(y_limit, i)`
    /// moved by `jitter[i]`, and particle `j` at column `x[j]`; every row
    /// is rain and there is no wind.
    pub fn from_samples(x_limit: i16, y_limit: i16, jitter: [i16; ROWS], x: [i16; PARTICLES]) -> (r: Rain)
        requires
            1 <= x_limit,
            193 <= y_limit <= 32704,
            forall|i: int| 0 <= i < ROWS ==> -(row_spacing(y_limit as int) / 4) <= #[trigger] jitter[i] < row_spacing(y_limit as int) / 4,
            forall|j: int| 0 <= j < PARTICLES ==> 0 <= #[trigger] x[j] < x_limit,
        ensures
            r@.wf(),
            5 <= x_limit <= 32756 ==> r@.steady(),
            r@.x_limit == x_limit,
            r@.y_limit == y_limit,
            r@.x_velocity == 0,
            r@.current == RainType::Rain,
            r@.xs == x@,
            forall|i: int| 0 <= i < ROWS ==> #[trigger] r@.ys[i] == row_start(y_limit as int, i) + jitter[i],
            forall|i: int| 0 <= i < ROWS ==> #[trigger] r@.rows[i] == RainType::Rain,
    {
        let spacing: i16 = (y_limit + 63) / 64;
        let mut y: [i16; ROWS] = [0i16; 64];
        for i in 0..ROWS
            invariant
                spacing == row_spacing(y_limit as int),
                193 <= y_limit <= 32704,
                forall|k: int| 0 <= k < ROWS ==> -(row_spacing(y_limit as int) / 4) <= #[trigger] jitter[k] < row_spacing(y_limit as int) / 4,
                forall|k: int| 0 <= k < i ==> #[trigger] y[k] == row_start(y_limit as int, k) + jitter[k],
                forall|k: int|
                    0 <= k < i ==> row_floor(y_limit as int) <= #[trigger] y[k] <= y_limit + 5,
        {
            assert(0 <= i * spacing <= 63 * spacing) by (nonlinear_arith)
                requires 0 <= i < 64, 4 <= spacing <= 511;
            assert(64 * spacing <= y_limit + 63);
            let offset: i16 = (i as i16) * spacing;
            y[i] = -(y_limit / 2) + offset + jitter[i];
        }
        Rain {
            y,
            x,
            row_state: [RainType::Rain; 64],
            x_velocity: 0,
            x_limit,
            y_limit,
            y_spacing: spacing,
            current_state: RainType::Rain,
        }
    }

    /// Makes a field `x_limit` wide and `y_limit` high: rain, no wind, each
    /// row `i` at `row_start(y_limit, i)` moved by a random jitter of less
    /// than a quarter of the row spacing, and each particle at a random
    /// column in `0..x_limit`.
    pub fn new(x_limit: i16, y_limit: i16) -> (r: Rain)
        requires
            1 <= x_limit,
            193 <= y_limit <= 32704,
        ensures
            r@.wf(),
            5 <= x_limit <= 32756 ==> r@.steady(),
            r@.x_limit == x_limit,
            r@.y_limit == y_limit,
            r@.x_velocity == 0,
            r@.current == RainType::Rain,
            forall|i: int| 0 <= i < ROWS ==> #[trigger] r@.rows[i] == RainType::Rain,
            forall|i: int|
                0 <= i < ROWS ==> row_start(y_limit as int, i) - row_spacing(y_limit as int) / 4
                    <= #[trigger] r@.ys[i] < row_start(y_limit as int, i) + row_spacing(y_limit as int) / 4,
            forall|j: int| 0 <= j < PARTICLES ==> 0 <= #[trigger] r@.xs[j] < x_limit,
    {
        let spacing: i16 = (y_limit + 63) / 64;
        let jitter_bound: i16 = spacing / 4;
        let mut jitter: [i16; ROWS] = [0i16; 64];
        for i in 0..ROWS
            invariant
                jitter_bound == row_spacing(y_limit as int) / 4,
                1 <= jitter_bound <= 127,
                forall|k: int| 0 <= k < i ==> -jitter_bound <= #[trigger] jitter[k] < jitter_bound,
        {
            jitter[i] = random_i16(-jitter_bound, jitter_bound);
        }
        let mut x: [i16; PARTICLES] = [0i16; 4096];
        for j in 0..PARTICLES
            invariant
                1 <= x_limit,
                forall|k: int| 0 <= k < j ==> 0 <= #[trigger] x[k] < x_limit,
        {
            x[j] = random_i16(0, x_limit);
        }
        Rain::from_samples(x_limit, y_limit, jitter, x)
    }

    /// Advances the field by one frame.
    ///
    /// Each row past `y_limit` re-enters at a random height within
    /// `-y_spacing..=-1` and takes on the current kind; every other row
    /// falls by its kind's speed. Then every particle moves by the wind,
    /// wraps around an edge it has passed, and, while it snows and it has
    /// not passed the right edge, drifts one pixel to a random side.
    /// The frame's arithmetic must stay within `i16` ([`Rain::frame_fits`]),
    /// which it always does on a steady field.
    pub fn update(&mut self)
        requires
            old(self)@.wf(),
            old(self)@.frame_fits(),
        ensures
            final(self)@.wf(),
            old(self)@.advances_to(final(self)@),
            old(self)@.steady() ==> final(self)@.steady(),
            forall|j: int|
                0 <= j < PARTICLES ==> {
                    let moved = old(self)@.xs[j] + old(self)@.x_velocity;
                    let lim = old(self)@.x_limit;
                    let new_x = #[trigger] final(self)@.xs[j];
                    &&& moved < -5 ==> new_x == moved + lim + 5
                    &&& moved > lim ==> new_x == moved - (lim + 5)
                    &&& -5 <= moved <= lim && old(self)@.current != RainType::Snow ==> new_x
                        == moved
                    &&& -5 <= moved <= lim && old(self)@.current == RainType::Snow ==> (new_x
                        == moved + 1 || new_x == moved - 1)
                },
    {
        let ghost old_view = self@;
        let y_limit = self.y_limit;
        let spacing = self.y_spacing;
        let current = self.current_state;
        for i in 0..ROWS
            invariant
                self@.ys.len() == ROWS,
                self@.rows.len() == ROWS,
                self@.xs == old_view.xs,
                self@.x_velocity == old_view.x_velocity,
                self@.x_limit == old_view.x_limit,
                self@.y_limit == old_view.y_limit,
                self@.y_spacing == old_view.y_spacing,
                self@.current == old_view.current,
                y_limit == old_view.y_limit,
                spacing == old_view.y_spacing,
                current == old_view.current,
                old_view.wf(),
                forall|k: int| i <= k < ROWS ==> #[trigger] self@.ys[k] == old_view.ys[k],
                forall|k: int| i <= k < ROWS ==> #[trigger] self@.rows[k] == old_view.rows[k],
                forall|k: int|
                    0 <= k < i ==> row_step_allows(
                        old_view.ys[k] as int,
                        old_view.rows[k],
                        #[trigger] self@.ys[k] as int,
                        self@.rows[k],
                        y_limit as int,
                        spacing as int,
                        current,
                    ),
        {
            let y = self.y[i];
            let rain_type = self.row_state[i];
            assert(y == self.y@[i as int]);
            assert(rain_type == self.row_state@[i as int]);
            let draw: i16 = if y > y_limit {
                random_i16(1, spacing + 1)
            } else {
                0
            };
            let (new_y, new_type) = step_row(y, rain_type, y_limit, current, draw);
            self.y[i] = new_y;
            self.row_state[i] = new_type;
        }
        let ghost rows_done = self@;
        let x_velocity = self.x_velocity;
        let x_limit = self.x_limit;
        let snowing = current == RainType::Snow;
        for j in 0..PARTICLES
            invariant
                self@.ys == rows_done.ys,
                self@.rows == rows_done.rows,
                self@.y_limit == rows_done.y_limit,
                self@.y_spacing == rows_done.y_spacing,
                self@.current == rows_done.current,
                self@.x_velocity == x_velocity,
                self@.x_limit == x_limit,
                rows_done.xs == old_view.xs,
                rows_done.x_velocity == old_view.x_velocity,
                rows_done.x_limit == old_view.x_limit,
                old_view.wf(),
                old_view.frame_fits(),
                x_velocity == old_view.x_velocity,
                x_limit == old_view.x_limit,
                snowing == (old_view.current == RainType::Snow),
                forall|k: int| j <= k < PARTICLES ==> #[trigger] self@.xs[k] == old_view.xs[k],
                forall|k: int|
                    0 <= k < j ==> x_step_allows(
                        old_view.xs[k] as int,
                        #[trigger] self@.xs[k] as int,
                        x_velocity as int,
                        x_limit as int,
                        snowing,
                    ),
        {
            let x = self.x[j];
            assert(x == self.x@[j as int]);
            assert(self@.xs[j as int] == old_view.xs[j as int]);
            assert(column_step_fits(x as int, x_velocity as int, x_limit as int, snowing));
            let coin = if x + x_velocity <= x_limit && snowing {
                random_bool()
            } else {
                false
            };
            self.x[j] = step_column(x, x_velocity, x_limit, snowing, coin);
        }
        proof {
            if old_view.steady() {
                lemma_steady_fields_run_for_ever(old_view, self@);
            }
        }
    }

    /// Adds `delta` to the wind and clamps it to `-10..=10`.
    pub fn adjust_wind(&mut self, delta: i16)
        requires
            old(self)@.wf(),
            i16::MIN <= old(self)@.x_velocity + delta <= i16::MAX,
        ensures
            final(self)@.wf(),
            final(self)@.x_velocity == clamp_wind(old(self)@.x_velocity + delta),
            final(self)@.x_velocity == vstd::math::min(
                10,
                vstd::math::max(-10, old(self)@.x_velocity + delta),
            ),
            old(self)@.steady() ==> final(self)@.steady(),
            final(self)@ == (RainView { x_velocity: final(self)@.x_velocity, ..old(self)@ }),
    {
        let v = self.x_velocity + delta;
        self.x_velocity = if v < -10 {
            -10
        } else if v > 10 {
            10
        } else {
            v
        };
    }

    /// Sets the kind that rows take on when they next re-enter the field.
    pub fn set_current_state(&mut self, state: RainType)
        requires
            old(self)@.wf(),
        ensures
            final(self)@.wf(),
            final(self)@ == (RainView { current: state, ..old(self)@ }),
            old(self)@.steady() ==> final(self)@.steady(),
    {
        self.current_state = state;
    }

    /// Sets the wind to `x_velocity` pixels per frame.
    pub fn set_x_velocity(&mut self, x_velocity: i16)
        requires
            old(self)@.wf(),
        ensures
            final(self)@.wf(),
            final(self)@ == (RainView { x_velocity, ..old(self)@ }),
            old(self)@.steady() && -10 <= x_velocity <= 10 ==> final(self)@.steady(),
    {
        self.x_velocity = x_velocity;
    }

    /// Whether the next frame's arithmetic stays within `i16` for every
    /// particle, so that [`Rain::update`] may be called.
    pub fn frame_fits(&self) -> (r: bool)
        requires
            self@.wf(),
        ensures
            r == self@.frame_fits(),
    {
        let v = self.x_velocity as i32;
        let x_limit = self.x_limit as i32;
        let snowing = self.current_state == RainType::Snow;
        for j in 0..PARTICLES
            invariant
                v == self@.x_velocity,
                x_limit == self@.x_limit,
                snowing == (self@.current == RainType::Snow),
                forall|k: int|
                    0 <= k < j ==> column_step_fits(
                        #[trigger] self@.xs[k] as int,
                        v as int,
                        x_limit as int,
                        snowing,
                    ),
        {
            let x = self.x[j];
            assert(x == self@.xs[j as int]);
            let moved = x as i32 + v;
            if moved < -32768 || moved > 32767 {
                return false;
            }
            if (moved < -5 || moved > x_limit) && x_limit + 5 > 32767 {
                return false;
            }
            if snowing && -5 <= moved && moved <= x_limit && moved + 1 > 32767 {
                return false;
            }
        }
        true
    }

    /// The wind: how far every particle moves sideways per frame.
    pub fn x_velocity(&self) -> (v: i16)
        ensures
            v == self@.x_velocity,
    {
        self.x_velocity
    }

    /// The kind that rows take on when they re-enter the field.
    pub fn current_state(&self) -> (t: RainType)
        ensures
            t == self@.current,
    {
        self.current_state
    }

    /// Every particle with its position and kind: the `c`-th particle of row
    /// `i` comes at index `i * COLUMNS + c`, at column `xs[i * COLUMNS + c]`,
    /// at the row's height and of the row's kind.
    pub fn iter_particles(&self) -> (particles: Vec<(i16, i16, RainType)>)
        ensures
            particles.len() == PARTICLES,
            forall|i: int, c: int|
                0 <= i < ROWS && 0 <= c < COLUMNS ==> #[trigger] particles@[i * 64 + c] == (
                    self@.xs[i * 64 + c],
                    self@.ys[i],
                    self@.rows[i],
                ),
    {
        let mut particles: Vec<(i16, i16, RainType)> = Vec::with_capacity(PARTICLES);
        for i in 0..ROWS
            invariant
                particles.len() == i * 64,
                forall|r: int, c: int|
                    0 <= r < i && 0 <= c < COLUMNS ==> #[trigger] particles@[r * 64 + c] == (
                        self@.xs[r * 64 + c],
                        self@.ys[r],
                        self@.rows[r],
                    ),
        {
            let y = self.y[i];
            let rain_type = self.row_state[i];
            for c in 0..COLUMNS
                invariant
                    0 <= i < ROWS,
                    y == self@.ys[i as int],
                    rain_type == self@.rows[i as int],
                    particles.len() == i * 64 + c,
                    forall|r: int, c2: int|
                        0 <= r < i && 0 <= c2 < COLUMNS ==> #[trigger] particles@[r * 64 + c2] == (
                            self@.xs[r * 64 + c2],
                            self@.ys[r],
                            self@.rows[r],
                        ),
                    forall|c2: int|
                        0 <= c2 < c ==> #[trigger] particles@[i * 64 + c2] == (
                            self@.xs[i * 64 + c2],
                            self@.ys[i as int],
                            self@.rows[i as int],
                        ),
            {
                let k = i * 64 + c;
                particles.push((self.x[k], y, rain_type));
            }
        }
        particles
    }
}

/// The wind after an adjustment to `v`: `v` clamped to `-10..=10`.
pub open spec fn clamp_wind(v: int) -> int {
    if v < -10 {
        -10
    } else if v > 10 {
        10
    } else {
        v
    }
}

/// A frame keeps the field's invariant: from a well-formed state, every
/// state that one frame can lead to is well-formed.
pub proof fn lemma_advance_preserves_wf(a: RainView, b: RainView)
    requires
        a.wf(),
        a.advances_to(b),
    ensures
        b.wf(),
{
}

/// A steady field stays steady, and its next frame's arithmetic always
/// fits: a field five to 32756 pixels wide with the wind within `-10..=10`
/// can be updated for ever.
pub proof fn lemma_steady_fields_run_for_ever(a: RainView, b: RainView)
    requires
        a.steady(),
    ensures
        a.frame_fits(),
        a.advances_to(b) ==> b.steady(),
{
    if a.advances_to(b) {
        assert forall|j: int| 0 <= j < PARTICLES implies -6 <= #[trigger] b.xs[j] <= b.x_limit
            + 1 by {
            let snowing = a.current == RainType::Snow;
            assert(x_step_allows(a.xs[j] as int, b.xs[j] as int, a.x_velocity as int, a.x_limit as int, snowing));
            lemma_column_stays_in_band(a.xs[j] as int, a.x_velocity as int, a.x_limit as int, snowing, true);
            lemma_column_stays_in_band(a.xs[j] as int, a.x_velocity as int, a.x_limit as int, snowing, false);
        }
    }
}

/// After a frame no row lies more than five pixels past the bottom edge.
pub proof fn lemma_rows_end_near_the_bottom(a: RainView, b: RainView)
    requires
        a.wf(),
        a.advances_to(b),
    ensures
        forall|i: int| 0 <= i < ROWS ==> #[trigger] b.ys[i] <= a.y_limit + 5,
{
    assert forall|i: int| 0 <= i < ROWS implies #[trigger] b.ys[i] <= a.y_limit + 5 by {
        assert(row_step_allows(
            a.ys[i] as int,
            a.rows[i],
            b.ys[i] as int,
            b.rows[i],
            a.y_limit as int,
            a.y_spacing as int,
            a.current,
        ));
    }
}

/// A row changes its kind only when it re-enters the field, and then it
/// takes on the current kind; a row of the current kind keeps it.
pub proof fn lemma_kind_changes_only_on_reentry(a: RainView, b: RainView)
    requires
        a.wf(),
        a.advances_to(b),
    ensures
        forall|i: int|
            0 <= i < ROWS && #[trigger] b.rows[i] != a.rows[i] ==> a.ys[i] > a.y_limit && b.rows[i]
                == a.current,
        forall|i: int| 0 <= i < ROWS && a.rows[i] == a.current ==> #[trigger] b.rows[i] == a.current,
{
    assert forall|i: int| 0 <= i < ROWS implies (#[trigger] b.rows[i] != a.rows[i] ==> a.ys[i] > a.y_limit
        && b.rows[i] == a.current) && (a.rows[i] == a.current ==> b.rows[i] == a.current) by {
        assert(row_step_allows(
            a.ys[i] as int,
            a.rows[i],
            b.ys[i] as int,
            b.rows[i],
            a.y_limit as int,
            a.y_spacing as int,
            a.current,
        ));
    }
}

/// Without snow the particles' columns follow from the state alone: any two
/// frames from the same state put every particle in the same column.
pub proof fn lemma_columns_determined_without_snow(a: RainView, b: RainView, c: RainView)
    requires
        a.wf(),
        a.current != RainType::Snow,
        a.advances_to(b),
        a.advances_to(c),
    ensures
        b.xs == c.xs,
{
    assert forall|j: int| 0 <= j < PARTICLES implies #[trigger] b.xs[j] == c.xs[j] by {
        assert(x_step_allows(a.xs[j] as int, b.xs[j] as int, a.x_velocity as int, a.x_limit as int, false));
        assert(x_step_allows(a.xs[j] as int, c.xs[j] as int, a.x_velocity as int, a.x_limit as int, false));
    }
    assert(b.xs =~= c.xs);
}

/// A wind adjustment that stays within `-10..=10` is undone by the opposite one.
pub proof fn lemma_wind_adjustments_cancel(v: int, delta: int)
    requires
        -10 <= v <= 10,
        -10 <= v + delta <= 10,
    ensures
        clamp_wind(clamp_wind(v + delta) - delta) == v,
{
}

/// Every state that a steady field can reach keeps its particles on the
/// field: each row within `row_floor(y_limit)..=y_limit + 5` and each
/// particle within `-6..=x_limit + 1`. (A field made five to 32756 pixels
/// wide is steady, and frames, wind adjustments, kind changes and wind
/// settings within `-10..=10` keep it so.)
pub proof fn lemma_particles_stay_on_the_field(v: RainView)
    requires
        v.steady(),
    ensures
        forall|i: int|
            0 <= i < ROWS ==> row_floor(v.y_limit as int) <= #[trigger] v.ys[i] <= v.y_limit + 5,
        forall|j: int| 0 <= j < PARTICLES ==> -6 <= #[trigger] v.xs[j] <= v.x_limit + 1,
{
}

/// Along frames `s[0]`, `s[1]`, ..., `s[k]` from a well-formed state, every
/// state is well-formed, keeps the first one's edges and current kind, and
/// each row either has the current kind or has fallen at least `3 * k`
/// pixels below `row_floor`.
proof fn lemma_rows_fall_until_they_take_the_current_kind(s: Seq<RainView>, k: int)
    requires
        0 <= k < s.len(),
        s[0].wf(),
        forall|m: int| 0 <= m < s.len() - 1 ==> #[trigger] s[m].advances_to(s[m + 1]),
    ensures
        s[k].wf(),
        s[k].current == s[0].current,
        s[k].y_limit == s[0].y_limit,
        s[k].y_spacing == s[0].y_spacing,
        forall|i: int|
            0 <= i < ROWS ==> #[trigger] s[k].rows[i] == s[0].current || s[k].ys[i] >= row_floor(
                s[0].y_limit as int,
            ) + 3 * k,
    decreases k,
{
    if k > 0 {
        lemma_rows_fall_until_they_take_the_current_kind(s, k - 1);
        let a = s[k - 1];
        let b = s[k];
        assert(s[k - 1].advances_to(s[k - 1 + 1]));
        assert(k - 1 + 1 == k);
        assert(a.advances_to(b));
        lemma_advance_preserves_wf(a, b);
        assert forall|i: int| 0 <= i < ROWS implies #[trigger] b.rows[i] == s[0].current || b.ys[i]
            >= row_floor(s[0].y_limit as int) + 3 * k by {
            assert(row_step_allows(
                a.ys[i] as int,
                a.rows[i],
                b.ys[i] as int,
                b.rows[i],
                a.y_limit as int,
                a.y_spacing as int,
                a.current,
            ));
            assert(a.rows[i] == s[0].current || a.ys[i] >= row_floor(s[0].y_limit as int) + 3 * (k
                - 1));
        }
    }
}

/// After `y_limit` frames with no change of the current kind, every row has
/// the current kind: each row not yet of that kind falls at least three
/// pixels a frame until it passes the bottom and re-enters with it, and a
/// row of the current kind keeps it.
pub proof fn lemma_rows_take_the_current_kind(s: Seq<RainView>)
    requires
        s.len() >= 1,
        s.len() - 1 >= s[0].y_limit,
        s[0].wf(),
        forall|m: int| 0 <= m < s.len() - 1 ==> #[trigger] s[m].advances_to(s[m + 1]),
    ensures
        forall|i: int| 0 <= i < ROWS ==> #[trigger] s[s.len() - 1].rows[i] == s[0].current,
{
    let n = s.len() - 1;
    lemma_rows_fall_until_they_take_the_current_kind(s, n);
    assert forall|i: int| 0 <= i < ROWS implies #[trigger] s[n].rows[i] == s[0].current by {
        assert(s[n].ys[i] <= s[n].y_limit + 5);
        assert(s[n].rows[i] == s[0].current || s[n].ys[i] >= row_floor(s[0].y_limit as int) + 3 * n);
    }
}

/// What one frame does to a particle's column, case by case: past the left
/// edge it moves `x_limit + 5` right of where the wind took it, past the
/// right edge `x_limit + 5` left of it, and otherwise it ends where the wind
/// took it, or, while snowing, exactly one pixel to the side the coin picks.
pub proof fn lemma_column_step_cases(x: int, v: int, x_limit: int, snowing: bool, coin: bool)
    requires
        -5 <= x_limit,
    ensures
        x + v < -5 ==> next_x(x, v, x_limit, snowing, coin) == x + v + x_limit + 5,
        x + v > x_limit ==> next_x(x, v, x_limit, snowing, coin) == x + v - (x_limit + 5),
        -5 <= x + v <= x_limit && !snowing ==> next_x(x, v, x_limit, snowing, coin) == x + v,
        -5 <= x + v <= x_limit && snowing && coin ==> next_x(x, v, x_limit, snowing, coin) == x + v
            + 1,
        -5 <= x + v <= x_limit && snowing && !coin ==> next_x(x, v, x_limit, snowing, coin) == x + v
            - 1,
{
}

/// In any frame, every particle ends where the wind takes it, moved by
/// `x_limit + 5` across the field if it passed an edge, or, while snowing
/// and not wrapping, one pixel to either side of it.
pub proof fn lemma_advance_moves_columns(a: RainView, b: RainView)
    requires
        a.wf(),
        a.advances_to(b),
    ensures
        forall|j: int|
            0 <= j < PARTICLES ==> {
                let moved = a.xs[j] + a.x_velocity;
                let new_x = #[trigger] b.xs[j];
                &&& moved < -5 ==> new_x == moved + a.x_limit + 5
                &&& moved > a.x_limit ==> new_x == moved - (a.x_limit + 5)
                &&& -5 <= moved <= a.x_limit && a.current != RainType::Snow ==> new_x == moved
                &&& -5 <= moved <= a.x_limit && a.current == RainType::Snow ==> (new_x == moved + 1
                    || new_x == moved - 1)
            },
{
    assert forall|j: int| 0 <= j < PARTICLES implies {
        let moved = a.xs[j] + a.x_velocity;
        let new_x = #[trigger] b.xs[j];
        &&& moved < -5 ==> new_x == moved + a.x_limit + 5
        &&& moved > a.x_limit ==> new_x == moved - (a.x_limit + 5)
        &&& -5 <= moved <= a.x_limit && a.current != RainType::Snow ==> new_x == moved
        &&& -5 <= moved <= a.x_limit && a.current == RainType::Snow ==> (new_x == moved + 1 || new_x
            == moved - 1)
    } by {
        let snowing = a.current == RainType::Snow;
        assert(x_step_allows(a.xs[j] as int, b.xs[j] as int, a.x_velocity as int, a.x_limit as int, snowing));
        lemma_column_step_cases(a.xs[j] as int, a.x_velocity as int, a.x_limit as int, snowing, true);
        lemma_column_step_cases(a.xs[j] as int, a.x_velocity as int, a.x_limit as int, snowing, false);
    }
}

/// A wind adjustment lands on `v` when `v` is within `-10..=10`, on `10`
/// above that and on `-10` below it: `min(10, max(-10, v))`.
pub proof fn lemma_wind_is_clamped(v: int)
    ensures
        clamp_wind(v) == vstd::math::min(10, vstd::math::max(-10, v)),
        v > 10 ==> clamp_wind(v) == 10,
        v < -10 ==> clamp_wind(v) == -10,
        -10 <= v <= 10 ==> clamp_wind(v) == v,
{
}

} // verus!
