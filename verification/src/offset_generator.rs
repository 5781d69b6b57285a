//! Boundary-aware cursor offset generation.
//!
//! Given the last known cursor position, produce a new position that stays
//! within the configured working rectangle, stepping by a magnitude drawn
//! from `[jump_by_pixel_min, jump_by_pixel_max]` along each axis. Near a
//! rectangle edge the direction is forced away from that edge, so the
//! cursor keeps moving instead of sticking to the border; a final clamp
//! guards rectangles too narrow for a full step either way.

use vstd::prelude::*;

use crate::config::Config;
use crate::models::Point;

verus! {

/// `v` clamped into `[lo, hi]`.
pub open spec fn clamp_spec(v: int, lo: int, hi: int) -> int {
    if v < lo {
        lo
    } else if v > hi {
        hi
    } else {
        v
    }
}

/// Whether stepping down from `v` by `offset` would leave the rectangle,
/// whose lower bound on this axis is `start`.
pub open spec fn near_zero(v: int, start: int, offset: int) -> bool {
    v - offset < start
}

/// Whether stepping up from `v` by `offset` would leave the rectangle,
/// whose upper bound on this axis is `end`.
pub open spec fn near_border(v: int, end: int, offset: int) -> bool {
    v + offset > end
}

/// The next coordinate along one axis of the rectangle `[start, start + len]`:
/// clamp the current coordinate into the rectangle; step by `offset` away
/// from a near edge — near-zero is checked first, so it forces the positive
/// direction even when the upper edge is also near — or in the chosen
/// direction when neither edge is near; then clamp the result as a final
/// safety net, which bounds the step in rectangles narrower than two jumps.
pub open spec fn axis_next_spec(cur: int, start: int, len: int, offset: int, positive: bool) -> int {
    let end = start + len;
    let c = clamp_spec(cur, start, end);
    let cand = if near_zero(c, start, offset) {
        c + offset
    } else if near_border(c, end, offset) {
        c - offset
    } else if positive {
        c + offset
    } else {
        c - offset
    };
    clamp_spec(cand, start, end)
}

/// Whether `p` lies in the working rectangle of `config`.
pub open spec fn in_rect(p: Point, config: Config) -> bool {
    &&& config.init_point.x <= p.x <= config.init_point.x + config.working_area.width
    &&& config.init_point.y <= p.y <= config.init_point.y + config.working_area.height
}

/// Whether the far corner of the working rectangle is representable on this
/// machine.
pub open spec fn rect_fits(config: Config) -> bool {
    &&& config.init_point.x + config.working_area.width <= usize::MAX
    &&& config.init_point.y + config.working_area.height <= usize::MAX
}

/// Checks that the far corner of the working rectangle is representable.
pub fn rect_fits_checked(config: &Config) -> (b: bool)
    ensures
        b == rect_fits(*config),
{
    config.init_point.x.checked_add(config.working_area.width).is_some()
        && config.init_point.y.checked_add(config.working_area.height).is_some()
}

/// The next coordinate along one axis, as `axis_next_spec` describes.
fn axis_next(cur: usize, start: usize, len: usize, offset: usize, positive: bool) -> (r: usize)
    requires
        start + len <= usize::MAX,
        0 < offset < len,
    ensures
        r == axis_next_spec(cur as int, start as int, len as int, offset as int, positive),
        start <= r <= start + len,
{
    let end = start + len;
    let c = if cur < start {
        start
    } else if cur > end {
        end
    } else {
        cur
    };
    let is_near_border = c > end - offset;
    let is_near_zero = c < start + offset;
    let cand: usize = if is_near_zero {
        if c <= end - offset {
            c + offset
        } else {
            end
        }
    } else if is_near_border {
        c - offset
    } else if positive {
        c + offset
    } else {
        c - offset
    };
    if cand < start {
        start
    } else if cand > end {
        end
    } else {
        cand
    }
}

/// Deterministic core of the offset generator: given the drawn jump
/// magnitudes and directions for both axes, compute the next cursor
/// position. The result always lies in the working rectangle.
pub fn offset_position(
    config: &Config,
    current: &Point,
    x_offset: usize,
    y_offset: usize,
    x_positive: bool,
    y_positive: bool,
) -> (p: Point)
    requires
        config.valid(),
        rect_fits(*config),
        config.jump_by_pixel_min <= x_offset <= config.jump_by_pixel_max,
        config.jump_by_pixel_min <= y_offset <= config.jump_by_pixel_max,
    ensures
        p.x == axis_next_spec(
            current.x as int,
            config.init_point.x as int,
            config.working_area.width as int,
            x_offset as int,
            x_positive,
        ),
        p.y == axis_next_spec(
            current.y as int,
            config.init_point.y as int,
            config.working_area.height as int,
            y_offset as int,
            y_positive,
        ),
        in_rect(p, *config),
{
    let x = axis_next(
        current.x,
        config.init_point.x,
        config.working_area.width,
        x_offset,
        x_positive,
    );
    let y = axis_next(
        current.y,
        config.init_point.y,
        config.working_area.height,
        y_offset,
        y_positive,
    );
    Point { x, y }
}

/// Whether `p` is the position that `offset_position` computes from
/// `current` under `config` for the drawn magnitudes `xo`, `yo` and
/// directions `xp`, `yp`.
pub open spec fn is_drawn_position(
    config: Config,
    current: Point,
    p: Point,
    xo: int,
    yo: int,
    xp: bool,
    yp: bool,
) -> bool {
    &&& config.jump_by_pixel_min <= xo <= config.jump_by_pixel_max
    &&& config.jump_by_pixel_min <= yo <= config.jump_by_pixel_max
    &&& p.x == axis_next_spec(
        current.x as int,
        config.init_point.x as int,
        config.working_area.width as int,
        xo,
        xp,
    )
    &&& p.y == axis_next_spec(
        current.y as int,
        config.init_point.y as int,
        config.working_area.height as int,
        yo,
        yp,
    )
}

/// Bounds invariant: whatever the current coordinate — inside or outside
/// the rectangle — and whatever magnitude and direction are used, the next
/// coordinate stays within `[start, start + len]`.
pub proof fn lemma_axis_next_in_bounds(cur: int, start: int, len: int, offset: int, positive: bool)
    requires
        len >= 0,
    ensures
        start <= axis_next_spec(cur, start, len, offset, positive) <= start + len,
{
}

/// Edge forcing, lower edge: when stepping down by the drawn magnitude
/// would leave the rectangle (`cur - offset < start`), the movement is
/// forced in the positive direction unconditionally — the result is the
/// clamped coordinate plus the magnitude, bounded by the final clamp, and
/// never below the current coordinate, whichever direction was drawn.
pub proof fn lemma_axis_forced_positive(cur: int, start: int, len: int, offset: int, positive: bool)
    requires
        0 <= start,
        0 < offset < len,
        near_zero(cur, start, offset),
    ensures
        axis_next_spec(cur, start, len, offset, positive) == clamp_spec(
            clamp_spec(cur, start, start + len) + offset,
            start,
            start + len,
        ),
        axis_next_spec(cur, start, len, offset, positive) >= cur,
{
}

/// Edge forcing, upper edge: when stepping up by the drawn magnitude would
/// leave the rectangle (`cur + offset > start + len`) and stepping down
/// would not (else the lower edge wins), the movement is forced in the
/// negative direction — the result is the clamped coordinate minus the
/// magnitude, and never exceeds the current coordinate, whichever
/// direction was drawn.
pub proof fn lemma_axis_forced_negative(cur: int, start: int, len: int, offset: int, positive: bool)
    requires
        0 <= start,
        0 < offset < len,
        near_border(cur, start + len, offset),
        !near_zero(cur, start, offset),
    ensures
        axis_next_spec(cur, start, len, offset, positive) == clamp_spec(cur, start, start + len)
            - offset,
        axis_next_spec(cur, start, len, offset, positive) <= cur,
{
}

/// Bounds invariant at the point level: for a valid configuration, any
/// position the generator can produce — from a current position inside or
/// outside the rectangle — lies in the working rectangle.
pub proof fn lemma_drawn_position_in_rect(
    config: Config,
    current: Point,
    p: Point,
    xo: int,
    yo: int,
    xp: bool,
    yp: bool,
)
    requires
        config.valid(),
        is_drawn_position(config, current, p, xo, yo, xp, yp),
    ensures
        in_rect(p, config),
{
}

/// Declares rand::rngs::ThreadRng, the thread-local generator, as an
/// opaque outside type so that it can stand in fields and signatures.
#[verifier::external_type_specification]
#[verifier::external_body]
pub struct ExThreadRng(rand::rngs::ThreadRng);

/// Relies on rand::thread_rng: a handle to the lazily seeded thread-local
/// generator.
#[verifier::external_body]
fn fresh_rng() -> rand::rngs::ThreadRng {
    rand::thread_rng()
}

/// Relies on Rng::gen_range over an inclusive integer range: the sample
/// lies within the bounds. The call panics only on an empty range, which
/// the precondition excludes.
#[verifier::external_body]
fn sample_inclusive(rng: &mut rand::rngs::ThreadRng, lo: usize, hi: usize) -> (r: usize)
    requires
        lo <= hi,
    ensures
        lo <= r <= hi,
{
    rand::Rng::gen_range(rng, lo..=hi)
}

/// Relies on Rng::gen for bool: a fair coin. Nothing is assumed of the
/// value drawn.
#[verifier::external_body]
fn coin(rng: &mut rand::rngs::ThreadRng) -> (b: bool) {
    rand::Rng::gen(rng)
}

/// Random cursor position generator over a validated configuration.
pub struct OffsetGenerator {
    rng: rand::rngs::ThreadRng,
    config: Config,
}

impl OffsetGenerator {
    /// The configuration this generator was built with.
    pub closed spec fn spec_config(&self) -> Config {
        self.config
    }

    /// Well-formedness: the configuration passed validation and its
    /// rectangle is representable.
    pub open spec fn wf(&self) -> bool {
        &&& self.spec_config().valid()
        &&& rect_fits(self.spec_config())
    }

    /// Builds a generator. The configuration must already have been
    /// validated; the generator never re-validates it.
    pub fn new(config: Config) -> (g: OffsetGenerator)
        requires
            config.valid(),
            rect_fits(config),
        ensures
            g.wf(),
            g.spec_config() == config,
    {
        OffsetGenerator { rng: fresh_rng(), config }
    }

    /// Draws jump magnitudes uniformly from the configured inclusive range
    /// and directions by fair coin, then computes the next position. The
    /// result always lies in the working rectangle, and is related to the
    /// current position exactly as `axis_next_spec` describes for the drawn
    /// magnitudes and directions.
    pub fn get_random_offset_position(&mut self, init: &Point) -> (p: Point)
        requires
            old(self).wf(),
        ensures
            final(self).wf(),
            final(self).spec_config() == old(self).spec_config(),
            in_rect(p, old(self).spec_config()),
            exists|xo: int, yo: int, xp: bool, yp: bool|
                #[trigger] is_drawn_position(old(self).spec_config(), *init, p, xo, yo, xp, yp),
    {
        let x_offset = sample_inclusive(
            &mut self.rng,
            self.config.jump_by_pixel_min,
            self.config.jump_by_pixel_max,
        );
        let y_offset = sample_inclusive(
            &mut self.rng,
            self.config.jump_by_pixel_min,
            self.config.jump_by_pixel_max,
        );
        let x_positive = coin(&mut self.rng);
        let y_positive = coin(&mut self.rng);
        let p = offset_position(&self.config, init, x_offset, y_offset, x_positive, y_positive);
        proof {
            assert(is_drawn_position(
                old(self).spec_config(),
                *init,
                p,
                x_offset as int,
                y_offset as int,
                x_positive,
                y_positive,
            ));
        }
        p
    }
}

} // verus!
