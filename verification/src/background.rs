//! Scrolling backgrounds: two segments per layer scroll left and wrap
//! around so the layer loops seamlessly.

use vstd::prelude::*;

use crate::scroll_amount;
use crate::scroll_amount_spec;
use crate::DT_MAX_MS;
use crate::HVEL_MAX_MILLI;
use crate::SPEED_MAX_MILLI;

verus! {

/// Horizontal positions of background segments saturate here instead of
/// overflowing; unreachable in any session of realistic length.
pub const BG_X_LIMIT_MICRO: i64 = 1_000_000_000_000_000;

/// Largest admitted tile width, in micro-units.
pub const BG_WIDTH_MAX_MICRO: i64 = 2_000_000_000;

/// One background segment: a tile of the given width at position `(x, y)`
/// in micro-units, scrolling left with the given velocity.
#[derive(Debug, Clone, Copy, Eq, PartialEq, Structural)]
pub struct Background {
    pub x: i64,
    pub y: i64,
    pub width_micro: i64,
    pub velocity_milli: u64,
}

impl Background {
    pub open spec fn wf(self) -> bool {
        &&& 0 < self.width_micro <= BG_WIDTH_MAX_MICRO
        &&& -BG_X_LIMIT_MICRO <= self.x <= BG_X_LIMIT_MICRO
        &&& self.velocity_milli <= HVEL_MAX_MILLI
    }
}

pub open spec fn backgrounds_wf(segs: Seq<Background>) -> bool {
    forall|i: int| 0 <= i < segs.len() ==> (#[trigger] segs[i]).wf()
}

/// A segment's position after one tick of scrolling, saturating far away
/// instead of overflowing.
pub open spec fn bg_scrolled_x(x: int, amt: int) -> int {
    if x - amt < -BG_X_LIMIT_MICRO {
        -BG_X_LIMIT_MICRO as int
    } else {
        x - amt
    }
}

/// A segment's position after the wraparound check: a segment that has
/// scrolled a full tile width off the left jumps two widths right, behind
/// its sibling segment.
pub open spec fn bg_looped_x(x: int, width: int) -> int {
    if x < -width {
        x + 2 * width
    } else {
        x
    }
}

/// Spawns one background layer: two segments one tile width apart, so that
/// one is always on screen while the other wraps.
pub fn spawn_background(
    segments: &mut Vec<Background>,
    x: i64,
    y: i64,
    width_micro: i64,
    velocity_milli: u64,
)
    requires
        0 < width_micro <= BG_WIDTH_MAX_MICRO,
        -1_000_000_000 <= x <= 1_000_000_000,
        velocity_milli <= HVEL_MAX_MILLI,
    ensures
        final(segments)@ == old(segments)@ + seq![
            Background { x, y, width_micro, velocity_milli },
            Background { x: (x + width_micro) as i64, y, width_micro, velocity_milli },
        ],
        backgrounds_wf(old(segments)@) ==> backgrounds_wf(final(segments)@),
{
    segments.push(Background { x, y, width_micro, velocity_milli });
    segments.push(Background { x: x + width_micro, y, width_micro, velocity_milli });
    proof {
        assert(segments@ =~= old(segments)@ + seq![
            Background { x, y, width_micro, velocity_milli },
            Background { x: (x + width_micro) as i64, y, width_micro, velocity_milli },
        ]);
    }
}

/// One tick of horizontal scrolling for every segment.
pub fn horizontal_movement(segments: &mut Vec<Background>, dt_ms: u64, speed_milli: u64)
    requires
        backgrounds_wf(old(segments)@),
        dt_ms <= DT_MAX_MS,
        speed_milli <= SPEED_MAX_MILLI,
    ensures
        final(segments)@.len() == old(segments)@.len(),
        forall|i: int| 0 <= i < old(segments)@.len() ==> final(segments)@[i] == (Background {
            x: bg_scrolled_x(
                old(segments)@[i].x as int,
                scroll_amount_spec(
                    dt_ms as int,
                    speed_milli as int,
                    old(segments)@[i].velocity_milli as int,
                ),
            ) as i64,
            ..old(segments)@[i]
        }),
        backgrounds_wf(final(segments)@),
{
    let n = segments.len();
    let mut i: usize = 0;
    while i < n
        invariant
            n == segments@.len(),
            i <= n,
            dt_ms <= DT_MAX_MS,
            speed_milli <= SPEED_MAX_MILLI,
            backgrounds_wf(old(segments)@),
            segments@.len() == old(segments)@.len(),
            forall|j: int| i <= j < n ==> segments@[j] == old(segments)@[j],
            forall|j: int| 0 <= j < i ==> segments@[j] == (Background {
                x: bg_scrolled_x(
                    old(segments)@[j].x as int,
                    scroll_amount_spec(
                        dt_ms as int,
                        speed_milli as int,
                        old(segments)@[j].velocity_milli as int,
                    ),
                ) as i64,
                ..old(segments)@[j]
            }),
            forall|j: int| 0 <= j < i ==> (#[trigger] segments@[j]).wf(),
        decreases n - i,
    {
        let seg = segments[i];
        let amt = scroll_amount(dt_ms, speed_milli, seg.velocity_milli);
        let shifted: i64 = if (seg.x as i128) - (amt as i128) < (-BG_X_LIMIT_MICRO) as i128 {
            -BG_X_LIMIT_MICRO
        } else {
            seg.x - amt as i64
        };
        segments[i] = Background { x: shifted, ..seg };
        i += 1;
    }
}

/// The wraparound pass: any segment a full tile width off the left edge
/// jumps two widths right.
pub fn loop_background(segments: &mut Vec<Background>)
    requires
        backgrounds_wf(old(segments)@),
    ensures
        final(segments)@.len() == old(segments)@.len(),
        forall|i: int| 0 <= i < old(segments)@.len() ==> final(segments)@[i] == (Background {
            x: bg_looped_x(old(segments)@[i].x as int, old(segments)@[i].width_micro as int) as i64,
            ..old(segments)@[i]
        }),
        backgrounds_wf(final(segments)@),
{
    let n = segments.len();
    let mut i: usize = 0;
    while i < n
        invariant
            n == segments@.len(),
            i <= n,
            backgrounds_wf(old(segments)@),
            segments@.len() == old(segments)@.len(),
            forall|j: int| i <= j < n ==> segments@[j] == old(segments)@[j],
            forall|j: int| 0 <= j < i ==> segments@[j] == (Background {
                x: bg_looped_x(
                    old(segments)@[j].x as int,
                    old(segments)@[j].width_micro as int,
                ) as i64,
                ..old(segments)@[j]
            }),
            forall|j: int| 0 <= j < i ==> (#[trigger] segments@[j]).wf(),
        decreases n - i,
    {
        let seg = segments[i];
        if seg.x < -seg.width_micro {
            segments[i] = Background { x: seg.x + 2 * seg.width_micro, ..seg };
        }
        i += 1;
    }
}

} // verus!
