//! The sweep itself: a position, a direction and the strip's buffer, advanced
//! one tick at a time.

use vstd::prelude::*;
use crate::color::{Rgb, color_of, generate_color};

verus! {

/// Number of pixels on the strip.
pub const STRIP_LEN: usize = 10;

/// Index of the last pixel, where an increasing sweep turns.
pub const LAST: usize = 9;

/// The hue shown at a position: the hue range shared evenly among ten pixels.
pub open spec fn hue_spec(position: int) -> int {
    (255 * position) / 10
}

/// A strip with every pixel off.
pub open spec fn dark_strip() -> Seq<Rgb> {
    Seq::new(10, |_i: int| Rgb { r: 0, g: 0, b: 0 })
}

/// Every pixel of the strip is off.
pub open spec fn is_dark(s: Seq<Rgb>) -> bool {
    forall|j: int| 0 <= j < s.len() ==> (#[trigger] s[j]).is_black()
}

/// Heading up, position below the last pixel and exactly the pixels below it
/// lit; heading down, position above the first and exactly the pixels above it
/// lit.
pub open spec fn sweep_shape(position: int, increasing: bool, buffer: Seq<Rgb>) -> bool {
    &&& buffer.len() == STRIP_LEN
    &&& if increasing {
        0 <= position < LAST && forall|j: int|
            0 <= j < STRIP_LEN ==> (!(#[trigger] buffer[j]).is_black() <==> j < position)
    } else {
        0 < position <= LAST && forall|j: int|
            0 <= j < STRIP_LEN ==> (!(#[trigger] buffer[j]).is_black() <==> position < j)
    }
}

/// The hue for a position on the strip.
pub fn hue_at(position: usize) -> (h: u8)
    requires
        position <= LAST,
    ensures
        h as int == hue_spec(position as int),
{
    assert(255 * position <= 2295) by (nonlinear_arith)
        requires
            position <= 9,
    ;
    ((255 * position) / 10) as u8
}

/// What one tick hands to the strip: the frame to show now, and whether an
/// all-black frame follows it (the sweep turned and its buffer was cleared).
#[derive(Clone, Copy, Debug)]
pub struct TickOutput {
    pub shown: [Rgb; 10],
    pub reset: bool,
}

/// The sweep's state: the pixel to light next, the direction of travel
/// (`true` towards the last pixel) and what the strip shows.
#[derive(Clone, Copy, Debug)]
pub struct Animator {
    pub position: usize,
    pub increasing: bool,
    pub buffer: [Rgb; 10],
}

impl Animator {
    /// The position lies on the strip.
    pub open spec fn wf(self) -> bool {
        self.position <= LAST
    }

    /// Where the next tick leaves the position: one step in the direction of
    /// travel, held at the ends of the strip.
    pub open spec fn next_position(self) -> int {
        if self.increasing {
            if self.position < LAST {
                self.position + 1
            } else {
                LAST as int
            }
        } else {
            if self.position > 0 {
                self.position - 1
            } else {
                0
            }
        }
    }

    /// The next tick reaches the end the sweep is heading for, and turns.
    pub open spec fn turns(self) -> bool {
        if self.increasing {
            self.next_position() == LAST
        } else {
            self.next_position() == 0
        }
    }

    /// The direction after the next tick.
    pub open spec fn next_increasing(self) -> bool {
        if self.turns() {
            !self.increasing
        } else {
            self.increasing
        }
    }

    /// The frame the next tick shows when it paints `color`.
    pub open spec fn shown_with(self, color: Rgb) -> Seq<Rgb> {
        self.buffer@.update(self.position as int, color)
    }

    /// The buffer after the next tick painted `color`.
    pub open spec fn next_buffer(self, color: Rgb) -> Seq<Rgb> {
        if self.turns() {
            dark_strip()
        } else {
            self.shown_with(color)
        }
    }

    /// The first pixel is next, heading up, and the strip is dark.
    pub open spec fn is_initial(self) -> bool {
        self.position == 0 && self.increasing && is_dark(self.buffer@)
    }

    /// The sweep at rest: first pixel next, heading towards the last, all off.
    pub fn new() -> (a: Animator)
        ensures
            a.is_initial(),
            a.wf(),
    {
        let a = Animator { position: 0, increasing: true, buffer: [Rgb::black(); 10] };
        assert(is_dark(a.buffer@));
        a
    }

    /// One tick with a given color: paint `color` at the position, hand out
    /// that frame, step the position, and at an end turn round and clear the
    /// buffer.
    pub fn tick_with_color(&mut self, color: Rgb) -> (t: TickOutput)
        requires
            old(self).wf(),
        ensures
            t.shown@ == old(self).shown_with(color),
            t.reset == old(self).turns(),
            final(self).position == old(self).next_position(),
            final(self).increasing == old(self).next_increasing(),
            final(self).buffer@ == old(self).next_buffer(color),
            final(self).wf(),
    {
        self.buffer[self.position] = color;
        let shown = self.buffer;
        let reset: bool;
        if self.increasing {
            if self.position < LAST {
                self.position = self.position + 1;
            }
            reset = self.position >= LAST;
        } else {
            if self.position > 0 {
                self.position = self.position - 1;
            }
            reset = self.position == 0;
        }
        if reset {
            self.increasing = !self.increasing;
            self.buffer = [Rgb::black(); 10];
            assert(self.buffer@ =~= dark_strip());
        }
        TickOutput { shown, reset }
    }

    /// One tick of the sweep: the color for the position's hue is painted
    /// there, and the sweep moves on as `tick_with_color` describes.
    pub fn tick(&mut self) -> (t: TickOutput)
        requires
            old(self).wf(),
        ensures
            t.shown@ == old(self).shown_with(color_of(hue_spec(old(self).position as int) as u8)),
            t.reset == old(self).turns(),
            final(self).position == old(self).next_position(),
            final(self).increasing == old(self).next_increasing(),
            final(self).buffer@ == old(self).next_buffer(
                color_of(hue_spec(old(self).position as int) as u8),
            ),
            final(self).wf(),
            t.reset ==> is_dark(final(self).buffer@),
            is_dark(old(self).buffer@) && !t.reset ==> forall|j: int|
                0 <= j < STRIP_LEN ==> (!(#[trigger] final(self).buffer@[j]).is_black() <==> j
                    == old(self).position),
            old(self).on_track() ==> final(self).on_track(),
    {
        let hue = hue_at(self.position);
        let color = generate_color(hue);
        proof {
            if self.turns() {
                lemma_turning_tick_darkens(*self, color);
            } else if is_dark(self.buffer@) {
                lemma_tick_from_dark_lights_one(*self, color);
            }
            lemma_tick_keeps_on_track(*self, color);
        }
        self.tick_with_color(color)
    }

    /// The shape every reachable state has: heading up, the pixels below the
    /// position are lit; heading down, those above it; all others are off.
    pub open spec fn on_track(self) -> bool {
        sweep_shape(self.position as int, self.increasing, self.buffer@)
    }
}

/// The hue depends on the position alone, never decreases as the position
/// grows, rises strictly from one pixel to the next, and fits in a byte.
pub proof fn lemma_hue_increasing(a: int, b: int)
    requires
        0 <= a <= b <= LAST,
    ensures
        0 <= hue_spec(a) <= hue_spec(b) <= 255,
        a < b ==> hue_spec(a) < hue_spec(b),
{
    assert(0 <= (255 * a) / 10 <= (255 * b) / 10 <= 255) by (nonlinear_arith)
        requires
            0 <= a <= b <= 9,
    ;
    if a < b {
        assert((255 * a) / 10 < (255 * b) / 10) by (nonlinear_arith)
            requires
                0 <= a < b,
        ;
    }
}

/// A tick that turns leaves every pixel of the buffer off.
pub proof fn lemma_turning_tick_darkens(a: Animator, color: Rgb)
    requires
        a.wf(),
        a.turns(),
    ensures
        is_dark(a.next_buffer(color)),
{
}

/// From a dark strip, a tick that does not turn leaves exactly one pixel lit:
/// the one it painted, with a color that is not black.
pub proof fn lemma_tick_from_dark_lights_one(a: Animator, color: Rgb)
    requires
        a.wf(),
        is_dark(a.buffer@),
        !color.is_black(),
        !a.turns(),
    ensures
        forall|j: int|
            0 <= j < STRIP_LEN ==> (!(#[trigger] a.next_buffer(color)[j]).is_black() <==> j
                == a.position),
{
}

/// The direction changes on exactly those ticks that bring the position to the
/// last pixel while heading up, or to the first while heading down.
pub proof fn lemma_direction_flips_at_ends(a: Animator)
    requires
        a.wf(),
    ensures
        (a.next_increasing() != a.increasing) <==> ((a.increasing && a.next_position() == LAST)
            || (!a.increasing && a.next_position() == 0)),
{
}

/// The sweep starts in its shape, and a tick that paints a lit color keeps it
/// there.
pub proof fn lemma_tick_keeps_on_track(a: Animator, color: Rgb)
    requires
        a.wf(),
        !color.is_black(),
    ensures
        a.is_initial() ==> a.on_track(),
        a.on_track() ==> sweep_shape(
            a.next_position(),
            a.next_increasing(),
            a.next_buffer(color),
        ),
{
}

} // verus!
