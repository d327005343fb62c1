//! The animation that runs once the image is loaded: a frame index that
//! advances by one on every tick of the host's timer and wraps at the number
//! of frames, and the drawing that each tick asks for.

use crate::frames::{frame_key, frame_name, FrameTable, SpriteFrame};
use crate::loader::LoadOutcome;
use vstd::arithmetic::div_mod::{lemma_add_mod_noop_right, lemma_small_mod};
use vstd::prelude::*;

verus! {

/// Side length of the square that is cleared before each draw.
pub const CANVAS_EXTENT: u16 = 600;

/// Left and top coordinate of the place where each frame is drawn.
pub const DRAW_ORIGIN: u16 = 300;

/// A rectangle on the canvas, in pixels.
#[derive(Clone, Copy, Debug, PartialEq, Eq, Structural)]
pub struct Region {
    pub x: u16,
    pub y: u16,
    pub w: u16,
    pub h: u16,
}

/// What one tick asks the canvas to do: clear `clear`, then copy `source` of
/// the image onto `target`.
#[derive(Clone, Copy, Debug, PartialEq, Eq, Structural)]
pub struct DrawCommand {
    pub clear: Region,
    pub source: SpriteFrame,
    pub target: Region,
}

/// The index that follows `index` when there are `count` frames.
pub open spec fn next_index(index: nat, count: nat) -> nat {
    (index + 1) % count
}

/// The index reached from `start` after `ticks` ticks.
pub open spec fn index_after(start: nat, count: nat, ticks: nat) -> nat
    decreases ticks,
{
    if ticks == 0 {
        start
    } else {
        next_index(index_after(start, count, (ticks - 1) as nat), count)
    }
}

/// The drawing of `frame`: the whole canvas is cleared and the frame is
/// copied, unscaled, to the fixed place.
pub open spec fn draw_of(frame: SpriteFrame) -> DrawCommand {
    DrawCommand {
        clear: Region { x: 0, y: 0, w: CANVAS_EXTENT, h: CANVAS_EXTENT },
        source: frame,
        target: Region { x: DRAW_ORIGIN, y: DRAW_ORIGIN, w: frame.w, h: frame.h },
    }
}

/// A running animation over the image `H`.
pub struct AnimationDriver<H> {
    image: H,
    table: FrameTable,
    frame_count: usize,
    index: usize,
    period_ms: u32,
}

impl<H> AnimationDriver<H> {
    #[verifier::type_invariant]
    spec fn index_in_range(self) -> bool {
        self.index == 0 || self.index < self.frame_count
    }

    /// The image that the frames are cut from.
    pub closed spec fn image(self) -> H {
        self.image
    }

    /// The rectangles by frame name.
    pub closed spec fn frames(self) -> Map<Seq<char>, SpriteFrame> {
        self.table@
    }

    /// The index of the frame drawn last, zero before the first tick.
    pub closed spec fn index(self) -> nat {
        self.index as nat
    }

    /// The interval between two ticks, in milliseconds.
    pub closed spec fn period(self) -> u32 {
        self.period_ms
    }

    /// The number of frames in one cycle.
    pub closed spec fn frame_count(self) -> nat {
        self.frame_count as nat
    }

    /// Whether the cycle has frames at all and the table holds the one that
    /// the next tick draws.
    pub open spec fn next_frame_filed(self) -> bool {
        &&& self.frame_count() > 0
        &&& self.frames().contains_key(
            frame_key(next_index(self.index(), self.frame_count())),
        )
    }

    /// Starts the animation on a loaded image, at index zero, over a cycle
    /// of `frame_count` frames.
    pub fn start(image: H, table: FrameTable, frame_count: usize, period_ms: u32) -> (driver: Self)
        ensures
            driver.image() == image,
            driver.frames() == table@,
            driver.frame_count() == frame_count,
            driver.index() == 0,
            driver.period() == period_ms,
    {
        AnimationDriver { image, table, frame_count, index: 0, period_ms }
    }

    /// Starts the animation if the load ended well. After a failed load no
    /// animation is started, and the host's error is handed on.
    pub fn start_after<E>(
        outcome: LoadOutcome<E>,
        image: H,
        table: FrameTable,
        frame_count: usize,
        period_ms: u32,
    ) -> (started: Result<Self, E>)
        ensures
            match outcome {
                Ok(_) => {
                    &&& started matches Ok(driver)
                    &&& driver.image() == image
                    &&& driver.frames() == table@
                    &&& driver.frame_count() == frame_count
                    &&& driver.index() == 0
                    &&& driver.period() == period_ms
                },
                Err(error) => started == Err::<Self, E>(error),
            },
    {
        match outcome {
            Ok(_) => Ok(Self::start(image, table, frame_count, period_ms)),
            Err(error) => Err(error),
        }
    }

    /// The image that the frames are cut from.
    pub fn image_handle(&self) -> (image: &H)
        ensures
            *image == self.image(),
    {
        &self.image
    }

    /// The number of frames in one cycle.
    pub fn cycle_length(&self) -> (count: usize)
        ensures
            count == self.frame_count(),
    {
        self.frame_count
    }

    /// The index of the frame drawn last.
    pub fn frame_index(&self) -> (index: usize)
        ensures
            index == self.index(),
            self.frame_count() > 0 ==> index < self.frame_count(),
    {
        proof {
            use_type_invariant(self);
        }
        self.index
    }

    /// The interval between two ticks, in milliseconds.
    pub fn period_ms(&self) -> (period: u32)
        ensures
            period == self.period(),
    {
        self.period_ms
    }

    /// Whether the next tick can draw.
    pub fn has_next_frame(&self) -> (ready: bool)
        ensures
            ready == self.next_frame_filed(),
    {
        proof {
            use_type_invariant(self);
        }
        if self.frame_count == 0 {
            return false;
        }
        let next = (self.index + 1) % self.frame_count;
        let name = frame_name(next);
        self.table.lookup(name.as_str()).is_some()
    }

    /// One tick of the timer: moves to the next index, wrapping to zero after
    /// the last one, and returns the drawing of the frame filed there.
    pub fn tick(&mut self) -> (command: DrawCommand)
        requires
            old(self).next_frame_filed(),
        ensures
            final(self).index() == next_index(old(self).index(), old(self).frame_count()),
            final(self).index() < old(self).frame_count(),
            final(self).frames() == old(self).frames(),
            final(self).frame_count() == old(self).frame_count(),
            final(self).image() == old(self).image(),
            final(self).period() == old(self).period(),
            command == draw_of(old(self).frames()[frame_key(final(self).index())]),
    {
        proof {
            use_type_invariant(&*self);
        }
        let next = (self.index + 1) % self.frame_count;
        let name = frame_name(next);
        let frame = self.table.lookup(name.as_str()).unwrap();
        self.index = next;
        DrawCommand {
            clear: Region { x: 0, y: 0, w: CANVAS_EXTENT, h: CANVAS_EXTENT },
            source: frame,
            target: Region { x: DRAW_ORIGIN, y: DRAW_ORIGIN, w: frame.w, h: frame.h },
        }
    }
}

/// Whatever index the count starts from, after one tick or more it lies
/// below the number of frames, and it is the starting index plus the number
/// of ticks, reduced modulo the number of frames.
pub proof fn lemma_index_cycles(start: nat, count: nat, ticks: nat)
    requires
        count > 0,
        ticks > 0,
    ensures
        index_after(start, count, ticks) < count,
        index_after(start, count, ticks) == (start + ticks) % count,
    decreases ticks,
{
    if ticks == 1 {
        assert(index_after(start, count, 0) == start);
    } else {
        lemma_index_cycles(start, count, (ticks - 1) as nat);
        lemma_add_mod_noop_right(1, start + ticks - 1, count as int);
    }
}

/// Below the last index a tick moves one up; from the last index it wraps to
/// zero.
pub proof fn lemma_index_wraps(index: nat, count: nat)
    requires
        index < count,
    ensures
        index + 1 < count ==> next_index(index, count) == index + 1,
        index + 1 == count ==> next_index(index, count) == 0,
{
    if index + 1 < count {
        lemma_small_mod(index + 1, count);
    }
}

/// A whole cycle of ticks leads back to the index it began at.
pub proof fn lemma_full_cycle_returns(index: nat, count: nat)
    requires
        index < count,
    ensures
        index_after(index, count, count) == index,
{
    lemma_index_cycles(index, count, count);
    lemma_add_mod_noop_right(index as int, count as int, count as int);
    lemma_small_mod(index, count);
}

} // verus!
