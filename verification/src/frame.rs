//! The frame driver: what happens on each start of vertical blanking.
//!
//! Once a frame the driver moves a triangle five pixels to the right, back to
//! the left edge when it would leave the screen, and redraws the picture:
//! two grey triangles that cover the screen, then the moving one. Each
//! triangle goes to the Graphics Synthesizer as a packet of its own, and the
//! driver does not build the next packet before the transfer of the last one
//! is done. So never more than one buffer is in flight, and no buffer is
//! touched while the DMA controller reads it.
//!
//! The driver decides; the caller acts. [`FrameDriver::draw_cb`] is the
//! entry for the interrupt. It and [`FrameDriver::completed`] answer with
//! what is to be done next: carry out the transfer that the driver has
//! started and report its end, or return from the interrupt.

use crate::dma::{Channel, DmaChannel, Transfer};
use crate::graphics::{draw_tri, triangle_packet, Color, Point};
use vstd::prelude::*;

verus! {

/// The width of the screen in pixels, past which the triangle does not go.
pub const SCREEN_WIDTH: u32 = 640;

/// How far the triangle moves from one frame to the next, in pixels.
pub const STEP: u32 = 5;

/// The counter after one more frame: five more, or zero if that would be
/// past the width of the screen.
pub open spec fn next_count(count: u32) -> u32 {
    if count + STEP > SCREEN_WIDTH {
        0
    } else {
        (count + STEP) as u32
    }
}

/// The counter after `frames` more frames.
pub open spec fn count_after(count: u32, frames: nat) -> u32
    decreases frames,
{
    if frames == 0 {
        count
    } else {
        next_count(count_after(count, (frames - 1) as nat))
    }
}

/// The corners of the moving triangle when the counter stands at `count`:
/// the triangle (0, 100), (50, 150), (0, 150), moved right by `count`.
pub open spec fn moving_triangle(count: u32) -> Seq<Point> {
    seq![
        Point { x: count, y: 100, z: 1 },
        Point { x: (50 + count) as u32, y: 150, z: 1 },
        Point { x: count, y: 150, z: 1 },
    ]
}

/// The colour of the moving triangle when the counter stands at `count`: the
/// red channel is the counter's low byte.
pub open spec fn moving_color(count: u32) -> Color {
    Color { r: (count % 256) as u8, g: 0x66, b: 0x66, a: 0xff }
}

/// The grey of the background.
pub open spec fn background_color() -> Color {
    Color { r: 0x33, g: 0x33, b: 0x33, a: 0 }
}

/// The state of the animation: a counter that goes up by five with each
/// frame and starts again from zero when the triangle would leave the
/// screen.
#[derive(Clone, Copy, Debug, PartialEq, Eq, Structural)]
pub struct AnimationCounter {
    count: u32,
}

impl AnimationCounter {
    /// Where the counter stands.
    pub closed spec fn spec_count(&self) -> u32 {
        self.count
    }

    #[verifier::type_invariant]
    closed spec fn on_screen(&self) -> bool {
        self.count <= SCREEN_WIDTH
    }

    /// The counter at zero.
    pub fn new() -> (counter: Self)
        ensures
            counter.count() == 0,
    {
        AnimationCounter { count: 0 }
    }

    /// Where the counter stands.
    #[verifier::when_used_as_spec(spec_count)]
    pub fn count(&self) -> (count: u32)
        ensures
            count == self.spec_count(),
            count <= SCREEN_WIDTH,
    {
        proof {
            use_type_invariant(self);
        }
        self.count
    }

    /// Moves on by one frame and gives the corners of the moving triangle
    /// for it. If the triangle's left corner would come to lie past the
    /// width of the screen, it goes back to the left edge and the counter to
    /// zero.
    pub fn advance(&mut self) -> (triangle: [Point; 3])
        ensures
            final(self).count() == next_count(old(self).count()),
            final(self).count() <= SCREEN_WIDTH,
            triangle@ == moving_triangle(final(self).count()),
    {
        if self.count > SCREEN_WIDTH - STEP {
            self.count = 0;
        } else {
            self.count = self.count + STEP;
        }
        self.triangle()
    }

    /// The corners of the moving triangle for the frame that the counter
    /// stands at.
    pub fn triangle(&self) -> (triangle: [Point; 3])
        ensures
            triangle@ == moving_triangle(self.count()),
    {
        proof {
            use_type_invariant(self);
        }
        let triangle = [
            Point { x: self.count, y: 100, z: 1 },
            Point { x: 50 + self.count, y: 150, z: 1 },
            Point { x: self.count, y: 150, z: 1 },
        ];
        assert(triangle@ =~= moving_triangle(self.count));
        triangle
    }

    /// The colour of the moving triangle for the frame that the counter
    /// stands at.
    pub fn color(&self) -> (color: Color)
        ensures
            color == moving_color(self.count()),
    {
        Color { r: (self.count % 256) as u8, g: 0x66, b: 0x66, a: 0xff }
    }
}

/// As long as five a frame keeps the triangle on the screen, the counter is
/// where it started plus five for every frame.
pub proof fn lemma_count_before_wrap(count: u32, frames: nat)
    requires
        count + frames * STEP <= SCREEN_WIDTH,
    ensures
        count_after(count, frames) == count + frames * STEP,
        moving_triangle(count_after(count, frames))[0].x == count + frames * STEP,
        moving_triangle(count_after(count, frames))[1].x == 50 + count + frames * STEP,
        moving_triangle(count_after(count, frames))[2].x == count + frames * STEP,
    decreases frames,
{
    if frames > 0 {
        assert(count + (frames - 1) * 5 == count + frames * 5 - 5) by (nonlinear_arith);
        lemma_count_before_wrap(count, (frames - 1) as nat);
    }
}

/// With the first frame that would take the triangle past the width of the
/// screen, the counter goes back to zero, and the triangle with it to the
/// left edge.
pub proof fn lemma_count_wraps(count: u32, frames: nat)
    requires
        frames >= 1,
        count + (frames - 1) * STEP <= SCREEN_WIDTH,
        count + frames * STEP > SCREEN_WIDTH,
    ensures
        count_after(count, frames) == 0,
        moving_triangle(count_after(count, frames))[0].x == 0,
        moving_triangle(count_after(count, frames))[1].x == 50,
        moving_triangle(count_after(count, frames))[2].x == 0,
{
    let before = (frames - 1) as nat;
    lemma_count_before_wrap(count, before);
    assert(count + before * 5 + 5 == count + frames * 5) by (nonlinear_arith)
        requires
            before == frames - 1,
    ;
}

/// From a multiple of five on the screen, the counter after any number of
/// frames is where five a frame would have brought it, counted round the
/// 129 places from 0 to 640.
pub proof fn lemma_count_after(count: u32, frames: nat)
    requires
        count <= SCREEN_WIDTH,
        count % STEP == 0,
    ensures
        count_after(count, frames) == (count + frames * STEP) % (SCREEN_WIDTH + STEP),
        count_after(count, frames) <= SCREEN_WIDTH,
        count_after(count, frames) % STEP == 0,
    decreases frames,
{
    if frames > 0 {
        let before = (frames - 1) as nat;
        lemma_count_after(count, before);
        let c = count_after(count, before);
        let total = count + before * 5;
        assert(count + frames * 5 == total + 5) by (nonlinear_arith)
            requires
                total == count + before * 5,
                before == frames - 1,
        ;
        assert(c == total % 645);
        if c + 5 > 640 {
            assert(c == 640);
            assert((total + 5) % 645 == 0) by (nonlinear_arith)
                requires
                    total % 645 == 640,
                    total >= 0,
            ;
        } else {
            assert((total + 5) % 645 == c + 5) by (nonlinear_arith)
                requires
                    total % 645 == c,
                    c + 5 <= 640,
                    total >= 0,
            ;
        }
    }
}

/// The left corner of the moving triangle lies at the counter, the right
/// one fifty pixels further.
pub proof fn lemma_moving_triangle_follows_count(count: u32, frames: nat)
    requires
        count <= SCREEN_WIDTH,
        count % STEP == 0,
    ensures
        moving_triangle(count_after(count, frames))[0].x == (count + frames * STEP) % (SCREEN_WIDTH
            + STEP),
        moving_triangle(count_after(count, frames))[1].x == 50 + (count + frames * STEP) % (
        SCREEN_WIDTH + STEP),
        moving_triangle(count_after(count, frames))[2].x == (count + frames * STEP) % (SCREEN_WIDTH
            + STEP),
{
    lemma_count_after(count, frames);
}

/// Which packet of the frame is in flight.
#[derive(Clone, Copy, Debug, PartialEq, Eq, Structural)]
pub enum Stage {
    /// None: the driver waits for the next vertical blanking.
    Idle,
    /// The upper left half of the background.
    FirstBackground,
    /// The lower right half of the background.
    SecondBackground,
    /// The moving triangle.
    Triangle,
}

/// What the caller is to do next.
#[derive(Clone, Copy, Debug, PartialEq, Eq, Structural)]
pub enum Action {
    /// Carry out the transfer that the driver has started: send the buffer
    /// of [`FrameDriver::in_flight`] over the driver's channel, wait until
    /// the hardware reports the end, then call [`FrameDriver::completed`].
    Transfer,
    /// Return from the interrupt with this value, which the platform reads
    /// and the driver does not interpret.
    Return(i32),
}

/// The packet that is in flight at a stage of the frame for which the
/// counter stands at `count`, if one is.
pub open spec fn stage_packet(stage: Stage, count: u32) -> Option<Seq<u128>> {
    match stage {
        Stage::Idle => None,
        Stage::FirstBackground => Some(
            triangle_packet(
                Point { x: 0, y: 0, z: 1 },
                Point { x: 0, y: 448, z: 1 },
                Point { x: 640, y: 0, z: 1 },
                background_color(),
            ),
        ),
        Stage::SecondBackground => Some(
            triangle_packet(
                Point { x: 0, y: 448, z: 1 },
                Point { x: 640, y: 0, z: 1 },
                Point { x: 640, y: 448, z: 1 },
                background_color(),
            ),
        ),
        Stage::Triangle => Some(
            triangle_packet(
                moving_triangle(count)[0],
                moving_triangle(count)[1],
                moving_triangle(count)[2],
                moving_color(count),
            ),
        ),
    }
}

/// The stage that follows a stage within a frame.
pub open spec fn next_stage(stage: Stage) -> Stage {
    match stage {
        Stage::Idle => Stage::FirstBackground,
        Stage::FirstBackground => Stage::SecondBackground,
        Stage::SecondBackground => Stage::Triangle,
        Stage::Triangle => Stage::Idle,
    }
}

/// The driver of the frame cadence. It owns the animation counter, the
/// channel to the Graphics Synthesizer, and the transfer that is in flight.
pub struct FrameDriver {
    counter: AnimationCounter,
    stage: Stage,
    channel: DmaChannel,
    transfer: Option<Transfer<5>>,
}

impl FrameDriver {
    /// Where the animation counter stands.
    pub closed spec fn spec_count(&self) -> u32 {
        self.counter.count()
    }

    /// Which packet of the frame is in flight.
    pub closed spec fn spec_stage(&self) -> Stage {
        self.stage
    }

    /// The number of transfers in flight.
    pub closed spec fn spec_transfers_in_flight(&self) -> usize {
        self.channel.in_flight()
    }

    /// The quadwords that are in flight, if any are.
    pub closed spec fn in_flight_packet(&self) -> Option<Seq<u128>> {
        match self.transfer {
            Some(transfer) => Some(transfer.buffer()@),
            None => None,
        }
    }

    /// The parts of the driver agree: a packet is in flight exactly when the
    /// stage says so, it is the packet of that stage, and the channel is
    /// the one to the Graphics Synthesizer. Every driver that [`new`],
    /// [`draw_cb`] and [`completed`] leave behind is like that.
    ///
    /// [`new`]: FrameDriver::new
    /// [`draw_cb`]: FrameDriver::draw_cb
    /// [`completed`]: FrameDriver::completed
    pub closed spec fn wf(&self) -> bool {
        &&& self.channel.channel() == Channel::Gif
        &&& self.stage == Stage::Idle <==> self.channel.is_idle()
        &&& self.stage == Stage::Idle <==> self.transfer is None
        &&& self.transfer is Some ==> self.transfer->Some_0.channel() == Channel::Gif
        &&& self.in_flight_packet() == stage_packet(self.stage, self.counter.count())
    }

    /// The driver before the first frame: the counter at zero, nothing in
    /// flight.
    pub fn new() -> (driver: Self)
        ensures
            driver.wf(),
            driver.count() == 0,
            driver.stage() == Stage::Idle,
            driver.transfers_in_flight() == 0,
            driver.in_flight_packet() is None,
    {
        FrameDriver {
            counter: AnimationCounter::new(),
            stage: Stage::Idle,
            channel: DmaChannel::new(Channel::Gif),
            transfer: None,
        }
    }

    /// Where the animation counter stands.
    #[verifier::when_used_as_spec(spec_count)]
    pub fn count(&self) -> (count: u32)
        ensures
            count == self.spec_count(),
            count <= SCREEN_WIDTH,
    {
        self.counter.count()
    }

    /// Which packet of the frame is in flight.
    #[verifier::when_used_as_spec(spec_stage)]
    pub fn stage(&self) -> (stage: Stage)
        ensures
            stage == self.spec_stage(),
    {
        self.stage
    }

    /// The number of transfers in flight: one while a packet is on its way,
    /// none between frames, never more.
    #[verifier::when_used_as_spec(spec_transfers_in_flight)]
    pub fn transfers_in_flight(&self) -> (n: usize)
        ensures
            n == self.spec_transfers_in_flight(),
            n <= 1,
    {
        self.channel.in_flight()
    }

    /// The transfer that is in flight, for the caller to carry out. Its
    /// buffer can be read and not written.
    pub fn in_flight(&self) -> (transfer: Option<&Transfer<5>>)
        requires
            self.wf(),
        ensures
            transfer is Some <==> self.stage() != Stage::Idle,
            transfer is Some ==> Some(transfer->Some_0.buffer()@) == self.in_flight_packet(),
            transfer is Some ==> transfer->Some_0.channel() == Channel::Gif,
            self.in_flight_packet() == stage_packet(self.stage(), self.count()),
    {
        self.transfer.as_ref()
    }

    /// The entry for the interrupt at the start of vertical blanking.
    /// `cause` is what the platform hands to the handler; the driver does
    /// not read it.
    ///
    /// Moves the animation on by one frame and starts the transfer of the
    /// first packet of the picture. The driver must be idle: the platform
    /// does not call the handler again before it has returned.
    pub fn draw_cb(&mut self, cause: i32) -> (action: Action)
        requires
            old(self).wf(),
            old(self).stage() == Stage::Idle,
        ensures
            final(self).wf(),
            action == Action::Transfer,
            final(self).count() == next_count(old(self).count()),
            final(self).stage() == Stage::FirstBackground,
            final(self).transfers_in_flight() == 1,
            final(self).in_flight_packet() == stage_packet(
                Stage::FirstBackground,
                final(self).count(),
            ),
    {
        self.counter.advance();
        let buffer = draw_tri(
            Point { x: 0, y: 0, z: 1 },
            Point { x: 0, y: 448, z: 1 },
            Point { x: 640, y: 0, z: 1 },
            Color { r: 0x33, g: 0x33, b: 0x33, a: 0 },
        );
        let transfer = self.channel.start(buffer);
        self.transfer = Some(transfer);
        self.stage = Stage::FirstBackground;
        Action::Transfer
    }

    /// The entry for the end of a transfer, which the hardware has reported.
    ///
    /// Takes the buffer back from the channel. After a packet of the
    /// background it starts the transfer of the next packet; after the
    /// moving triangle the frame is done, the driver is idle and the
    /// interrupt returns zero. A transfer must be in flight.
    pub fn completed(&mut self) -> (action: Action)
        requires
            old(self).wf(),
            old(self).stage() != Stage::Idle,
        ensures
            final(self).wf(),
            final(self).count() == old(self).count(),
            final(self).stage() == next_stage(old(self).stage()),
            final(self).in_flight_packet() == stage_packet(
                final(self).stage(),
                final(self).count(),
            ),
            old(self).stage() == Stage::Triangle ==> action == Action::Return(0)
                && final(self).transfers_in_flight() == 0,
            old(self).stage() != Stage::Triangle ==> action == Action::Transfer
                && final(self).transfers_in_flight() == 1,
    {
        let done = self.transfer.take();
        match done {
            Some(transfer) => {
                let _ = self.channel.wait(transfer);
            },
            None => {
                proof {
                    assert(false);
                }
            },
        }
        match self.stage {
            Stage::FirstBackground => {
                let buffer = draw_tri(
                    Point { x: 0, y: 448, z: 1 },
                    Point { x: 640, y: 0, z: 1 },
                    Point { x: 640, y: 448, z: 1 },
                    Color { r: 0x33, g: 0x33, b: 0x33, a: 0 },
                );
                let transfer = self.channel.start(buffer);
                self.transfer = Some(transfer);
                self.stage = Stage::SecondBackground;
                Action::Transfer
            },
            Stage::SecondBackground => {
                let corners = self.counter.triangle();
                let buffer = draw_tri(corners[0], corners[1], corners[2], self.counter.color());
                let transfer = self.channel.start(buffer);
                self.transfer = Some(transfer);
                self.stage = Stage::Triangle;
                Action::Transfer
            },
            _ => {
                self.stage = Stage::Idle;
                Action::Return(0)
            },
        }
    }

    /// Whatever state the driver is in, at most one transfer is in flight:
    /// one while a packet is on its way, none between frames. The packet on
    /// its way is the one of the driver's stage.
    pub proof fn lemma_at_most_one_transfer(self)
        requires
            self.wf(),
        ensures
            self.transfers_in_flight() <= 1,
            self.transfers_in_flight() == 0 <==> self.stage() == Stage::Idle,
            self.in_flight_packet() is None <==> self.stage() == Stage::Idle,
            self.in_flight_packet() == stage_packet(self.stage(), self.count()),
    {
        self.channel.lemma_at_most_one_in_flight();
    }
}

} // verus!
