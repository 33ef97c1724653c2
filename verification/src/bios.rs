//! The system calls of the console's kernel that this crate uses.
//!
//! A system call is made by putting its number and its arguments into
//! registers and trapping into the kernel. The functions here decide what
//! goes into the registers; the trap itself is the caller's to make. What
//! the kernel hands back is read by the functions at the end of the module.

use vstd::prelude::*;

verus! {

/// The parts of the Emotion Engine that [`reset_ee`] can reset. The flags of
/// several parts are added up.
#[derive(Clone, Copy, Debug, PartialEq, Eq, Structural)]
pub enum EEResetFlag {
    /// The DMA controller.
    DMAC,
    /// Vector unit 1.
    VU1,
    /// The interface of vector unit 1.
    VIF1,
    /// The interface of the Graphics Synthesizer.
    GIF,
    /// Vector unit 0.
    VU0,
    /// The interface of vector unit 0.
    VIF0,
    /// The image processing unit.
    IPU,
}

impl EEResetFlag {
    /// The part's bit in the argument of [`reset_ee`].
    pub open spec fn spec_bit(self) -> u32 {
        match self {
            EEResetFlag::DMAC => 0x1,
            EEResetFlag::VU1 => 0x2,
            EEResetFlag::VIF1 => 0x4,
            EEResetFlag::GIF => 0x8,
            EEResetFlag::VU0 => 0x10,
            EEResetFlag::VIF0 => 0x20,
            EEResetFlag::IPU => 0x40,
        }
    }

    /// The part's bit in the argument of [`reset_ee`].
    #[verifier::when_used_as_spec(spec_bit)]
    pub fn bit(self) -> (n: u32)
        ensures
            n == self.spec_bit(),
    {
        match self {
            EEResetFlag::DMAC => 0x1,
            EEResetFlag::VU1 => 0x2,
            EEResetFlag::VIF1 => 0x4,
            EEResetFlag::GIF => 0x8,
            EEResetFlag::VU0 => 0x10,
            EEResetFlag::VIF0 => 0x20,
            EEResetFlag::IPU => 0x40,
        }
    }
}

/// The television standard of the video output.
#[derive(Clone, Copy, Debug, PartialEq, Eq, Structural)]
pub enum VideoMode {
    /// 525 lines at 59.94 fields a second, as used in North America and Japan.
    NTSC,
    /// 625 lines at 50 fields a second, as used in most of Europe.
    PAL,
}

impl VideoMode {
    /// The number that the kernel knows the standard by.
    pub open spec fn spec_code(self) -> i16 {
        match self {
            VideoMode::NTSC => 2,
            VideoMode::PAL => 3,
        }
    }

    /// The number that the kernel knows the standard by.
    #[verifier::when_used_as_spec(spec_code)]
    pub fn code(self) -> (n: i16)
        ensures
            n == self.spec_code(),
    {
        match self {
            VideoMode::NTSC => 2,
            VideoMode::PAL => 3,
        }
    }
}

/// Whether the video output is interlaced.
#[derive(Clone, Copy, Debug, PartialEq, Eq, Structural)]
pub enum Interlacing {
    /// Every field holds every line.
    Noninterlaced,
    /// The fields hold the even and the odd lines in turn.
    Interlaced,
}

impl Interlacing {
    /// The number that the kernel knows the choice by.
    pub open spec fn spec_code(self) -> i16 {
        match self {
            Interlacing::Noninterlaced => 0,
            Interlacing::Interlaced => 1,
        }
    }

    /// The number that the kernel knows the choice by.
    #[verifier::when_used_as_spec(spec_code)]
    pub fn code(self) -> (n: i16)
        ensures
            n == self.spec_code(),
    {
        match self {
            Interlacing::Noninterlaced => 0,
            Interlacing::Interlaced => 1,
        }
    }
}

/// Which lines of the frame buffer an interlaced output reads.
#[derive(Clone, Copy, Debug, PartialEq, Eq, Structural)]
pub enum FieldFrameMode {
    /// Every line.
    Frame,
    /// Every other line.
    Field,
}

impl FieldFrameMode {
    /// The number that the kernel knows the choice by.
    pub open spec fn spec_code(self) -> i16 {
        match self {
            FieldFrameMode::Frame => 0,
            FieldFrameMode::Field => 1,
        }
    }

    /// The number that the kernel knows the choice by.
    #[verifier::when_used_as_spec(spec_code)]
    pub fn code(self) -> (n: i16)
        ensures
            n == self.spec_code(),
    {
        match self {
            FieldFrameMode::Frame => 0,
            FieldFrameMode::Field => 1,
        }
    }
}

/// What can raise an interrupt at the interrupt controller.
#[derive(Clone, Copy, Debug, PartialEq, Eq, Structural)]
pub enum INTCCause {
    /// The Graphics Synthesizer.
    GS,
    /// The bus to the input and output processor.
    SBUS,
    /// The start of the vertical blanking interval.
    VBON,
    /// The end of the vertical blanking interval.
    VBOF,
    /// The interface of vector unit 0.
    VIF0,
    /// The interface of vector unit 1.
    VIF1,
    /// Vector unit 0.
    VU0,
    /// Vector unit 1.
    VU1,
    /// The image processing unit.
    IPU,
    /// Timer 0.
    TIM0,
    /// Timer 1.
    TIM1,
    /// Timer 2.
    TIM2,
    /// Timer 3.
    TIM3,
    /// The queue of the bus to the input and output processor.
    SFIFO,
    /// The watchdog of vector unit 0.
    VU0WD,
}

impl INTCCause {
    /// The number of the cause: its bit in the status and mask registers.
    pub open spec fn spec_code(self) -> i32 {
        match self {
            INTCCause::GS => 0,
            INTCCause::SBUS => 1,
            INTCCause::VBON => 2,
            INTCCause::VBOF => 3,
            INTCCause::VIF0 => 4,
            INTCCause::VIF1 => 5,
            INTCCause::VU0 => 6,
            INTCCause::VU1 => 7,
            INTCCause::IPU => 8,
            INTCCause::TIM0 => 9,
            INTCCause::TIM1 => 10,
            INTCCause::TIM2 => 11,
            INTCCause::TIM3 => 12,
            INTCCause::SFIFO => 13,
            INTCCause::VU0WD => 14,
        }
    }

    /// The number of the cause: its bit in the status and mask registers.
    #[verifier::when_used_as_spec(spec_code)]
    pub fn code(self) -> (n: i32)
        ensures
            n == self.spec_code(),
    {
        match self {
            INTCCause::GS => 0,
            INTCCause::SBUS => 1,
            INTCCause::VBON => 2,
            INTCCause::VBOF => 3,
            INTCCause::VIF0 => 4,
            INTCCause::VIF1 => 5,
            INTCCause::VU0 => 6,
            INTCCause::VU1 => 7,
            INTCCause::IPU => 8,
            INTCCause::TIM0 => 9,
            INTCCause::TIM1 => 10,
            INTCCause::TIM2 => 11,
            INTCCause::TIM3 => 12,
            INTCCause::SFIFO => 13,
            INTCCause::VU0WD => 14,
        }
    }
}

/// The channels of the DMA controller, each of which can raise an interrupt
/// when its transfer ends.
#[derive(Clone, Copy, Debug, PartialEq, Eq, Structural)]
pub enum DMACause {
    /// The channel to the interface of vector unit 0.
    VIFO,
    /// The channel of the interface of vector unit 1.
    VIF1,
    /// The channel to the interface of the Graphics Synthesizer.
    GIF,
    /// The channel from the image processing unit.
    FROMIPU,
    /// The channel to the image processing unit.
    TOIPU,
    /// Channel 0 of the bus to the input and output processor.
    SIF0,
    /// Channel 1 of the bus to the input and output processor.
    SIF1,
    /// Channel 2 of the bus to the input and output processor.
    SIF2,
    /// The channel from the scratchpad.
    FROMSPR,
    /// The channel to the scratchpad.
    TOSPR,
}

impl DMACause {
    /// The number of the channel.
    pub open spec fn spec_code(self) -> i32 {
        match self {
            DMACause::VIFO => 0,
            DMACause::VIF1 => 1,
            DMACause::GIF => 2,
            DMACause::FROMIPU => 3,
            DMACause::TOIPU => 4,
            DMACause::SIF0 => 5,
            DMACause::SIF1 => 6,
            DMACause::SIF2 => 7,
            DMACause::FROMSPR => 8,
            DMACause::TOSPR => 9,
        }
    }

    /// The number of the channel.
    #[verifier::when_used_as_spec(spec_code)]
    pub fn code(self) -> (n: i32)
        ensures
            n == self.spec_code(),
    {
        match self {
            DMACause::VIFO => 0,
            DMACause::VIF1 => 1,
            DMACause::GIF => 2,
            DMACause::FROMIPU => 3,
            DMACause::TOIPU => 4,
            DMACause::SIF0 => 5,
            DMACause::SIF1 => 6,
            DMACause::SIF2 => 7,
            DMACause::FROMSPR => 8,
            DMACause::TOSPR => 9,
        }
    }
}

/// A system call that is ready to be made: its number, which goes into
/// register `v1`, and what goes into the argument registers `a0` to `a3`. An
/// argument register that the call does not read is zero here.
#[derive(Clone, Copy, Debug, PartialEq, Eq, Structural)]
pub struct Syscall {
    /// The number of the call.
    pub number: u32,
    /// The first argument.
    pub a0: i64,
    /// The second argument.
    pub a1: i64,
    /// The third argument.
    pub a2: i64,
    /// The fourth argument.
    pub a3: i64,
}

/// The call that resets the parts of the Emotion Engine whose flags are set
/// in `reset_flag`; see [`EEResetFlag`].
pub fn reset_ee(reset_flag: u32) -> (call: Syscall)
    ensures
        call == (Syscall { number: 0x1, a0: reset_flag as i64, a1: 0, a2: 0, a3: 0 }),
{
    Syscall { number: 0x1, a0: reset_flag as i64, a1: 0, a2: 0, a3: 0 }
}

/// The call that sets the video output of the Graphics Synthesizer.
pub fn set_gs_crt(imode: Interlacing, vmode: VideoMode, ffmode: FieldFrameMode) -> (call: Syscall)
    ensures
        call == (Syscall {
            number: 0x2,
            a0: imode.code() as i64,
            a1: vmode.code() as i64,
            a2: ffmode.code() as i64,
            a3: 0,
        }),
{
    Syscall {
        number: 0x2,
        a0: imode.code() as i64,
        a1: vmode.code() as i64,
        a2: ffmode.code() as i64,
        a3: 0,
    }
}

/// The call that ends the program and returns to the console's browser. It
/// does not come back.
pub fn exit(return_code: u32) -> (call: Syscall)
    ensures
        call == (Syscall { number: 0x4, a0: return_code as i64, a1: 0, a2: 0, a3: 0 }),
{
    Syscall { number: 0x4, a0: return_code as i64, a1: 0, a2: 0, a3: 0 }
}

/// The call that loads a program file and runs it in place of this one.
/// `filename` is the address of the file's name and `argv` the address of the
/// argument vector. It does not come back.
pub fn load_exec_ps2(filename: u32, argc: i32, argv: u32) -> (call: Syscall)
    ensures
        call == (Syscall {
            number: 0x6,
            a0: filename as i64,
            a1: argc as i64,
            a2: argv as i64,
            a3: 0,
        }),
{
    Syscall { number: 0x6, a0: filename as i64, a1: argc as i64, a2: argv as i64, a3: 0 }
}

/// The call that clears the kernel's state and starts a thread at `entry`,
/// with `gp` as its global pointer. `argv` is the address of the argument
/// vector. It does not come back.
pub fn exec_ps2(entry: u32, gp: u32, argc: i32, argv: u32) -> (call: Syscall)
    ensures
        call == (Syscall {
            number: 0x7,
            a0: entry as i64,
            a1: gp as i64,
            a2: argc as i64,
            a3: argv as i64,
        }),
{
    Syscall { number: 0x7, a0: entry as i64, a1: gp as i64, a2: argc as i64, a3: argv as i64 }
}

/// The call that installs a handler for an interrupt cause. `handler` is the
/// address of the function that the kernel is to call; `next` says where in
/// the cause's chain of handlers the new one goes. The kernel answers with
/// the handler's identifier, or with -1; see [`added_handler`].
pub fn add_intc_handler(int_cause: INTCCause, handler: u32, next: i32) -> (call: Syscall)
    ensures
        call == (Syscall {
            number: 0x10,
            a0: int_cause.code() as i64,
            a1: handler as i64,
            a2: next as i64,
            a3: 0,
        }),
{
    Syscall {
        number: 0x10,
        a0: int_cause.code() as i64,
        a1: handler as i64,
        a2: next as i64,
        a3: 0,
    }
}

/// The call that removes the handler with the given identifier from an
/// interrupt cause. The kernel answers with -1 if it could not; see
/// [`removed_handler`].
pub fn remove_intc_handler(int_cause: INTCCause, handler_id: i32) -> (call: Syscall)
    ensures
        call == (Syscall {
            number: 0x11,
            a0: int_cause.code() as i64,
            a1: handler_id as i64,
            a2: 0,
            a3: 0,
        }),
{
    Syscall { number: 0x11, a0: int_cause.code() as i64, a1: handler_id as i64, a2: 0, a3: 0 }
}

/// The call that installs a handler for the end of a transfer on a DMA
/// channel. `handler` is the address of the function that the kernel is to
/// call; `next` says where in the channel's chain of handlers the new one
/// goes. The kernel answers with the handler's identifier, or with -1; see
/// [`added_handler`].
pub fn add_dmac_handler(dma_cause: DMACause, handler: u32, next: i32) -> (call: Syscall)
    ensures
        call == (Syscall {
            number: 0x12,
            a0: dma_cause.code() as i64,
            a1: handler as i64,
            a2: next as i64,
            a3: 0,
        }),
{
    Syscall {
        number: 0x12,
        a0: dma_cause.code() as i64,
        a1: handler as i64,
        a2: next as i64,
        a3: 0,
    }
}

/// The call that removes the handler with the given identifier from a DMA
/// channel. The kernel answers with -1 if it could not; see
/// [`removed_handler`].
pub fn remove_dmac_handler(dma_cause: DMACause, handler_id: i32) -> (call: Syscall)
    ensures
        call == (Syscall {
            number: 0x13,
            a0: dma_cause.code() as i64,
            a1: handler_id as i64,
            a2: 0,
            a3: 0,
        }),
{
    Syscall { number: 0x13, a0: dma_cause.code() as i64, a1: handler_id as i64, a2: 0, a3: 0 }
}

/// The call that lets an interrupt cause through to its handlers. The kernel
/// answers with 1 if the cause was held back until now; see
/// [`changed_mask`].
pub fn enable_intc(int_cause: INTCCause) -> (call: Syscall)
    ensures
        call == (Syscall { number: 0x14, a0: int_cause.code() as i64, a1: 0, a2: 0, a3: 0 }),
{
    Syscall { number: 0x14, a0: int_cause.code() as i64, a1: 0, a2: 0, a3: 0 }
}

/// The call that holds an interrupt cause back from its handlers. The kernel
/// answers with 1 if the cause was let through until now; see
/// [`changed_mask`].
pub fn disable_intc(int_cause: INTCCause) -> (call: Syscall)
    ensures
        call == (Syscall { number: 0x15, a0: int_cause.code() as i64, a1: 0, a2: 0, a3: 0 }),
{
    Syscall { number: 0x15, a0: int_cause.code() as i64, a1: 0, a2: 0, a3: 0 }
}

/// The call that lets the end of a transfer on a DMA channel through to its
/// handlers. The kernel answers with 1 if it was held back until now; see
/// [`changed_mask`].
pub fn enable_dmac(int_cause: DMACause) -> (call: Syscall)
    ensures
        call == (Syscall { number: 0x16, a0: int_cause.code() as i64, a1: 0, a2: 0, a3: 0 }),
{
    Syscall { number: 0x16, a0: int_cause.code() as i64, a1: 0, a2: 0, a3: 0 }
}

/// The call that holds the end of a transfer on a DMA channel back from its
/// handlers. The kernel answers with 1 if it was let through until now; see
/// [`changed_mask`].
pub fn disable_dmac(int_cause: DMACause) -> (call: Syscall)
    ensures
        call == (Syscall { number: 0x17, a0: int_cause.code() as i64, a1: 0, a2: 0, a3: 0 }),
{
    Syscall { number: 0x17, a0: int_cause.code() as i64, a1: 0, a2: 0, a3: 0 }
}

/// The call that puts the calling thread to sleep until it is woken, unless
/// a wake-up is already waiting for it.
pub fn sleep_thread() -> (call: Syscall)
    ensures
        call == (Syscall { number: 0x32, a0: 0, a1: 0, a2: 0, a3: 0 }),
{
    Syscall { number: 0x32, a0: 0, a1: 0, a2: 0, a3: 0 }
}

/// Reads the kernel's answer to [`add_intc_handler`] or
/// [`add_dmac_handler`]: the identifier of the new handler, or nothing if
/// the kernel answered -1 and installed none.
pub fn added_handler(answer: i32) -> (id: Option<i32>)
    ensures
        answer == -1 ==> id is None,
        answer != -1 ==> id == Some(answer),
{
    if answer == -1 {
        None
    } else {
        Some(answer)
    }
}

/// Reads the kernel's answer to [`remove_intc_handler`] or
/// [`remove_dmac_handler`]: whether the handler was removed. The kernel
/// answers -1 when it was not.
pub fn removed_handler(answer: i32) -> (removed: bool)
    ensures
        removed <==> answer != -1,
{
    answer != -1
}

/// Reads the kernel's answer to one of the four calls that enable or disable
/// a cause: whether the call changed the mask. The kernel answers 1 when it
/// did, and the cause was in the other state before.
pub fn changed_mask(answer: i32) -> (changed: bool)
    ensures
        changed <==> answer == 1,
{
    answer == 1
}

} // verus!
