//! The four timers of the Emotion Engine.
//!
//! Each timer has a count, a mode and a compare register, sixteen bits wide
//! and sixteen bytes apart; the first two timers have a hold register as
//! well. The functions here say where a register lies and what is to be
//! written to it. The reading and the writing are the caller's.

use vstd::prelude::*;

verus! {

/// The timers.
#[derive(Clone, Copy, Debug, PartialEq, Eq, Structural)]
pub enum EETimers {
    /// Timer 0.
    Timer0,
    /// Timer 1.
    Timer1,
    /// Timer 2.
    Timer2,
    /// Timer 3.
    Timer3,
}

/// Counts the bus clock, about 147 MHz.
pub const CLOCK_BUS: u16 = 0x0;

/// Counts every sixteenth tick of the bus clock.
pub const CLOCK_BUS_DIV_16: u16 = 0x1;

/// Counts every 256th tick of the bus clock.
pub const CLOCK_BUS_DIV_256: u16 = 0x2;

/// Counts horizontal blanking intervals.
pub const CLOCK_HBLANK: u16 = 0x3;

/// Counting is held under the control of a blanking signal.
pub const GATE_ENABLE: u16 = 0x4;

/// The controlling signal is the horizontal blanking.
pub const GATE_TYPE_HBLANK: u16 = 0x0;

/// The controlling signal is the vertical blanking.
pub const GATE_TYPE_VBLANK: u16 = 0x8;

/// Counts while the controlling signal is low.
pub const GATE_MODE_NOT_ACTIVE: u16 = 0x00;

/// Starts again from zero when the controlling signal rises.
pub const GATE_MODE_LH: u16 = 0x10;

/// Starts again from zero when the controlling signal falls.
pub const GATE_MODE_HL: u16 = 0x20;

/// Starts again from zero when the controlling signal rises or falls.
pub const GATE_MODE_LH_HL: u16 = 0x30;

/// Starts again from zero when the count reaches the compare value.
pub const CLEAR_COMP: u16 = 0x40;

/// The timer runs.
pub const ENABLE: u16 = 0x80;

/// Reaching the compare value raises an interrupt.
pub const COMPARE_INTERRUPT_ENABLE: u16 = 0x100;

/// Overflowing raises an interrupt.
pub const OVERFLOW_INTERRUPT_ENABLE: u16 = 0x200;

/// The compare value was reached; writing a one clears the flag.
pub const COMPARE_INTERRUPT_FLAG: u16 = 0x400;

/// The count overflowed; writing a one clears the flag.
pub const OVERFLOW_INTERRUPT_FLAG: u16 = 0x800;

/// Every bit that has a meaning in a mode register.
pub const ALL_FLAGS: u16 = 0xFFF;

/// The contents of a mode register: a set of the flags above.
#[derive(Clone, Copy, Debug, PartialEq, Eq, Structural)]
pub struct TimerMode {
    bits: u16,
}

impl TimerMode {
    /// The flags as the register holds them.
    pub closed spec fn spec_bits(&self) -> u16 {
        self.bits
    }

    /// `other`'s flags are all set in this mode.
    pub open spec fn spec_contains(&self, other: TimerMode) -> bool {
        self.bits() & other.bits() == other.bits()
    }

    /// No flag.
    pub fn empty() -> (mode: Self)
        ensures
            mode.bits() == 0,
    {
        TimerMode { bits: 0 }
    }

    /// Every flag.
    pub fn all() -> (mode: Self)
        ensures
            mode.bits() == ALL_FLAGS,
    {
        TimerMode { bits: ALL_FLAGS }
    }

    /// The flags as the register holds them.
    #[verifier::when_used_as_spec(spec_bits)]
    pub fn bits(&self) -> (bits: u16)
        ensures
            bits == self.spec_bits(),
    {
        self.bits
    }

    /// The mode with exactly these bits, unless one of them has no meaning.
    pub fn from_bits(bits: u16) -> (mode: Option<Self>)
        ensures
            bits <= ALL_FLAGS ==> mode is Some && mode->Some_0.bits() == bits,
            bits > ALL_FLAGS ==> mode is None,
    {
        if bits <= ALL_FLAGS {
            Some(TimerMode { bits })
        } else {
            None
        }
    }

    /// The mode with these bits, those without a meaning left out.
    pub fn from_bits_truncate(bits: u16) -> (mode: Self)
        ensures
            mode.bits() == bits & ALL_FLAGS,
            mode.bits() <= ALL_FLAGS,
    {
        assert(bits & 0xFFF <= 0xFFF) by (bit_vector);
        TimerMode { bits: bits & ALL_FLAGS }
    }

    /// The mode as it was read from a mode register, every bit kept.
    pub fn from_register(value: u16) -> (mode: Self)
        ensures
            mode.bits() == value,
    {
        TimerMode { bits: value }
    }

    /// Whether `other`'s flags are all set in this mode.
    #[verifier::when_used_as_spec(spec_contains)]
    pub fn contains(&self, other: TimerMode) -> (all: bool)
        ensures
            all == self.spec_contains(other),
    {
        self.bits & other.bits == other.bits
    }

    /// The flags of both modes.
    pub fn union(self, other: TimerMode) -> (mode: Self)
        ensures
            mode.bits() == self.bits() | other.bits(),
            mode.contains(self),
            mode.contains(other),
    {
        let a = self.bits;
        let b = other.bits;
        assert((a | b) & a == a && (a | b) & b == b) by (bit_vector);
        TimerMode { bits: a | b }
    }
}

/// One write to a timer register: the register's address and the sixteen
/// bits that go there.
#[derive(Clone, Copy, Debug, PartialEq, Eq, Structural)]
pub struct TimerWrite {
    /// The physical address of the register.
    pub address: u32,
    /// The value to write.
    pub value: u16,
}

/// Where the registers of a timer begin.
pub open spec fn timer_base(timer: EETimers) -> u32 {
    match timer {
        EETimers::Timer0 => 0x1000_0000,
        EETimers::Timer1 => 0x1000_0800,
        EETimers::Timer2 => 0x1000_1000,
        EETimers::Timer3 => 0x1000_1800,
    }
}

/// One of the timers, and where its registers begin.
#[derive(Clone, Copy, Debug, PartialEq, Eq, Structural)]
pub struct EETimer {
    base_addr: u32,
    timer: EETimers,
}

impl EETimer {
    /// Which timer this is.
    pub closed spec fn spec_timer(&self) -> EETimers {
        self.timer
    }

    /// Where the registers of the timer begin.
    pub closed spec fn spec_base_addr(&self) -> u32 {
        self.base_addr
    }

    #[verifier::type_invariant]
    closed spec fn base_matches_timer(&self) -> bool {
        self.base_addr == timer_base(self.timer)
    }

    /// The timer has a hold register: only the first two have.
    pub open spec fn spec_has_hold(&self) -> bool {
        self.timer() == EETimers::Timer0 || self.timer() == EETimers::Timer1
    }

    /// The given timer.
    pub fn new(timer: EETimers) -> (t: Self)
        ensures
            t.timer() == timer,
            t.base_addr() == timer_base(timer),
    {
        let base_addr = match timer {
            EETimers::Timer0 => 0x10000000,
            EETimers::Timer1 => 0x10000800,
            EETimers::Timer2 => 0x10001000,
            EETimers::Timer3 => 0x10001800,
        };
        EETimer { base_addr, timer }
    }

    /// Which timer this is.
    #[verifier::when_used_as_spec(spec_timer)]
    pub fn timer(&self) -> (timer: EETimers)
        ensures
            timer == self.spec_timer(),
    {
        self.timer
    }

    /// Where the registers of the timer begin.
    #[verifier::when_used_as_spec(spec_base_addr)]
    pub fn base_addr(&self) -> (address: u32)
        ensures
            address == self.spec_base_addr(),
            address == timer_base(self.timer()),
    {
        proof {
            use_type_invariant(self);
        }
        self.base_addr
    }

    /// Whether the timer has a hold register.
    #[verifier::when_used_as_spec(spec_has_hold)]
    pub fn has_hold(&self) -> (has: bool)
        ensures
            has == self.spec_has_hold(),
    {
        match self.timer {
            EETimers::Timer0 => true,
            EETimers::Timer1 => true,
            _ => false,
        }
    }

    /// Where the count is read and written.
    pub fn count_addr(&self) -> (address: u32)
        ensures
            address == timer_base(self.timer()),
    {
        proof {
            use_type_invariant(self);
        }
        self.base_addr
    }

    /// Where the mode is read and written.
    pub fn mode_addr(&self) -> (address: u32)
        ensures
            address == timer_base(self.timer()) + 0x10,
    {
        proof {
            use_type_invariant(self);
        }
        self.base_addr + 0x10
    }

    /// Where the compare value is read and written.
    pub fn compare_addr(&self) -> (address: u32)
        ensures
            address == timer_base(self.timer()) + 0x20,
    {
        proof {
            use_type_invariant(self);
        }
        self.base_addr + 0x20
    }

    /// Where the hold value is read and written, if the timer has one.
    pub fn hold_addr(&self) -> (address: Option<u32>)
        ensures
            self.has_hold() ==> address == Some((timer_base(self.timer()) + 0x30) as u32),
            !self.has_hold() ==> address is None,
    {
        proof {
            use_type_invariant(self);
        }
        if self.has_hold() {
            Some(self.base_addr + 0x30)
        } else {
            None
        }
    }

    /// The write that sets the count.
    pub fn set_count(&self, count: u16) -> (write: TimerWrite)
        ensures
            write == (TimerWrite { address: timer_base(self.timer()), value: count }),
    {
        proof {
            use_type_invariant(self);
        }
        TimerWrite { address: self.base_addr, value: count }
    }

    /// The write that sets the mode.
    pub fn set_mode(&self, mode: TimerMode) -> (write: TimerWrite)
        ensures
            write == (TimerWrite {
                address: (timer_base(self.timer()) + 0x10) as u32,
                value: mode.bits(),
            }),
    {
        proof {
            use_type_invariant(self);
        }
        TimerWrite { address: self.base_addr + 0x10, value: mode.bits() }
    }

    /// The write that sets the compare value.
    pub fn set_compare(&self, compare: u16) -> (write: TimerWrite)
        ensures
            write == (TimerWrite {
                address: (timer_base(self.timer()) + 0x20) as u32,
                value: compare,
            }),
    {
        proof {
            use_type_invariant(self);
        }
        TimerWrite { address: self.base_addr + 0x20, value: compare }
    }

    /// The write that sets the hold value. The timer must have a hold
    /// register.
    pub fn set_hold(&self, hold: u16) -> (write: TimerWrite)
        requires
            self.has_hold(),
        ensures
            write == (TimerWrite {
                address: (timer_base(self.timer()) + 0x30) as u32,
                value: hold,
            }),
    {
        proof {
            use_type_invariant(self);
        }
        TimerWrite { address: self.base_addr + 0x30, value: hold }
    }

    /// The write that acknowledges the timer's interrupts, given the mode
    /// that was just read from it: the mode with the compare interrupt
    /// enabled and the overflow flag written as one, which clears it.
    pub fn clear_interrupts(&self, mode: TimerMode) -> (write: TimerWrite)
        ensures
            write == (TimerWrite {
                address: (timer_base(self.timer()) + 0x10) as u32,
                value: mode.bits() | COMPARE_INTERRUPT_ENABLE | OVERFLOW_INTERRUPT_FLAG,
            }),
    {
        let flags = TimerMode::from_register(COMPARE_INTERRUPT_ENABLE).union(
            TimerMode::from_register(OVERFLOW_INTERRUPT_FLAG),
        );
        let m = mode.bits();
        assert(m | (0x100u16 | 0x800u16) == m | 0x100u16 | 0x800u16) by (bit_vector);
        self.set_mode(mode.union(flags))
    }
}

} // verus!
