//! A register-file view of the 6502: the status word as named bits, and the
//! stack pointer as an index into page 1.

use vstd::prelude::*;

verus! {

pub struct StatusArgs {
    pub n: bool,
    pub v: bool,
    pub u: bool,
    pub b: bool,
    pub d: bool,
    pub i: bool,
    pub z: bool,
    pub c: bool,
}

impl StatusArgs {
    pub fn none() -> (args: StatusArgs)
        ensures
            !args.n && !args.v && !args.u && !args.b && !args.d && !args.i && !args.z
                && !args.c,
    {
        StatusArgs {
            n: false,
            v: false,
            u: false,
            b: false,
            d: false,
            i: false,
            z: false,
            c: false,
        }
    }
}

#[derive(Default, Debug, Copy, Clone)]
pub struct StackPointer(pub u8);

impl StackPointer {
    /// The stack lives in page 1: the full address is `$0100 + SP`.
    pub fn to_u16(self) -> (r: u16)
        ensures
            r == 0x0100 + self.0,
    {
        let StackPointer(val) = self;
        0x0100u16 + (val as u16)
    }

    /// Pushes decrement and wrap within the page.
    pub fn decrement(&mut self)
        ensures
            final(self).0 == (if old(self).0 == 0 { 0xFFu8 } else { (old(self).0 - 1) as u8 }),
    {
        self.0 = self.0.wrapping_sub(1);
    }

    /// Pops increment and wrap within the page.
    pub fn increment(&mut self)
        ensures
            final(self).0 == (if old(self).0 == 0xFF { 0u8 } else { (old(self).0 + 1) as u8 }),
    {
        self.0 = self.0.wrapping_add(1);
    }
}

pub const PS_NEGATIVE: u8 = 0b1000_0000;
pub const PS_OVERFLOW: u8 = 0b0100_0000;
pub const PS_UNUSED: u8 = 0b0010_0000;
pub const PS_BRK: u8 = 0b0001_0000;
pub const PS_DECIMAL_MODE: u8 = 0b0000_1000;
pub const PS_DISABLE_INTERRUPTS: u8 = 0b0000_0100;
pub const PS_ZERO: u8 = 0b0000_0010;
pub const PS_CARRY: u8 = 0b0000_0001;

#[derive(Debug, Copy, Clone, PartialEq, Eq, Structural)]
pub struct Status {
    pub bits: u8,
}

/// The status byte assembled from one flag argument per bit.
pub open spec fn spec_status_bits(args: StatusArgs) -> u8 {
    let b0 = 0u8;
    let b1 = if args.n { b0 | PS_NEGATIVE } else { b0 };
    let b2 = if args.v { b1 | PS_OVERFLOW } else { b1 };
    let b3 = if args.u { b2 | PS_UNUSED } else { b2 };
    let b4 = if args.b { b3 | PS_BRK } else { b3 };
    let b5 = if args.d { b4 | PS_DECIMAL_MODE } else { b4 };
    let b6 = if args.i { b5 | PS_DISABLE_INTERRUPTS } else { b5 };
    let b7 = if args.z { b6 | PS_ZERO } else { b6 };
    if args.c { b7 | PS_CARRY } else { b7 }
}

impl Status {
    pub fn new(args: StatusArgs) -> (out: Status)
        ensures
            out.bits == spec_status_bits(args),
    {
        let mut out: u8 = 0;

        if args.n {
            out = out | PS_NEGATIVE;
        }

        if args.v {
            out = out | PS_OVERFLOW;
        }

        if args.u {
            out = out | PS_UNUSED;
        }

        if args.b {
            out = out | PS_BRK;
        }

        if args.d {
            out = out | PS_DECIMAL_MODE;
        }

        if args.i {
            out = out | PS_DISABLE_INTERRUPTS;
        }

        if args.z {
            out = out | PS_ZERO;
        }

        if args.c {
            out = out | PS_CARRY;
        }

        Status { bits: out }
    }

    pub fn and(&mut self, rhs: Status)
        ensures
            final(self).bits == old(self).bits & rhs.bits,
    {
        self.bits = self.bits & rhs.bits;
    }

    pub fn or(&mut self, rhs: Status)
        ensures
            final(self).bits == old(self).bits | rhs.bits,
    {
        self.bits = self.bits | rhs.bits;
    }

    /// Replaces exactly the bits selected by `mask` with those of `rhs`.
    pub fn set_with_mask(&mut self, mask: Status, rhs: Status)
        ensures
            final(self).bits == (old(self).bits & !mask.bits) | rhs.bits,
    {
        self.bits = (self.bits & !mask.bits) | rhs.bits;
    }
}

impl Default for Status {
    /// Power-up state: the unused bit reads as set and interrupts start
    /// disabled.
    fn default() -> (out: Self)
        ensures
            out.bits == PS_UNUSED | PS_DISABLE_INTERRUPTS,
    {
        Status { bits: PS_UNUSED | PS_DISABLE_INTERRUPTS }
    }
}

#[derive(Default)]
pub struct Registers {
    pub a: u8,
    pub x: u8,
    pub y: u8,
    pub stkp: StackPointer,
    pub pc: u16,
    pub status: Status,
}

impl Registers {
    pub fn new() -> (r: Registers)
        ensures
            r.a == 0 && r.x == 0 && r.y == 0,
            r.stkp.0 == 0,
            r.pc == 0,
            r.status.bits == PS_UNUSED | PS_DISABLE_INTERRUPTS,
    {
        Registers {
            a: 0,
            x: 0,
            y: 0,
            stkp: StackPointer(0),
            pc: 0,
            status: Status { bits: PS_UNUSED | PS_DISABLE_INTERRUPTS },
        }
    }
}

} // verus!
