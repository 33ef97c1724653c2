//! What the two read circuits show, and the colour behind them.

use crate::bits::{
    extract, insert, lemma_field_bounds, lemma_low_bits_values, lemma_written_fields, mask,
};
use crate::privileged::{
    RegisterWrite, BGCOLOR_ADDR, DISPFB1_ADDR, DISPFB2_ADDR, DISPLAY1_ADDR, DISPLAY2_ADDR,
};
use vstd::prelude::*;

verus! {

/// What [`DISPFB1`] or [`DISPFB2`] holds, field by field.
pub struct DispfbFields {
    /// Base of the buffer, in units of 2048 words. Bits 0 to 8.
    pub fbp: u16,
    /// Width of the buffer, in units of 64 pixels. Bits 9 to 14.
    pub fbw: u16,
    /// Pixel storage format. Bits 15 to 19.
    pub psm: u16,
    /// Left edge of what is shown, in pixels of the buffer. Bits 32 to 42.
    pub dbx: u16,
    /// Upper edge of what is shown, in pixels of the buffer. Bits 43 to 53.
    pub dby: u16,
}

/// DISPFB1: the frame buffer that read circuit 1 shows.
#[derive(Clone, Copy, Debug, PartialEq, Eq, Structural)]
pub struct DISPFB1 {
    bits: u64,
}

impl View for DISPFB1 {
    type V = DispfbFields;

    open spec fn view(&self) -> DispfbFields {
        DispfbFields {
            fbp: extract(self.into_bits(), 0, 9) as u16,
            fbw: extract(self.into_bits(), 9, 6) as u16,
            psm: extract(self.into_bits(), 15, 5) as u16,
            dbx: extract(self.into_bits(), 32, 11) as u16,
            dby: extract(self.into_bits(), 43, 11) as u16,
        }
    }
}

impl DISPFB1 {
    /// The word as the register takes it.
    pub closed spec fn spec_into_bits(self) -> u64 {
        self.bits
    }

    /// The register with every bit zero.
    pub fn new() -> (r: Self)
        ensures
            r.into_bits() == 0,
            r@ == (DispfbFields {
                fbp: 0,
                fbw: 0,
                psm: 0,
                dbx: 0,
                dby: 0,
            }),
    {
        proof {
            lemma_written_fields();
        }
        DISPFB1 { bits: 0 }
    }

    /// The register that holds exactly `bits`, reserved bits included.
    pub fn from_bits(bits: u64) -> (r: Self)
        ensures
            r.into_bits() == bits,
    {
        DISPFB1 { bits }
    }

    /// The word as the register takes it.
    #[verifier::when_used_as_spec(spec_into_bits)]
    pub fn into_bits(self) -> (bits: u64)
        ensures
            bits == self.spec_into_bits(),
    {
        self.bits
    }

    /// Base of the buffer, in units of 2048 words. Bits 0 to 8.
    pub fn fbp(&self) -> (v: u16)
        ensures
            v == self@.fbp,
    {
        proof {
            lemma_low_bits_values();
        }
        extract(self.bits, 0, 9) as u16
    }

    /// Sets the field `FBP` to the 9 lowest bits of `v` and keeps the rest.
    pub fn with_fbp(self, v: u16) -> (r: Self)
        ensures
            r.into_bits() == insert(self.into_bits(), v as u64, 0, 9),
            r@ == (DispfbFields { fbp: mask(v as u64, 9) as u16, ..self@ }),
    {
        proof {
            lemma_written_fields();
            lemma_field_bounds();
            lemma_low_bits_values();
        }
        DISPFB1 { bits: insert(self.bits, v as u64, 0, 9) }
    }

    /// Width of the buffer, in units of 64 pixels. Bits 9 to 14.
    pub fn fbw(&self) -> (v: u16)
        ensures
            v == self@.fbw,
    {
        proof {
            lemma_low_bits_values();
        }
        extract(self.bits, 9, 6) as u16
    }

    /// Sets the field `FBW` to the 6 lowest bits of `v` and keeps the rest.
    pub fn with_fbw(self, v: u16) -> (r: Self)
        ensures
            r.into_bits() == insert(self.into_bits(), v as u64, 9, 6),
            r@ == (DispfbFields { fbw: mask(v as u64, 6) as u16, ..self@ }),
    {
        proof {
            lemma_written_fields();
            lemma_field_bounds();
            lemma_low_bits_values();
        }
        DISPFB1 { bits: insert(self.bits, v as u64, 9, 6) }
    }

    /// Pixel storage format. Bits 15 to 19.
    pub fn psm(&self) -> (v: u16)
        ensures
            v == self@.psm,
    {
        proof {
            lemma_low_bits_values();
        }
        extract(self.bits, 15, 5) as u16
    }

    /// Sets the field `PSM` to the 5 lowest bits of `v` and keeps the rest.
    pub fn with_psm(self, v: u16) -> (r: Self)
        ensures
            r.into_bits() == insert(self.into_bits(), v as u64, 15, 5),
            r@ == (DispfbFields { psm: mask(v as u64, 5) as u16, ..self@ }),
    {
        proof {
            lemma_written_fields();
            lemma_field_bounds();
            lemma_low_bits_values();
        }
        DISPFB1 { bits: insert(self.bits, v as u64, 15, 5) }
    }

    /// Left edge of what is shown, in pixels of the buffer. Bits 32 to 42.
    pub fn dbx(&self) -> (v: u16)
        ensures
            v == self@.dbx,
    {
        proof {
            lemma_low_bits_values();
        }
        extract(self.bits, 32, 11) as u16
    }

    /// Sets the field `DBX` to the 11 lowest bits of `v` and keeps the rest.
    pub fn with_dbx(self, v: u16) -> (r: Self)
        ensures
            r.into_bits() == insert(self.into_bits(), v as u64, 32, 11),
            r@ == (DispfbFields { dbx: mask(v as u64, 11) as u16, ..self@ }),
    {
        proof {
            lemma_written_fields();
            lemma_field_bounds();
            lemma_low_bits_values();
        }
        DISPFB1 { bits: insert(self.bits, v as u64, 32, 11) }
    }

    /// Upper edge of what is shown, in pixels of the buffer. Bits 43 to 53.
    pub fn dby(&self) -> (v: u16)
        ensures
            v == self@.dby,
    {
        proof {
            lemma_low_bits_values();
        }
        extract(self.bits, 43, 11) as u16
    }

    /// Sets the field `DBY` to the 11 lowest bits of `v` and keeps the rest.
    pub fn with_dby(self, v: u16) -> (r: Self)
        ensures
            r.into_bits() == insert(self.into_bits(), v as u64, 43, 11),
            r@ == (DispfbFields { dby: mask(v as u64, 11) as u16, ..self@ }),
    {
        proof {
            lemma_written_fields();
            lemma_field_bounds();
            lemma_low_bits_values();
        }
        DISPFB1 { bits: insert(self.bits, v as u64, 43, 11) }
    }

    /// The write that puts this value into the register. Nothing is written
    /// here: the caller performs it, as one volatile store.
    pub fn store(self) -> (write: RegisterWrite)
        ensures
            write == (RegisterWrite { address: DISPFB1_ADDR, value: self.into_bits() }),
    {
        RegisterWrite { address: DISPFB1_ADDR, value: self.bits }
    }
}

/// What [`DISPLAY1`] or [`DISPLAY2`] holds, field by field.
pub struct DisplayFields {
    /// Left edge on the screen, in video clocks. Bits 0 to 11.
    pub dx: u16,
    /// Upper edge on the screen, in raster lines. Bits 12 to 22.
    pub dy: u16,
    /// Horizontal magnification, less one. Bits 23 to 26.
    pub magh: u16,
    /// Vertical magnification, less one. Bits 27 to 28.
    pub magv: u16,
    /// Width on the screen in video clocks, less one. Bits 29 to 40.
    pub dw: u16,
    /// Height on the screen in raster lines, less one. Bits 41 to 51.
    pub dh: u16,
}

/// DISPLAY1: where on the screen read circuit 1 shows its picture, and how
/// large.
#[derive(Clone, Copy, Debug, PartialEq, Eq, Structural)]
pub struct DISPLAY1 {
    bits: u64,
}

impl View for DISPLAY1 {
    type V = DisplayFields;

    open spec fn view(&self) -> DisplayFields {
        DisplayFields {
            dx: extract(self.into_bits(), 0, 12) as u16,
            dy: extract(self.into_bits(), 12, 11) as u16,
            magh: extract(self.into_bits(), 23, 4) as u16,
            magv: extract(self.into_bits(), 27, 2) as u16,
            dw: extract(self.into_bits(), 29, 12) as u16,
            dh: extract(self.into_bits(), 41, 11) as u16,
        }
    }
}

impl DISPLAY1 {
    /// The word as the register takes it.
    pub closed spec fn spec_into_bits(self) -> u64 {
        self.bits
    }

    /// The register with every bit zero.
    pub fn new() -> (r: Self)
        ensures
            r.into_bits() == 0,
            r@ == (DisplayFields {
                dx: 0,
                dy: 0,
                magh: 0,
                magv: 0,
                dw: 0,
                dh: 0,
            }),
    {
        proof {
            lemma_written_fields();
        }
        DISPLAY1 { bits: 0 }
    }

    /// The register that holds exactly `bits`, reserved bits included.
    pub fn from_bits(bits: u64) -> (r: Self)
        ensures
            r.into_bits() == bits,
    {
        DISPLAY1 { bits }
    }

    /// The word as the register takes it.
    #[verifier::when_used_as_spec(spec_into_bits)]
    pub fn into_bits(self) -> (bits: u64)
        ensures
            bits == self.spec_into_bits(),
    {
        self.bits
    }

    /// Left edge on the screen, in video clocks. Bits 0 to 11.
    pub fn dx(&self) -> (v: u16)
        ensures
            v == self@.dx,
    {
        proof {
            lemma_low_bits_values();
        }
        extract(self.bits, 0, 12) as u16
    }

    /// Sets the field `DX` to the 12 lowest bits of `v` and keeps the rest.
    pub fn with_dx(self, v: u16) -> (r: Self)
        ensures
            r.into_bits() == insert(self.into_bits(), v as u64, 0, 12),
            r@ == (DisplayFields { dx: mask(v as u64, 12) as u16, ..self@ }),
    {
        proof {
            lemma_written_fields();
            lemma_field_bounds();
            lemma_low_bits_values();
        }
        DISPLAY1 { bits: insert(self.bits, v as u64, 0, 12) }
    }

    /// Upper edge on the screen, in raster lines. Bits 12 to 22.
    pub fn dy(&self) -> (v: u16)
        ensures
            v == self@.dy,
    {
        proof {
            lemma_low_bits_values();
        }
        extract(self.bits, 12, 11) as u16
    }

    /// Sets the field `DY` to the 11 lowest bits of `v` and keeps the rest.
    pub fn with_dy(self, v: u16) -> (r: Self)
        ensures
            r.into_bits() == insert(self.into_bits(), v as u64, 12, 11),
            r@ == (DisplayFields { dy: mask(v as u64, 11) as u16, ..self@ }),
    {
        proof {
            lemma_written_fields();
            lemma_field_bounds();
            lemma_low_bits_values();
        }
        DISPLAY1 { bits: insert(self.bits, v as u64, 12, 11) }
    }

    /// Horizontal magnification, less one. Bits 23 to 26.
    pub fn magh(&self) -> (v: u16)
        ensures
            v == self@.magh,
    {
        proof {
            lemma_low_bits_values();
        }
        extract(self.bits, 23, 4) as u16
    }

    /// Sets the field `MAGH` to the 4 lowest bits of `v` and keeps the rest.
    pub fn with_magh(self, v: u16) -> (r: Self)
        ensures
            r.into_bits() == insert(self.into_bits(), v as u64, 23, 4),
            r@ == (DisplayFields { magh: mask(v as u64, 4) as u16, ..self@ }),
    {
        proof {
            lemma_written_fields();
            lemma_field_bounds();
            lemma_low_bits_values();
        }
        DISPLAY1 { bits: insert(self.bits, v as u64, 23, 4) }
    }

    /// Vertical magnification, less one. Bits 27 to 28.
    pub fn magv(&self) -> (v: u16)
        ensures
            v == self@.magv,
    {
        proof {
            lemma_low_bits_values();
        }
        extract(self.bits, 27, 2) as u16
    }

    /// Sets the field `MAGV` to the 2 lowest bits of `v` and keeps the rest.
    pub fn with_magv(self, v: u16) -> (r: Self)
        ensures
            r.into_bits() == insert(self.into_bits(), v as u64, 27, 2),
            r@ == (DisplayFields { magv: mask(v as u64, 2) as u16, ..self@ }),
    {
        proof {
            lemma_written_fields();
            lemma_field_bounds();
            lemma_low_bits_values();
        }
        DISPLAY1 { bits: insert(self.bits, v as u64, 27, 2) }
    }

    /// Width on the screen in video clocks, less one. Bits 29 to 40.
    pub fn dw(&self) -> (v: u16)
        ensures
            v == self@.dw,
    {
        proof {
            lemma_low_bits_values();
        }
        extract(self.bits, 29, 12) as u16
    }

    /// Sets the field `DW` to the 12 lowest bits of `v` and keeps the rest.
    pub fn with_dw(self, v: u16) -> (r: Self)
        ensures
            r.into_bits() == insert(self.into_bits(), v as u64, 29, 12),
            r@ == (DisplayFields { dw: mask(v as u64, 12) as u16, ..self@ }),
    {
        proof {
            lemma_written_fields();
            lemma_field_bounds();
            lemma_low_bits_values();
        }
        DISPLAY1 { bits: insert(self.bits, v as u64, 29, 12) }
    }

    /// Height on the screen in raster lines, less one. Bits 41 to 51.
    pub fn dh(&self) -> (v: u16)
        ensures
            v == self@.dh,
    {
        proof {
            lemma_low_bits_values();
        }
        extract(self.bits, 41, 11) as u16
    }

    /// Sets the field `DH` to the 11 lowest bits of `v` and keeps the rest.
    pub fn with_dh(self, v: u16) -> (r: Self)
        ensures
            r.into_bits() == insert(self.into_bits(), v as u64, 41, 11),
            r@ == (DisplayFields { dh: mask(v as u64, 11) as u16, ..self@ }),
    {
        proof {
            lemma_written_fields();
            lemma_field_bounds();
            lemma_low_bits_values();
        }
        DISPLAY1 { bits: insert(self.bits, v as u64, 41, 11) }
    }

    /// The write that puts this value into the register. Nothing is written
    /// here: the caller performs it, as one volatile store.
    pub fn store(self) -> (write: RegisterWrite)
        ensures
            write == (RegisterWrite { address: DISPLAY1_ADDR, value: self.into_bits() }),
    {
        RegisterWrite { address: DISPLAY1_ADDR, value: self.bits }
    }
}

/// DISPFB2: the frame buffer that read circuit 2 shows.
#[derive(Clone, Copy, Debug, PartialEq, Eq, Structural)]
pub struct DISPFB2 {
    bits: u64,
}

impl View for DISPFB2 {
    type V = DispfbFields;

    open spec fn view(&self) -> DispfbFields {
        DispfbFields {
            fbp: extract(self.into_bits(), 0, 9) as u16,
            fbw: extract(self.into_bits(), 9, 6) as u16,
            psm: extract(self.into_bits(), 15, 5) as u16,
            dbx: extract(self.into_bits(), 32, 11) as u16,
            dby: extract(self.into_bits(), 43, 11) as u16,
        }
    }
}

impl DISPFB2 {
    /// The word as the register takes it.
    pub closed spec fn spec_into_bits(self) -> u64 {
        self.bits
    }

    /// The register with every bit zero.
    pub fn new() -> (r: Self)
        ensures
            r.into_bits() == 0,
            r@ == (DispfbFields {
                fbp: 0,
                fbw: 0,
                psm: 0,
                dbx: 0,
                dby: 0,
            }),
    {
        proof {
            lemma_written_fields();
        }
        DISPFB2 { bits: 0 }
    }

    /// The register that holds exactly `bits`, reserved bits included.
    pub fn from_bits(bits: u64) -> (r: Self)
        ensures
            r.into_bits() == bits,
    {
        DISPFB2 { bits }
    }

    /// The word as the register takes it.
    #[verifier::when_used_as_spec(spec_into_bits)]
    pub fn into_bits(self) -> (bits: u64)
        ensures
            bits == self.spec_into_bits(),
    {
        self.bits
    }

    /// Base of the buffer, in units of 2048 words. Bits 0 to 8.
    pub fn fbp(&self) -> (v: u16)
        ensures
            v == self@.fbp,
    {
        proof {
            lemma_low_bits_values();
        }
        extract(self.bits, 0, 9) as u16
    }

    /// Sets the field `FBP` to the 9 lowest bits of `v` and keeps the rest.
    pub fn with_fbp(self, v: u16) -> (r: Self)
        ensures
            r.into_bits() == insert(self.into_bits(), v as u64, 0, 9),
            r@ == (DispfbFields { fbp: mask(v as u64, 9) as u16, ..self@ }),
    {
        proof {
            lemma_written_fields();
            lemma_field_bounds();
            lemma_low_bits_values();
        }
        DISPFB2 { bits: insert(self.bits, v as u64, 0, 9) }
    }

    /// Width of the buffer, in units of 64 pixels. Bits 9 to 14.
    pub fn fbw(&self) -> (v: u16)
        ensures
            v == self@.fbw,
    {
        proof {
            lemma_low_bits_values();
        }
        extract(self.bits, 9, 6) as u16
    }

    /// Sets the field `FBW` to the 6 lowest bits of `v` and keeps the rest.
    pub fn with_fbw(self, v: u16) -> (r: Self)
        ensures
            r.into_bits() == insert(self.into_bits(), v as u64, 9, 6),
            r@ == (DispfbFields { fbw: mask(v as u64, 6) as u16, ..self@ }),
    {
        proof {
            lemma_written_fields();
            lemma_field_bounds();
            lemma_low_bits_values();
        }
        DISPFB2 { bits: insert(self.bits, v as u64, 9, 6) }
    }

    /// Pixel storage format. Bits 15 to 19.
    pub fn psm(&self) -> (v: u16)
        ensures
            v == self@.psm,
    {
        proof {
            lemma_low_bits_values();
        }
        extract(self.bits, 15, 5) as u16
    }

    /// Sets the field `PSM` to the 5 lowest bits of `v` and keeps the rest.
    pub fn with_psm(self, v: u16) -> (r: Self)
        ensures
            r.into_bits() == insert(self.into_bits(), v as u64, 15, 5),
            r@ == (DispfbFields { psm: mask(v as u64, 5) as u16, ..self@ }),
    {
        proof {
            lemma_written_fields();
            lemma_field_bounds();
            lemma_low_bits_values();
        }
        DISPFB2 { bits: insert(self.bits, v as u64, 15, 5) }
    }

    /// Left edge of what is shown, in pixels of the buffer. Bits 32 to 42.
    pub fn dbx(&self) -> (v: u16)
        ensures
            v == self@.dbx,
    {
        proof {
            lemma_low_bits_values();
        }
        extract(self.bits, 32, 11) as u16
    }

    /// Sets the field `DBX` to the 11 lowest bits of `v` and keeps the rest.
    pub fn with_dbx(self, v: u16) -> (r: Self)
        ensures
            r.into_bits() == insert(self.into_bits(), v as u64, 32, 11),
            r@ == (DispfbFields { dbx: mask(v as u64, 11) as u16, ..self@ }),
    {
        proof {
            lemma_written_fields();
            lemma_field_bounds();
            lemma_low_bits_values();
        }
        DISPFB2 { bits: insert(self.bits, v as u64, 32, 11) }
    }

    /// Upper edge of what is shown, in pixels of the buffer. Bits 43 to 53.
    pub fn dby(&self) -> (v: u16)
        ensures
            v == self@.dby,
    {
        proof {
            lemma_low_bits_values();
        }
        extract(self.bits, 43, 11) as u16
    }

    /// Sets the field `DBY` to the 11 lowest bits of `v` and keeps the rest.
    pub fn with_dby(self, v: u16) -> (r: Self)
        ensures
            r.into_bits() == insert(self.into_bits(), v as u64, 43, 11),
            r@ == (DispfbFields { dby: mask(v as u64, 11) as u16, ..self@ }),
    {
        proof {
            lemma_written_fields();
            lemma_field_bounds();
            lemma_low_bits_values();
        }
        DISPFB2 { bits: insert(self.bits, v as u64, 43, 11) }
    }

    /// The write that puts this value into the register. Nothing is written
    /// here: the caller performs it, as one volatile store.
    pub fn store(self) -> (write: RegisterWrite)
        ensures
            write == (RegisterWrite { address: DISPFB2_ADDR, value: self.into_bits() }),
    {
        RegisterWrite { address: DISPFB2_ADDR, value: self.bits }
    }
}

/// DISPLAY2: where on the screen read circuit 2 shows its picture, and how
/// large.
#[derive(Clone, Copy, Debug, PartialEq, Eq, Structural)]
pub struct DISPLAY2 {
    bits: u64,
}

impl View for DISPLAY2 {
    type V = DisplayFields;

    open spec fn view(&self) -> DisplayFields {
        DisplayFields {
            dx: extract(self.into_bits(), 0, 12) as u16,
            dy: extract(self.into_bits(), 12, 11) as u16,
            magh: extract(self.into_bits(), 23, 4) as u16,
            magv: extract(self.into_bits(), 27, 2) as u16,
            dw: extract(self.into_bits(), 29, 12) as u16,
            dh: extract(self.into_bits(), 41, 11) as u16,
        }
    }
}

impl DISPLAY2 {
    /// The word as the register takes it.
    pub closed spec fn spec_into_bits(self) -> u64 {
        self.bits
    }

    /// The register with every bit zero.
    pub fn new() -> (r: Self)
        ensures
            r.into_bits() == 0,
            r@ == (DisplayFields {
                dx: 0,
                dy: 0,
                magh: 0,
                magv: 0,
                dw: 0,
                dh: 0,
            }),
    {
        proof {
            lemma_written_fields();
        }
        DISPLAY2 { bits: 0 }
    }

    /// The register that holds exactly `bits`, reserved bits included.
    pub fn from_bits(bits: u64) -> (r: Self)
        ensures
            r.into_bits() == bits,
    {
        DISPLAY2 { bits }
    }

    /// The word as the register takes it.
    #[verifier::when_used_as_spec(spec_into_bits)]
    pub fn into_bits(self) -> (bits: u64)
        ensures
            bits == self.spec_into_bits(),
    {
        self.bits
    }

    /// Left edge on the screen, in video clocks. Bits 0 to 11.
    pub fn dx(&self) -> (v: u16)
        ensures
            v == self@.dx,
    {
        proof {
            lemma_low_bits_values();
        }
        extract(self.bits, 0, 12) as u16
    }

    /// Sets the field `DX` to the 12 lowest bits of `v` and keeps the rest.
    pub fn with_dx(self, v: u16) -> (r: Self)
        ensures
            r.into_bits() == insert(self.into_bits(), v as u64, 0, 12),
            r@ == (DisplayFields { dx: mask(v as u64, 12) as u16, ..self@ }),
    {
        proof {
            lemma_written_fields();
            lemma_field_bounds();
            lemma_low_bits_values();
        }
        DISPLAY2 { bits: insert(self.bits, v as u64, 0, 12) }
    }

    /// Upper edge on the screen, in raster lines. Bits 12 to 22.
    pub fn dy(&self) -> (v: u16)
        ensures
            v == self@.dy,
    {
        proof {
            lemma_low_bits_values();
        }
        extract(self.bits, 12, 11) as u16
    }

    /// Sets the field `DY` to the 11 lowest bits of `v` and keeps the rest.
    pub fn with_dy(self, v: u16) -> (r: Self)
        ensures
            r.into_bits() == insert(self.into_bits(), v as u64, 12, 11),
            r@ == (DisplayFields { dy: mask(v as u64, 11) as u16, ..self@ }),
    {
        proof {
            lemma_written_fields();
            lemma_field_bounds();
            lemma_low_bits_values();
        }
        DISPLAY2 { bits: insert(self.bits, v as u64, 12, 11) }
    }

    /// Horizontal magnification, less one. Bits 23 to 26.
    pub fn magh(&self) -> (v: u16)
        ensures
            v == self@.magh,
    {
        proof {
            lemma_low_bits_values();
        }
        extract(self.bits, 23, 4) as u16
    }

    /// Sets the field `MAGH` to the 4 lowest bits of `v` and keeps the rest.
    pub fn with_magh(self, v: u16) -> (r: Self)
        ensures
            r.into_bits() == insert(self.into_bits(), v as u64, 23, 4),
            r@ == (DisplayFields { magh: mask(v as u64, 4) as u16, ..self@ }),
    {
        proof {
            lemma_written_fields();
            lemma_field_bounds();
            lemma_low_bits_values();
        }
        DISPLAY2 { bits: insert(self.bits, v as u64, 23, 4) }
    }

    /// Vertical magnification, less one. Bits 27 to 28.
    pub fn magv(&self) -> (v: u16)
        ensures
            v == self@.magv,
    {
        proof {
            lemma_low_bits_values();
        }
        extract(self.bits, 27, 2) as u16
    }

    /// Sets the field `MAGV` to the 2 lowest bits of `v` and keeps the rest.
    pub fn with_magv(self, v: u16) -> (r: Self)
        ensures
            r.into_bits() == insert(self.into_bits(), v as u64, 27, 2),
            r@ == (DisplayFields { magv: mask(v as u64, 2) as u16, ..self@ }),
    {
        proof {
            lemma_written_fields();
            lemma_field_bounds();
            lemma_low_bits_values();
        }
        DISPLAY2 { bits: insert(self.bits, v as u64, 27, 2) }
    }

    /// Width on the screen in video clocks, less one. Bits 29 to 40.
    pub fn dw(&self) -> (v: u16)
        ensures
            v == self@.dw,
    {
        proof {
            lemma_low_bits_values();
        }
        extract(self.bits, 29, 12) as u16
    }

    /// Sets the field `DW` to the 12 lowest bits of `v` and keeps the rest.
    pub fn with_dw(self, v: u16) -> (r: Self)
        ensures
            r.into_bits() == insert(self.into_bits(), v as u64, 29, 12),
            r@ == (DisplayFields { dw: mask(v as u64, 12) as u16, ..self@ }),
    {
        proof {
            lemma_written_fields();
            lemma_field_bounds();
            lemma_low_bits_values();
        }
        DISPLAY2 { bits: insert(self.bits, v as u64, 29, 12) }
    }

    /// Height on the screen in raster lines, less one. Bits 41 to 51.
    pub fn dh(&self) -> (v: u16)
        ensures
            v == self@.dh,
    {
        proof {
            lemma_low_bits_values();
        }
        extract(self.bits, 41, 11) as u16
    }

    /// Sets the field `DH` to the 11 lowest bits of `v` and keeps the rest.
    pub fn with_dh(self, v: u16) -> (r: Self)
        ensures
            r.into_bits() == insert(self.into_bits(), v as u64, 41, 11),
            r@ == (DisplayFields { dh: mask(v as u64, 11) as u16, ..self@ }),
    {
        proof {
            lemma_written_fields();
            lemma_field_bounds();
            lemma_low_bits_values();
        }
        DISPLAY2 { bits: insert(self.bits, v as u64, 41, 11) }
    }

    /// The write that puts this value into the register. Nothing is written
    /// here: the caller performs it, as one volatile store.
    pub fn store(self) -> (write: RegisterWrite)
        ensures
            write == (RegisterWrite { address: DISPLAY2_ADDR, value: self.into_bits() }),
    {
        RegisterWrite { address: DISPLAY2_ADDR, value: self.bits }
    }
}

/// What [`BGCOLOR`] holds, field by field.
pub struct BgcolorFields {
    /// Red. Bits 0 to 7.
    pub r: u8,
    /// Green. Bits 8 to 15.
    pub g: u8,
    /// Blue. Bits 16 to 23.
    pub b: u8,
}

/// BGCOLOR: the colour behind the pictures of the read circuits.
#[derive(Clone, Copy, Debug, PartialEq, Eq, Structural)]
pub struct BGCOLOR {
    bits: u64,
}

impl View for BGCOLOR {
    type V = BgcolorFields;

    open spec fn view(&self) -> BgcolorFields {
        BgcolorFields {
            r: extract(self.into_bits(), 0, 8) as u8,
            g: extract(self.into_bits(), 8, 8) as u8,
            b: extract(self.into_bits(), 16, 8) as u8,
        }
    }
}

impl BGCOLOR {
    /// The word as the register takes it.
    pub closed spec fn spec_into_bits(self) -> u64 {
        self.bits
    }

    /// The register with every bit zero.
    pub fn new() -> (r: Self)
        ensures
            r.into_bits() == 0,
            r@ == (BgcolorFields {
                r: 0,
                g: 0,
                b: 0,
            }),
    {
        proof {
            lemma_written_fields();
        }
        BGCOLOR { bits: 0 }
    }

    /// The register that holds exactly `bits`, reserved bits included.
    pub fn from_bits(bits: u64) -> (r: Self)
        ensures
            r.into_bits() == bits,
    {
        BGCOLOR { bits }
    }

    /// The word as the register takes it.
    #[verifier::when_used_as_spec(spec_into_bits)]
    pub fn into_bits(self) -> (bits: u64)
        ensures
            bits == self.spec_into_bits(),
    {
        self.bits
    }

    /// Red. Bits 0 to 7.
    pub fn r(&self) -> (v: u8)
        ensures
            v == self@.r,
    {
        proof {
            lemma_low_bits_values();
        }
        extract(self.bits, 0, 8) as u8
    }

    /// Sets the field `R` and keeps the rest.
    pub fn with_r(self, v: u8) -> (r: Self)
        ensures
            r.into_bits() == insert(self.into_bits(), v as u64, 0, 8),
            r@ == (BgcolorFields { r: v, ..self@ }),
    {
        proof {
            lemma_written_fields();
            lemma_field_bounds();
            lemma_low_bits_values();
        }
        BGCOLOR { bits: insert(self.bits, v as u64, 0, 8) }
    }

    /// Green. Bits 8 to 15.
    pub fn g(&self) -> (v: u8)
        ensures
            v == self@.g,
    {
        proof {
            lemma_low_bits_values();
        }
        extract(self.bits, 8, 8) as u8
    }

    /// Sets the field `G` and keeps the rest.
    pub fn with_g(self, v: u8) -> (r: Self)
        ensures
            r.into_bits() == insert(self.into_bits(), v as u64, 8, 8),
            r@ == (BgcolorFields { g: v, ..self@ }),
    {
        proof {
            lemma_written_fields();
            lemma_field_bounds();
            lemma_low_bits_values();
        }
        BGCOLOR { bits: insert(self.bits, v as u64, 8, 8) }
    }

    /// Blue. Bits 16 to 23.
    pub fn b(&self) -> (v: u8)
        ensures
            v == self@.b,
    {
        proof {
            lemma_low_bits_values();
        }
        extract(self.bits, 16, 8) as u8
    }

    /// Sets the field `B` and keeps the rest.
    pub fn with_b(self, v: u8) -> (r: Self)
        ensures
            r.into_bits() == insert(self.into_bits(), v as u64, 16, 8),
            r@ == (BgcolorFields { b: v, ..self@ }),
    {
        proof {
            lemma_written_fields();
            lemma_field_bounds();
            lemma_low_bits_values();
        }
        BGCOLOR { bits: insert(self.bits, v as u64, 16, 8) }
    }

    /// The write that puts this value into the register. Nothing is written
    /// here: the caller performs it, as one volatile store.
    pub fn store(self) -> (write: RegisterWrite)
        ensures
            write == (RegisterWrite { address: BGCOLOR_ADDR, value: self.into_bits() }),
    {
        RegisterWrite { address: BGCOLOR_ADDR, value: self.bits }
    }
}

} // verus!
