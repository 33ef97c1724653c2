//! Writing the video output back into memory.

use crate::bits::{
    extract, insert, lemma_field_bounds, lemma_low_bits_values, lemma_written_fields, mask,
};
use crate::privileged::{RegisterWrite, EXTBUF_ADDR, EXTDATA_ADDR, EXTWRITE_ADDR};
use vstd::prelude::*;

verus! {

/// What [`EXTBUF`] holds, field by field.
pub struct ExtbufFields {
    /// The field `EXBP`: bits 0 to 13.
    pub exbp: u16,
    /// The field `EXBW`: bits 14 to 19.
    pub exbw: u8,
    /// The field `FBIN`: bits 20 to 21.
    pub fbin: u8,
    /// The field `WWFMD`: bit 22.
    pub wwfmd: u8,
    /// The field `EMODA`: bits 23 to 24.
    pub emoda: u8,
    /// The field `EMODC`: bits 25 to 26.
    pub emodc: u8,
    /// The field `WDX`: bits 32 to 42.
    pub wdx: u16,
    /// The field `WDY`: bits 43 to 53.
    pub wdy: u16,
}

/// EXTBUF: the buffer that the video output is written back to.
#[derive(Clone, Copy, Debug, PartialEq, Eq, Structural)]
pub struct EXTBUF {
    bits: u64,
}

impl View for EXTBUF {
    type V = ExtbufFields;

    open spec fn view(&self) -> ExtbufFields {
        ExtbufFields {
            exbp: extract(self.into_bits(), 0, 14) as u16,
            exbw: extract(self.into_bits(), 14, 6) as u8,
            fbin: extract(self.into_bits(), 20, 2) as u8,
            wwfmd: extract(self.into_bits(), 22, 1) as u8,
            emoda: extract(self.into_bits(), 23, 2) as u8,
            emodc: extract(self.into_bits(), 25, 2) as u8,
            wdx: extract(self.into_bits(), 32, 11) as u16,
            wdy: extract(self.into_bits(), 43, 11) as u16,
        }
    }
}

impl EXTBUF {
    /// The word as the register takes it.
    pub closed spec fn spec_into_bits(self) -> u64 {
        self.bits
    }

    /// The register with every bit zero.
    pub fn new() -> (r: Self)
        ensures
            r.into_bits() == 0,
            r@ == (ExtbufFields {
                exbp: 0,
                exbw: 0,
                fbin: 0,
                wwfmd: 0,
                emoda: 0,
                emodc: 0,
                wdx: 0,
                wdy: 0,
            }),
    {
        proof {
            lemma_written_fields();
        }
        EXTBUF { bits: 0 }
    }

    /// The register that holds exactly `bits`, reserved bits included.
    pub fn from_bits(bits: u64) -> (r: Self)
        ensures
            r.into_bits() == bits,
    {
        EXTBUF { bits }
    }

    /// The word as the register takes it.
    #[verifier::when_used_as_spec(spec_into_bits)]
    pub fn into_bits(self) -> (bits: u64)
        ensures
            bits == self.spec_into_bits(),
    {
        self.bits
    }

    /// The field `EXBP`: bits 0 to 13.
    pub fn exbp(&self) -> (v: u16)
        ensures
            v == self@.exbp,
    {
        proof {
            lemma_low_bits_values();
        }
        extract(self.bits, 0, 14) as u16
    }

    /// Sets the field `EXBP` to the 14 lowest bits of `v` and keeps the rest.
    pub fn with_exbp(self, v: u16) -> (r: Self)
        ensures
            r.into_bits() == insert(self.into_bits(), v as u64, 0, 14),
            r@ == (ExtbufFields { exbp: mask(v as u64, 14) as u16, ..self@ }),
    {
        proof {
            lemma_written_fields();
            lemma_field_bounds();
            lemma_low_bits_values();
        }
        EXTBUF { bits: insert(self.bits, v as u64, 0, 14) }
    }

    /// The field `EXBW`: bits 14 to 19.
    pub fn exbw(&self) -> (v: u8)
        ensures
            v == self@.exbw,
    {
        proof {
            lemma_low_bits_values();
        }
        extract(self.bits, 14, 6) as u8
    }

    /// Sets the field `EXBW` to the 6 lowest bits of `v` and keeps the rest.
    pub fn with_exbw(self, v: u8) -> (r: Self)
        ensures
            r.into_bits() == insert(self.into_bits(), v as u64, 14, 6),
            r@ == (ExtbufFields { exbw: mask(v as u64, 6) as u8, ..self@ }),
    {
        proof {
            lemma_written_fields();
            lemma_field_bounds();
            lemma_low_bits_values();
        }
        EXTBUF { bits: insert(self.bits, v as u64, 14, 6) }
    }

    /// The field `FBIN`: bits 20 to 21.
    pub fn fbin(&self) -> (v: u8)
        ensures
            v == self@.fbin,
    {
        proof {
            lemma_low_bits_values();
        }
        extract(self.bits, 20, 2) as u8
    }

    /// Sets the field `FBIN` to the 2 lowest bits of `v` and keeps the rest.
    pub fn with_fbin(self, v: u8) -> (r: Self)
        ensures
            r.into_bits() == insert(self.into_bits(), v as u64, 20, 2),
            r@ == (ExtbufFields { fbin: mask(v as u64, 2) as u8, ..self@ }),
    {
        proof {
            lemma_written_fields();
            lemma_field_bounds();
            lemma_low_bits_values();
        }
        EXTBUF { bits: insert(self.bits, v as u64, 20, 2) }
    }

    /// The field `WWFMD`: bit 22.
    pub fn wwfmd(&self) -> (v: u8)
        ensures
            v == self@.wwfmd,
    {
        proof {
            lemma_low_bits_values();
        }
        extract(self.bits, 22, 1) as u8
    }

    /// Sets the field `WWFMD` to the lowest bit of `v` and keeps the rest.
    pub fn with_wwfmd(self, v: u8) -> (r: Self)
        ensures
            r.into_bits() == insert(self.into_bits(), v as u64, 22, 1),
            r@ == (ExtbufFields { wwfmd: mask(v as u64, 1) as u8, ..self@ }),
    {
        proof {
            lemma_written_fields();
            lemma_field_bounds();
            lemma_low_bits_values();
        }
        EXTBUF { bits: insert(self.bits, v as u64, 22, 1) }
    }

    /// The field `EMODA`: bits 23 to 24.
    pub fn emoda(&self) -> (v: u8)
        ensures
            v == self@.emoda,
    {
        proof {
            lemma_low_bits_values();
        }
        extract(self.bits, 23, 2) as u8
    }

    /// Sets the field `EMODA` to the 2 lowest bits of `v` and keeps the rest.
    pub fn with_emoda(self, v: u8) -> (r: Self)
        ensures
            r.into_bits() == insert(self.into_bits(), v as u64, 23, 2),
            r@ == (ExtbufFields { emoda: mask(v as u64, 2) as u8, ..self@ }),
    {
        proof {
            lemma_written_fields();
            lemma_field_bounds();
            lemma_low_bits_values();
        }
        EXTBUF { bits: insert(self.bits, v as u64, 23, 2) }
    }

    /// The field `EMODC`: bits 25 to 26.
    pub fn emodc(&self) -> (v: u8)
        ensures
            v == self@.emodc,
    {
        proof {
            lemma_low_bits_values();
        }
        extract(self.bits, 25, 2) as u8
    }

    /// Sets the field `EMODC` to the 2 lowest bits of `v` and keeps the rest.
    pub fn with_emodc(self, v: u8) -> (r: Self)
        ensures
            r.into_bits() == insert(self.into_bits(), v as u64, 25, 2),
            r@ == (ExtbufFields { emodc: mask(v as u64, 2) as u8, ..self@ }),
    {
        proof {
            lemma_written_fields();
            lemma_field_bounds();
            lemma_low_bits_values();
        }
        EXTBUF { bits: insert(self.bits, v as u64, 25, 2) }
    }

    /// The field `WDX`: bits 32 to 42.
    pub fn wdx(&self) -> (v: u16)
        ensures
            v == self@.wdx,
    {
        proof {
            lemma_low_bits_values();
        }
        extract(self.bits, 32, 11) as u16
    }

    /// Sets the field `WDX` to the 11 lowest bits of `v` and keeps the rest.
    pub fn with_wdx(self, v: u16) -> (r: Self)
        ensures
            r.into_bits() == insert(self.into_bits(), v as u64, 32, 11),
            r@ == (ExtbufFields { wdx: mask(v as u64, 11) as u16, ..self@ }),
    {
        proof {
            lemma_written_fields();
            lemma_field_bounds();
            lemma_low_bits_values();
        }
        EXTBUF { bits: insert(self.bits, v as u64, 32, 11) }
    }

    /// The field `WDY`: bits 43 to 53.
    pub fn wdy(&self) -> (v: u16)
        ensures
            v == self@.wdy,
    {
        proof {
            lemma_low_bits_values();
        }
        extract(self.bits, 43, 11) as u16
    }

    /// Sets the field `WDY` to the 11 lowest bits of `v` and keeps the rest.
    pub fn with_wdy(self, v: u16) -> (r: Self)
        ensures
            r.into_bits() == insert(self.into_bits(), v as u64, 43, 11),
            r@ == (ExtbufFields { wdy: mask(v as u64, 11) as u16, ..self@ }),
    {
        proof {
            lemma_written_fields();
            lemma_field_bounds();
            lemma_low_bits_values();
        }
        EXTBUF { bits: insert(self.bits, v as u64, 43, 11) }
    }

    /// The write that puts this value into the register. Nothing is written
    /// here: the caller performs it, as one volatile store.
    pub fn store(self) -> (write: RegisterWrite)
        ensures
            write == (RegisterWrite { address: EXTBUF_ADDR, value: self.into_bits() }),
    {
        RegisterWrite { address: EXTBUF_ADDR, value: self.bits }
    }
}

/// What [`EXTDATA`] holds, field by field.
pub struct ExtdataFields {
    /// The field `SX`: bits 0 to 11.
    pub sx: u16,
    /// The field `SY`: bits 12 to 22.
    pub sy: u16,
    /// The field `SMPH`: bits 23 to 26.
    pub smph: u16,
    /// The field `SMPV`: bits 27 to 28.
    pub smpv: u16,
    /// The field `WW`: bits 32 to 43.
    pub ww: u16,
    /// The field `WH`: bits 44 to 54.
    pub wh: u16,
}

/// EXTDATA: the part of the video output that is written back.
#[derive(Clone, Copy, Debug, PartialEq, Eq, Structural)]
pub struct EXTDATA {
    bits: u64,
}

impl View for EXTDATA {
    type V = ExtdataFields;

    open spec fn view(&self) -> ExtdataFields {
        ExtdataFields {
            sx: extract(self.into_bits(), 0, 12) as u16,
            sy: extract(self.into_bits(), 12, 11) as u16,
            smph: extract(self.into_bits(), 23, 4) as u16,
            smpv: extract(self.into_bits(), 27, 2) as u16,
            ww: extract(self.into_bits(), 32, 12) as u16,
            wh: extract(self.into_bits(), 44, 11) as u16,
        }
    }
}

impl EXTDATA {
    /// The word as the register takes it.
    pub closed spec fn spec_into_bits(self) -> u64 {
        self.bits
    }

    /// The register with every bit zero.
    pub fn new() -> (r: Self)
        ensures
            r.into_bits() == 0,
            r@ == (ExtdataFields {
                sx: 0,
                sy: 0,
                smph: 0,
                smpv: 0,
                ww: 0,
                wh: 0,
            }),
    {
        proof {
            lemma_written_fields();
        }
        EXTDATA { bits: 0 }
    }

    /// The register that holds exactly `bits`, reserved bits included.
    pub fn from_bits(bits: u64) -> (r: Self)
        ensures
            r.into_bits() == bits,
    {
        EXTDATA { bits }
    }

    /// The word as the register takes it.
    #[verifier::when_used_as_spec(spec_into_bits)]
    pub fn into_bits(self) -> (bits: u64)
        ensures
            bits == self.spec_into_bits(),
    {
        self.bits
    }

    /// The field `SX`: bits 0 to 11.
    pub fn sx(&self) -> (v: u16)
        ensures
            v == self@.sx,
    {
        proof {
            lemma_low_bits_values();
        }
        extract(self.bits, 0, 12) as u16
    }

    /// Sets the field `SX` to the 12 lowest bits of `v` and keeps the rest.
    pub fn with_sx(self, v: u16) -> (r: Self)
        ensures
            r.into_bits() == insert(self.into_bits(), v as u64, 0, 12),
            r@ == (ExtdataFields { sx: mask(v as u64, 12) as u16, ..self@ }),
    {
        proof {
            lemma_written_fields();
            lemma_field_bounds();
            lemma_low_bits_values();
        }
        EXTDATA { bits: insert(self.bits, v as u64, 0, 12) }
    }

    /// The field `SY`: bits 12 to 22.
    pub fn sy(&self) -> (v: u16)
        ensures
            v == self@.sy,
    {
        proof {
            lemma_low_bits_values();
        }
        extract(self.bits, 12, 11) as u16
    }

    /// Sets the field `SY` to the 11 lowest bits of `v` and keeps the rest.
    pub fn with_sy(self, v: u16) -> (r: Self)
        ensures
            r.into_bits() == insert(self.into_bits(), v as u64, 12, 11),
            r@ == (ExtdataFields { sy: mask(v as u64, 11) as u16, ..self@ }),
    {
        proof {
            lemma_written_fields();
            lemma_field_bounds();
            lemma_low_bits_values();
        }
        EXTDATA { bits: insert(self.bits, v as u64, 12, 11) }
    }

    /// The field `SMPH`: bits 23 to 26.
    pub fn smph(&self) -> (v: u16)
        ensures
            v == self@.smph,
    {
        proof {
            lemma_low_bits_values();
        }
        extract(self.bits, 23, 4) as u16
    }

    /// Sets the field `SMPH` to the 4 lowest bits of `v` and keeps the rest.
    pub fn with_smph(self, v: u16) -> (r: Self)
        ensures
            r.into_bits() == insert(self.into_bits(), v as u64, 23, 4),
            r@ == (ExtdataFields { smph: mask(v as u64, 4) as u16, ..self@ }),
    {
        proof {
            lemma_written_fields();
            lemma_field_bounds();
            lemma_low_bits_values();
        }
        EXTDATA { bits: insert(self.bits, v as u64, 23, 4) }
    }

    /// The field `SMPV`: bits 27 to 28.
    pub fn smpv(&self) -> (v: u16)
        ensures
            v == self@.smpv,
    {
        proof {
            lemma_low_bits_values();
        }
        extract(self.bits, 27, 2) as u16
    }

    /// Sets the field `SMPV` to the 2 lowest bits of `v` and keeps the rest.
    pub fn with_smpv(self, v: u16) -> (r: Self)
        ensures
            r.into_bits() == insert(self.into_bits(), v as u64, 27, 2),
            r@ == (ExtdataFields { smpv: mask(v as u64, 2) as u16, ..self@ }),
    {
        proof {
            lemma_written_fields();
            lemma_field_bounds();
            lemma_low_bits_values();
        }
        EXTDATA { bits: insert(self.bits, v as u64, 27, 2) }
    }

    /// The field `WW`: bits 32 to 43.
    pub fn ww(&self) -> (v: u16)
        ensures
            v == self@.ww,
    {
        proof {
            lemma_low_bits_values();
        }
        extract(self.bits, 32, 12) as u16
    }

    /// Sets the field `WW` to the 12 lowest bits of `v` and keeps the rest.
    pub fn with_ww(self, v: u16) -> (r: Self)
        ensures
            r.into_bits() == insert(self.into_bits(), v as u64, 32, 12),
            r@ == (ExtdataFields { ww: mask(v as u64, 12) as u16, ..self@ }),
    {
        proof {
            lemma_written_fields();
            lemma_field_bounds();
            lemma_low_bits_values();
        }
        EXTDATA { bits: insert(self.bits, v as u64, 32, 12) }
    }

    /// The field `WH`: bits 44 to 54.
    pub fn wh(&self) -> (v: u16)
        ensures
            v == self@.wh,
    {
        proof {
            lemma_low_bits_values();
        }
        extract(self.bits, 44, 11) as u16
    }

    /// Sets the field `WH` to the 11 lowest bits of `v` and keeps the rest.
    pub fn with_wh(self, v: u16) -> (r: Self)
        ensures
            r.into_bits() == insert(self.into_bits(), v as u64, 44, 11),
            r@ == (ExtdataFields { wh: mask(v as u64, 11) as u16, ..self@ }),
    {
        proof {
            lemma_written_fields();
            lemma_field_bounds();
            lemma_low_bits_values();
        }
        EXTDATA { bits: insert(self.bits, v as u64, 44, 11) }
    }

    /// The write that puts this value into the register. Nothing is written
    /// here: the caller performs it, as one volatile store.
    pub fn store(self) -> (write: RegisterWrite)
        ensures
            write == (RegisterWrite { address: EXTDATA_ADDR, value: self.into_bits() }),
    {
        RegisterWrite { address: EXTDATA_ADDR, value: self.bits }
    }
}

/// What [`EXTWRITE`] holds, field by field.
pub struct ExtwriteFields {
    /// Writing back is under way. Bit 0.
    pub write: bool,
}

/// EXTWRITE: starts and stops the writing back.
#[derive(Clone, Copy, Debug, PartialEq, Eq, Structural)]
pub struct EXTWRITE {
    bits: u64,
}

impl View for EXTWRITE {
    type V = ExtwriteFields;

    open spec fn view(&self) -> ExtwriteFields {
        ExtwriteFields {
            write: extract(self.into_bits(), 0, 1) != 0,
        }
    }
}

impl EXTWRITE {
    /// The word as the register takes it.
    pub closed spec fn spec_into_bits(self) -> u64 {
        self.bits
    }

    /// The register with every bit zero.
    pub fn new() -> (r: Self)
        ensures
            r.into_bits() == 0,
            r@ == (ExtwriteFields {
                write: false,
            }),
    {
        proof {
            lemma_written_fields();
        }
        EXTWRITE { bits: 0 }
    }

    /// The register that holds exactly `bits`, reserved bits included.
    pub fn from_bits(bits: u64) -> (r: Self)
        ensures
            r.into_bits() == bits,
    {
        EXTWRITE { bits }
    }

    /// The word as the register takes it.
    #[verifier::when_used_as_spec(spec_into_bits)]
    pub fn into_bits(self) -> (bits: u64)
        ensures
            bits == self.spec_into_bits(),
    {
        self.bits
    }

    /// Writing back is under way. Bit 0.
    pub fn write(&self) -> (v: bool)
        ensures
            v == self@.write,
    {
        extract(self.bits, 0, 1) != 0
    }

    /// Sets the field `WRITE` and keeps the rest.
    pub fn with_write(self, v: bool) -> (r: Self)
        ensures
            r.into_bits() == insert(self.into_bits(), if v { 1 } else { 0 }, 0, 1),
            r@ == (ExtwriteFields { write: v, ..self@ }),
    {
        proof {
            lemma_written_fields();
            lemma_field_bounds();
            lemma_low_bits_values();
        }
        EXTWRITE { bits: insert(self.bits, if v { 1 } else { 0 }, 0, 1) }
    }

    /// The write that puts this value into the register. Nothing is written
    /// here: the caller performs it, as one volatile store.
    pub fn store(self) -> (write: RegisterWrite)
        ensures
            write == (RegisterWrite { address: EXTWRITE_ADDR, value: self.into_bits() }),
    {
        RegisterWrite { address: EXTWRITE_ADDR, value: self.bits }
    }
}

} // verus!
