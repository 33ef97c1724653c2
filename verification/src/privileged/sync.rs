//! Horizontal and vertical synchronisation.

use crate::bits::{
    extract, insert, lemma_field_bounds, lemma_low_bits_values, lemma_written_fields, mask,
};
use crate::privileged::{RegisterWrite, SYNCH1_ADDR, SYNCH2_ADDR, SYNCV_ADDR};
use vstd::prelude::*;

verus! {

/// What [`SYNCH1`] holds, field by field.
pub struct Synch1Fields {
    /// The field `HFP`: bits 0 to 10.
    pub hfp: u16,
    /// The field `HBP`: bits 11 to 21.
    pub hbp: u16,
    /// The field `HSEQ`: bits 22 to 32.
    pub hseq: u16,
    /// The field `HSVS`: bits 33 to 43.
    pub hsvs: u16,
    /// The field `HS`: bits 44 to 54.
    pub hs: u16,
}

/// SYNCH1: horizontal synchronisation. The register is not documented by the
/// maker; a wrong value can damage the display that is connected.
#[derive(Clone, Copy, Debug, PartialEq, Eq, Structural)]
pub struct SYNCH1 {
    bits: u64,
}

impl View for SYNCH1 {
    type V = Synch1Fields;

    open spec fn view(&self) -> Synch1Fields {
        Synch1Fields {
            hfp: extract(self.into_bits(), 0, 11) as u16,
            hbp: extract(self.into_bits(), 11, 11) as u16,
            hseq: extract(self.into_bits(), 22, 11) as u16,
            hsvs: extract(self.into_bits(), 33, 11) as u16,
            hs: extract(self.into_bits(), 44, 11) as u16,
        }
    }
}

impl SYNCH1 {
    /// The word as the register takes it.
    pub closed spec fn spec_into_bits(self) -> u64 {
        self.bits
    }

    /// The register with every bit zero.
    pub fn new() -> (r: Self)
        ensures
            r.into_bits() == 0,
            r@ == (Synch1Fields {
                hfp: 0,
                hbp: 0,
                hseq: 0,
                hsvs: 0,
                hs: 0,
            }),
    {
        proof {
            lemma_written_fields();
        }
        SYNCH1 { bits: 0 }
    }

    /// The register that holds exactly `bits`, reserved bits included.
    pub fn from_bits(bits: u64) -> (r: Self)
        ensures
            r.into_bits() == bits,
    {
        SYNCH1 { bits }
    }

    /// The word as the register takes it.
    #[verifier::when_used_as_spec(spec_into_bits)]
    pub fn into_bits(self) -> (bits: u64)
        ensures
            bits == self.spec_into_bits(),
    {
        self.bits
    }

    /// The field `HFP`: bits 0 to 10.
    pub fn hfp(&self) -> (v: u16)
        ensures
            v == self@.hfp,
    {
        proof {
            lemma_low_bits_values();
        }
        extract(self.bits, 0, 11) as u16
    }

    /// Sets the field `HFP` to the 11 lowest bits of `v` and keeps the rest.
    pub fn with_hfp(self, v: u16) -> (r: Self)
        ensures
            r.into_bits() == insert(self.into_bits(), v as u64, 0, 11),
            r@ == (Synch1Fields { hfp: mask(v as u64, 11) as u16, ..self@ }),
    {
        proof {
            lemma_written_fields();
            lemma_field_bounds();
            lemma_low_bits_values();
        }
        SYNCH1 { bits: insert(self.bits, v as u64, 0, 11) }
    }

    /// The field `HBP`: bits 11 to 21.
    pub fn hbp(&self) -> (v: u16)
        ensures
            v == self@.hbp,
    {
        proof {
            lemma_low_bits_values();
        }
        extract(self.bits, 11, 11) as u16
    }

    /// Sets the field `HBP` to the 11 lowest bits of `v` and keeps the rest.
    pub fn with_hbp(self, v: u16) -> (r: Self)
        ensures
            r.into_bits() == insert(self.into_bits(), v as u64, 11, 11),
            r@ == (Synch1Fields { hbp: mask(v as u64, 11) as u16, ..self@ }),
    {
        proof {
            lemma_written_fields();
            lemma_field_bounds();
            lemma_low_bits_values();
        }
        SYNCH1 { bits: insert(self.bits, v as u64, 11, 11) }
    }

    /// The field `HSEQ`: bits 22 to 32.
    pub fn hseq(&self) -> (v: u16)
        ensures
            v == self@.hseq,
    {
        proof {
            lemma_low_bits_values();
        }
        extract(self.bits, 22, 11) as u16
    }

    /// Sets the field `HSEQ` to the 11 lowest bits of `v` and keeps the rest.
    pub fn with_hseq(self, v: u16) -> (r: Self)
        ensures
            r.into_bits() == insert(self.into_bits(), v as u64, 22, 11),
            r@ == (Synch1Fields { hseq: mask(v as u64, 11) as u16, ..self@ }),
    {
        proof {
            lemma_written_fields();
            lemma_field_bounds();
            lemma_low_bits_values();
        }
        SYNCH1 { bits: insert(self.bits, v as u64, 22, 11) }
    }

    /// The field `HSVS`: bits 33 to 43.
    pub fn hsvs(&self) -> (v: u16)
        ensures
            v == self@.hsvs,
    {
        proof {
            lemma_low_bits_values();
        }
        extract(self.bits, 33, 11) as u16
    }

    /// Sets the field `HSVS` to the 11 lowest bits of `v` and keeps the rest.
    pub fn with_hsvs(self, v: u16) -> (r: Self)
        ensures
            r.into_bits() == insert(self.into_bits(), v as u64, 33, 11),
            r@ == (Synch1Fields { hsvs: mask(v as u64, 11) as u16, ..self@ }),
    {
        proof {
            lemma_written_fields();
            lemma_field_bounds();
            lemma_low_bits_values();
        }
        SYNCH1 { bits: insert(self.bits, v as u64, 33, 11) }
    }

    /// The field `HS`: bits 44 to 54.
    pub fn hs(&self) -> (v: u16)
        ensures
            v == self@.hs,
    {
        proof {
            lemma_low_bits_values();
        }
        extract(self.bits, 44, 11) as u16
    }

    /// Sets the field `HS` to the 11 lowest bits of `v` and keeps the rest.
    pub fn with_hs(self, v: u16) -> (r: Self)
        ensures
            r.into_bits() == insert(self.into_bits(), v as u64, 44, 11),
            r@ == (Synch1Fields { hs: mask(v as u64, 11) as u16, ..self@ }),
    {
        proof {
            lemma_written_fields();
            lemma_field_bounds();
            lemma_low_bits_values();
        }
        SYNCH1 { bits: insert(self.bits, v as u64, 44, 11) }
    }

    /// The write that puts this value into the register. Nothing is written
    /// here: the caller performs it, as one volatile store.
    pub fn store(self) -> (write: RegisterWrite)
        ensures
            write == (RegisterWrite { address: SYNCH1_ADDR, value: self.into_bits() }),
    {
        RegisterWrite { address: SYNCH1_ADDR, value: self.bits }
    }
}

/// What [`SYNCH2`] holds, field by field.
pub struct Synch2Fields {
    /// The field `HF`: bits 0 to 10.
    pub hf: u16,
    /// The field `HB`: bits 11 to 21.
    pub hb: u16,
}

/// SYNCH2: horizontal synchronisation. The register is not documented by the
/// maker; a wrong value can damage the display that is connected.
#[derive(Clone, Copy, Debug, PartialEq, Eq, Structural)]
pub struct SYNCH2 {
    bits: u64,
}

impl View for SYNCH2 {
    type V = Synch2Fields;

    open spec fn view(&self) -> Synch2Fields {
        Synch2Fields {
            hf: extract(self.into_bits(), 0, 11) as u16,
            hb: extract(self.into_bits(), 11, 11) as u16,
        }
    }
}

impl SYNCH2 {
    /// The word as the register takes it.
    pub closed spec fn spec_into_bits(self) -> u64 {
        self.bits
    }

    /// The register with every bit zero.
    pub fn new() -> (r: Self)
        ensures
            r.into_bits() == 0,
            r@ == (Synch2Fields {
                hf: 0,
                hb: 0,
            }),
    {
        proof {
            lemma_written_fields();
        }
        SYNCH2 { bits: 0 }
    }

    /// The register that holds exactly `bits`, reserved bits included.
    pub fn from_bits(bits: u64) -> (r: Self)
        ensures
            r.into_bits() == bits,
    {
        SYNCH2 { bits }
    }

    /// The word as the register takes it.
    #[verifier::when_used_as_spec(spec_into_bits)]
    pub fn into_bits(self) -> (bits: u64)
        ensures
            bits == self.spec_into_bits(),
    {
        self.bits
    }

    /// The field `HF`: bits 0 to 10.
    pub fn hf(&self) -> (v: u16)
        ensures
            v == self@.hf,
    {
        proof {
            lemma_low_bits_values();
        }
        extract(self.bits, 0, 11) as u16
    }

    /// Sets the field `HF` to the 11 lowest bits of `v` and keeps the rest.
    pub fn with_hf(self, v: u16) -> (r: Self)
        ensures
            r.into_bits() == insert(self.into_bits(), v as u64, 0, 11),
            r@ == (Synch2Fields { hf: mask(v as u64, 11) as u16, ..self@ }),
    {
        proof {
            lemma_written_fields();
            lemma_field_bounds();
            lemma_low_bits_values();
        }
        SYNCH2 { bits: insert(self.bits, v as u64, 0, 11) }
    }

    /// The field `HB`: bits 11 to 21.
    pub fn hb(&self) -> (v: u16)
        ensures
            v == self@.hb,
    {
        proof {
            lemma_low_bits_values();
        }
        extract(self.bits, 11, 11) as u16
    }

    /// Sets the field `HB` to the 11 lowest bits of `v` and keeps the rest.
    pub fn with_hb(self, v: u16) -> (r: Self)
        ensures
            r.into_bits() == insert(self.into_bits(), v as u64, 11, 11),
            r@ == (Synch2Fields { hb: mask(v as u64, 11) as u16, ..self@ }),
    {
        proof {
            lemma_written_fields();
            lemma_field_bounds();
            lemma_low_bits_values();
        }
        SYNCH2 { bits: insert(self.bits, v as u64, 11, 11) }
    }

    /// The write that puts this value into the register. Nothing is written
    /// here: the caller performs it, as one volatile store.
    pub fn store(self) -> (write: RegisterWrite)
        ensures
            write == (RegisterWrite { address: SYNCH2_ADDR, value: self.into_bits() }),
    {
        RegisterWrite { address: SYNCH2_ADDR, value: self.bits }
    }
}

/// What [`SYNCV`] holds, field by field.
pub struct SyncvFields {
    /// The field `VFP`: bits 0 to 9.
    pub vfp: u16,
    /// The field `VFPE`: bits 10 to 19.
    pub vfpe: u16,
    /// The field `VBP`: bits 20 to 31.
    pub vbp: u16,
    /// The field `VBPE`: bits 32 to 43.
    pub vbpe: u16,
    /// The field `VDP`: bits 44 to 54.
    pub vdp: u16,
    /// The field `VS`: bits 55 to 63.
    pub vs: u16,
}

/// SYNCV: vertical synchronisation. The register is not documented by the
/// maker; a wrong value can damage the display that is connected.
#[derive(Clone, Copy, Debug, PartialEq, Eq, Structural)]
pub struct SYNCV {
    bits: u64,
}

impl View for SYNCV {
    type V = SyncvFields;

    open spec fn view(&self) -> SyncvFields {
        SyncvFields {
            vfp: extract(self.into_bits(), 0, 10) as u16,
            vfpe: extract(self.into_bits(), 10, 10) as u16,
            vbp: extract(self.into_bits(), 20, 12) as u16,
            vbpe: extract(self.into_bits(), 32, 12) as u16,
            vdp: extract(self.into_bits(), 44, 11) as u16,
            vs: extract(self.into_bits(), 55, 9) as u16,
        }
    }
}

impl SYNCV {
    /// The word as the register takes it.
    pub closed spec fn spec_into_bits(self) -> u64 {
        self.bits
    }

    /// The register with every bit zero.
    pub fn new() -> (r: Self)
        ensures
            r.into_bits() == 0,
            r@ == (SyncvFields {
                vfp: 0,
                vfpe: 0,
                vbp: 0,
                vbpe: 0,
                vdp: 0,
                vs: 0,
            }),
    {
        proof {
            lemma_written_fields();
        }
        SYNCV { bits: 0 }
    }

    /// The register that holds exactly `bits`, reserved bits included.
    pub fn from_bits(bits: u64) -> (r: Self)
        ensures
            r.into_bits() == bits,
    {
        SYNCV { bits }
    }

    /// The word as the register takes it.
    #[verifier::when_used_as_spec(spec_into_bits)]
    pub fn into_bits(self) -> (bits: u64)
        ensures
            bits == self.spec_into_bits(),
    {
        self.bits
    }

    /// The field `VFP`: bits 0 to 9.
    pub fn vfp(&self) -> (v: u16)
        ensures
            v == self@.vfp,
    {
        proof {
            lemma_low_bits_values();
        }
        extract(self.bits, 0, 10) as u16
    }

    /// Sets the field `VFP` to the 10 lowest bits of `v` and keeps the rest.
    pub fn with_vfp(self, v: u16) -> (r: Self)
        ensures
            r.into_bits() == insert(self.into_bits(), v as u64, 0, 10),
            r@ == (SyncvFields { vfp: mask(v as u64, 10) as u16, ..self@ }),
    {
        proof {
            lemma_written_fields();
            lemma_field_bounds();
            lemma_low_bits_values();
        }
        SYNCV { bits: insert(self.bits, v as u64, 0, 10) }
    }

    /// The field `VFPE`: bits 10 to 19.
    pub fn vfpe(&self) -> (v: u16)
        ensures
            v == self@.vfpe,
    {
        proof {
            lemma_low_bits_values();
        }
        extract(self.bits, 10, 10) as u16
    }

    /// Sets the field `VFPE` to the 10 lowest bits of `v` and keeps the rest.
    pub fn with_vfpe(self, v: u16) -> (r: Self)
        ensures
            r.into_bits() == insert(self.into_bits(), v as u64, 10, 10),
            r@ == (SyncvFields { vfpe: mask(v as u64, 10) as u16, ..self@ }),
    {
        proof {
            lemma_written_fields();
            lemma_field_bounds();
            lemma_low_bits_values();
        }
        SYNCV { bits: insert(self.bits, v as u64, 10, 10) }
    }

    /// The field `VBP`: bits 20 to 31.
    pub fn vbp(&self) -> (v: u16)
        ensures
            v == self@.vbp,
    {
        proof {
            lemma_low_bits_values();
        }
        extract(self.bits, 20, 12) as u16
    }

    /// Sets the field `VBP` to the 12 lowest bits of `v` and keeps the rest.
    pub fn with_vbp(self, v: u16) -> (r: Self)
        ensures
            r.into_bits() == insert(self.into_bits(), v as u64, 20, 12),
            r@ == (SyncvFields { vbp: mask(v as u64, 12) as u16, ..self@ }),
    {
        proof {
            lemma_written_fields();
            lemma_field_bounds();
            lemma_low_bits_values();
        }
        SYNCV { bits: insert(self.bits, v as u64, 20, 12) }
    }

    /// The field `VBPE`: bits 32 to 43.
    pub fn vbpe(&self) -> (v: u16)
        ensures
            v == self@.vbpe,
    {
        proof {
            lemma_low_bits_values();
        }
        extract(self.bits, 32, 12) as u16
    }

    /// Sets the field `VBPE` to the 12 lowest bits of `v` and keeps the rest.
    pub fn with_vbpe(self, v: u16) -> (r: Self)
        ensures
            r.into_bits() == insert(self.into_bits(), v as u64, 32, 12),
            r@ == (SyncvFields { vbpe: mask(v as u64, 12) as u16, ..self@ }),
    {
        proof {
            lemma_written_fields();
            lemma_field_bounds();
            lemma_low_bits_values();
        }
        SYNCV { bits: insert(self.bits, v as u64, 32, 12) }
    }

    /// The field `VDP`: bits 44 to 54.
    pub fn vdp(&self) -> (v: u16)
        ensures
            v == self@.vdp,
    {
        proof {
            lemma_low_bits_values();
        }
        extract(self.bits, 44, 11) as u16
    }

    /// Sets the field `VDP` to the 11 lowest bits of `v` and keeps the rest.
    pub fn with_vdp(self, v: u16) -> (r: Self)
        ensures
            r.into_bits() == insert(self.into_bits(), v as u64, 44, 11),
            r@ == (SyncvFields { vdp: mask(v as u64, 11) as u16, ..self@ }),
    {
        proof {
            lemma_written_fields();
            lemma_field_bounds();
            lemma_low_bits_values();
        }
        SYNCV { bits: insert(self.bits, v as u64, 44, 11) }
    }

    /// The field `VS`: bits 55 to 63.
    pub fn vs(&self) -> (v: u16)
        ensures
            v == self@.vs,
    {
        proof {
            lemma_low_bits_values();
        }
        extract(self.bits, 55, 9) as u16
    }

    /// Sets the field `VS` to the 9 lowest bits of `v` and keeps the rest.
    pub fn with_vs(self, v: u16) -> (r: Self)
        ensures
            r.into_bits() == insert(self.into_bits(), v as u64, 55, 9),
            r@ == (SyncvFields { vs: mask(v as u64, 9) as u16, ..self@ }),
    {
        proof {
            lemma_written_fields();
            lemma_field_bounds();
            lemma_low_bits_values();
        }
        SYNCV { bits: insert(self.bits, v as u64, 55, 9) }
    }

    /// The write that puts this value into the register. Nothing is written
    /// here: the caller performs it, as one volatile store.
    pub fn store(self) -> (write: RegisterWrite)
        ensures
            write == (RegisterWrite { address: SYNCV_ADDR, value: self.into_bits() }),
    {
        RegisterWrite { address: SYNCV_ADDR, value: self.bits }
    }
}

} // verus!
