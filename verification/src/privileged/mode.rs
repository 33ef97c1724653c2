//! Output mode, video clock and memory refresh.

use crate::bits::{
    extract, insert, lemma_field_bounds, lemma_low_bits_values, lemma_written_fields, mask,
};
use crate::privileged::{RegisterWrite, PMODE_ADDR, SMODE1_ADDR, SMODE2_ADDR, SRFSH_ADDR};
use vstd::prelude::*;

verus! {

/// What [`PMODE`] holds, field by field.
pub struct PmodeFields {
    /// Read circuit 1 is on. Bit 0.
    pub en1: bool,
    /// Read circuit 2 is on. Bit 1.
    pub en2: bool,
    /// Output switching; one from the start, and meant to stay so. Bits 2 to 4.
    pub crtmd: u8,
    /// The alpha for merging comes from `alp` rather than from read circuit 1.
    /// Bit 5.
    pub mmod: bool,
    /// The alpha that is put out comes from read circuit 2 rather than from
    /// read circuit 1. Bit 6.
    pub amod: bool,
    /// Read circuit 1 is merged with the background colour rather than with
    /// read circuit 2. Bit 7.
    pub slbg: bool,
    /// The fixed alpha. Bits 8 to 15.
    pub alp: u8,
}

/// PMODE: which read circuits are on and how their pictures are merged.
#[derive(Clone, Copy, Debug, PartialEq, Eq, Structural)]
pub struct PMODE {
    bits: u64,
}

impl View for PMODE {
    type V = PmodeFields;

    open spec fn view(&self) -> PmodeFields {
        PmodeFields {
            en1: extract(self.into_bits(), 0, 1) != 0,
            en2: extract(self.into_bits(), 1, 1) != 0,
            crtmd: extract(self.into_bits(), 2, 3) as u8,
            mmod: extract(self.into_bits(), 5, 1) != 0,
            amod: extract(self.into_bits(), 6, 1) != 0,
            slbg: extract(self.into_bits(), 7, 1) != 0,
            alp: extract(self.into_bits(), 8, 8) as u8,
        }
    }
}

impl PMODE {
    /// The word as the register takes it.
    pub closed spec fn spec_into_bits(self) -> u64 {
        self.bits
    }

    /// The register as it is before anything is set: CRTMD is one, and zero
    /// everywhere else.
    pub fn new() -> (r: Self)
        ensures
            r.into_bits() == 0x4,
            r@ == (PmodeFields {
                en1: false,
                en2: false,
                crtmd: 1,
                mmod: false,
                amod: false,
                slbg: false,
                alp: 0,
            }),
    {
        assert(extract(0x4, 0, 1) == 0
            && extract(0x4, 1, 1) == 0
            && extract(0x4, 2, 3) == 1
            && extract(0x4, 5, 1) == 0
            && extract(0x4, 6, 1) == 0
            && extract(0x4, 7, 1) == 0
            && extract(0x4, 8, 8) == 0) by (bit_vector);
        PMODE { bits: 0x4 }
    }

    /// The register that holds exactly `bits`, reserved bits included.
    pub fn from_bits(bits: u64) -> (r: Self)
        ensures
            r.into_bits() == bits,
    {
        PMODE { bits }
    }

    /// The word as the register takes it.
    #[verifier::when_used_as_spec(spec_into_bits)]
    pub fn into_bits(self) -> (bits: u64)
        ensures
            bits == self.spec_into_bits(),
    {
        self.bits
    }

    /// Read circuit 1 is on. Bit 0.
    pub fn en1(&self) -> (v: bool)
        ensures
            v == self@.en1,
    {
        extract(self.bits, 0, 1) != 0
    }

    /// Sets the field `EN1` and keeps the rest.
    pub fn with_en1(self, v: bool) -> (r: Self)
        ensures
            r.into_bits() == insert(self.into_bits(), if v { 1 } else { 0 }, 0, 1),
            r@ == (PmodeFields { en1: v, ..self@ }),
    {
        proof {
            lemma_written_fields();
            lemma_field_bounds();
            lemma_low_bits_values();
        }
        PMODE { bits: insert(self.bits, if v { 1 } else { 0 }, 0, 1) }
    }

    /// Read circuit 2 is on. Bit 1.
    pub fn en2(&self) -> (v: bool)
        ensures
            v == self@.en2,
    {
        extract(self.bits, 1, 1) != 0
    }

    /// Sets the field `EN2` and keeps the rest.
    pub fn with_en2(self, v: bool) -> (r: Self)
        ensures
            r.into_bits() == insert(self.into_bits(), if v { 1 } else { 0 }, 1, 1),
            r@ == (PmodeFields { en2: v, ..self@ }),
    {
        proof {
            lemma_written_fields();
            lemma_field_bounds();
            lemma_low_bits_values();
        }
        PMODE { bits: insert(self.bits, if v { 1 } else { 0 }, 1, 1) }
    }

    /// Output switching; one from the start, and meant to stay so. Bits 2 to 4.
    pub fn crtmd(&self) -> (v: u8)
        ensures
            v == self@.crtmd,
    {
        proof {
            lemma_low_bits_values();
        }
        extract(self.bits, 2, 3) as u8
    }

    /// Sets the field `CRTMD` to the 3 lowest bits of `v` and keeps the rest.
    pub fn with_crtmd(self, v: u8) -> (r: Self)
        ensures
            r.into_bits() == insert(self.into_bits(), v as u64, 2, 3),
            r@ == (PmodeFields { crtmd: mask(v as u64, 3) as u8, ..self@ }),
    {
        proof {
            lemma_written_fields();
            lemma_field_bounds();
            lemma_low_bits_values();
        }
        PMODE { bits: insert(self.bits, v as u64, 2, 3) }
    }

    /// The alpha for merging comes from `alp` rather than from read circuit 1.
    /// Bit 5.
    pub fn mmod(&self) -> (v: bool)
        ensures
            v == self@.mmod,
    {
        extract(self.bits, 5, 1) != 0
    }

    /// Sets the field `MMOD` and keeps the rest.
    pub fn with_mmod(self, v: bool) -> (r: Self)
        ensures
            r.into_bits() == insert(self.into_bits(), if v { 1 } else { 0 }, 5, 1),
            r@ == (PmodeFields { mmod: v, ..self@ }),
    {
        proof {
            lemma_written_fields();
            lemma_field_bounds();
            lemma_low_bits_values();
        }
        PMODE { bits: insert(self.bits, if v { 1 } else { 0 }, 5, 1) }
    }

    /// The alpha that is put out comes from read circuit 2 rather than from
    /// read circuit 1. Bit 6.
    pub fn amod(&self) -> (v: bool)
        ensures
            v == self@.amod,
    {
        extract(self.bits, 6, 1) != 0
    }

    /// Sets the field `AMOD` and keeps the rest.
    pub fn with_amod(self, v: bool) -> (r: Self)
        ensures
            r.into_bits() == insert(self.into_bits(), if v { 1 } else { 0 }, 6, 1),
            r@ == (PmodeFields { amod: v, ..self@ }),
    {
        proof {
            lemma_written_fields();
            lemma_field_bounds();
            lemma_low_bits_values();
        }
        PMODE { bits: insert(self.bits, if v { 1 } else { 0 }, 6, 1) }
    }

    /// Read circuit 1 is merged with the background colour rather than with
    /// read circuit 2. Bit 7.
    pub fn slbg(&self) -> (v: bool)
        ensures
            v == self@.slbg,
    {
        extract(self.bits, 7, 1) != 0
    }

    /// Sets the field `SLBG` and keeps the rest.
    pub fn with_slbg(self, v: bool) -> (r: Self)
        ensures
            r.into_bits() == insert(self.into_bits(), if v { 1 } else { 0 }, 7, 1),
            r@ == (PmodeFields { slbg: v, ..self@ }),
    {
        proof {
            lemma_written_fields();
            lemma_field_bounds();
            lemma_low_bits_values();
        }
        PMODE { bits: insert(self.bits, if v { 1 } else { 0 }, 7, 1) }
    }

    /// The fixed alpha. Bits 8 to 15.
    pub fn alp(&self) -> (v: u8)
        ensures
            v == self@.alp,
    {
        proof {
            lemma_low_bits_values();
        }
        extract(self.bits, 8, 8) as u8
    }

    /// Sets the field `ALP` and keeps the rest.
    pub fn with_alp(self, v: u8) -> (r: Self)
        ensures
            r.into_bits() == insert(self.into_bits(), v as u64, 8, 8),
            r@ == (PmodeFields { alp: v, ..self@ }),
    {
        proof {
            lemma_written_fields();
            lemma_field_bounds();
            lemma_low_bits_values();
        }
        PMODE { bits: insert(self.bits, v as u64, 8, 8) }
    }

    /// The write that puts this value into the register. Nothing is written
    /// here: the caller performs it, as one volatile store.
    pub fn store(self) -> (write: RegisterWrite)
        ensures
            write == (RegisterWrite { address: PMODE_ADDR, value: self.into_bits() }),
    {
        RegisterWrite { address: PMODE_ADDR, value: self.bits }
    }
}

/// What [`SMODE1`] holds, field by field.
pub struct Smode1Fields {
    /// The field `RC`: bits 0 to 2.
    pub rc: u8,
    /// The field `KC`: bits 3 to 9.
    pub kc: u8,
    /// The field `T1248`: bits 10 to 11.
    pub t1248: u8,
    /// The field `SLCK`: bit 12.
    pub slck: u8,
    /// The field `CMOD`: bits 13 to 14.
    pub cmod: u8,
    /// The field `EX`: bit 15.
    pub ex: u8,
    /// The field `PRST`: bit 16.
    pub prst: u8,
    /// The field `SINT`: bit 17.
    pub sint: u8,
    /// The field `XPCK`: bit 18.
    pub xpck: u8,
    /// The field `PCK2`: bits 19 to 20.
    pub pck2: u8,
    /// The field `SPML`: bits 21 to 24.
    pub spml: u8,
    /// The field `GCONT`: bit 25.
    pub gcont: u8,
    /// The field `PHS`: bit 26.
    pub phs: u8,
    /// The field `PVS`: bit 27.
    pub pvs: u8,
    /// The field `PEHS`: bit 28.
    pub pehs: u8,
    /// The field `PEVS`: bit 29.
    pub pevs: u8,
    /// The field `CLKSEL`: bits 30 to 31.
    pub clksel: u8,
    /// The field `NVCK`: bit 32.
    pub nvck: u8,
    /// The field `SLCK2`: bit 33.
    pub slck2: u8,
    /// The field `VCKSEL`: bits 34 to 35.
    pub vcksel: u8,
    /// The field `VCK2`: bit 36.
    pub vck2: u8,
}

/// SMODE1: the video clock. The register is not documented by the maker; a
/// wrong value can damage the display that is connected.
#[derive(Clone, Copy, Debug, PartialEq, Eq, Structural)]
pub struct SMODE1 {
    bits: u64,
}

impl View for SMODE1 {
    type V = Smode1Fields;

    open spec fn view(&self) -> Smode1Fields {
        Smode1Fields {
            rc: extract(self.into_bits(), 0, 3) as u8,
            kc: extract(self.into_bits(), 3, 7) as u8,
            t1248: extract(self.into_bits(), 10, 2) as u8,
            slck: extract(self.into_bits(), 12, 1) as u8,
            cmod: extract(self.into_bits(), 13, 2) as u8,
            ex: extract(self.into_bits(), 15, 1) as u8,
            prst: extract(self.into_bits(), 16, 1) as u8,
            sint: extract(self.into_bits(), 17, 1) as u8,
            xpck: extract(self.into_bits(), 18, 1) as u8,
            pck2: extract(self.into_bits(), 19, 2) as u8,
            spml: extract(self.into_bits(), 21, 4) as u8,
            gcont: extract(self.into_bits(), 25, 1) as u8,
            phs: extract(self.into_bits(), 26, 1) as u8,
            pvs: extract(self.into_bits(), 27, 1) as u8,
            pehs: extract(self.into_bits(), 28, 1) as u8,
            pevs: extract(self.into_bits(), 29, 1) as u8,
            clksel: extract(self.into_bits(), 30, 2) as u8,
            nvck: extract(self.into_bits(), 32, 1) as u8,
            slck2: extract(self.into_bits(), 33, 1) as u8,
            vcksel: extract(self.into_bits(), 34, 2) as u8,
            vck2: extract(self.into_bits(), 36, 1) as u8,
        }
    }
}

impl SMODE1 {
    /// The word as the register takes it.
    pub closed spec fn spec_into_bits(self) -> u64 {
        self.bits
    }

    /// The register with every bit zero.
    pub fn new() -> (r: Self)
        ensures
            r.into_bits() == 0,
            r@ == (Smode1Fields {
                rc: 0,
                kc: 0,
                t1248: 0,
                slck: 0,
                cmod: 0,
                ex: 0,
                prst: 0,
                sint: 0,
                xpck: 0,
                pck2: 0,
                spml: 0,
                gcont: 0,
                phs: 0,
                pvs: 0,
                pehs: 0,
                pevs: 0,
                clksel: 0,
                nvck: 0,
                slck2: 0,
                vcksel: 0,
                vck2: 0,
            }),
    {
        proof {
            lemma_written_fields();
        }
        SMODE1 { bits: 0 }
    }

    /// The register that holds exactly `bits`, reserved bits included.
    pub fn from_bits(bits: u64) -> (r: Self)
        ensures
            r.into_bits() == bits,
    {
        SMODE1 { bits }
    }

    /// The word as the register takes it.
    #[verifier::when_used_as_spec(spec_into_bits)]
    pub fn into_bits(self) -> (bits: u64)
        ensures
            bits == self.spec_into_bits(),
    {
        self.bits
    }

    /// The field `RC`: bits 0 to 2.
    pub fn rc(&self) -> (v: u8)
        ensures
            v == self@.rc,
    {
        proof {
            lemma_low_bits_values();
        }
        extract(self.bits, 0, 3) as u8
    }

    /// Sets the field `RC` to the 3 lowest bits of `v` and keeps the rest.
    pub fn with_rc(self, v: u8) -> (r: Self)
        ensures
            r.into_bits() == insert(self.into_bits(), v as u64, 0, 3),
            r@ == (Smode1Fields { rc: mask(v as u64, 3) as u8, ..self@ }),
    {
        proof {
            lemma_written_fields();
            lemma_field_bounds();
            lemma_low_bits_values();
        }
        SMODE1 { bits: insert(self.bits, v as u64, 0, 3) }
    }

    /// The field `KC`: bits 3 to 9.
    pub fn kc(&self) -> (v: u8)
        ensures
            v == self@.kc,
    {
        proof {
            lemma_low_bits_values();
        }
        extract(self.bits, 3, 7) as u8
    }

    /// Sets the field `KC` to the 7 lowest bits of `v` and keeps the rest.
    pub fn with_kc(self, v: u8) -> (r: Self)
        ensures
            r.into_bits() == insert(self.into_bits(), v as u64, 3, 7),
            r@ == (Smode1Fields { kc: mask(v as u64, 7) as u8, ..self@ }),
    {
        proof {
            lemma_written_fields();
            lemma_field_bounds();
            lemma_low_bits_values();
        }
        SMODE1 { bits: insert(self.bits, v as u64, 3, 7) }
    }

    /// The field `T1248`: bits 10 to 11.
    pub fn t1248(&self) -> (v: u8)
        ensures
            v == self@.t1248,
    {
        proof {
            lemma_low_bits_values();
        }
        extract(self.bits, 10, 2) as u8
    }

    /// Sets the field `T1248` to the 2 lowest bits of `v` and keeps the rest.
    pub fn with_t1248(self, v: u8) -> (r: Self)
        ensures
            r.into_bits() == insert(self.into_bits(), v as u64, 10, 2),
            r@ == (Smode1Fields { t1248: mask(v as u64, 2) as u8, ..self@ }),
    {
        proof {
            lemma_written_fields();
            lemma_field_bounds();
            lemma_low_bits_values();
        }
        SMODE1 { bits: insert(self.bits, v as u64, 10, 2) }
    }

    /// The field `SLCK`: bit 12.
    pub fn slck(&self) -> (v: u8)
        ensures
            v == self@.slck,
    {
        proof {
            lemma_low_bits_values();
        }
        extract(self.bits, 12, 1) as u8
    }

    /// Sets the field `SLCK` to the lowest bit of `v` and keeps the rest.
    pub fn with_slck(self, v: u8) -> (r: Self)
        ensures
            r.into_bits() == insert(self.into_bits(), v as u64, 12, 1),
            r@ == (Smode1Fields { slck: mask(v as u64, 1) as u8, ..self@ }),
    {
        proof {
            lemma_written_fields();
            lemma_field_bounds();
            lemma_low_bits_values();
        }
        SMODE1 { bits: insert(self.bits, v as u64, 12, 1) }
    }

    /// The field `CMOD`: bits 13 to 14.
    pub fn cmod(&self) -> (v: u8)
        ensures
            v == self@.cmod,
    {
        proof {
            lemma_low_bits_values();
        }
        extract(self.bits, 13, 2) as u8
    }

    /// Sets the field `CMOD` to the 2 lowest bits of `v` and keeps the rest.
    pub fn with_cmod(self, v: u8) -> (r: Self)
        ensures
            r.into_bits() == insert(self.into_bits(), v as u64, 13, 2),
            r@ == (Smode1Fields { cmod: mask(v as u64, 2) as u8, ..self@ }),
    {
        proof {
            lemma_written_fields();
            lemma_field_bounds();
            lemma_low_bits_values();
        }
        SMODE1 { bits: insert(self.bits, v as u64, 13, 2) }
    }

    /// The field `EX`: bit 15.
    pub fn ex(&self) -> (v: u8)
        ensures
            v == self@.ex,
    {
        proof {
            lemma_low_bits_values();
        }
        extract(self.bits, 15, 1) as u8
    }

    /// Sets the field `EX` to the lowest bit of `v` and keeps the rest.
    pub fn with_ex(self, v: u8) -> (r: Self)
        ensures
            r.into_bits() == insert(self.into_bits(), v as u64, 15, 1),
            r@ == (Smode1Fields { ex: mask(v as u64, 1) as u8, ..self@ }),
    {
        proof {
            lemma_written_fields();
            lemma_field_bounds();
            lemma_low_bits_values();
        }
        SMODE1 { bits: insert(self.bits, v as u64, 15, 1) }
    }

    /// The field `PRST`: bit 16.
    pub fn prst(&self) -> (v: u8)
        ensures
            v == self@.prst,
    {
        proof {
            lemma_low_bits_values();
        }
        extract(self.bits, 16, 1) as u8
    }

    /// Sets the field `PRST` to the lowest bit of `v` and keeps the rest.
    pub fn with_prst(self, v: u8) -> (r: Self)
        ensures
            r.into_bits() == insert(self.into_bits(), v as u64, 16, 1),
            r@ == (Smode1Fields { prst: mask(v as u64, 1) as u8, ..self@ }),
    {
        proof {
            lemma_written_fields();
            lemma_field_bounds();
            lemma_low_bits_values();
        }
        SMODE1 { bits: insert(self.bits, v as u64, 16, 1) }
    }

    /// The field `SINT`: bit 17.
    pub fn sint(&self) -> (v: u8)
        ensures
            v == self@.sint,
    {
        proof {
            lemma_low_bits_values();
        }
        extract(self.bits, 17, 1) as u8
    }

    /// Sets the field `SINT` to the lowest bit of `v` and keeps the rest.
    pub fn with_sint(self, v: u8) -> (r: Self)
        ensures
            r.into_bits() == insert(self.into_bits(), v as u64, 17, 1),
            r@ == (Smode1Fields { sint: mask(v as u64, 1) as u8, ..self@ }),
    {
        proof {
            lemma_written_fields();
            lemma_field_bounds();
            lemma_low_bits_values();
        }
        SMODE1 { bits: insert(self.bits, v as u64, 17, 1) }
    }

    /// The field `XPCK`: bit 18.
    pub fn xpck(&self) -> (v: u8)
        ensures
            v == self@.xpck,
    {
        proof {
            lemma_low_bits_values();
        }
        extract(self.bits, 18, 1) as u8
    }

    /// Sets the field `XPCK` to the lowest bit of `v` and keeps the rest.
    pub fn with_xpck(self, v: u8) -> (r: Self)
        ensures
            r.into_bits() == insert(self.into_bits(), v as u64, 18, 1),
            r@ == (Smode1Fields { xpck: mask(v as u64, 1) as u8, ..self@ }),
    {
        proof {
            lemma_written_fields();
            lemma_field_bounds();
            lemma_low_bits_values();
        }
        SMODE1 { bits: insert(self.bits, v as u64, 18, 1) }
    }

    /// The field `PCK2`: bits 19 to 20.
    pub fn pck2(&self) -> (v: u8)
        ensures
            v == self@.pck2,
    {
        proof {
            lemma_low_bits_values();
        }
        extract(self.bits, 19, 2) as u8
    }

    /// Sets the field `PCK2` to the 2 lowest bits of `v` and keeps the rest.
    pub fn with_pck2(self, v: u8) -> (r: Self)
        ensures
            r.into_bits() == insert(self.into_bits(), v as u64, 19, 2),
            r@ == (Smode1Fields { pck2: mask(v as u64, 2) as u8, ..self@ }),
    {
        proof {
            lemma_written_fields();
            lemma_field_bounds();
            lemma_low_bits_values();
        }
        SMODE1 { bits: insert(self.bits, v as u64, 19, 2) }
    }

    /// The field `SPML`: bits 21 to 24.
    pub fn spml(&self) -> (v: u8)
        ensures
            v == self@.spml,
    {
        proof {
            lemma_low_bits_values();
        }
        extract(self.bits, 21, 4) as u8
    }

    /// Sets the field `SPML` to the 4 lowest bits of `v` and keeps the rest.
    pub fn with_spml(self, v: u8) -> (r: Self)
        ensures
            r.into_bits() == insert(self.into_bits(), v as u64, 21, 4),
            r@ == (Smode1Fields { spml: mask(v as u64, 4) as u8, ..self@ }),
    {
        proof {
            lemma_written_fields();
            lemma_field_bounds();
            lemma_low_bits_values();
        }
        SMODE1 { bits: insert(self.bits, v as u64, 21, 4) }
    }

    /// The field `GCONT`: bit 25.
    pub fn gcont(&self) -> (v: u8)
        ensures
            v == self@.gcont,
    {
        proof {
            lemma_low_bits_values();
        }
        extract(self.bits, 25, 1) as u8
    }

    /// Sets the field `GCONT` to the lowest bit of `v` and keeps the rest.
    pub fn with_gcont(self, v: u8) -> (r: Self)
        ensures
            r.into_bits() == insert(self.into_bits(), v as u64, 25, 1),
            r@ == (Smode1Fields { gcont: mask(v as u64, 1) as u8, ..self@ }),
    {
        proof {
            lemma_written_fields();
            lemma_field_bounds();
            lemma_low_bits_values();
        }
        SMODE1 { bits: insert(self.bits, v as u64, 25, 1) }
    }

    /// The field `PHS`: bit 26.
    pub fn phs(&self) -> (v: u8)
        ensures
            v == self@.phs,
    {
        proof {
            lemma_low_bits_values();
        }
        extract(self.bits, 26, 1) as u8
    }

    /// Sets the field `PHS` to the lowest bit of `v` and keeps the rest.
    pub fn with_phs(self, v: u8) -> (r: Self)
        ensures
            r.into_bits() == insert(self.into_bits(), v as u64, 26, 1),
            r@ == (Smode1Fields { phs: mask(v as u64, 1) as u8, ..self@ }),
    {
        proof {
            lemma_written_fields();
            lemma_field_bounds();
            lemma_low_bits_values();
        }
        SMODE1 { bits: insert(self.bits, v as u64, 26, 1) }
    }

    /// The field `PVS`: bit 27.
    pub fn pvs(&self) -> (v: u8)
        ensures
            v == self@.pvs,
    {
        proof {
            lemma_low_bits_values();
        }
        extract(self.bits, 27, 1) as u8
    }

    /// Sets the field `PVS` to the lowest bit of `v` and keeps the rest.
    pub fn with_pvs(self, v: u8) -> (r: Self)
        ensures
            r.into_bits() == insert(self.into_bits(), v as u64, 27, 1),
            r@ == (Smode1Fields { pvs: mask(v as u64, 1) as u8, ..self@ }),
    {
        proof {
            lemma_written_fields();
            lemma_field_bounds();
            lemma_low_bits_values();
        }
        SMODE1 { bits: insert(self.bits, v as u64, 27, 1) }
    }

    /// The field `PEHS`: bit 28.
    pub fn pehs(&self) -> (v: u8)
        ensures
            v == self@.pehs,
    {
        proof {
            lemma_low_bits_values();
        }
        extract(self.bits, 28, 1) as u8
    }

    /// Sets the field `PEHS` to the lowest bit of `v` and keeps the rest.
    pub fn with_pehs(self, v: u8) -> (r: Self)
        ensures
            r.into_bits() == insert(self.into_bits(), v as u64, 28, 1),
            r@ == (Smode1Fields { pehs: mask(v as u64, 1) as u8, ..self@ }),
    {
        proof {
            lemma_written_fields();
            lemma_field_bounds();
            lemma_low_bits_values();
        }
        SMODE1 { bits: insert(self.bits, v as u64, 28, 1) }
    }

    /// The field `PEVS`: bit 29.
    pub fn pevs(&self) -> (v: u8)
        ensures
            v == self@.pevs,
    {
        proof {
            lemma_low_bits_values();
        }
        extract(self.bits, 29, 1) as u8
    }

    /// Sets the field `PEVS` to the lowest bit of `v` and keeps the rest.
    pub fn with_pevs(self, v: u8) -> (r: Self)
        ensures
            r.into_bits() == insert(self.into_bits(), v as u64, 29, 1),
            r@ == (Smode1Fields { pevs: mask(v as u64, 1) as u8, ..self@ }),
    {
        proof {
            lemma_written_fields();
            lemma_field_bounds();
            lemma_low_bits_values();
        }
        SMODE1 { bits: insert(self.bits, v as u64, 29, 1) }
    }

    /// The field `CLKSEL`: bits 30 to 31.
    pub fn clksel(&self) -> (v: u8)
        ensures
            v == self@.clksel,
    {
        proof {
            lemma_low_bits_values();
        }
        extract(self.bits, 30, 2) as u8
    }

    /// Sets the field `CLKSEL` to the 2 lowest bits of `v` and keeps the rest.
    pub fn with_clksel(self, v: u8) -> (r: Self)
        ensures
            r.into_bits() == insert(self.into_bits(), v as u64, 30, 2),
            r@ == (Smode1Fields { clksel: mask(v as u64, 2) as u8, ..self@ }),
    {
        proof {
            lemma_written_fields();
            lemma_field_bounds();
            lemma_low_bits_values();
        }
        SMODE1 { bits: insert(self.bits, v as u64, 30, 2) }
    }

    /// The field `NVCK`: bit 32.
    pub fn nvck(&self) -> (v: u8)
        ensures
            v == self@.nvck,
    {
        proof {
            lemma_low_bits_values();
        }
        extract(self.bits, 32, 1) as u8
    }

    /// Sets the field `NVCK` to the lowest bit of `v` and keeps the rest.
    pub fn with_nvck(self, v: u8) -> (r: Self)
        ensures
            r.into_bits() == insert(self.into_bits(), v as u64, 32, 1),
            r@ == (Smode1Fields { nvck: mask(v as u64, 1) as u8, ..self@ }),
    {
        proof {
            lemma_written_fields();
            lemma_field_bounds();
            lemma_low_bits_values();
        }
        SMODE1 { bits: insert(self.bits, v as u64, 32, 1) }
    }

    /// The field `SLCK2`: bit 33.
    pub fn slck2(&self) -> (v: u8)
        ensures
            v == self@.slck2,
    {
        proof {
            lemma_low_bits_values();
        }
        extract(self.bits, 33, 1) as u8
    }

    /// Sets the field `SLCK2` to the lowest bit of `v` and keeps the rest.
    pub fn with_slck2(self, v: u8) -> (r: Self)
        ensures
            r.into_bits() == insert(self.into_bits(), v as u64, 33, 1),
            r@ == (Smode1Fields { slck2: mask(v as u64, 1) as u8, ..self@ }),
    {
        proof {
            lemma_written_fields();
            lemma_field_bounds();
            lemma_low_bits_values();
        }
        SMODE1 { bits: insert(self.bits, v as u64, 33, 1) }
    }

    /// The field `VCKSEL`: bits 34 to 35.
    pub fn vcksel(&self) -> (v: u8)
        ensures
            v == self@.vcksel,
    {
        proof {
            lemma_low_bits_values();
        }
        extract(self.bits, 34, 2) as u8
    }

    /// Sets the field `VCKSEL` to the 2 lowest bits of `v` and keeps the rest.
    pub fn with_vcksel(self, v: u8) -> (r: Self)
        ensures
            r.into_bits() == insert(self.into_bits(), v as u64, 34, 2),
            r@ == (Smode1Fields { vcksel: mask(v as u64, 2) as u8, ..self@ }),
    {
        proof {
            lemma_written_fields();
            lemma_field_bounds();
            lemma_low_bits_values();
        }
        SMODE1 { bits: insert(self.bits, v as u64, 34, 2) }
    }

    /// The field `VCK2`: bit 36.
    pub fn vck2(&self) -> (v: u8)
        ensures
            v == self@.vck2,
    {
        proof {
            lemma_low_bits_values();
        }
        extract(self.bits, 36, 1) as u8
    }

    /// Sets the field `VCK2` to the lowest bit of `v` and keeps the rest.
    pub fn with_vck2(self, v: u8) -> (r: Self)
        ensures
            r.into_bits() == insert(self.into_bits(), v as u64, 36, 1),
            r@ == (Smode1Fields { vck2: mask(v as u64, 1) as u8, ..self@ }),
    {
        proof {
            lemma_written_fields();
            lemma_field_bounds();
            lemma_low_bits_values();
        }
        SMODE1 { bits: insert(self.bits, v as u64, 36, 1) }
    }

    /// The write that puts this value into the register. Nothing is written
    /// here: the caller performs it, as one volatile store.
    pub fn store(self) -> (write: RegisterWrite)
        ensures
            write == (RegisterWrite { address: SMODE1_ADDR, value: self.into_bits() }),
    {
        RegisterWrite { address: SMODE1_ADDR, value: self.bits }
    }
}

/// What [`SMODE2`] holds, field by field.
pub struct Smode2Fields {
    /// The output is interlaced. Bit 0.
    pub interlaced: bool,
    /// Every line is read (frame mode) rather than every other (field mode).
    /// Bit 1.
    pub ffmd: bool,
    /// The power saving mode of the display. Bits 2 to 3.
    pub dpms: u8,
}

/// SMODE2: interlacing and power saving.
#[derive(Clone, Copy, Debug, PartialEq, Eq, Structural)]
pub struct SMODE2 {
    bits: u64,
}

impl View for SMODE2 {
    type V = Smode2Fields;

    open spec fn view(&self) -> Smode2Fields {
        Smode2Fields {
            interlaced: extract(self.into_bits(), 0, 1) != 0,
            ffmd: extract(self.into_bits(), 1, 1) != 0,
            dpms: extract(self.into_bits(), 2, 2) as u8,
        }
    }
}

impl SMODE2 {
    /// The word as the register takes it.
    pub closed spec fn spec_into_bits(self) -> u64 {
        self.bits
    }

    /// The register with every bit zero.
    pub fn new() -> (r: Self)
        ensures
            r.into_bits() == 0,
            r@ == (Smode2Fields {
                interlaced: false,
                ffmd: false,
                dpms: 0,
            }),
    {
        proof {
            lemma_written_fields();
        }
        SMODE2 { bits: 0 }
    }

    /// The register that holds exactly `bits`, reserved bits included.
    pub fn from_bits(bits: u64) -> (r: Self)
        ensures
            r.into_bits() == bits,
    {
        SMODE2 { bits }
    }

    /// The word as the register takes it.
    #[verifier::when_used_as_spec(spec_into_bits)]
    pub fn into_bits(self) -> (bits: u64)
        ensures
            bits == self.spec_into_bits(),
    {
        self.bits
    }

    /// The output is interlaced. Bit 0.
    pub fn interlaced(&self) -> (v: bool)
        ensures
            v == self@.interlaced,
    {
        extract(self.bits, 0, 1) != 0
    }

    /// Sets the field `INTERLACED` and keeps the rest.
    pub fn with_interlaced(self, v: bool) -> (r: Self)
        ensures
            r.into_bits() == insert(self.into_bits(), if v { 1 } else { 0 }, 0, 1),
            r@ == (Smode2Fields { interlaced: v, ..self@ }),
    {
        proof {
            lemma_written_fields();
            lemma_field_bounds();
            lemma_low_bits_values();
        }
        SMODE2 { bits: insert(self.bits, if v { 1 } else { 0 }, 0, 1) }
    }

    /// Every line is read (frame mode) rather than every other (field mode).
    /// Bit 1.
    pub fn ffmd(&self) -> (v: bool)
        ensures
            v == self@.ffmd,
    {
        extract(self.bits, 1, 1) != 0
    }

    /// Sets the field `FFMD` and keeps the rest.
    pub fn with_ffmd(self, v: bool) -> (r: Self)
        ensures
            r.into_bits() == insert(self.into_bits(), if v { 1 } else { 0 }, 1, 1),
            r@ == (Smode2Fields { ffmd: v, ..self@ }),
    {
        proof {
            lemma_written_fields();
            lemma_field_bounds();
            lemma_low_bits_values();
        }
        SMODE2 { bits: insert(self.bits, if v { 1 } else { 0 }, 1, 1) }
    }

    /// The power saving mode of the display. Bits 2 to 3.
    pub fn dpms(&self) -> (v: u8)
        ensures
            v == self@.dpms,
    {
        proof {
            lemma_low_bits_values();
        }
        extract(self.bits, 2, 2) as u8
    }

    /// Sets the field `DPMS` to the 2 lowest bits of `v` and keeps the rest.
    pub fn with_dpms(self, v: u8) -> (r: Self)
        ensures
            r.into_bits() == insert(self.into_bits(), v as u64, 2, 2),
            r@ == (Smode2Fields { dpms: mask(v as u64, 2) as u8, ..self@ }),
    {
        proof {
            lemma_written_fields();
            lemma_field_bounds();
            lemma_low_bits_values();
        }
        SMODE2 { bits: insert(self.bits, v as u64, 2, 2) }
    }

    /// The write that puts this value into the register. Nothing is written
    /// here: the caller performs it, as one volatile store.
    pub fn store(self) -> (write: RegisterWrite)
        ensures
            write == (RegisterWrite { address: SMODE2_ADDR, value: self.into_bits() }),
    {
        RegisterWrite { address: SMODE2_ADDR, value: self.bits }
    }
}

/// What [`SRFSH`] holds, field by field.
pub struct SrfshFields {
    /// The refresh setting. Bits 0 to 63.
    pub srfsh: u64,
}

/// SRFSH: memory refresh.
#[derive(Clone, Copy, Debug, PartialEq, Eq, Structural)]
pub struct SRFSH {
    bits: u64,
}

impl View for SRFSH {
    type V = SrfshFields;

    open spec fn view(&self) -> SrfshFields {
        SrfshFields {
            srfsh: extract(self.into_bits(), 0, 64),
        }
    }
}

impl SRFSH {
    /// The word as the register takes it.
    pub closed spec fn spec_into_bits(self) -> u64 {
        self.bits
    }

    /// The register with every bit zero.
    pub fn new() -> (r: Self)
        ensures
            r.into_bits() == 0,
            r@ == (SrfshFields {
                srfsh: 0,
            }),
    {
        proof {
            lemma_written_fields();
        }
        SRFSH { bits: 0 }
    }

    /// The register that holds exactly `bits`, reserved bits included.
    pub fn from_bits(bits: u64) -> (r: Self)
        ensures
            r.into_bits() == bits,
    {
        SRFSH { bits }
    }

    /// The word as the register takes it.
    #[verifier::when_used_as_spec(spec_into_bits)]
    pub fn into_bits(self) -> (bits: u64)
        ensures
            bits == self.spec_into_bits(),
    {
        self.bits
    }

    /// The refresh setting. Bits 0 to 63.
    pub fn srfsh(&self) -> (v: u64)
        ensures
            v == self@.srfsh,
    {
        extract(self.bits, 0, 64)
    }

    /// Sets the field `SRFSH` and keeps the rest.
    pub fn with_srfsh(self, v: u64) -> (r: Self)
        ensures
            r.into_bits() == insert(self.into_bits(), v, 0, 64),
            r@ == (SrfshFields { srfsh: v, ..self@ }),
    {
        proof {
            lemma_written_fields();
            lemma_field_bounds();
            lemma_low_bits_values();
        }
        SRFSH { bits: insert(self.bits, v, 0, 64) }
    }

    /// The write that puts this value into the register. Nothing is written
    /// here: the caller performs it, as one volatile store.
    pub fn store(self) -> (write: RegisterWrite)
        ensures
            write == (RegisterWrite { address: SRFSH_ADDR, value: self.into_bits() }),
    {
        RegisterWrite { address: SRFSH_ADDR, value: self.bits }
    }
}

} // verus!
