//! Status, interrupt mask, bus direction and signal identifiers.

use crate::bits::{
    extract, insert, lemma_field_bounds, lemma_low_bits_values, lemma_written_fields, mask,
};
use crate::privileged::{RegisterWrite, BUSDIR_ADDR, CSR_ADDR, IMR_ADDR, SIGLBLID_ADDR};
use vstd::prelude::*;

verus! {

/// What [`CSR`] holds, field by field.
pub struct CsrFields {
    /// The SIGNAL event. Bit 0.
    pub signal: u8,
    /// The FINISH event. Bit 1.
    pub finish: u8,
    /// The horizontal synchronisation interrupt. Bit 2.
    pub hsint: u8,
    /// The vertical synchronisation interrupt. Bit 3.
    pub vsint: u8,
    /// The end of a rectangular write. Bit 4.
    pub edwint: u8,
    /// Flushes the drawing pipeline. Bit 8.
    pub flush: u8,
    /// Resets the Graphics Synthesizer. Bit 9.
    pub reset: u8,
    /// The output value of the field bit. Bit 12.
    pub nfield: u8,
    /// The field that is shown: even or odd. Bit 13.
    pub field: u8,
    /// The state of the input queue. Bits 14 to 15.
    pub fifo: u8,
    /// The revision of the chip. Bits 16 to 23.
    pub rev: u8,
    /// The identifier of the chip. Bits 24 to 31.
    pub id: u8,
}

/// CSR: status of the Graphics Synthesizer; writing a one acknowledges an
/// event, resets or flushes.
#[derive(Clone, Copy, Debug, PartialEq, Eq, Structural)]
pub struct CSR {
    bits: u64,
}

impl View for CSR {
    type V = CsrFields;

    open spec fn view(&self) -> CsrFields {
        CsrFields {
            signal: extract(self.into_bits(), 0, 1) as u8,
            finish: extract(self.into_bits(), 1, 1) as u8,
            hsint: extract(self.into_bits(), 2, 1) as u8,
            vsint: extract(self.into_bits(), 3, 1) as u8,
            edwint: extract(self.into_bits(), 4, 1) as u8,
            flush: extract(self.into_bits(), 8, 1) as u8,
            reset: extract(self.into_bits(), 9, 1) as u8,
            nfield: extract(self.into_bits(), 12, 1) as u8,
            field: extract(self.into_bits(), 13, 1) as u8,
            fifo: extract(self.into_bits(), 14, 2) as u8,
            rev: extract(self.into_bits(), 16, 8) as u8,
            id: extract(self.into_bits(), 24, 8) as u8,
        }
    }
}

impl CSR {
    /// The word as the register takes it.
    pub closed spec fn spec_into_bits(self) -> u64 {
        self.bits
    }

    /// The register with every bit zero.
    pub fn new() -> (r: Self)
        ensures
            r.into_bits() == 0,
            r@ == (CsrFields {
                signal: 0,
                finish: 0,
                hsint: 0,
                vsint: 0,
                edwint: 0,
                flush: 0,
                reset: 0,
                nfield: 0,
                field: 0,
                fifo: 0,
                rev: 0,
                id: 0,
            }),
    {
        proof {
            lemma_written_fields();
        }
        CSR { bits: 0 }
    }

    /// The register that holds exactly `bits`, reserved bits included.
    pub fn from_bits(bits: u64) -> (r: Self)
        ensures
            r.into_bits() == bits,
    {
        CSR { bits }
    }

    /// The word as the register takes it.
    #[verifier::when_used_as_spec(spec_into_bits)]
    pub fn into_bits(self) -> (bits: u64)
        ensures
            bits == self.spec_into_bits(),
    {
        self.bits
    }

    /// The SIGNAL event. Bit 0.
    pub fn signal(&self) -> (v: u8)
        ensures
            v == self@.signal,
    {
        proof {
            lemma_low_bits_values();
        }
        extract(self.bits, 0, 1) as u8
    }

    /// Sets the field `SIGNAL` to the lowest bit of `v` and keeps the rest.
    pub fn with_signal(self, v: u8) -> (r: Self)
        ensures
            r.into_bits() == insert(self.into_bits(), v as u64, 0, 1),
            r@ == (CsrFields { signal: mask(v as u64, 1) as u8, ..self@ }),
    {
        proof {
            lemma_written_fields();
            lemma_field_bounds();
            lemma_low_bits_values();
        }
        CSR { bits: insert(self.bits, v as u64, 0, 1) }
    }

    /// The FINISH event. Bit 1.
    pub fn finish(&self) -> (v: u8)
        ensures
            v == self@.finish,
    {
        proof {
            lemma_low_bits_values();
        }
        extract(self.bits, 1, 1) as u8
    }

    /// Sets the field `FINISH` to the lowest bit of `v` and keeps the rest.
    pub fn with_finish(self, v: u8) -> (r: Self)
        ensures
            r.into_bits() == insert(self.into_bits(), v as u64, 1, 1),
            r@ == (CsrFields { finish: mask(v as u64, 1) as u8, ..self@ }),
    {
        proof {
            lemma_written_fields();
            lemma_field_bounds();
            lemma_low_bits_values();
        }
        CSR { bits: insert(self.bits, v as u64, 1, 1) }
    }

    /// The horizontal synchronisation interrupt. Bit 2.
    pub fn hsint(&self) -> (v: u8)
        ensures
            v == self@.hsint,
    {
        proof {
            lemma_low_bits_values();
        }
        extract(self.bits, 2, 1) as u8
    }

    /// Sets the field `HSINT` to the lowest bit of `v` and keeps the rest.
    pub fn with_hsint(self, v: u8) -> (r: Self)
        ensures
            r.into_bits() == insert(self.into_bits(), v as u64, 2, 1),
            r@ == (CsrFields { hsint: mask(v as u64, 1) as u8, ..self@ }),
    {
        proof {
            lemma_written_fields();
            lemma_field_bounds();
            lemma_low_bits_values();
        }
        CSR { bits: insert(self.bits, v as u64, 2, 1) }
    }

    /// The vertical synchronisation interrupt. Bit 3.
    pub fn vsint(&self) -> (v: u8)
        ensures
            v == self@.vsint,
    {
        proof {
            lemma_low_bits_values();
        }
        extract(self.bits, 3, 1) as u8
    }

    /// Sets the field `VSINT` to the lowest bit of `v` and keeps the rest.
    pub fn with_vsint(self, v: u8) -> (r: Self)
        ensures
            r.into_bits() == insert(self.into_bits(), v as u64, 3, 1),
            r@ == (CsrFields { vsint: mask(v as u64, 1) as u8, ..self@ }),
    {
        proof {
            lemma_written_fields();
            lemma_field_bounds();
            lemma_low_bits_values();
        }
        CSR { bits: insert(self.bits, v as u64, 3, 1) }
    }

    /// The end of a rectangular write. Bit 4.
    pub fn edwint(&self) -> (v: u8)
        ensures
            v == self@.edwint,
    {
        proof {
            lemma_low_bits_values();
        }
        extract(self.bits, 4, 1) as u8
    }

    /// Sets the field `EDWINT` to the lowest bit of `v` and keeps the rest.
    pub fn with_edwint(self, v: u8) -> (r: Self)
        ensures
            r.into_bits() == insert(self.into_bits(), v as u64, 4, 1),
            r@ == (CsrFields { edwint: mask(v as u64, 1) as u8, ..self@ }),
    {
        proof {
            lemma_written_fields();
            lemma_field_bounds();
            lemma_low_bits_values();
        }
        CSR { bits: insert(self.bits, v as u64, 4, 1) }
    }

    /// Flushes the drawing pipeline. Bit 8.
    pub fn flush(&self) -> (v: u8)
        ensures
            v == self@.flush,
    {
        proof {
            lemma_low_bits_values();
        }
        extract(self.bits, 8, 1) as u8
    }

    /// Sets the field `FLUSH` to the lowest bit of `v` and keeps the rest.
    pub fn with_flush(self, v: u8) -> (r: Self)
        ensures
            r.into_bits() == insert(self.into_bits(), v as u64, 8, 1),
            r@ == (CsrFields { flush: mask(v as u64, 1) as u8, ..self@ }),
    {
        proof {
            lemma_written_fields();
            lemma_field_bounds();
            lemma_low_bits_values();
        }
        CSR { bits: insert(self.bits, v as u64, 8, 1) }
    }

    /// Resets the Graphics Synthesizer. Bit 9.
    pub fn reset(&self) -> (v: u8)
        ensures
            v == self@.reset,
    {
        proof {
            lemma_low_bits_values();
        }
        extract(self.bits, 9, 1) as u8
    }

    /// Sets the field `RESET` to the lowest bit of `v` and keeps the rest.
    pub fn with_reset(self, v: u8) -> (r: Self)
        ensures
            r.into_bits() == insert(self.into_bits(), v as u64, 9, 1),
            r@ == (CsrFields { reset: mask(v as u64, 1) as u8, ..self@ }),
    {
        proof {
            lemma_written_fields();
            lemma_field_bounds();
            lemma_low_bits_values();
        }
        CSR { bits: insert(self.bits, v as u64, 9, 1) }
    }

    /// The output value of the field bit. Bit 12.
    pub fn nfield(&self) -> (v: u8)
        ensures
            v == self@.nfield,
    {
        proof {
            lemma_low_bits_values();
        }
        extract(self.bits, 12, 1) as u8
    }

    /// Sets the field `NFIELD` to the lowest bit of `v` and keeps the rest.
    pub fn with_nfield(self, v: u8) -> (r: Self)
        ensures
            r.into_bits() == insert(self.into_bits(), v as u64, 12, 1),
            r@ == (CsrFields { nfield: mask(v as u64, 1) as u8, ..self@ }),
    {
        proof {
            lemma_written_fields();
            lemma_field_bounds();
            lemma_low_bits_values();
        }
        CSR { bits: insert(self.bits, v as u64, 12, 1) }
    }

    /// The field that is shown: even or odd. Bit 13.
    pub fn field(&self) -> (v: u8)
        ensures
            v == self@.field,
    {
        proof {
            lemma_low_bits_values();
        }
        extract(self.bits, 13, 1) as u8
    }

    /// Sets the field `FIELD` to the lowest bit of `v` and keeps the rest.
    pub fn with_field(self, v: u8) -> (r: Self)
        ensures
            r.into_bits() == insert(self.into_bits(), v as u64, 13, 1),
            r@ == (CsrFields { field: mask(v as u64, 1) as u8, ..self@ }),
    {
        proof {
            lemma_written_fields();
            lemma_field_bounds();
            lemma_low_bits_values();
        }
        CSR { bits: insert(self.bits, v as u64, 13, 1) }
    }

    /// The state of the input queue. Bits 14 to 15.
    pub fn fifo(&self) -> (v: u8)
        ensures
            v == self@.fifo,
    {
        proof {
            lemma_low_bits_values();
        }
        extract(self.bits, 14, 2) as u8
    }

    /// Sets the field `FIFO` to the 2 lowest bits of `v` and keeps the rest.
    pub fn with_fifo(self, v: u8) -> (r: Self)
        ensures
            r.into_bits() == insert(self.into_bits(), v as u64, 14, 2),
            r@ == (CsrFields { fifo: mask(v as u64, 2) as u8, ..self@ }),
    {
        proof {
            lemma_written_fields();
            lemma_field_bounds();
            lemma_low_bits_values();
        }
        CSR { bits: insert(self.bits, v as u64, 14, 2) }
    }

    /// The revision of the chip. Bits 16 to 23.
    pub fn rev(&self) -> (v: u8)
        ensures
            v == self@.rev,
    {
        proof {
            lemma_low_bits_values();
        }
        extract(self.bits, 16, 8) as u8
    }

    /// Sets the field `REV` and keeps the rest.
    pub fn with_rev(self, v: u8) -> (r: Self)
        ensures
            r.into_bits() == insert(self.into_bits(), v as u64, 16, 8),
            r@ == (CsrFields { rev: v, ..self@ }),
    {
        proof {
            lemma_written_fields();
            lemma_field_bounds();
            lemma_low_bits_values();
        }
        CSR { bits: insert(self.bits, v as u64, 16, 8) }
    }

    /// The identifier of the chip. Bits 24 to 31.
    pub fn id(&self) -> (v: u8)
        ensures
            v == self@.id,
    {
        proof {
            lemma_low_bits_values();
        }
        extract(self.bits, 24, 8) as u8
    }

    /// Sets the field `ID` and keeps the rest.
    pub fn with_id(self, v: u8) -> (r: Self)
        ensures
            r.into_bits() == insert(self.into_bits(), v as u64, 24, 8),
            r@ == (CsrFields { id: v, ..self@ }),
    {
        proof {
            lemma_written_fields();
            lemma_field_bounds();
            lemma_low_bits_values();
        }
        CSR { bits: insert(self.bits, v as u64, 24, 8) }
    }

    /// The write that puts this value into the register. Nothing is written
    /// here: the caller performs it, as one volatile store.
    pub fn store(self) -> (write: RegisterWrite)
        ensures
            write == (RegisterWrite { address: CSR_ADDR, value: self.into_bits() }),
    {
        RegisterWrite { address: CSR_ADDR, value: self.bits }
    }

    /// The register as it was read: `value` is what one volatile load from
    /// [`CSR_ADDR`] gave.
    pub fn load(value: u64) -> (r: Self)
        ensures
            r.into_bits() == value,
    {
        CSR { bits: value }
    }
}

/// What [`IMR`] holds, field by field.
pub struct ImrFields {
    /// SIGNAL raises no interrupt. Bit 8.
    pub sigmsk: u8,
    /// FINISH raises no interrupt. Bit 9.
    pub finmsk: u8,
    /// Horizontal synchronisation raises no interrupt. Bit 10.
    pub hsmsk: u8,
    /// Vertical synchronisation raises no interrupt. Bit 11.
    pub vsmsk: u8,
}

/// IMR: which events are kept from raising an interrupt.
#[derive(Clone, Copy, Debug, PartialEq, Eq, Structural)]
pub struct IMR {
    bits: u64,
}

impl View for IMR {
    type V = ImrFields;

    open spec fn view(&self) -> ImrFields {
        ImrFields {
            sigmsk: extract(self.into_bits(), 8, 1) as u8,
            finmsk: extract(self.into_bits(), 9, 1) as u8,
            hsmsk: extract(self.into_bits(), 10, 1) as u8,
            vsmsk: extract(self.into_bits(), 11, 1) as u8,
        }
    }
}

impl IMR {
    /// The word as the register takes it.
    pub closed spec fn spec_into_bits(self) -> u64 {
        self.bits
    }

    /// The register as it is before anything is set: the two bits above the
    /// masks are one, as the hardware wants them, and zero everywhere else.
    pub fn new() -> (r: Self)
        ensures
            r.into_bits() == 0x3000,
            r@ == (ImrFields {
                sigmsk: 0,
                finmsk: 0,
                hsmsk: 0,
                vsmsk: 0,
            }),
    {
        assert(extract(0x3000, 8, 1) == 0
            && extract(0x3000, 9, 1) == 0
            && extract(0x3000, 10, 1) == 0
            && extract(0x3000, 11, 1) == 0) by (bit_vector);
        IMR { bits: 0x3000 }
    }

    /// The register that holds exactly `bits`, reserved bits included.
    pub fn from_bits(bits: u64) -> (r: Self)
        ensures
            r.into_bits() == bits,
    {
        IMR { bits }
    }

    /// The word as the register takes it.
    #[verifier::when_used_as_spec(spec_into_bits)]
    pub fn into_bits(self) -> (bits: u64)
        ensures
            bits == self.spec_into_bits(),
    {
        self.bits
    }

    /// SIGNAL raises no interrupt. Bit 8.
    pub fn sigmsk(&self) -> (v: u8)
        ensures
            v == self@.sigmsk,
    {
        proof {
            lemma_low_bits_values();
        }
        extract(self.bits, 8, 1) as u8
    }

    /// Sets the field `SIGMSK` to the lowest bit of `v` and keeps the rest.
    pub fn with_sigmsk(self, v: u8) -> (r: Self)
        ensures
            r.into_bits() == insert(self.into_bits(), v as u64, 8, 1),
            r@ == (ImrFields { sigmsk: mask(v as u64, 1) as u8, ..self@ }),
    {
        proof {
            lemma_written_fields();
            lemma_field_bounds();
            lemma_low_bits_values();
        }
        IMR { bits: insert(self.bits, v as u64, 8, 1) }
    }

    /// FINISH raises no interrupt. Bit 9.
    pub fn finmsk(&self) -> (v: u8)
        ensures
            v == self@.finmsk,
    {
        proof {
            lemma_low_bits_values();
        }
        extract(self.bits, 9, 1) as u8
    }

    /// Sets the field `FINMSK` to the lowest bit of `v` and keeps the rest.
    pub fn with_finmsk(self, v: u8) -> (r: Self)
        ensures
            r.into_bits() == insert(self.into_bits(), v as u64, 9, 1),
            r@ == (ImrFields { finmsk: mask(v as u64, 1) as u8, ..self@ }),
    {
        proof {
            lemma_written_fields();
            lemma_field_bounds();
            lemma_low_bits_values();
        }
        IMR { bits: insert(self.bits, v as u64, 9, 1) }
    }

    /// Horizontal synchronisation raises no interrupt. Bit 10.
    pub fn hsmsk(&self) -> (v: u8)
        ensures
            v == self@.hsmsk,
    {
        proof {
            lemma_low_bits_values();
        }
        extract(self.bits, 10, 1) as u8
    }

    /// Sets the field `HSMSK` to the lowest bit of `v` and keeps the rest.
    pub fn with_hsmsk(self, v: u8) -> (r: Self)
        ensures
            r.into_bits() == insert(self.into_bits(), v as u64, 10, 1),
            r@ == (ImrFields { hsmsk: mask(v as u64, 1) as u8, ..self@ }),
    {
        proof {
            lemma_written_fields();
            lemma_field_bounds();
            lemma_low_bits_values();
        }
        IMR { bits: insert(self.bits, v as u64, 10, 1) }
    }

    /// Vertical synchronisation raises no interrupt. Bit 11.
    pub fn vsmsk(&self) -> (v: u8)
        ensures
            v == self@.vsmsk,
    {
        proof {
            lemma_low_bits_values();
        }
        extract(self.bits, 11, 1) as u8
    }

    /// Sets the field `VSMSK` to the lowest bit of `v` and keeps the rest.
    pub fn with_vsmsk(self, v: u8) -> (r: Self)
        ensures
            r.into_bits() == insert(self.into_bits(), v as u64, 11, 1),
            r@ == (ImrFields { vsmsk: mask(v as u64, 1) as u8, ..self@ }),
    {
        proof {
            lemma_written_fields();
            lemma_field_bounds();
            lemma_low_bits_values();
        }
        IMR { bits: insert(self.bits, v as u64, 11, 1) }
    }

    /// The write that puts this value into the register. Nothing is written
    /// here: the caller performs it, as one volatile store.
    pub fn store(self) -> (write: RegisterWrite)
        ensures
            write == (RegisterWrite { address: IMR_ADDR, value: self.into_bits() }),
    {
        RegisterWrite { address: IMR_ADDR, value: self.bits }
    }
}

/// What [`BUSDIR`] holds, field by field.
pub struct BusdirFields {
    /// Zero from host to local, one from local to host. Bit 0.
    pub dir: u8,
}

/// BUSDIR: the direction of the host interface.
#[derive(Clone, Copy, Debug, PartialEq, Eq, Structural)]
pub struct BUSDIR {
    bits: u64,
}

impl View for BUSDIR {
    type V = BusdirFields;

    open spec fn view(&self) -> BusdirFields {
        BusdirFields {
            dir: extract(self.into_bits(), 0, 1) as u8,
        }
    }
}

impl BUSDIR {
    /// The word as the register takes it.
    pub closed spec fn spec_into_bits(self) -> u64 {
        self.bits
    }

    /// The register with every bit zero.
    pub fn new() -> (r: Self)
        ensures
            r.into_bits() == 0,
            r@ == (BusdirFields {
                dir: 0,
            }),
    {
        proof {
            lemma_written_fields();
        }
        BUSDIR { bits: 0 }
    }

    /// The register that holds exactly `bits`, reserved bits included.
    pub fn from_bits(bits: u64) -> (r: Self)
        ensures
            r.into_bits() == bits,
    {
        BUSDIR { bits }
    }

    /// The word as the register takes it.
    #[verifier::when_used_as_spec(spec_into_bits)]
    pub fn into_bits(self) -> (bits: u64)
        ensures
            bits == self.spec_into_bits(),
    {
        self.bits
    }

    /// Zero from host to local, one from local to host. Bit 0.
    pub fn dir(&self) -> (v: u8)
        ensures
            v == self@.dir,
    {
        proof {
            lemma_low_bits_values();
        }
        extract(self.bits, 0, 1) as u8
    }

    /// Sets the field `DIR` to the lowest bit of `v` and keeps the rest.
    pub fn with_dir(self, v: u8) -> (r: Self)
        ensures
            r.into_bits() == insert(self.into_bits(), v as u64, 0, 1),
            r@ == (BusdirFields { dir: mask(v as u64, 1) as u8, ..self@ }),
    {
        proof {
            lemma_written_fields();
            lemma_field_bounds();
            lemma_low_bits_values();
        }
        BUSDIR { bits: insert(self.bits, v as u64, 0, 1) }
    }

    /// The write that puts this value into the register. Nothing is written
    /// here: the caller performs it, as one volatile store.
    pub fn store(self) -> (write: RegisterWrite)
        ensures
            write == (RegisterWrite { address: BUSDIR_ADDR, value: self.into_bits() }),
    {
        RegisterWrite { address: BUSDIR_ADDR, value: self.bits }
    }
}

/// What [`SIGLBLID`] holds, field by field.
pub struct SiglblidFields {
    /// The identifier left by SIGNAL. Bits 0 to 31.
    pub siglblid: u32,
    /// The identifier left by LABEL. Bits 32 to 63.
    pub lblid: u32,
}

/// SIGLBLID: the identifiers that the SIGNAL and LABEL events left.
#[derive(Clone, Copy, Debug, PartialEq, Eq, Structural)]
pub struct SIGLBLID {
    bits: u64,
}

impl View for SIGLBLID {
    type V = SiglblidFields;

    open spec fn view(&self) -> SiglblidFields {
        SiglblidFields {
            siglblid: extract(self.into_bits(), 0, 32) as u32,
            lblid: extract(self.into_bits(), 32, 32) as u32,
        }
    }
}

impl SIGLBLID {
    /// The word as the register takes it.
    pub closed spec fn spec_into_bits(self) -> u64 {
        self.bits
    }

    /// The register with every bit zero.
    pub fn new() -> (r: Self)
        ensures
            r.into_bits() == 0,
            r@ == (SiglblidFields {
                siglblid: 0,
                lblid: 0,
            }),
    {
        proof {
            lemma_written_fields();
        }
        SIGLBLID { bits: 0 }
    }

    /// The register that holds exactly `bits`, reserved bits included.
    pub fn from_bits(bits: u64) -> (r: Self)
        ensures
            r.into_bits() == bits,
    {
        SIGLBLID { bits }
    }

    /// The word as the register takes it.
    #[verifier::when_used_as_spec(spec_into_bits)]
    pub fn into_bits(self) -> (bits: u64)
        ensures
            bits == self.spec_into_bits(),
    {
        self.bits
    }

    /// The identifier left by SIGNAL. Bits 0 to 31.
    pub fn siglblid(&self) -> (v: u32)
        ensures
            v == self@.siglblid,
    {
        proof {
            lemma_low_bits_values();
        }
        extract(self.bits, 0, 32) as u32
    }

    /// Sets the field `SIGLBLID` and keeps the rest.
    pub fn with_siglblid(self, v: u32) -> (r: Self)
        ensures
            r.into_bits() == insert(self.into_bits(), v as u64, 0, 32),
            r@ == (SiglblidFields { siglblid: v, ..self@ }),
    {
        proof {
            lemma_written_fields();
            lemma_field_bounds();
            lemma_low_bits_values();
        }
        SIGLBLID { bits: insert(self.bits, v as u64, 0, 32) }
    }

    /// The identifier left by LABEL. Bits 32 to 63.
    pub fn lblid(&self) -> (v: u32)
        ensures
            v == self@.lblid,
    {
        proof {
            lemma_low_bits_values();
        }
        extract(self.bits, 32, 32) as u32
    }

    /// Sets the field `LBLID` and keeps the rest.
    pub fn with_lblid(self, v: u32) -> (r: Self)
        ensures
            r.into_bits() == insert(self.into_bits(), v as u64, 32, 32),
            r@ == (SiglblidFields { lblid: v, ..self@ }),
    {
        proof {
            lemma_written_fields();
            lemma_field_bounds();
            lemma_low_bits_values();
        }
        SIGLBLID { bits: insert(self.bits, v as u64, 32, 32) }
    }

    /// The write that puts this value into the register. Nothing is written
    /// here: the caller performs it, as one volatile store.
    pub fn store(self) -> (write: RegisterWrite)
        ensures
            write == (RegisterWrite { address: SIGLBLID_ADDR, value: self.into_bits() }),
    {
        RegisterWrite { address: SIGLBLID_ADDR, value: self.bits }
    }

    /// The register as it was read: `value` is what one volatile load from
    /// [`SIGLBLID_ADDR`] gave.
    pub fn load(value: u64) -> (r: Self)
        ensures
            r.into_bits() == value,
    {
        SIGLBLID { bits: value }
    }
}

} // verus!
