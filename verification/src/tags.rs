//! Register words and packet headers of the Graphics Synthesizer.
//!
//! The Graphics Synthesizer takes its commands as 64-bit words, each made of
//! bit fields at fixed places, and the GIF carries them to it in quadwords
//! behind a tag. The functions here pack such words. A value that is too
//! large for its field is cut down to the field's width, as the hardware
//! would cut it; it never reaches a neighbouring field. Bits that belong to
//! no field are zero.

use crate::bits::{
    extract, lemma_field_bounds, lemma_low_bits_values, lemma_placed_fields, mask, place,
};
use vstd::prelude::*;

verus! {

/// The general purpose registers of the Graphics Synthesizer, which the GIF
/// writes on the program's behalf.
#[allow(non_camel_case_types)]
#[derive(Clone, Copy, Debug, PartialEq, Eq, Structural)]
pub enum GP {
    /// Primitive type and drawing attributes.
    PRIM,
    /// Vertex colour and texture coordinate Q.
    RGBAQ,
    /// Texture coordinates S and T.
    ST,
    /// Texel coordinates U and V.
    UV,
    /// Vertex position with fog coefficient; draws.
    XYZF2,
    /// Vertex position; draws.
    XYZ2,
    /// Texture buffer and colour table, first context.
    TEX0_1,
    /// Texture buffer and colour table, second context.
    TEX0_2,
    /// Texture wrapping, first context.
    CLAMP_1,
    /// Texture wrapping, second context.
    CLAMP_2,
    /// Fog coefficient of a vertex.
    FOG,
    /// Vertex position with fog coefficient; does not draw.
    XYZF3,
    /// Vertex position; does not draw.
    XYZ3,
    /// Level of detail and filtering, first context.
    TEX1_1,
    /// Level of detail and filtering, second context.
    TEX1_2,
    /// Storage format and colour table, first context.
    TEX2_1,
    /// Storage format and colour table, second context.
    TEX2_2,
    /// Offset to window coordinates, first context.
    XYOFFSET_1,
    /// Offset to window coordinates, second context.
    XYOFFSET_2,
    /// Whether drawing attributes come from PRIM (1) or PRMODE (0).
    PRMODECONT,
    /// Drawing attributes without the primitive type.
    PRMODE,
    /// Place of a colour table inside its buffer.
    TEXCLUT,
    /// Raster lines that are left out.
    SCANMSK,
    /// Smaller texture levels one to three, first context.
    MIPTBP1_1,
    /// Smaller texture levels one to three, second context.
    MIPTBP1_2,
    /// Smaller texture levels four to six, first context.
    MIPTBP2_1,
    /// Smaller texture levels four to six, second context.
    MIPTBP2_2,
    /// Alpha of texels that carry none.
    TEXA,
    /// Colour of distant fog.
    FOGCOL,
    /// Waits for drawing to end and drops the texture cache.
    TEXFLUSH,
    /// Drawing rectangle, first context.
    SCISSOR_1,
    /// Drawing rectangle, second context.
    SCISSOR_2,
    /// Blending equation, first context.
    ALPHA_1,
    /// Blending equation, second context.
    ALPHA_2,
    /// Dither matrix.
    DIMX,
    /// Dithering on or off.
    DTHE,
    /// Colour clamping on or off.
    COLCLAMP,
    /// Pixel tests, first context.
    TEST_1,
    /// Pixel tests, second context.
    TEST_2,
    /// Alpha blending pixel by pixel.
    PABE,
    /// Alpha correction, first context.
    FBA_1,
    /// Alpha correction, second context.
    FBA_2,
    /// Frame buffer, first context.
    FRAME_1,
    /// Frame buffer, second context.
    FRAME_2,
    /// Depth buffer, first context.
    ZBUF_1,
    /// Depth buffer, second context.
    ZBUF_2,
    /// Buffers of a transmission.
    BITBLTBUF,
    /// Corners of a transmission.
    TRXPOS,
    /// Size of a transmission.
    TRXREG,
    /// Direction of a transmission; starts it.
    TRXDIR,
    /// Data register of a transmission.
    HWREG,
    /// Raises the SIGNAL event.
    SIGNAL,
    /// Raises the FINISH event.
    FINISH,
    /// Raises the LABEL event.
    LABEL,
    /// Does nothing.
    NOP,
}

impl GP {
    /// The register's number, by which a quadword of a packet names it.
    pub open spec fn spec_number(self) -> u64 {
        match self {
            GP::PRIM => 0x00,
            GP::RGBAQ => 0x01,
            GP::ST => 0x02,
            GP::UV => 0x03,
            GP::XYZF2 => 0x04,
            GP::XYZ2 => 0x05,
            GP::TEX0_1 => 0x06,
            GP::TEX0_2 => 0x07,
            GP::CLAMP_1 => 0x08,
            GP::CLAMP_2 => 0x09,
            GP::FOG => 0x0A,
            GP::XYZF3 => 0x0C,
            GP::XYZ3 => 0x0D,
            GP::TEX1_1 => 0x14,
            GP::TEX1_2 => 0x15,
            GP::TEX2_1 => 0x16,
            GP::TEX2_2 => 0x17,
            GP::XYOFFSET_1 => 0x18,
            GP::XYOFFSET_2 => 0x19,
            GP::PRMODECONT => 0x1A,
            GP::PRMODE => 0x1B,
            GP::TEXCLUT => 0x1C,
            GP::SCANMSK => 0x22,
            GP::MIPTBP1_1 => 0x34,
            GP::MIPTBP1_2 => 0x35,
            GP::MIPTBP2_1 => 0x36,
            GP::MIPTBP2_2 => 0x37,
            GP::TEXA => 0x3B,
            GP::FOGCOL => 0x3D,
            GP::TEXFLUSH => 0x3F,
            GP::SCISSOR_1 => 0x40,
            GP::SCISSOR_2 => 0x41,
            GP::ALPHA_1 => 0x42,
            GP::ALPHA_2 => 0x43,
            GP::DIMX => 0x44,
            GP::DTHE => 0x45,
            GP::COLCLAMP => 0x46,
            GP::TEST_1 => 0x47,
            GP::TEST_2 => 0x48,
            GP::PABE => 0x49,
            GP::FBA_1 => 0x4A,
            GP::FBA_2 => 0x4B,
            GP::FRAME_1 => 0x4C,
            GP::FRAME_2 => 0x4D,
            GP::ZBUF_1 => 0x4E,
            GP::ZBUF_2 => 0x4F,
            GP::BITBLTBUF => 0x50,
            GP::TRXPOS => 0x51,
            GP::TRXREG => 0x52,
            GP::TRXDIR => 0x53,
            GP::HWREG => 0x54,
            GP::SIGNAL => 0x60,
            GP::FINISH => 0x61,
            GP::LABEL => 0x62,
            GP::NOP => 0x7F,
        }
    }

    /// The register's number, by which a quadword of a packet names it. It
    /// has seven bits.
    #[verifier::when_used_as_spec(spec_number)]
    pub fn number(self) -> (n: u64)
        ensures
            n == self.spec_number(),
            n <= 0x7F,
    {
        match self {
            GP::PRIM => 0x00,
            GP::RGBAQ => 0x01,
            GP::ST => 0x02,
            GP::UV => 0x03,
            GP::XYZF2 => 0x04,
            GP::XYZ2 => 0x05,
            GP::TEX0_1 => 0x06,
            GP::TEX0_2 => 0x07,
            GP::CLAMP_1 => 0x08,
            GP::CLAMP_2 => 0x09,
            GP::FOG => 0x0A,
            GP::XYZF3 => 0x0C,
            GP::XYZ3 => 0x0D,
            GP::TEX1_1 => 0x14,
            GP::TEX1_2 => 0x15,
            GP::TEX2_1 => 0x16,
            GP::TEX2_2 => 0x17,
            GP::XYOFFSET_1 => 0x18,
            GP::XYOFFSET_2 => 0x19,
            GP::PRMODECONT => 0x1A,
            GP::PRMODE => 0x1B,
            GP::TEXCLUT => 0x1C,
            GP::SCANMSK => 0x22,
            GP::MIPTBP1_1 => 0x34,
            GP::MIPTBP1_2 => 0x35,
            GP::MIPTBP2_1 => 0x36,
            GP::MIPTBP2_2 => 0x37,
            GP::TEXA => 0x3B,
            GP::FOGCOL => 0x3D,
            GP::TEXFLUSH => 0x3F,
            GP::SCISSOR_1 => 0x40,
            GP::SCISSOR_2 => 0x41,
            GP::ALPHA_1 => 0x42,
            GP::ALPHA_2 => 0x43,
            GP::DIMX => 0x44,
            GP::DTHE => 0x45,
            GP::COLCLAMP => 0x46,
            GP::TEST_1 => 0x47,
            GP::TEST_2 => 0x48,
            GP::PABE => 0x49,
            GP::FBA_1 => 0x4A,
            GP::FBA_2 => 0x4B,
            GP::FRAME_1 => 0x4C,
            GP::FRAME_2 => 0x4D,
            GP::ZBUF_1 => 0x4E,
            GP::ZBUF_2 => 0x4F,
            GP::BITBLTBUF => 0x50,
            GP::TRXPOS => 0x51,
            GP::TRXREG => 0x52,
            GP::TRXDIR => 0x53,
            GP::HWREG => 0x54,
            GP::SIGNAL => 0x60,
            GP::FINISH => 0x61,
            GP::LABEL => 0x62,
            GP::NOP => 0x7F,
        }
    }
}

/// The quadword with `d0` in its lower and `d1` in its upper half.
pub open spec fn spec_pack(d0: u64, d1: u64) -> u128 {
    (d0 + d1 * 0x1_0000_0000_0000_0000) as u128
}

/// The lower half of a quadword.
pub open spec fn lower_half(quad: u128) -> u64 {
    (quad % 0x1_0000_0000_0000_0000) as u64
}

/// The upper half of a quadword.
pub open spec fn upper_half(quad: u128) -> u64 {
    (quad / 0x1_0000_0000_0000_0000) as u64
}

/// Joins two words into a quadword: `d0` becomes the lower half, `d1` the
/// upper.
#[verifier::when_used_as_spec(spec_pack)]
pub fn pack(d0: u64, d1: u64) -> (quad: u128)
    ensures
        quad == spec_pack(d0, d1),
        quad == d0 + d1 * 0x1_0000_0000_0000_0000,
        lower_half(quad) == d0,
        upper_half(quad) == d1,
{
    let quad = (d0 as u128) | ((d1 as u128) << 64);
    assert(quad == d0 + d1 * 0x1_0000_0000_0000_0000) by (bit_vector)
        requires
            quad == (d0 as u128) | ((d1 as u128) << 64),
    ;
    quad
}

/// Splits a quadword into its lower and its upper half, undoing [`pack`].
pub fn unpack(quad: u128) -> (halves: (u64, u64))
    ensures
        halves.0 == lower_half(quad),
        halves.1 == upper_half(quad),
        pack(halves.0, halves.1) == quad,
{
    let low = (quad & 0xFFFF_FFFF_FFFF_FFFF) as u64;
    let high = (quad >> 64) as u64;
    assert(low == quad % 0x1_0000_0000_0000_0000 && high == quad / 0x1_0000_0000_0000_0000)
        by (bit_vector)
        requires
            low == (quad & 0xFFFF_FFFF_FFFF_FFFF) as u64,
            high == (quad >> 64) as u64,
    ;
    (low, high)
}

/// The quadword that writes `data` to `register` when it travels in a packet
/// whose register selector is address-and-data: the data is the lower half,
/// the register's number the upper.
pub open spec fn spec_packreg(register: GP, data: u64) -> u128 {
    spec_pack(data, register.spec_number())
}

/// Joins a register and the word meant for it into the quadword that writes
/// one to the other: the word becomes the lower half, the register's number
/// the upper.
#[verifier::when_used_as_spec(spec_packreg)]
pub fn packreg(d0: GP, d1: u64) -> (quad: u128)
    ensures
        quad == spec_packreg(d0, d1),
        lower_half(quad) == d1,
        upper_half(quad) == d0.number(),
{
    pack(d1, d0.number())
}

/// The layout of the lower half of a GIF tag, the header that says how the
/// quadwords after it are to be read.
///
/// - `nloop`: bits 0 to 14
/// - `eop`: bit 15
/// - `pre`: bit 46
/// - `prim`: bits 47 to 57
/// - `flg`: bits 58 to 59
/// - `nreg`: bits 60 to 63
///
/// Every other bit is zero.
pub open spec fn tag_word(nloop: u64, eop: u64, pre: u64, prim: u64, flg: u64, nreg: u64) -> u64 {
    place(nloop, 0, 15) | place(eop, 15, 1) | place(pre, 46, 1) | place(prim, 47, 11)
        | place(flg, 58, 2) | place(nreg, 60, 4)
}

/// Packs the lower half of a GIF tag, the header that says how the quadwords
/// after it are to be read. Each argument is cut down to the width of its
/// field; see [`tag_word`] for the layout.
#[verifier::when_used_as_spec(tag_word)]
pub fn gif_set_tag(nloop: u64, eop: u64, pre: u64, prim: u64, flg: u64, nreg: u64) -> (word: u64)
    ensures
        word == tag_word(nloop, eop, pre, prim, flg, nreg),
        extract(word, 0, 15) == mask(nloop, 15),
        extract(word, 15, 1) == mask(eop, 1),
        extract(word, 46, 1) == mask(pre, 1),
        extract(word, 47, 11) == mask(prim, 11),
        extract(word, 58, 2) == mask(flg, 2),
        extract(word, 60, 4) == mask(nreg, 4),
{
    proof {
        lemma_low_bits_values();
        lemma_placed_fields();
    }
    let word = ((nloop & 0x7FFF) << 0)
        | ((eop & 0x1) << 15)
        | ((pre & 0x1) << 46)
        | ((prim & 0x7FF) << 47)
        | ((flg & 0x3) << 58)
        | ((nreg & 0xF) << 60);
    assert(word == tag_word(nloop, eop, pre, prim, flg, nreg));
    word
}

/// The layout of a PRIM word, which selects the primitive and how it is drawn.
///
/// - `prm`: bits 0 to 2
/// - `iip`: bit 3
/// - `tme`: bit 4
/// - `fge`: bit 5
/// - `abe`: bit 6
/// - `aa1`: bit 7
/// - `fst`: bit 8
/// - `ctxt`: bit 9
/// - `fix`: bit 10
///
/// Every other bit is zero.
pub open spec fn prim_word(
    prm: u64,
    iip: u64,
    tme: u64,
    fge: u64,
    abe: u64,
    aa1: u64,
    fst: u64,
    ctxt: u64,
    fix: u64,
) -> u64 {
    place(prm, 0, 3) | place(iip, 3, 1) | place(tme, 4, 1) | place(fge, 5, 1)
        | place(abe, 6, 1) | place(aa1, 7, 1) | place(fst, 8, 1) | place(ctxt, 9, 1)
        | place(fix, 10, 1)
}

/// Packs a PRIM word, which selects the primitive and how it is drawn. Each
/// argument is cut down to the width of its field; see [`prim_word`] for the
/// layout.
#[verifier::when_used_as_spec(prim_word)]
pub fn gif_set_prim(
    prm: u64,
    iip: u64,
    tme: u64,
    fge: u64,
    abe: u64,
    aa1: u64,
    fst: u64,
    ctxt: u64,
    fix: u64,
) -> (word: u64)
    ensures
        word == prim_word(prm, iip, tme, fge, abe, aa1, fst, ctxt, fix),
        extract(word, 0, 3) == mask(prm, 3),
        extract(word, 3, 1) == mask(iip, 1),
        extract(word, 4, 1) == mask(tme, 1),
        extract(word, 5, 1) == mask(fge, 1),
        extract(word, 6, 1) == mask(abe, 1),
        extract(word, 7, 1) == mask(aa1, 1),
        extract(word, 8, 1) == mask(fst, 1),
        extract(word, 9, 1) == mask(ctxt, 1),
        extract(word, 10, 1) == mask(fix, 1),
{
    proof {
        lemma_low_bits_values();
        lemma_placed_fields();
    }
    let word = ((prm & 0x7) << 0)
        | ((iip & 0x1) << 3)
        | ((tme & 0x1) << 4)
        | ((fge & 0x1) << 5)
        | ((abe & 0x1) << 6)
        | ((aa1 & 0x1) << 7)
        | ((fst & 0x1) << 8)
        | ((ctxt & 0x1) << 9)
        | ((fix & 0x1) << 10);
    assert(word == prim_word(prm, iip, tme, fge, abe, aa1, fst, ctxt, fix));
    word
}

/// The layout of an RGBAQ word: the vertex colour and the texture coordinate Q.
///
/// - `r`: bits 0 to 7
/// - `g`: bits 8 to 15
/// - `b`: bits 16 to 23
/// - `a`: bits 24 to 31
/// - `q`: bits 32 to 63
///
/// Every other bit is zero.
pub open spec fn rgbaq_word(r: u64, g: u64, b: u64, a: u64, q: u64) -> u64 {
    place(r, 0, 8) | place(g, 8, 8) | place(b, 16, 8) | place(a, 24, 8) | place(q, 32, 32)
}

/// Packs an RGBAQ word: the vertex colour and the texture coordinate Q. Each
/// argument is cut down to the width of its field; see [`rgbaq_word`] for the
/// layout.
#[verifier::when_used_as_spec(rgbaq_word)]
pub fn gif_set_rgbaq(r: u64, g: u64, b: u64, a: u64, q: u64) -> (word: u64)
    ensures
        word == rgbaq_word(r, g, b, a, q),
        extract(word, 0, 8) == mask(r, 8),
        extract(word, 8, 8) == mask(g, 8),
        extract(word, 16, 8) == mask(b, 8),
        extract(word, 24, 8) == mask(a, 8),
        extract(word, 32, 32) == mask(q, 32),
{
    proof {
        lemma_low_bits_values();
        lemma_placed_fields();
    }
    let word = ((r & 0xFF) << 0)
        | ((g & 0xFF) << 8)
        | ((b & 0xFF) << 16)
        | ((a & 0xFF) << 24)
        | ((q & 0xFFFFFFFF) << 32);
    assert(word == rgbaq_word(r, g, b, a, q));
    word
}

/// The layout of an ST word: the texture coordinates S and T, each the bit
/// pattern of a single-precision number.
///
/// - `s`: bits 0 to 31
/// - `t`: bits 32 to 63
///
/// Every other bit is zero.
pub open spec fn st_word(s: u64, t: u64) -> u64 {
    place(s, 0, 32) | place(t, 32, 32)
}

/// Packs an ST word: the texture coordinates S and T, each the bit pattern of a
/// single-precision number. Each argument is cut down to the width of its
/// field; see [`st_word`] for the layout.
#[verifier::when_used_as_spec(st_word)]
pub fn gif_set_st(s: u64, t: u64) -> (word: u64)
    ensures
        word == st_word(s, t),
        extract(word, 0, 32) == mask(s, 32),
        extract(word, 32, 32) == mask(t, 32),
{
    proof {
        lemma_low_bits_values();
        lemma_placed_fields();
    }
    let word = ((s & 0xFFFFFFFF) << 0)
        | ((t & 0xFFFFFFFF) << 32);
    assert(word == st_word(s, t));
    word
}

/// The layout of a UV word: the texel coordinates U and V.
///
/// - `u`: bits 0 to 13
/// - `v`: bits 16 to 29
///
/// Every other bit is zero.
pub open spec fn uv_word(u: u64, v: u64) -> u64 {
    place(u, 0, 14) | place(v, 16, 14)
}

/// Packs a UV word: the texel coordinates U and V. Each argument is cut down to
/// the width of its field; see [`uv_word`] for the layout.
#[verifier::when_used_as_spec(uv_word)]
pub fn gif_set_uv(u: u64, v: u64) -> (word: u64)
    ensures
        word == uv_word(u, v),
        extract(word, 0, 14) == mask(u, 14),
        extract(word, 16, 14) == mask(v, 14),
{
    proof {
        lemma_low_bits_values();
        lemma_placed_fields();
    }
    let word = ((u & 0x3FFF) << 0)
        | ((v & 0x3FFF) << 16);
    assert(word == uv_word(u, v));
    word
}

/// The layout of an XYZ word: a vertex position.
///
/// - `x`: bits 0 to 15
/// - `y`: bits 16 to 31
/// - `z`: bits 32 to 63
///
/// Every other bit is zero.
pub open spec fn xyz_word(x: u64, y: u64, z: u64) -> u64 {
    place(x, 0, 16) | place(y, 16, 16) | place(z, 32, 32)
}

/// Packs an XYZ word: a vertex position. Each argument is cut down to the width
/// of its field; see [`xyz_word`] for the layout.
#[verifier::when_used_as_spec(xyz_word)]
pub fn gif_set_xyz(x: u64, y: u64, z: u64) -> (word: u64)
    ensures
        word == xyz_word(x, y, z),
        extract(word, 0, 16) == mask(x, 16),
        extract(word, 16, 16) == mask(y, 16),
        extract(word, 32, 32) == mask(z, 32),
{
    proof {
        lemma_low_bits_values();
        lemma_placed_fields();
    }
    let word = ((x & 0xFFFF) << 0)
        | ((y & 0xFFFF) << 16)
        | ((z & 0xFFFFFFFF) << 32);
    assert(word == xyz_word(x, y, z));
    word
}

/// The layout of an XYZF word: a vertex position with its fog coefficient.
///
/// - `x`: bits 0 to 15
/// - `y`: bits 16 to 31
/// - `z`: bits 32 to 55
/// - `f`: bits 56 to 63
///
/// Every other bit is zero.
pub open spec fn xyzf_word(x: u64, y: u64, z: u64, f: u64) -> u64 {
    place(x, 0, 16) | place(y, 16, 16) | place(z, 32, 24) | place(f, 56, 8)
}

/// Packs an XYZF word: a vertex position with its fog coefficient. Each
/// argument is cut down to the width of its field; see [`xyzf_word`] for the
/// layout.
#[verifier::when_used_as_spec(xyzf_word)]
pub fn gif_set_xyzf(x: u64, y: u64, z: u64, f: u64) -> (word: u64)
    ensures
        word == xyzf_word(x, y, z, f),
        extract(word, 0, 16) == mask(x, 16),
        extract(word, 16, 16) == mask(y, 16),
        extract(word, 32, 24) == mask(z, 24),
        extract(word, 56, 8) == mask(f, 8),
{
    proof {
        lemma_low_bits_values();
        lemma_placed_fields();
    }
    let word = ((x & 0xFFFF) << 0)
        | ((y & 0xFFFF) << 16)
        | ((z & 0xFFFFFF) << 32)
        | ((f & 0xFF) << 56);
    assert(word == xyzf_word(x, y, z, f));
    word
}

/// The layout of a TEX0 word: where a texture and its colour table lie and how
/// they are stored.
///
/// - `tba`: bits 0 to 13
/// - `tbw`: bits 14 to 19
/// - `psm`: bits 20 to 25
/// - `tw`: bits 26 to 29
/// - `th`: bits 30 to 33
/// - `tcc`: bit 34
/// - `tfnct`: bits 35 to 36
/// - `cba`: bits 37 to 50
/// - `cpsm`: bits 51 to 54
/// - `csm`: bit 55
/// - `csa`: bits 56 to 60
/// - `cld`: bits 61 to 63
///
/// Every other bit is zero.
pub open spec fn tex0_word(
    tba: u64,
    tbw: u64,
    psm: u64,
    tw: u64,
    th: u64,
    tcc: u64,
    tfnct: u64,
    cba: u64,
    cpsm: u64,
    csm: u64,
    csa: u64,
    cld: u64,
) -> u64 {
    place(tba, 0, 14) | place(tbw, 14, 6) | place(psm, 20, 6) | place(tw, 26, 4)
        | place(th, 30, 4) | place(tcc, 34, 1) | place(tfnct, 35, 2) | place(cba, 37, 14)
        | place(cpsm, 51, 4) | place(csm, 55, 1) | place(csa, 56, 5) | place(cld, 61, 3)
}

/// Packs a TEX0 word: where a texture and its colour table lie and how they are
/// stored. Each argument is cut down to the width of its field; see
/// [`tex0_word`] for the layout.
#[verifier::when_used_as_spec(tex0_word)]
pub fn gif_set_tex0(
    tba: u64,
    tbw: u64,
    psm: u64,
    tw: u64,
    th: u64,
    tcc: u64,
    tfnct: u64,
    cba: u64,
    cpsm: u64,
    csm: u64,
    csa: u64,
    cld: u64,
) -> (word: u64)
    ensures
        word == tex0_word(tba, tbw, psm, tw, th, tcc, tfnct, cba, cpsm, csm, csa, cld),
        extract(word, 0, 14) == mask(tba, 14),
        extract(word, 14, 6) == mask(tbw, 6),
        extract(word, 20, 6) == mask(psm, 6),
        extract(word, 26, 4) == mask(tw, 4),
        extract(word, 30, 4) == mask(th, 4),
        extract(word, 34, 1) == mask(tcc, 1),
        extract(word, 35, 2) == mask(tfnct, 2),
        extract(word, 37, 14) == mask(cba, 14),
        extract(word, 51, 4) == mask(cpsm, 4),
        extract(word, 55, 1) == mask(csm, 1),
        extract(word, 56, 5) == mask(csa, 5),
        extract(word, 61, 3) == mask(cld, 3),
{
    proof {
        lemma_low_bits_values();
        lemma_placed_fields();
    }
    let word = ((tba & 0x3FFF) << 0)
        | ((tbw & 0x3F) << 14)
        | ((psm & 0x3F) << 20)
        | ((tw & 0xF) << 26)
        | ((th & 0xF) << 30)
        | ((tcc & 0x1) << 34)
        | ((tfnct & 0x3) << 35)
        | ((cba & 0x3FFF) << 37)
        | ((cpsm & 0xF) << 51)
        | ((csm & 0x1) << 55)
        | ((csa & 0x1F) << 56)
        | ((cld & 0x7) << 61);
    assert(word == tex0_word(tba, tbw, psm, tw, th, tcc, tfnct, cba, cpsm, csm, csa, cld));
    word
}

/// The layout of a CLAMP word: how texture coordinates outside the texture are
/// treated.
///
/// - `wms`: bits 0 to 1
/// - `wmt`: bits 2 to 3
/// - `minu`: bits 4 to 13
/// - `maxu`: bits 14 to 23
/// - `minv`: bits 24 to 33
/// - `maxv`: bits 34 to 43
///
/// Every other bit is zero.
pub open spec fn clamp_word(wms: u64, wmt: u64, minu: u64, maxu: u64, minv: u64, maxv: u64) -> u64 {
    place(wms, 0, 2) | place(wmt, 2, 2) | place(minu, 4, 10) | place(maxu, 14, 10)
        | place(minv, 24, 10) | place(maxv, 34, 10)
}

/// Packs a CLAMP word: how texture coordinates outside the texture are treated.
/// Each argument is cut down to the width of its field; see [`clamp_word`] for
/// the layout.
#[verifier::when_used_as_spec(clamp_word)]
pub fn gif_set_clamp(
    wms: u64,
    wmt: u64,
    minu: u64,
    maxu: u64,
    minv: u64,
    maxv: u64,
) -> (word: u64)
    ensures
        word == clamp_word(wms, wmt, minu, maxu, minv, maxv),
        extract(word, 0, 2) == mask(wms, 2),
        extract(word, 2, 2) == mask(wmt, 2),
        extract(word, 4, 10) == mask(minu, 10),
        extract(word, 14, 10) == mask(maxu, 10),
        extract(word, 24, 10) == mask(minv, 10),
        extract(word, 34, 10) == mask(maxv, 10),
{
    proof {
        lemma_low_bits_values();
        lemma_placed_fields();
    }
    let word = ((wms & 0x3) << 0)
        | ((wmt & 0x3) << 2)
        | ((minu & 0x3FF) << 4)
        | ((maxu & 0x3FF) << 14)
        | ((minv & 0x3FF) << 24)
        | ((maxv & 0x3FF) << 34);
    assert(word == clamp_word(wms, wmt, minu, maxu, minv, maxv));
    word
}

/// The layout of a FOG word: the fog coefficient of a vertex.
///
/// - `fog`: bits 56 to 63
///
/// Every other bit is zero.
pub open spec fn fog_word(fog: u64) -> u64 {
    place(fog, 56, 8)
}

/// Packs a FOG word: the fog coefficient of a vertex. Each argument is cut down
/// to the width of its field; see [`fog_word`] for the layout.
#[verifier::when_used_as_spec(fog_word)]
pub fn gif_set_fog(fog: u64) -> (word: u64)
    ensures
        word == fog_word(fog),
        extract(word, 56, 8) == mask(fog, 8),
{
    proof {
        lemma_low_bits_values();
        lemma_placed_fields();
    }
    let word = (fog & 0xFF) << 56;
    assert(word == fog_word(fog));
    word
}

/// The layout of an ALPHA word: the inputs of the blending equation.
///
/// - `a`: bits 0 to 1
/// - `b`: bits 2 to 3
/// - `c`: bits 4 to 5
/// - `d`: bits 6 to 7
/// - `alpha`: bits 32 to 39
///
/// Every other bit is zero.
pub open spec fn alpha_word(a: u64, b: u64, c: u64, d: u64, alpha: u64) -> u64 {
    place(a, 0, 2) | place(b, 2, 2) | place(c, 4, 2) | place(d, 6, 2) | place(alpha, 32, 8)
}

/// Packs an ALPHA word: the inputs of the blending equation. Each argument is
/// cut down to the width of its field; see [`alpha_word`] for the layout.
#[verifier::when_used_as_spec(alpha_word)]
pub fn gs_set_alpha(a: u64, b: u64, c: u64, d: u64, alpha: u64) -> (word: u64)
    ensures
        word == alpha_word(a, b, c, d, alpha),
        extract(word, 0, 2) == mask(a, 2),
        extract(word, 2, 2) == mask(b, 2),
        extract(word, 4, 2) == mask(c, 2),
        extract(word, 6, 2) == mask(d, 2),
        extract(word, 32, 8) == mask(alpha, 8),
{
    proof {
        lemma_low_bits_values();
        lemma_placed_fields();
    }
    let word = ((a & 0x3) << 0)
        | ((b & 0x3) << 2)
        | ((c & 0x3) << 4)
        | ((d & 0x3) << 6)
        | ((alpha & 0xFF) << 32);
    assert(word == alpha_word(a, b, c, d, alpha));
    word
}

/// The layout of a BITBLTBUF word: the source and destination buffers of a
/// transmission.
///
/// - `sba`: bits 0 to 13
/// - `sbw`: bits 16 to 21
/// - `spsm`: bits 24 to 29
/// - `dba`: bits 32 to 45
/// - `dbw`: bits 48 to 53
/// - `dpsm`: bits 56 to 61
///
/// Every other bit is zero.
pub open spec fn bitbltbuf_word(
    sba: u64,
    sbw: u64,
    spsm: u64,
    dba: u64,
    dbw: u64,
    dpsm: u64,
) -> u64 {
    place(sba, 0, 14) | place(sbw, 16, 6) | place(spsm, 24, 6) | place(dba, 32, 14)
        | place(dbw, 48, 6) | place(dpsm, 56, 6)
}

/// Packs a BITBLTBUF word: the source and destination buffers of a
/// transmission. Each argument is cut down to the width of its field; see
/// [`bitbltbuf_word`] for the layout.
#[verifier::when_used_as_spec(bitbltbuf_word)]
pub fn gs_set_bitbltbuf(
    sba: u64,
    sbw: u64,
    spsm: u64,
    dba: u64,
    dbw: u64,
    dpsm: u64,
) -> (word: u64)
    ensures
        word == bitbltbuf_word(sba, sbw, spsm, dba, dbw, dpsm),
        extract(word, 0, 14) == mask(sba, 14),
        extract(word, 16, 6) == mask(sbw, 6),
        extract(word, 24, 6) == mask(spsm, 6),
        extract(word, 32, 14) == mask(dba, 14),
        extract(word, 48, 6) == mask(dbw, 6),
        extract(word, 56, 6) == mask(dpsm, 6),
{
    proof {
        lemma_low_bits_values();
        lemma_placed_fields();
    }
    let word = ((sba & 0x3FFF) << 0)
        | ((sbw & 0x3F) << 16)
        | ((spsm & 0x3F) << 24)
        | ((dba & 0x3FFF) << 32)
        | ((dbw & 0x3F) << 48)
        | ((dpsm & 0x3F) << 56);
    assert(word == bitbltbuf_word(sba, sbw, spsm, dba, dbw, dpsm));
    word
}

/// Packs a CLAMP word: how texture coordinates outside the texture are treated.
/// Each argument is cut down to the width of its field; see [`clamp_word`] for
/// the layout.
#[verifier::when_used_as_spec(clamp_word)]
pub fn gs_set_clamp(wms: u64, wmt: u64, minu: u64, maxu: u64, minv: u64, maxv: u64) -> (word: u64)
    ensures
        word == clamp_word(wms, wmt, minu, maxu, minv, maxv),
        extract(word, 0, 2) == mask(wms, 2),
        extract(word, 2, 2) == mask(wmt, 2),
        extract(word, 4, 10) == mask(minu, 10),
        extract(word, 14, 10) == mask(maxu, 10),
        extract(word, 24, 10) == mask(minv, 10),
        extract(word, 34, 10) == mask(maxv, 10),
{
    proof {
        lemma_low_bits_values();
        lemma_placed_fields();
    }
    let word = ((wms & 0x3) << 0)
        | ((wmt & 0x3) << 2)
        | ((minu & 0x3FF) << 4)
        | ((maxu & 0x3FF) << 14)
        | ((minv & 0x3FF) << 24)
        | ((maxv & 0x3FF) << 34);
    assert(word == clamp_word(wms, wmt, minu, maxu, minv, maxv));
    word
}

/// Packs a COLCLAMP word: whether colours are clamped or wrap around. The word
/// is `clamp` cut down to its lowest bit.
pub fn gs_set_colclamp(clamp: u64) -> (word: u64)
    ensures
        word == mask(clamp, 1),
{
    proof {
        lemma_low_bits_values();
    }
    clamp & 0x1
}

/// The layout of a DIMX word: the four by four dither matrix.
///
/// - `d00`: bits 0 to 1
/// - `d01`: bits 4 to 5
/// - `d02`: bits 8 to 9
/// - `d03`: bits 12 to 13
/// - `d10`: bits 16 to 17
/// - `d11`: bits 20 to 21
/// - `d12`: bits 24 to 25
/// - `d13`: bits 28 to 29
/// - `d20`: bits 32 to 33
/// - `d21`: bits 36 to 37
/// - `d22`: bits 40 to 41
/// - `d23`: bits 44 to 45
/// - `d30`: bits 48 to 49
/// - `d31`: bits 52 to 53
/// - `d32`: bits 56 to 57
/// - `d33`: bits 60 to 61
///
/// Every other bit is zero.
pub open spec fn dimx_word(
    d00: u64,
    d01: u64,
    d02: u64,
    d03: u64,
    d10: u64,
    d11: u64,
    d12: u64,
    d13: u64,
    d20: u64,
    d21: u64,
    d22: u64,
    d23: u64,
    d30: u64,
    d31: u64,
    d32: u64,
    d33: u64,
) -> u64 {
    place(d00, 0, 2) | place(d01, 4, 2) | place(d02, 8, 2) | place(d03, 12, 2)
        | place(d10, 16, 2) | place(d11, 20, 2) | place(d12, 24, 2) | place(d13, 28, 2)
        | place(d20, 32, 2) | place(d21, 36, 2) | place(d22, 40, 2) | place(d23, 44, 2)
        | place(d30, 48, 2) | place(d31, 52, 2) | place(d32, 56, 2) | place(d33, 60, 2)
}

/// Packs a DIMX word: the four by four dither matrix. Each argument is cut down
/// to the width of its field; see [`dimx_word`] for the layout.
#[verifier::when_used_as_spec(dimx_word)]
pub fn gs_set_dimx(
    d00: u64,
    d01: u64,
    d02: u64,
    d03: u64,
    d10: u64,
    d11: u64,
    d12: u64,
    d13: u64,
    d20: u64,
    d21: u64,
    d22: u64,
    d23: u64,
    d30: u64,
    d31: u64,
    d32: u64,
    d33: u64,
) -> (word: u64)
    ensures
        word == dimx_word(
            d00, d01, d02, d03, d10, d11, d12, d13, d20, d21, d22, d23, d30, d31, d32, d33,
        ),
        extract(word, 0, 2) == mask(d00, 2),
        extract(word, 4, 2) == mask(d01, 2),
        extract(word, 8, 2) == mask(d02, 2),
        extract(word, 12, 2) == mask(d03, 2),
        extract(word, 16, 2) == mask(d10, 2),
        extract(word, 20, 2) == mask(d11, 2),
        extract(word, 24, 2) == mask(d12, 2),
        extract(word, 28, 2) == mask(d13, 2),
        extract(word, 32, 2) == mask(d20, 2),
        extract(word, 36, 2) == mask(d21, 2),
        extract(word, 40, 2) == mask(d22, 2),
        extract(word, 44, 2) == mask(d23, 2),
        extract(word, 48, 2) == mask(d30, 2),
        extract(word, 52, 2) == mask(d31, 2),
        extract(word, 56, 2) == mask(d32, 2),
        extract(word, 60, 2) == mask(d33, 2),
{
    proof {
        lemma_low_bits_values();
        lemma_placed_fields();
    }
    let word = ((d00 & 0x3) << 0)
        | ((d01 & 0x3) << 4)
        | ((d02 & 0x3) << 8)
        | ((d03 & 0x3) << 12)
        | ((d10 & 0x3) << 16)
        | ((d11 & 0x3) << 20)
        | ((d12 & 0x3) << 24)
        | ((d13 & 0x3) << 28)
        | ((d20 & 0x3) << 32)
        | ((d21 & 0x3) << 36)
        | ((d22 & 0x3) << 40)
        | ((d23 & 0x3) << 44)
        | ((d30 & 0x3) << 48)
        | ((d31 & 0x3) << 52)
        | ((d32 & 0x3) << 56)
        | ((d33 & 0x3) << 60);
    assert(word == dimx_word(
        d00, d01, d02, d03, d10, d11, d12, d13, d20, d21, d22, d23, d30, d31, d32, d33,
    ));
    word
}

/// Packs a DTHE word: whether dithering is on. The word is `enable` cut down to
/// its lowest bit.
pub fn gs_set_dthe(enable: u64) -> (word: u64)
    ensures
        word == mask(enable, 1),
{
    proof {
        lemma_low_bits_values();
    }
    enable & 0x1
}

/// Packs an FBA word: the alpha correction bit. The word is `alpha` cut down to
/// its lowest bit.
pub fn gs_set_fba(alpha: u64) -> (word: u64)
    ensures
        word == mask(alpha, 1),
{
    proof {
        lemma_low_bits_values();
    }
    alpha & 0x1
}

/// Packs a FINISH word. The word is `a` cut down to its 32 lowest bits.
pub fn gs_set_finish(a: u64) -> (word: u64)
    ensures
        word == mask(a, 32),
{
    proof {
        lemma_low_bits_values();
    }
    a & 0xFFFFFFFF
}

/// Packs a FOG word: the fog coefficient of a vertex. Each argument is cut down
/// to the width of its field; see [`fog_word`] for the layout.
#[verifier::when_used_as_spec(fog_word)]
pub fn gs_set_fog(fog: u64) -> (word: u64)
    ensures
        word == fog_word(fog),
        extract(word, 56, 8) == mask(fog, 8),
{
    proof {
        lemma_low_bits_values();
        lemma_placed_fields();
    }
    let word = (fog & 0xFF) << 56;
    assert(word == fog_word(fog));
    word
}

/// The layout of a FOGCOL word: the colour of distant fog.
///
/// - `r`: bits 0 to 7
/// - `g`: bits 8 to 15
/// - `b`: bits 16 to 23
///
/// Every other bit is zero.
pub open spec fn fogcol_word(r: u64, g: u64, b: u64) -> u64 {
    place(r, 0, 8) | place(g, 8, 8) | place(b, 16, 8)
}

/// Packs a FOGCOL word: the colour of distant fog. Each argument is cut down to
/// the width of its field; see [`fogcol_word`] for the layout.
#[verifier::when_used_as_spec(fogcol_word)]
pub fn gs_set_fogcol(r: u64, g: u64, b: u64) -> (word: u64)
    ensures
        word == fogcol_word(r, g, b),
        extract(word, 0, 8) == mask(r, 8),
        extract(word, 8, 8) == mask(g, 8),
        extract(word, 16, 8) == mask(b, 8),
{
    proof {
        lemma_low_bits_values();
        lemma_placed_fields();
    }
    let word = ((r & 0xFF) << 0)
        | ((g & 0xFF) << 8)
        | ((b & 0xFF) << 16);
    assert(word == fogcol_word(r, g, b));
    word
}

/// The layout of a FRAME word: where the frame buffer lies, how wide it is and
/// which bits may be drawn.
///
/// - `fba`: bits 0 to 8
/// - `fbw`: bits 16 to 21
/// - `psm`: bits 24 to 29
/// - `fmsk`: bits 32 to 63
///
/// Every other bit is zero.
pub open spec fn frame_word(fba: u64, fbw: u64, psm: u64, fmsk: u64) -> u64 {
    place(fba, 0, 9) | place(fbw, 16, 6) | place(psm, 24, 6) | place(fmsk, 32, 32)
}

/// Packs a FRAME word: where the frame buffer lies, how wide it is and which
/// bits may be drawn. Each argument is cut down to the width of its field; see
/// [`frame_word`] for the layout.
#[verifier::when_used_as_spec(frame_word)]
pub fn gs_set_frame(fba: u64, fbw: u64, psm: u64, fmsk: u64) -> (word: u64)
    ensures
        word == frame_word(fba, fbw, psm, fmsk),
        extract(word, 0, 9) == mask(fba, 9),
        extract(word, 16, 6) == mask(fbw, 6),
        extract(word, 24, 6) == mask(psm, 6),
        extract(word, 32, 32) == mask(fmsk, 32),
{
    proof {
        lemma_low_bits_values();
        lemma_placed_fields();
    }
    let word = ((fba & 0x1FF) << 0)
        | ((fbw & 0x3F) << 16)
        | ((psm & 0x3F) << 24)
        | ((fmsk & 0xFFFFFFFF) << 32);
    assert(word == frame_word(fba, fbw, psm, fmsk));
    word
}

/// The layout of a frame buffer write mask for the sixteen-bit pixel formats,
/// spread over the thirty-two bits that FRAME takes.
///
/// - `r`: bits 3 to 7
/// - `g`: bits 11 to 15
/// - `b`: bits 19 to 23
/// - `a`: bit 31
///
/// Every other bit is zero.
pub open spec fn fmsk16_word(r: u64, g: u64, b: u64, a: u64) -> u64 {
    place(r, 3, 5) | place(g, 11, 5) | place(b, 19, 5) | place(a, 31, 1)
}

/// Packs a frame buffer write mask for the sixteen-bit pixel formats. Each
/// argument is cut down to the width of its field; see [`fmsk16_word`] for
/// the layout.
pub fn gs_set_fmsk16(r: u32, g: u32, b: u32, a: u32) -> (word: u32)
    ensures
        word == fmsk16_word(r as u64, g as u64, b as u64, a as u64),
        extract(word as u64, 3, 5) == mask(r as u64, 5),
        extract(word as u64, 11, 5) == mask(g as u64, 5),
        extract(word as u64, 19, 5) == mask(b as u64, 5),
        extract(word as u64, 31, 1) == mask(a as u64, 1),
{
    let word = ((r & 0x1F) << 3) | ((g & 0x1F) << 11) | ((b & 0x1F) << 19) | ((a & 0x1) << 31);
    assert(word as u64 == fmsk16_word(r as u64, g as u64, b as u64, a as u64)) by (bit_vector)
        requires
            word == ((r & 0x1F) << 3) | ((g & 0x1F) << 11) | ((b & 0x1F) << 19) | ((a & 0x1) << 31),
    ;
    proof {
        lemma_placed_fields();
    }
    word
}

/// Packs an HWREG word: sixty-four bits for the data register of a
/// transmission, taken as they are.
pub fn gs_set_hwreg(a: u64) -> (word: u64)
    ensures
        word == a,
{
    proof {
        lemma_low_bits_values();
        lemma_field_bounds();
    }
    let word = a & 0xFFFF_FFFF_FFFF_FFFF;
    assert(word == mask(a, 64));
    word
}

/// The layout of a LABEL word: an identifier and the mask of its bits that are
/// to be written.
///
/// - `id`: bits 0 to 31
/// - `msk`: bits 32 to 63
///
/// Every other bit is zero.
pub open spec fn label_word(id: u64, msk: u64) -> u64 {
    place(id, 0, 32) | place(msk, 32, 32)
}

/// Packs a LABEL word: an identifier and the mask of its bits that are to be
/// written. Each argument is cut down to the width of its field; see
/// [`label_word`] for the layout.
#[verifier::when_used_as_spec(label_word)]
pub fn gs_set_label(id: u64, msk: u64) -> (word: u64)
    ensures
        word == label_word(id, msk),
        extract(word, 0, 32) == mask(id, 32),
        extract(word, 32, 32) == mask(msk, 32),
{
    proof {
        lemma_low_bits_values();
        lemma_placed_fields();
    }
    let word = ((id & 0xFFFFFFFF) << 0)
        | ((msk & 0xFFFFFFFF) << 32);
    assert(word == label_word(id, msk));
    word
}

/// The layout of a MIPTBP1 word: base pointer and width of the first three
/// smaller texture levels.
///
/// - `tba1`: bits 0 to 13
/// - `tbw1`: bits 14 to 19
/// - `tba2`: bits 20 to 33
/// - `tbw2`: bits 34 to 39
/// - `tba3`: bits 40 to 53
/// - `tbw3`: bits 54 to 59
///
/// Every other bit is zero.
pub open spec fn miptbp_word(
    tba1: u64,
    tbw1: u64,
    tba2: u64,
    tbw2: u64,
    tba3: u64,
    tbw3: u64,
) -> u64 {
    place(tba1, 0, 14) | place(tbw1, 14, 6) | place(tba2, 20, 14) | place(tbw2, 34, 6)
        | place(tba3, 40, 14) | place(tbw3, 54, 6)
}

/// Packs a MIPTBP1 word: base pointer and width of the first three smaller
/// texture levels. Each argument is cut down to the width of its field; see
/// [`miptbp_word`] for the layout.
#[verifier::when_used_as_spec(miptbp_word)]
pub fn gs_set_miptbp1(
    tba1: u64,
    tbw1: u64,
    tba2: u64,
    tbw2: u64,
    tba3: u64,
    tbw3: u64,
) -> (word: u64)
    ensures
        word == miptbp_word(tba1, tbw1, tba2, tbw2, tba3, tbw3),
        extract(word, 0, 14) == mask(tba1, 14),
        extract(word, 14, 6) == mask(tbw1, 6),
        extract(word, 20, 14) == mask(tba2, 14),
        extract(word, 34, 6) == mask(tbw2, 6),
        extract(word, 40, 14) == mask(tba3, 14),
        extract(word, 54, 6) == mask(tbw3, 6),
{
    proof {
        lemma_low_bits_values();
        lemma_placed_fields();
    }
    let word = ((tba1 & 0x3FFF) << 0)
        | ((tbw1 & 0x3F) << 14)
        | ((tba2 & 0x3FFF) << 20)
        | ((tbw2 & 0x3F) << 34)
        | ((tba3 & 0x3FFF) << 40)
        | ((tbw3 & 0x3F) << 54);
    assert(word == miptbp_word(tba1, tbw1, tba2, tbw2, tba3, tbw3));
    word
}

/// Packs a MIPTBP2 word: base pointer and width of the last three smaller
/// texture levels. Each argument is cut down to the width of its field; see
/// [`miptbp_word`] for the layout.
#[verifier::when_used_as_spec(miptbp_word)]
pub fn gs_set_miptbp2(
    tba4: u64,
    tbw4: u64,
    tba5: u64,
    tbw5: u64,
    tba6: u64,
    tbw6: u64,
) -> (word: u64)
    ensures
        word == miptbp_word(tba4, tbw4, tba5, tbw5, tba6, tbw6),
        extract(word, 0, 14) == mask(tba4, 14),
        extract(word, 14, 6) == mask(tbw4, 6),
        extract(word, 20, 14) == mask(tba5, 14),
        extract(word, 34, 6) == mask(tbw5, 6),
        extract(word, 40, 14) == mask(tba6, 14),
        extract(word, 54, 6) == mask(tbw6, 6),
{
    proof {
        lemma_low_bits_values();
        lemma_placed_fields();
    }
    let word = ((tba4 & 0x3FFF) << 0)
        | ((tbw4 & 0x3F) << 14)
        | ((tba5 & 0x3FFF) << 20)
        | ((tbw5 & 0x3F) << 34)
        | ((tba6 & 0x3FFF) << 40)
        | ((tbw6 & 0x3F) << 54);
    assert(word == miptbp_word(tba4, tbw4, tba5, tbw5, tba6, tbw6));
    word
}

/// Packs a NOP word. The word is `a` cut down to its 32 lowest bits.
pub fn gs_set_nop(a: u64) -> (word: u64)
    ensures
        word == mask(a, 32),
{
    proof {
        lemma_low_bits_values();
    }
    a & 0xFFFFFFFF
}

/// Packs a PABE word: whether alpha blending is decided pixel by pixel. The
/// word is `enable` cut down to its lowest bit.
pub fn gs_set_pabe(enable: u64) -> (word: u64)
    ensures
        word == mask(enable, 1),
{
    proof {
        lemma_low_bits_values();
    }
    enable & 0x1
}

/// Packs a PRIM word, which selects the primitive and how it is drawn. Each
/// argument is cut down to the width of its field; see [`prim_word`] for the
/// layout.
#[verifier::when_used_as_spec(prim_word)]
pub fn gs_set_prim(
    prim: u64,
    iip: u64,
    tme: u64,
    fge: u64,
    abe: u64,
    aa1: u64,
    fst: u64,
    ctxt: u64,
    fix: u64,
) -> (word: u64)
    ensures
        word == prim_word(prim, iip, tme, fge, abe, aa1, fst, ctxt, fix),
        extract(word, 0, 3) == mask(prim, 3),
        extract(word, 3, 1) == mask(iip, 1),
        extract(word, 4, 1) == mask(tme, 1),
        extract(word, 5, 1) == mask(fge, 1),
        extract(word, 6, 1) == mask(abe, 1),
        extract(word, 7, 1) == mask(aa1, 1),
        extract(word, 8, 1) == mask(fst, 1),
        extract(word, 9, 1) == mask(ctxt, 1),
        extract(word, 10, 1) == mask(fix, 1),
{
    proof {
        lemma_low_bits_values();
        lemma_placed_fields();
    }
    let word = ((prim & 0x7) << 0)
        | ((iip & 0x1) << 3)
        | ((tme & 0x1) << 4)
        | ((fge & 0x1) << 5)
        | ((abe & 0x1) << 6)
        | ((aa1 & 0x1) << 7)
        | ((fst & 0x1) << 8)
        | ((ctxt & 0x1) << 9)
        | ((fix & 0x1) << 10);
    assert(word == prim_word(prim, iip, tme, fge, abe, aa1, fst, ctxt, fix));
    word
}

/// The layout of a PRMODE word: the drawing attributes of PRIM without the
/// primitive type.
///
/// - `iip`: bit 3
/// - `tme`: bit 4
/// - `fge`: bit 5
/// - `abe`: bit 6
/// - `aa1`: bit 7
/// - `fst`: bit 8
/// - `ctxt`: bit 9
/// - `fix`: bit 10
///
/// Every other bit is zero.
pub open spec fn prmode_word(
    iip: u64,
    tme: u64,
    fge: u64,
    abe: u64,
    aa1: u64,
    fst: u64,
    ctxt: u64,
    fix: u64,
) -> u64 {
    place(iip, 3, 1) | place(tme, 4, 1) | place(fge, 5, 1) | place(abe, 6, 1)
        | place(aa1, 7, 1) | place(fst, 8, 1) | place(ctxt, 9, 1) | place(fix, 10, 1)
}

/// Packs a PRMODE word: the drawing attributes of PRIM without the primitive
/// type. Each argument is cut down to the width of its field; see
/// [`prmode_word`] for the layout.
#[verifier::when_used_as_spec(prmode_word)]
pub fn gs_set_prmode(
    iip: u64,
    tme: u64,
    fge: u64,
    abe: u64,
    aa1: u64,
    fst: u64,
    ctxt: u64,
    fix: u64,
) -> (word: u64)
    ensures
        word == prmode_word(iip, tme, fge, abe, aa1, fst, ctxt, fix),
        extract(word, 3, 1) == mask(iip, 1),
        extract(word, 4, 1) == mask(tme, 1),
        extract(word, 5, 1) == mask(fge, 1),
        extract(word, 6, 1) == mask(abe, 1),
        extract(word, 7, 1) == mask(aa1, 1),
        extract(word, 8, 1) == mask(fst, 1),
        extract(word, 9, 1) == mask(ctxt, 1),
        extract(word, 10, 1) == mask(fix, 1),
{
    proof {
        lemma_low_bits_values();
        lemma_placed_fields();
    }
    let word = ((iip & 0x1) << 3)
        | ((tme & 0x1) << 4)
        | ((fge & 0x1) << 5)
        | ((abe & 0x1) << 6)
        | ((aa1 & 0x1) << 7)
        | ((fst & 0x1) << 8)
        | ((ctxt & 0x1) << 9)
        | ((fix & 0x1) << 10);
    assert(word == prmode_word(iip, tme, fge, abe, aa1, fst, ctxt, fix));
    word
}

/// Packs a PRMODECONT word: whether the drawing attributes come from PRIM (1)
/// or from PRMODE (0). The word is `ctrl` cut down to its lowest bit.
pub fn gs_set_prmodecont(ctrl: u64) -> (word: u64)
    ensures
        word == mask(ctrl, 1),
{
    proof {
        lemma_low_bits_values();
    }
    ctrl & 0x1
}

/// Packs an RGBAQ word from colour channels of eight bits each. `q` is the
/// bit pattern of the single-precision texture coordinate Q, as
/// `f32::to_bits` gives it; nothing is cut off, since every argument has
/// exactly the width of its field.
pub fn gs_set_rgbaq(r: u8, g: u8, b: u8, a: u8, q: u32) -> (word: u64)
    ensures
        word == rgbaq_word(r as u64, g as u64, b as u64, a as u64, q as u64),
        word == r + g * 0x100 + b * 0x1_0000 + a * 0x100_0000 + q * 0x1_0000_0000,
        extract(word, 0, 8) == r,
        extract(word, 8, 8) == g,
        extract(word, 16, 8) == b,
        extract(word, 24, 8) == a,
        extract(word, 32, 32) == q,
{
    proof {
        lemma_low_bits_values();
        lemma_placed_fields();
        lemma_field_bounds();
    }
    let word = ((r as u64 & 0xFF) << 0)
        | ((g as u64 & 0xFF) << 8)
        | ((b as u64 & 0xFF) << 16)
        | ((a as u64 & 0xFF) << 24)
        | ((q as u64 & 0xFFFF_FFFF) << 32);
    assert(word == rgbaq_word(r as u64, g as u64, b as u64, a as u64, q as u64));
    assert(word == r + g * 0x100 + b * 0x1_0000 + a * 0x100_0000 + q * 0x1_0000_0000)
        by (bit_vector)
        requires
            word == ((r as u64 & 0xFF) << 0) | ((g as u64 & 0xFF) << 8) | ((b as u64 & 0xFF) << 16)
                | ((a as u64 & 0xFF) << 24) | ((q as u64 & 0xFFFF_FFFF) << 32),
    ;
    word
}

/// Packs a SCANMSK word: which raster lines are left out. The word is `msk` cut
/// down to its 2 lowest bits.
pub fn gs_set_scanmsk(msk: u64) -> (word: u64)
    ensures
        word == mask(msk, 2),
{
    proof {
        lemma_low_bits_values();
    }
    msk & 0x3
}

/// The layout of a SCISSOR word: the corners of the rectangle that drawing is
/// confined to.
///
/// - `x0`: bits 0 to 10
/// - `x1`: bits 16 to 26
/// - `y0`: bits 32 to 42
/// - `y1`: bits 48 to 58
///
/// Every other bit is zero.
pub open spec fn scissor_word(x0: u64, x1: u64, y0: u64, y1: u64) -> u64 {
    place(x0, 0, 11) | place(x1, 16, 11) | place(y0, 32, 11) | place(y1, 48, 11)
}

/// Packs a SCISSOR word: the corners of the rectangle that drawing is confined
/// to. Each argument is cut down to the width of its field; see
/// [`scissor_word`] for the layout.
#[verifier::when_used_as_spec(scissor_word)]
pub fn gs_set_scissor(x0: u64, x1: u64, y0: u64, y1: u64) -> (word: u64)
    ensures
        word == scissor_word(x0, x1, y0, y1),
        extract(word, 0, 11) == mask(x0, 11),
        extract(word, 16, 11) == mask(x1, 11),
        extract(word, 32, 11) == mask(y0, 11),
        extract(word, 48, 11) == mask(y1, 11),
{
    proof {
        lemma_low_bits_values();
        lemma_placed_fields();
    }
    let word = ((x0 & 0x7FF) << 0)
        | ((x1 & 0x7FF) << 16)
        | ((y0 & 0x7FF) << 32)
        | ((y1 & 0x7FF) << 48);
    assert(word == scissor_word(x0, x1, y0, y1));
    word
}

/// The layout of a SIGNAL word: an identifier and the mask of its bits that are
/// to be written.
///
/// - `id`: bits 0 to 31
/// - `msk`: bits 32 to 63
///
/// Every other bit is zero.
pub open spec fn signal_word(id: u64, msk: u64) -> u64 {
    place(id, 0, 32) | place(msk, 32, 32)
}

/// Packs a SIGNAL word: an identifier and the mask of its bits that are to be
/// written. Each argument is cut down to the width of its field; see
/// [`signal_word`] for the layout.
#[verifier::when_used_as_spec(signal_word)]
pub fn gs_set_signal(id: u64, msk: u64) -> (word: u64)
    ensures
        word == signal_word(id, msk),
        extract(word, 0, 32) == mask(id, 32),
        extract(word, 32, 32) == mask(msk, 32),
{
    proof {
        lemma_low_bits_values();
        lemma_placed_fields();
    }
    let word = ((id & 0xFFFFFFFF) << 0)
        | ((msk & 0xFFFFFFFF) << 32);
    assert(word == signal_word(id, msk));
    word
}

/// Packs an ST word: the texture coordinates S and T, each the bit pattern of a
/// single-precision number. Each argument is cut down to the width of its
/// field; see [`st_word`] for the layout.
#[verifier::when_used_as_spec(st_word)]
pub fn gs_set_st(s: u64, t: u64) -> (word: u64)
    ensures
        word == st_word(s, t),
        extract(word, 0, 32) == mask(s, 32),
        extract(word, 32, 32) == mask(t, 32),
{
    proof {
        lemma_low_bits_values();
        lemma_placed_fields();
    }
    let word = ((s & 0xFFFFFFFF) << 0)
        | ((t & 0xFFFFFFFF) << 32);
    assert(word == st_word(s, t));
    word
}

/// The layout of a TEST word: the alpha, destination alpha and depth tests.
///
/// - `aten`: bit 0
/// - `atmeth`: bits 1 to 3
/// - `atref`: bits 4 to 11
/// - `atfail`: bits 12 to 13
/// - `daten`: bit 14
/// - `datmd`: bit 15
/// - `zten`: bit 16
/// - `ztmeth`: bits 17 to 18
///
/// Every other bit is zero.
pub open spec fn test_word(
    aten: u64,
    atmeth: u64,
    atref: u64,
    atfail: u64,
    daten: u64,
    datmd: u64,
    zten: u64,
    ztmeth: u64,
) -> u64 {
    place(aten, 0, 1) | place(atmeth, 1, 3) | place(atref, 4, 8) | place(atfail, 12, 2)
        | place(daten, 14, 1) | place(datmd, 15, 1) | place(zten, 16, 1) | place(ztmeth, 17, 2)
}

/// Packs a TEST word: the alpha, destination alpha and depth tests. Each
/// argument is cut down to the width of its field; see [`test_word`] for the
/// layout.
#[verifier::when_used_as_spec(test_word)]
pub fn gs_set_test(
    aten: u64,
    atmeth: u64,
    atref: u64,
    atfail: u64,
    daten: u64,
    datmd: u64,
    zten: u64,
    ztmeth: u64,
) -> (word: u64)
    ensures
        word == test_word(aten, atmeth, atref, atfail, daten, datmd, zten, ztmeth),
        extract(word, 0, 1) == mask(aten, 1),
        extract(word, 1, 3) == mask(atmeth, 3),
        extract(word, 4, 8) == mask(atref, 8),
        extract(word, 12, 2) == mask(atfail, 2),
        extract(word, 14, 1) == mask(daten, 1),
        extract(word, 15, 1) == mask(datmd, 1),
        extract(word, 16, 1) == mask(zten, 1),
        extract(word, 17, 2) == mask(ztmeth, 2),
{
    proof {
        lemma_low_bits_values();
        lemma_placed_fields();
    }
    let word = ((aten & 0x1) << 0)
        | ((atmeth & 0x7) << 1)
        | ((atref & 0xFF) << 4)
        | ((atfail & 0x3) << 12)
        | ((daten & 0x1) << 14)
        | ((datmd & 0x1) << 15)
        | ((zten & 0x1) << 16)
        | ((ztmeth & 0x3) << 17);
    assert(word == test_word(aten, atmeth, atref, atfail, daten, datmd, zten, ztmeth));
    word
}

/// The layout of a TEX0 word for a texture without a colour table.
///
/// - `tba`: bits 0 to 13
/// - `tbw`: bits 14 to 19
/// - `psm`: bits 20 to 25
/// - `tw`: bits 26 to 29
/// - `th`: bits 30 to 33
/// - `tcc`: bit 34
/// - `tfnct`: bits 35 to 36
///
/// Every other bit is zero.
pub open spec fn tex0_small_word(
    tba: u64,
    tbw: u64,
    psm: u64,
    tw: u64,
    th: u64,
    tcc: u64,
    tfnct: u64,
) -> u64 {
    place(tba, 0, 14) | place(tbw, 14, 6) | place(psm, 20, 6) | place(tw, 26, 4)
        | place(th, 30, 4) | place(tcc, 34, 1) | place(tfnct, 35, 2)
}

/// Packs a TEX0 word for a texture without a colour table. Each argument is cut
/// down to the width of its field; see [`tex0_small_word`] for the layout.
#[verifier::when_used_as_spec(tex0_small_word)]
pub fn gs_set_tex0_small(
    tba: u64,
    tbw: u64,
    psm: u64,
    tw: u64,
    th: u64,
    tcc: u64,
    tfnct: u64,
) -> (word: u64)
    ensures
        word == tex0_small_word(tba, tbw, psm, tw, th, tcc, tfnct),
        extract(word, 0, 14) == mask(tba, 14),
        extract(word, 14, 6) == mask(tbw, 6),
        extract(word, 20, 6) == mask(psm, 6),
        extract(word, 26, 4) == mask(tw, 4),
        extract(word, 30, 4) == mask(th, 4),
        extract(word, 34, 1) == mask(tcc, 1),
        extract(word, 35, 2) == mask(tfnct, 2),
{
    proof {
        lemma_low_bits_values();
        lemma_placed_fields();
    }
    let word = ((tba & 0x3FFF) << 0)
        | ((tbw & 0x3F) << 14)
        | ((psm & 0x3F) << 20)
        | ((tw & 0xF) << 26)
        | ((th & 0xF) << 30)
        | ((tcc & 0x1) << 34)
        | ((tfnct & 0x3) << 35);
    assert(word == tex0_small_word(tba, tbw, psm, tw, th, tcc, tfnct));
    word
}

/// Packs a TEX0 word: where a texture and its colour table lie and how they are
/// stored. Each argument is cut down to the width of its field; see
/// [`tex0_word`] for the layout.
#[verifier::when_used_as_spec(tex0_word)]
pub fn gs_set_tex0(
    tba: u64,
    tbw: u64,
    psm: u64,
    tw: u64,
    th: u64,
    tcc: u64,
    tfnct: u64,
    cba: u64,
    cpsm: u64,
    csm: u64,
    csa: u64,
    cld: u64,
) -> (word: u64)
    ensures
        word == tex0_word(tba, tbw, psm, tw, th, tcc, tfnct, cba, cpsm, csm, csa, cld),
        extract(word, 0, 14) == mask(tba, 14),
        extract(word, 14, 6) == mask(tbw, 6),
        extract(word, 20, 6) == mask(psm, 6),
        extract(word, 26, 4) == mask(tw, 4),
        extract(word, 30, 4) == mask(th, 4),
        extract(word, 34, 1) == mask(tcc, 1),
        extract(word, 35, 2) == mask(tfnct, 2),
        extract(word, 37, 14) == mask(cba, 14),
        extract(word, 51, 4) == mask(cpsm, 4),
        extract(word, 55, 1) == mask(csm, 1),
        extract(word, 56, 5) == mask(csa, 5),
        extract(word, 61, 3) == mask(cld, 3),
{
    proof {
        lemma_low_bits_values();
        lemma_placed_fields();
    }
    let word = ((tba & 0x3FFF) << 0)
        | ((tbw & 0x3F) << 14)
        | ((psm & 0x3F) << 20)
        | ((tw & 0xF) << 26)
        | ((th & 0xF) << 30)
        | ((tcc & 0x1) << 34)
        | ((tfnct & 0x3) << 35)
        | ((cba & 0x3FFF) << 37)
        | ((cpsm & 0xF) << 51)
        | ((csm & 0x1) << 55)
        | ((csa & 0x1F) << 56)
        | ((cld & 0x7) << 61);
    assert(word == tex0_word(tba, tbw, psm, tw, th, tcc, tfnct, cba, cpsm, csm, csa, cld));
    word
}

/// The layout of a TEX1 word: level of detail and filtering.
///
/// - `lcm`: bit 0
/// - `mxl`: bits 2 to 4
/// - `mmag`: bit 5
/// - `mmin`: bits 6 to 8
/// - `mtba`: bit 9
/// - `l`: bits 19 to 20
/// - `k`: bits 32 to 43
///
/// Every other bit is zero.
pub open spec fn tex1_word(
    lcm: u64,
    mxl: u64,
    mmag: u64,
    mmin: u64,
    mtba: u64,
    l: u64,
    k: u64,
) -> u64 {
    place(lcm, 0, 1) | place(mxl, 2, 3) | place(mmag, 5, 1) | place(mmin, 6, 3)
        | place(mtba, 9, 1) | place(l, 19, 2) | place(k, 32, 12)
}

/// Packs a TEX1 word: level of detail and filtering. Each argument is cut down
/// to the width of its field; see [`tex1_word`] for the layout.
#[verifier::when_used_as_spec(tex1_word)]
pub fn gs_set_tex1(
    lcm: u64,
    mxl: u64,
    mmag: u64,
    mmin: u64,
    mtba: u64,
    l: u64,
    k: u64,
) -> (word: u64)
    ensures
        word == tex1_word(lcm, mxl, mmag, mmin, mtba, l, k),
        extract(word, 0, 1) == mask(lcm, 1),
        extract(word, 2, 3) == mask(mxl, 3),
        extract(word, 5, 1) == mask(mmag, 1),
        extract(word, 6, 3) == mask(mmin, 3),
        extract(word, 9, 1) == mask(mtba, 1),
        extract(word, 19, 2) == mask(l, 2),
        extract(word, 32, 12) == mask(k, 12),
{
    proof {
        lemma_low_bits_values();
        lemma_placed_fields();
    }
    let word = ((lcm & 0x1) << 0)
        | ((mxl & 0x7) << 2)
        | ((mmag & 0x1) << 5)
        | ((mmin & 0x7) << 6)
        | ((mtba & 0x1) << 9)
        | ((l & 0x3) << 19)
        | ((k & 0xFFF) << 32);
    assert(word == tex1_word(lcm, mxl, mmag, mmin, mtba, l, k));
    word
}

/// The layout of a TEX2 word: the storage format and colour table of a texture,
/// without its buffer.
///
/// - `psm`: bits 20 to 25
/// - `cba`: bits 37 to 50
/// - `cpsm`: bits 51 to 54
/// - `csm`: bit 55
/// - `csa`: bits 56 to 60
/// - `cld`: bits 61 to 63
///
/// Every other bit is zero.
pub open spec fn tex2_word(psm: u64, cba: u64, cpsm: u64, csm: u64, csa: u64, cld: u64) -> u64 {
    place(psm, 20, 6) | place(cba, 37, 14) | place(cpsm, 51, 4) | place(csm, 55, 1)
        | place(csa, 56, 5) | place(cld, 61, 3)
}

/// Packs a TEX2 word: the storage format and colour table of a texture, without
/// its buffer. Each argument is cut down to the width of its field; see
/// [`tex2_word`] for the layout.
#[verifier::when_used_as_spec(tex2_word)]
pub fn gs_set_tex2(psm: u64, cba: u64, cpsm: u64, csm: u64, csa: u64, cld: u64) -> (word: u64)
    ensures
        word == tex2_word(psm, cba, cpsm, csm, csa, cld),
        extract(word, 20, 6) == mask(psm, 6),
        extract(word, 37, 14) == mask(cba, 14),
        extract(word, 51, 4) == mask(cpsm, 4),
        extract(word, 55, 1) == mask(csm, 1),
        extract(word, 56, 5) == mask(csa, 5),
        extract(word, 61, 3) == mask(cld, 3),
{
    proof {
        lemma_low_bits_values();
        lemma_placed_fields();
    }
    let word = ((psm & 0x3F) << 20)
        | ((cba & 0x3FFF) << 37)
        | ((cpsm & 0xF) << 51)
        | ((csm & 0x1) << 55)
        | ((csa & 0x1F) << 56)
        | ((cld & 0x7) << 61);
    assert(word == tex2_word(psm, cba, cpsm, csm, csa, cld));
    word
}

/// The layout of a TEXA word: the alpha given to texels that carry none.
///
/// - `a0`: bits 0 to 7
/// - `am`: bit 15
/// - `a1`: bits 32 to 39
///
/// Every other bit is zero.
pub open spec fn texa_word(a0: u64, am: u64, a1: u64) -> u64 {
    place(a0, 0, 8) | place(am, 15, 1) | place(a1, 32, 8)
}

/// Packs a TEXA word: the alpha given to texels that carry none. Each argument
/// is cut down to the width of its field; see [`texa_word`] for the layout.
#[verifier::when_used_as_spec(texa_word)]
pub fn gs_set_texa(a0: u64, am: u64, a1: u64) -> (word: u64)
    ensures
        word == texa_word(a0, am, a1),
        extract(word, 0, 8) == mask(a0, 8),
        extract(word, 15, 1) == mask(am, 1),
        extract(word, 32, 8) == mask(a1, 8),
{
    proof {
        lemma_low_bits_values();
        lemma_placed_fields();
    }
    let word = ((a0 & 0xFF) << 0)
        | ((am & 0x1) << 15)
        | ((a1 & 0xFF) << 32);
    assert(word == texa_word(a0, am, a1));
    word
}

/// The layout of a TEXCLUT word: where in its buffer a colour table begins.
///
/// - `cbw`: bits 0 to 5
/// - `cu`: bits 6 to 11
/// - `cv`: bits 12 to 23
///
/// Every other bit is zero.
pub open spec fn texclut_word(cbw: u64, cu: u64, cv: u64) -> u64 {
    place(cbw, 0, 6) | place(cu, 6, 6) | place(cv, 12, 12)
}

/// Packs a TEXCLUT word: where in its buffer a colour table begins. Each
/// argument is cut down to the width of its field; see [`texclut_word`] for the
/// layout.
#[verifier::when_used_as_spec(texclut_word)]
pub fn gs_set_texclut(cbw: u64, cu: u64, cv: u64) -> (word: u64)
    ensures
        word == texclut_word(cbw, cu, cv),
        extract(word, 0, 6) == mask(cbw, 6),
        extract(word, 6, 6) == mask(cu, 6),
        extract(word, 12, 12) == mask(cv, 12),
{
    proof {
        lemma_low_bits_values();
        lemma_placed_fields();
    }
    let word = ((cbw & 0x3F) << 0)
        | ((cu & 0x3F) << 6)
        | ((cv & 0xFFF) << 12);
    assert(word == texclut_word(cbw, cu, cv));
    word
}

/// Packs a TRXDIR word: the direction of a transmission, which also starts it.
/// The word is `dir` cut down to its 2 lowest bits.
pub fn gs_set_trxdir(dir: u64) -> (word: u64)
    ensures
        word == mask(dir, 2),
{
    proof {
        lemma_low_bits_values();
    }
    dir & 0x3
}

/// Packs a TEXFLUSH word. The word is `a` cut down to its 32 lowest bits.
pub fn gs_set_texflush(a: u64) -> (word: u64)
    ensures
        word == mask(a, 32),
{
    proof {
        lemma_low_bits_values();
    }
    a & 0xFFFFFFFF
}

/// The layout of a TRXPOS word: the corners of a transmission in both buffers
/// and the order in which pixels go.
///
/// - `sx`: bits 0 to 10
/// - `sy`: bits 16 to 26
/// - `dx`: bits 32 to 42
/// - `dy`: bits 48 to 58
/// - `dir`: bits 59 to 60
///
/// Every other bit is zero.
pub open spec fn trxpos_word(sx: u64, sy: u64, dx: u64, dy: u64, dir: u64) -> u64 {
    place(sx, 0, 11) | place(sy, 16, 11) | place(dx, 32, 11) | place(dy, 48, 11)
        | place(dir, 59, 2)
}

/// Packs a TRXPOS word: the corners of a transmission in both buffers and the
/// order in which pixels go. Each argument is cut down to the width of its
/// field; see [`trxpos_word`] for the layout.
#[verifier::when_used_as_spec(trxpos_word)]
pub fn gs_set_trxpos(sx: u64, sy: u64, dx: u64, dy: u64, dir: u64) -> (word: u64)
    ensures
        word == trxpos_word(sx, sy, dx, dy, dir),
        extract(word, 0, 11) == mask(sx, 11),
        extract(word, 16, 11) == mask(sy, 11),
        extract(word, 32, 11) == mask(dx, 11),
        extract(word, 48, 11) == mask(dy, 11),
        extract(word, 59, 2) == mask(dir, 2),
{
    proof {
        lemma_low_bits_values();
        lemma_placed_fields();
    }
    let word = ((sx & 0x7FF) << 0)
        | ((sy & 0x7FF) << 16)
        | ((dx & 0x7FF) << 32)
        | ((dy & 0x7FF) << 48)
        | ((dir & 0x3) << 59);
    assert(word == trxpos_word(sx, sy, dx, dy, dir));
    word
}

/// The layout of a TRXREG word: width and height of the transmitted rectangle.
///
/// - `w`: bits 0 to 11
/// - `h`: bits 32 to 43
///
/// Every other bit is zero.
pub open spec fn trxreg_word(w: u64, h: u64) -> u64 {
    place(w, 0, 12) | place(h, 32, 12)
}

/// Packs a TRXREG word: width and height of the transmitted rectangle. Each
/// argument is cut down to the width of its field; see [`trxreg_word`] for the
/// layout.
#[verifier::when_used_as_spec(trxreg_word)]
pub fn gs_set_trxreg(w: u64, h: u64) -> (word: u64)
    ensures
        word == trxreg_word(w, h),
        extract(word, 0, 12) == mask(w, 12),
        extract(word, 32, 12) == mask(h, 12),
{
    proof {
        lemma_low_bits_values();
        lemma_placed_fields();
    }
    let word = ((w & 0xFFF) << 0)
        | ((h & 0xFFF) << 32);
    assert(word == trxreg_word(w, h));
    word
}

/// Packs a UV word: the texel coordinates U and V. Each argument is cut down to
/// the width of its field; see [`uv_word`] for the layout.
#[verifier::when_used_as_spec(uv_word)]
pub fn gs_set_uv(u: u64, v: u64) -> (word: u64)
    ensures
        word == uv_word(u, v),
        extract(word, 0, 14) == mask(u, 14),
        extract(word, 16, 14) == mask(v, 14),
{
    proof {
        lemma_low_bits_values();
        lemma_placed_fields();
    }
    let word = ((u & 0x3FFF) << 0)
        | ((v & 0x3FFF) << 16);
    assert(word == uv_word(u, v));
    word
}

/// The layout of an XYOFFSET word: the offset from primitive coordinates to
/// window coordinates.
///
/// - `x`: bits 0 to 15
/// - `y`: bits 32 to 47
///
/// Every other bit is zero.
pub open spec fn xyoffset_word(x: u64, y: u64) -> u64 {
    place(x, 0, 16) | place(y, 32, 16)
}

/// Packs an XYOFFSET word: the offset from primitive coordinates to window
/// coordinates. Each argument is cut down to the width of its field; see
/// [`xyoffset_word`] for the layout.
#[verifier::when_used_as_spec(xyoffset_word)]
pub fn gs_set_xyoffset(x: u64, y: u64) -> (word: u64)
    ensures
        word == xyoffset_word(x, y),
        extract(word, 0, 16) == mask(x, 16),
        extract(word, 32, 16) == mask(y, 16),
{
    proof {
        lemma_low_bits_values();
        lemma_placed_fields();
    }
    let word = ((x & 0xFFFF) << 0)
        | ((y & 0xFFFF) << 32);
    assert(word == xyoffset_word(x, y));
    word
}

/// Packs an XYZ word from coordinates of thirty-two bits each. `x` and `y`
/// are cut down to sixteen bits; `z` is taken whole.
pub fn gs_set_xyz(x: u32, y: u32, z: u32) -> (word: u64)
    ensures
        word == xyz_word(x as u64, y as u64, z as u64),
        extract(word, 0, 16) == mask(x as u64, 16),
        extract(word, 16, 16) == mask(y as u64, 16),
        extract(word, 32, 32) == z,
{
    proof {
        lemma_low_bits_values();
        lemma_placed_fields();
        lemma_field_bounds();
    }
    let word = ((x as u64 & 0xFFFF) << 0)
        | ((y as u64 & 0xFFFF) << 16)
        | ((z as u64 & 0xFFFF_FFFF) << 32);
    assert(word == xyz_word(x as u64, y as u64, z as u64));
    word
}

/// Packs an XYZF word: a vertex position with its fog coefficient. Each
/// argument is cut down to the width of its field; see [`xyzf_word`] for the
/// layout.
#[verifier::when_used_as_spec(xyzf_word)]
pub fn gs_set_xyzf(x: u64, y: u64, z: u64, f: u64) -> (word: u64)
    ensures
        word == xyzf_word(x, y, z, f),
        extract(word, 0, 16) == mask(x, 16),
        extract(word, 16, 16) == mask(y, 16),
        extract(word, 32, 24) == mask(z, 24),
        extract(word, 56, 8) == mask(f, 8),
{
    proof {
        lemma_low_bits_values();
        lemma_placed_fields();
    }
    let word = ((x & 0xFFFF) << 0)
        | ((y & 0xFFFF) << 16)
        | ((z & 0xFFFFFF) << 32)
        | ((f & 0xFF) << 56);
    assert(word == xyzf_word(x, y, z, f));
    word
}

/// The layout of a ZBUF word: where the depth buffer lies, how it is stored and
/// whether it is written.
///
/// - `zba`: bits 0 to 8
/// - `zsm`: bits 24 to 27
/// - `zmsk`: bit 32
///
/// Every other bit is zero.
pub open spec fn zbuf_word(zba: u64, zsm: u64, zmsk: u64) -> u64 {
    place(zba, 0, 9) | place(zsm, 24, 4) | place(zmsk, 32, 1)
}

/// Packs a ZBUF word: where the depth buffer lies, how it is stored and whether
/// it is written. Each argument is cut down to the width of its field; see
/// [`zbuf_word`] for the layout.
#[verifier::when_used_as_spec(zbuf_word)]
pub fn gs_set_zbuf(zba: u64, zsm: u64, zmsk: u64) -> (word: u64)
    ensures
        word == zbuf_word(zba, zsm, zmsk),
        extract(word, 0, 9) == mask(zba, 9),
        extract(word, 24, 4) == mask(zsm, 4),
        extract(word, 32, 1) == mask(zmsk, 1),
{
    proof {
        lemma_low_bits_values();
        lemma_placed_fields();
    }
    let word = ((zba & 0x1FF) << 0)
        | ((zsm & 0xF) << 24)
        | ((zmsk & 0x1) << 32);
    assert(word == zbuf_word(zba, zsm, zmsk));
    word
}

} // verus!
