//! Flat triangles on a 640 by 448 screen.
//!
//! The functions here put together what the hardware is to be told and leave
//! the telling to the caller: [`setup_env`] gives the steps that set up the
//! screen, in the order in which they are to be taken, and [`draw_tri`] gives
//! the packet that draws one triangle.

use crate::bios::{set_gs_crt, FieldFrameMode, Interlacing, Syscall, VideoMode};
use crate::bits::{insert, mask, place};
use crate::packet::{
    declared_loops, declared_slots, selector_prefix, selectors, write_packet, PacketOptions,
    TransferBuffer,
};
use crate::privileged::{
    RegisterWrite, CSR, CSR_ADDR, DISPFB2, DISPFB2_ADDR, DISPLAY2, DISPLAY2_ADDR, PMODE,
    PMODE_ADDR,
};
use crate::tags::{
    alpha_word, frame_word, gs_set_alpha, gs_set_fba, gs_set_frame, gs_set_prim, gs_set_prmodecont,
    gs_set_rgbaq, gs_set_scissor, gs_set_test, gs_set_texa, gs_set_xyoffset, gs_set_xyz,
    gs_set_zbuf, pack, packreg, prim_word, rgbaq_word, scissor_word, tag_word, test_word,
    texa_word, xyoffset_word, xyz_word, zbuf_word, GP,
};
use vstd::prelude::*;

verus! {

/// A colour: red, green, blue and alpha, eight bits each.
#[derive(Clone, Copy, Debug, PartialEq, Eq, Structural)]
pub struct Color {
    /// Red.
    pub r: u8,
    /// Green.
    pub g: u8,
    /// Blue.
    pub b: u8,
    /// Alpha.
    pub a: u8,
}

/// A point of the screen, in whole pixels, with its depth.
#[derive(Clone, Copy, Debug, PartialEq, Eq, Structural)]
pub struct Point {
    /// Pixels from the left edge.
    pub x: u32,
    /// Pixels from the upper edge.
    pub y: u32,
    /// Depth.
    pub z: u32,
}

/// The selector that makes a quadword of the payload name its own register:
/// the data in the lower half, the register's number in the upper.
pub const ADDRESS_AND_DATA: u8 = 0x0e;

/// A coordinate in whole pixels as the Graphics Synthesizer wants it: fixed
/// point with four bits behind the point. Bits pushed past the top are lost.
pub open spec fn fixed_point(pixels: u32) -> u32 {
    pixels << 4
}

/// The quadword that sends a vertex to XYZ2, which draws once three have
/// come. Of the fixed point coordinates the sixteen lowest bits are kept.
pub open spec fn vertex_quad(v: Point) -> u128 {
    packreg(GP::XYZ2, xyz_word(fixed_point(v.x) as u64, fixed_point(v.y) as u64, v.z as u64))
}

/// The quadword that sets the colour of the vertices that follow. Q is zero.
pub open spec fn color_quad(color: Color) -> u128 {
    packreg(
        GP::RGBAQ,
        rgbaq_word(color.r as u64, color.g as u64, color.b as u64, color.a as u64, 0),
    )
}

/// The tag of a triangle's packet: one repeat unit of four register slots,
/// each naming its own register; the last packet of its transfer; PRIM set
/// beforehand to a triangle (primitive type 3), flat shaded and
/// antialiased.
pub open spec fn triangle_tag() -> u128 {
    pack(tag_word(1, 1, 1, prim_word(3, 0, 0, 0, 0, 1, 0, 0, 0), 0, 4), 0xEEEE)
}

/// The packet that draws one flat triangle: the tag, the colour, the three
/// vertices.
pub open spec fn triangle_packet(v0: Point, v1: Point, v2: Point, color: Color) -> Seq<u128> {
    seq![triangle_tag(), color_quad(color), vertex_quad(v0), vertex_quad(v1), vertex_quad(v2)]
}

/// The selector word of one to four address-and-data selectors.
proof fn lemma_address_and_data_selectors(registers: Seq<u8>)
    requires
        1 <= registers.len() <= 4,
        forall|i: int| 0 <= i < registers.len() ==> registers[i] == ADDRESS_AND_DATA,
    ensures
        registers.len() == 1 ==> selectors(registers) == 0xE,
        registers.len() == 4 ==> selectors(registers) == 0xEEEE,
{
    reveal_with_fuel(selector_prefix, 5);
    assert(0u64 | place(0xe, 0, 4) == 0xE && 0u64 | place(0xe, 0, 4) | place(0xe, 4, 4) | place(
        0xe,
        8,
        4,
    ) | place(0xe, 12, 4) == 0xEEEE) by (bit_vector);
}

/// Builds the packet that draws one flat triangle with the given corners and
/// colour. The packet fills its buffer: a tag, the colour, and the three
/// corners in the order given. The last corner makes the Graphics
/// Synthesizer draw.
///
/// The tag declares one repeat unit of four slots, which is what follows it.
pub fn draw_tri(v0: Point, v1: Point, v2: Point, color: Color) -> (buffer: TransferBuffer<5>)
    ensures
        buffer@ == triangle_packet(v0, v1, v2, color),
        declared_loops(buffer@[0]) * declared_slots(buffer@[0]) == buffer@.len() - 1,
{
    let mut buffer = TransferBuffer::<5>::new();
    let options = PacketOptions {
        nloop: 1,
        eop: true,
        pre: true,
        prim: gs_set_prim(3, 0, 0, 0, 0, 1, 0, 0, 0),
        flg: 0,
    };
    let registers: [u8; 4] = [
        ADDRESS_AND_DATA,
        ADDRESS_AND_DATA,
        ADDRESS_AND_DATA,
        ADDRESS_AND_DATA,
    ];
    let payload: [u128; 4] = [
        packreg(GP::RGBAQ, gs_set_rgbaq(color.r, color.g, color.b, color.a, 0)),
        packreg(GP::XYZ2, gs_set_xyz(v0.x << 4, v0.y << 4, v0.z)),
        packreg(GP::XYZ2, gs_set_xyz(v1.x << 4, v1.y << 4, v1.z)),
        packreg(GP::XYZ2, gs_set_xyz(v2.x << 4, v2.y << 4, v2.z)),
    ];
    let written = write_packet(&mut buffer, 0, options, registers.as_slice(), payload.as_slice());
    proof {
        lemma_address_and_data_selectors(registers@);
        assert(written is Ok);
        assert(buffer@ =~= triangle_packet(v0, v1, v2, color));
    }
    buffer
}

/// One step of setting up the screen.
pub enum SetupStep {
    /// Write a privileged register.
    Store(RegisterWrite),
    /// Make a system call.
    Call(Syscall),
    /// Send a packet to the Graphics Synthesizer and wait until it has gone.
    Send(TransferBuffer<10>),
}

/// The tag of the packet that [`setup_env`] sends: nine repeat units of one
/// register slot, each quadword naming its own register; the last packet of
/// its transfer.
pub open spec fn setup_tag() -> u128 {
    pack(tag_word(9, 1, 0, 0, 0, 1), 0xE)
}

/// The packet that [`setup_env`] sends: the drawing environment of a frame
/// buffer of 640 by 448 pixels at the bottom of memory.
///
/// - FRAME_1: the buffer at address zero, ten units of 64 pixels wide,
///   thirty-two bits to the pixel, no bit kept from being written.
/// - ZBUF_1: the depth buffer behind it, at unit 140.
/// - PRMODECONT: drawing attributes come from PRIM.
/// - XYOFFSET_1: no offset.
/// - SCISSOR_1: the whole screen, 0 to 639 by 0 to 447.
/// - TEST_1: the depth test is on and every pixel passes it.
/// - ALPHA_1, TEXA, FBA_1: plain blending.
pub open spec fn setup_packet() -> Seq<u128> {
    seq![
        setup_tag(),
        packreg(GP::FRAME_1, frame_word(0, 10, 0, 0)),
        packreg(GP::ZBUF_1, zbuf_word(140, 0, 0)),
        packreg(GP::PRMODECONT, mask(1, 1)),
        packreg(GP::XYOFFSET_1, xyoffset_word(0, 0)),
        packreg(GP::SCISSOR_1, scissor_word(0, 639, 0, 447)),
        packreg(GP::TEST_1, test_word(0, 0, 0, 0, 0, 0, 1, 1)),
        packreg(GP::ALPHA_1, alpha_word(0, 1, 0, 1, 0)),
        packreg(GP::TEXA, texa_word(0x80, 0, 0x80)),
        packreg(GP::FBA_1, mask(0, 1)),
    ]
}

/// The steps that set up a frame buffer of 640 by 448 pixels and show it, in
/// the order in which they are to be taken:
///
/// 1. reset the Graphics Synthesizer (CSR with RESET set);
/// 2. point read circuit 2 at the frame buffer (DISPFB2: base 0, width 10
///    units of 64 pixels, thirty-two bits to the pixel);
/// 3. place its picture on the screen (DISPLAY2: magnification 4 across,
///    2560 video clocks wide, 448 lines high);
/// 4. switch read circuit 2 on and read circuit 1 off (PMODE, with the
///    fixed alpha at 0x80);
/// 5. ask the kernel for interlaced NTSC output in frame mode;
/// 6. send the packet that sets the drawing environment, [`setup_packet`].
pub fn setup_env() -> (steps: [SetupStep; 6])
    ensures
        steps@[0] == SetupStep::Store(RegisterWrite { address: CSR_ADDR, value: 0x200 }),
        steps@[1] == SetupStep::Store(RegisterWrite { address: DISPFB2_ADDR, value: 0x1400 }),
        steps@[2] == SetupStep::Store(
            RegisterWrite { address: DISPLAY2_ADDR, value: 0x3_7F3F_E180_0000 },
        ),
        steps@[3] == SetupStep::Store(RegisterWrite { address: PMODE_ADDR, value: 0x8046 }),
        steps@[4] == SetupStep::Call(Syscall { number: 0x2, a0: 1, a1: 2, a2: 0, a3: 0 }),
        steps@[5] is Send,
        steps@[5]->Send_0@ == setup_packet(),
        declared_loops(steps@[5]->Send_0@[0]) * declared_slots(steps@[5]->Send_0@[0])
            == steps@[5]->Send_0@.len() - 1,
{
    let reset = CSR::new().with_reset(1);
    let frame_buffer = DISPFB2::new().with_fbp(0x00).with_fbw(10).with_psm(0x00);
    let display = DISPLAY2::new().with_dx(0).with_dy(0).with_magh(3).with_dw(2559).with_dh(447);
    let mode = PMODE::new().with_en1(false).with_en2(true).with_mmod(false).with_amod(
        true,
    ).with_alp(0x80);
    proof {
        assert(insert(0, 1, 9, 1) == 0x200) by (bit_vector);
        assert(insert(insert(insert(0, 0, 0, 9), 10, 9, 6), 0, 15, 5) == 0x1400) by (bit_vector);
        assert(insert(
            insert(insert(insert(insert(0, 0, 0, 12), 0, 12, 11), 3, 23, 4), 2559, 29, 12),
            447,
            41,
            11,
        ) == 0x3_7F3F_E180_0000) by (bit_vector);
        assert(insert(
            insert(insert(insert(insert(0x4, 0, 0, 1), 1, 1, 1), 0, 5, 1), 1, 6, 1),
            0x80,
            8,
            8,
        ) == 0x8046) by (bit_vector);
    }
    let crt = set_gs_crt(Interlacing::Interlaced, VideoMode::NTSC, FieldFrameMode::Frame);

    let mut buffer = TransferBuffer::<10>::new();
    let options = PacketOptions { nloop: 9, eop: true, pre: false, prim: 0, flg: 0 };
    let registers: [u8; 1] = [ADDRESS_AND_DATA];
    let payload: [u128; 9] = [
        packreg(GP::FRAME_1, gs_set_frame(0x00, 10, 0, 0)),
        packreg(GP::ZBUF_1, gs_set_zbuf(0x46000 / 2048, 0, 0)),
        packreg(GP::PRMODECONT, gs_set_prmodecont(1)),
        packreg(GP::XYOFFSET_1, gs_set_xyoffset(0, 0)),
        packreg(GP::SCISSOR_1, gs_set_scissor(0, 639, 0, 447)),
        packreg(GP::TEST_1, gs_set_test(0, 0, 0, 0, 0, 0, 1, 1)),
        packreg(GP::ALPHA_1, gs_set_alpha(0, 1, 0, 1, 0)),
        packreg(GP::TEXA, gs_set_texa(0x80, 0, 0x80)),
        packreg(GP::FBA_1, gs_set_fba(0)),
    ];
    let written = write_packet(&mut buffer, 0, options, registers.as_slice(), payload.as_slice());
    proof {
        lemma_address_and_data_selectors(registers@);
        assert(written is Ok);
        assert(buffer@ =~= setup_packet());
    }
    [
        SetupStep::Store(reset.store()),
        SetupStep::Store(frame_buffer.store()),
        SetupStep::Store(display.store()),
        SetupStep::Store(mode.store()),
        SetupStep::Call(crt),
        SetupStep::Send(buffer),
    ]
}

} // verus!
