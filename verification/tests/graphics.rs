//! The packets of a triangle and of the screen's set-up, word for word.

use prussia::bios::Syscall;
use prussia::graphics::{draw_tri, setup_env, Color, Point, SetupStep, ADDRESS_AND_DATA};
use prussia::packet::{declared_loops, declared_slots};
use prussia::privileged::{RegisterWrite, CSR, CSR_ADDR, DISPFB2, DISPLAY2, PMODE};

const GREY: Color = Color { r: 0x33, g: 0x33, b: 0x33, a: 0 };

#[test]
fn the_selector_is_address_and_data() {
    assert_eq!(ADDRESS_AND_DATA, 0x0e);
}

#[test]
fn a_triangle_is_a_tag_a_colour_and_three_vertices() {
    let buffer = draw_tri(
        Point { x: 0, y: 0, z: 1 },
        Point { x: 0, y: 448, z: 1 },
        Point { x: 640, y: 0, z: 1 },
        GREY,
    );
    assert_eq!(
        buffer.words(),
        &[
            0x0000_0000_0000_EEEE_4041_C000_0000_8001,
            0x0000_0000_0000_0001_0000_0000_0033_3333,
            0x0000_0000_0000_0005_0000_0001_0000_0000,
            0x0000_0000_0000_0005_0000_0001_1C00_0000,
            0x0000_0000_0000_0005_0000_0001_0000_2800,
        ]
    );
}

#[test]
fn the_vertices_go_out_in_the_order_given() {
    let buffer = draw_tri(
        Point { x: 0, y: 448, z: 1 },
        Point { x: 640, y: 0, z: 1 },
        Point { x: 640, y: 448, z: 1 },
        GREY,
    );
    assert_eq!(buffer.word(2), 0x0000_0000_0000_0005_0000_0001_1C00_0000);
    assert_eq!(buffer.word(3), 0x0000_0000_0000_0005_0000_0001_0000_2800);
    assert_eq!(buffer.word(4), 0x0000_0000_0000_0005_0000_0001_1C00_2800);
}

#[test]
fn coordinates_are_cut_to_sixteen_bits_of_fixed_point() {
    let buffer = draw_tri(
        Point { x: 0x1234_5678, y: 0xFFFF_FFFF, z: 0xFFFF_FFFF },
        Point { x: 4096, y: 4095, z: 0 },
        Point { x: 1, y: 2, z: 3 },
        Color { r: 1, g: 2, b: 3, a: 4 },
    );
    assert_eq!(
        buffer.words(),
        &[
            0x0000_0000_0000_EEEE_4041_C000_0000_8001,
            0x0000_0000_0000_0001_0000_0000_0403_0201,
            0x0000_0000_0000_0005_FFFF_FFFF_FFF0_6780,
            0x0000_0000_0000_0005_0000_0000_FFF0_0000,
            0x0000_0000_0000_0005_0000_0003_0020_0010,
        ]
    );
}

#[test]
fn the_tag_of_a_triangle_declares_its_four_quadwords() {
    let buffer = draw_tri(
        Point { x: 1, y: 2, z: 3 },
        Point { x: 4, y: 5, z: 6 },
        Point { x: 7, y: 8, z: 9 },
        GREY,
    );
    let tag = buffer.word(0);
    assert_eq!(declared_loops(tag), 1);
    assert_eq!(declared_slots(tag), 4);
    assert_eq!((declared_loops(tag) * declared_slots(tag)) as usize, buffer.capacity() - 1);
}

#[test]
fn the_screen_is_set_up_in_six_steps() {
    let steps = setup_env();
    assert_eq!(steps.len(), 6);
    assert!(
        matches!(steps[0], SetupStep::Store(RegisterWrite { address: 0x1200_1000, value: 0x200 }))
    );
    assert!(
        matches!(steps[1], SetupStep::Store(RegisterWrite { address: 0x1200_0090, value: 0x1400 }))
    );
    assert!(matches!(
        steps[2],
        SetupStep::Store(RegisterWrite { address: 0x1200_00A0, value: 0x3_7F3F_E180_0000 })
    ));
    assert!(
        matches!(steps[3], SetupStep::Store(RegisterWrite { address: 0x1200_0000, value: 0x8046 }))
    );
    assert!(matches!(steps[4], SetupStep::Call(Syscall { number: 2, a0: 1, a1: 2, a2: 0, a3: 0 })));
    assert!(matches!(steps[5], SetupStep::Send(_)));
}

#[test]
fn the_stores_of_the_set_up_are_the_registers_built_field_by_field() {
    let steps = setup_env();
    let expected = [
        CSR::new().with_reset(1).store(),
        DISPFB2::new().with_fbp(0).with_fbw(10).with_psm(0).store(),
        DISPLAY2::new().with_dx(0).with_dy(0).with_magh(3).with_dw(2559).with_dh(447).store(),
        PMODE::new()
            .with_en1(false)
            .with_en2(true)
            .with_mmod(false)
            .with_amod(true)
            .with_alp(0x80)
            .store(),
    ];
    assert_eq!(expected[0].address, CSR_ADDR);
    for (step, write) in steps.iter().zip(expected) {
        match step {
            SetupStep::Store(stored) => assert_eq!(*stored, write),
            _ => panic!("a store was expected"),
        }
    }
}

#[test]
fn the_display_of_the_set_up_shows_640_by_448() {
    let display = DISPLAY2::from_bits(0x3_7F3F_E180_0000);
    assert_eq!(display.dx(), 0);
    assert_eq!(display.dy(), 0);
    assert_eq!(display.magh(), 3);
    assert_eq!(display.magv(), 0);
    assert_eq!(display.dw(), 2559);
    assert_eq!(display.dh(), 447);
    assert_eq!((display.dw() as u32 + 1) / (display.magh() as u32 + 1), 640);
}

#[test]
fn the_packet_of_the_set_up_word_for_word() {
    let steps = setup_env();
    match &steps[5] {
        SetupStep::Send(buffer) => {
            assert_eq!(
                buffer.words(),
                &[
                    0x0000_0000_0000_000E_1000_0000_0000_8009,
                    0x0000_0000_0000_004C_0000_0000_000A_0000,
                    0x0000_0000_0000_004E_0000_0000_0000_008C,
                    0x0000_0000_0000_001A_0000_0000_0000_0001,
                    0x0000_0000_0000_0018_0000_0000_0000_0000,
                    0x0000_0000_0000_0040_01BF_0000_027F_0000,
                    0x0000_0000_0000_0047_0000_0000_0003_0000,
                    0x0000_0000_0000_0042_0000_0000_0000_0044,
                    0x0000_0000_0000_003B_0000_0080_0000_0080,
                    0x0000_0000_0000_004A_0000_0000_0000_0000,
                ]
            );
            let tag = buffer.word(0);
            assert_eq!(declared_loops(tag), 9);
            assert_eq!(declared_slots(tag), 1);
        }
        _ => panic!("a packet was expected"),
    }
}
