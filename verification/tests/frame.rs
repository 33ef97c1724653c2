//! The frame driver: the counter, the order of the packets, and the one
//! transfer in flight.

use prussia::dma::Channel;
use prussia::frame::{Action, AnimationCounter, FrameDriver, Stage, SCREEN_WIDTH, STEP};
use prussia::graphics::{draw_tri, Color, Point};

fn xs(triangle: [Point; 3]) -> (u32, u32, u32) {
    (triangle[0].x, triangle[1].x, triangle[2].x)
}

/// Runs the driver through one whole frame and gives the words of the three
/// packets in the order in which they went out.
fn frame(driver: &mut FrameDriver) -> Vec<[u128; 5]> {
    let mut packets = Vec::new();
    assert_eq!(driver.stage(), Stage::Idle);
    let mut action = driver.draw_cb(0);
    while action == Action::Transfer {
        assert_eq!(driver.transfers_in_flight(), 1);
        let transfer = driver.in_flight().expect("a transfer is in flight");
        packets.push(*transfer.buffer().words());
        action = driver.completed();
    }
    assert_eq!(action, Action::Return(0));
    assert_eq!(driver.transfers_in_flight(), 0);
    packets
}

#[test]
fn the_counter_starts_at_zero() {
    assert_eq!(AnimationCounter::new().count(), 0);
    assert_eq!(SCREEN_WIDTH, 640);
    assert_eq!(STEP, 5);
}

#[test]
fn one_advance_moves_the_triangle_by_five() {
    let mut counter = AnimationCounter::new();
    let triangle = counter.advance();
    assert_eq!(counter.count(), 5);
    assert_eq!(xs(triangle), (5, 55, 5));
    assert_eq!(
        triangle,
        [Point { x: 5, y: 100, z: 1 }, Point { x: 55, y: 150, z: 1 }, Point { x: 5, y: 150, z: 1 }]
    );
}

#[test]
fn the_triangle_reaches_the_right_edge_after_128_advances() {
    let mut counter = AnimationCounter::new();
    let mut triangle = counter.advance();
    for _ in 1..128 {
        triangle = counter.advance();
    }
    assert_eq!(counter.count(), 640);
    assert_eq!(xs(triangle), (640, 690, 640));
}

#[test]
fn the_triangle_starts_again_once_it_would_pass_the_right_edge() {
    let mut counter = AnimationCounter::new();
    let mut triangle = counter.advance();
    for _ in 1..129 {
        triangle = counter.advance();
    }
    assert_eq!(counter.count(), 0);
    assert_eq!(xs(triangle), (0, 50, 0));
    assert_eq!(xs(counter.advance()), (5, 55, 5));
}

#[test]
fn the_counter_goes_round_every_129_advances() {
    let mut counter = AnimationCounter::new();
    for n in 1..=1000u32 {
        let triangle = counter.advance();
        let expected = (n * 5) % 645;
        assert_eq!(counter.count(), expected);
        assert_eq!(xs(triangle), (expected, expected + 50, expected));
        assert!(counter.count() <= 640);
    }
}

#[test]
fn the_colour_follows_the_low_byte_of_the_counter() {
    let mut counter = AnimationCounter::new();
    assert_eq!(counter.color(), Color { r: 0, g: 0x66, b: 0x66, a: 0xff });
    counter.advance();
    assert_eq!(counter.color(), Color { r: 5, g: 0x66, b: 0x66, a: 0xff });
    for _ in 1..52 {
        counter.advance();
    }
    assert_eq!(counter.count(), 260);
    assert_eq!(counter.color(), Color { r: 4, g: 0x66, b: 0x66, a: 0xff });
}

#[test]
fn a_new_driver_is_idle() {
    let driver = FrameDriver::new();
    assert_eq!(driver.count(), 0);
    assert_eq!(driver.stage(), Stage::Idle);
    assert_eq!(driver.transfers_in_flight(), 0);
    assert!(driver.in_flight().is_none());
}

#[test]
fn a_frame_goes_through_its_three_packets_in_order() {
    let mut driver = FrameDriver::new();
    assert_eq!(driver.draw_cb(7), Action::Transfer);
    assert_eq!(driver.stage(), Stage::FirstBackground);
    assert_eq!(driver.count(), 5);
    assert_eq!(driver.completed(), Action::Transfer);
    assert_eq!(driver.stage(), Stage::SecondBackground);
    assert_eq!(driver.completed(), Action::Transfer);
    assert_eq!(driver.stage(), Stage::Triangle);
    assert_eq!(driver.completed(), Action::Return(0));
    assert_eq!(driver.stage(), Stage::Idle);
    assert_eq!(driver.count(), 5);
}

#[test]
fn the_packets_of_the_first_frame_word_for_word() {
    let mut driver = FrameDriver::new();
    let packets = frame(&mut driver);
    assert_eq!(
        packets,
        vec![
            [
                0x0000_0000_0000_EEEE_4041_C000_0000_8001,
                0x0000_0000_0000_0001_0000_0000_0033_3333,
                0x0000_0000_0000_0005_0000_0001_0000_0000,
                0x0000_0000_0000_0005_0000_0001_1C00_0000,
                0x0000_0000_0000_0005_0000_0001_0000_2800,
            ],
            [
                0x0000_0000_0000_EEEE_4041_C000_0000_8001,
                0x0000_0000_0000_0001_0000_0000_0033_3333,
                0x0000_0000_0000_0005_0000_0001_1C00_0000,
                0x0000_0000_0000_0005_0000_0001_0000_2800,
                0x0000_0000_0000_0005_0000_0001_1C00_2800,
            ],
            [
                0x0000_0000_0000_EEEE_4041_C000_0000_8001,
                0x0000_0000_0000_0001_0000_0000_FF66_6605,
                0x0000_0000_0000_0005_0000_0001_0640_0050,
                0x0000_0000_0000_0005_0000_0001_0960_0370,
                0x0000_0000_0000_0005_0000_0001_0960_0050,
            ],
        ]
    );
}

#[test]
fn the_packets_are_those_of_draw_tri() {
    let mut driver = FrameDriver::new();
    let grey = Color { r: 0x33, g: 0x33, b: 0x33, a: 0 };
    for n in 1..=260u32 {
        let packets = frame(&mut driver);
        let count = (n * 5) % 645;
        assert_eq!(driver.count(), count);
        assert_eq!(packets.len(), 3);
        assert_eq!(
            &packets[0],
            draw_tri(
                Point { x: 0, y: 0, z: 1 },
                Point { x: 0, y: 448, z: 1 },
                Point { x: 640, y: 0, z: 1 },
                grey
            )
            .words()
        );
        assert_eq!(
            &packets[1],
            draw_tri(
                Point { x: 0, y: 448, z: 1 },
                Point { x: 640, y: 0, z: 1 },
                Point { x: 640, y: 448, z: 1 },
                grey
            )
            .words()
        );
        assert_eq!(
            &packets[2],
            draw_tri(
                Point { x: count, y: 100, z: 1 },
                Point { x: 50 + count, y: 150, z: 1 },
                Point { x: count, y: 150, z: 1 },
                Color { r: (count & 0xff) as u8, g: 0x66, b: 0x66, a: 0xff }
            )
            .words()
        );
    }
}

#[test]
fn the_moving_triangle_at_the_right_edge_and_after_it() {
    let mut driver = FrameDriver::new();
    let mut packets = frame(&mut driver);
    for _ in 1..128 {
        packets = frame(&mut driver);
    }
    assert_eq!(driver.count(), 640);
    assert_eq!(
        packets[2],
        [
            0x0000_0000_0000_EEEE_4041_C000_0000_8001,
            0x0000_0000_0000_0001_0000_0000_FF66_6680,
            0x0000_0000_0000_0005_0000_0001_0640_2800,
            0x0000_0000_0000_0005_0000_0001_0960_2B20,
            0x0000_0000_0000_0005_0000_0001_0960_2800,
        ]
    );
    let packets = frame(&mut driver);
    assert_eq!(driver.count(), 0);
    assert_eq!(
        packets[2],
        [
            0x0000_0000_0000_EEEE_4041_C000_0000_8001,
            0x0000_0000_0000_0001_0000_0000_FF66_6600,
            0x0000_0000_0000_0005_0000_0001_0640_0000,
            0x0000_0000_0000_0005_0000_0001_0960_0320,
            0x0000_0000_0000_0005_0000_0001_0960_0000,
        ]
    );
}

#[test]
fn never_more_than_one_transfer_is_in_flight() {
    let mut driver = FrameDriver::new();
    let mut most = 0;
    for _ in 0..300 {
        most = most.max(driver.transfers_in_flight());
        let mut action = driver.draw_cb(0);
        most = most.max(driver.transfers_in_flight());
        while action == Action::Transfer {
            assert_eq!(driver.transfers_in_flight(), 1);
            action = driver.completed();
            most = most.max(driver.transfers_in_flight());
        }
        assert_eq!(driver.transfers_in_flight(), 0);
    }
    assert_eq!(most, 1);
}

#[test]
fn the_transfer_in_flight_runs_on_the_channel_of_the_graphics_synthesizer() {
    let mut driver = FrameDriver::new();
    driver.draw_cb(0);
    let transfer = driver.in_flight().unwrap();
    assert_eq!(transfer.channel(), Channel::Gif);
    assert_eq!(transfer.quadwords(), 5);
}
