//! The hand-off of a buffer to a DMA channel and back.

use prussia::dma::{Channel, DmaChannel};
use prussia::packet::TransferBuffer;

#[test]
fn a_new_channel_is_idle() {
    let channel = DmaChannel::new(Channel::Gif);
    assert_eq!(channel.channel(), Channel::Gif);
    assert!(channel.is_idle());
    assert_eq!(channel.in_flight(), 0);
}

#[test]
fn a_started_transfer_is_in_flight_until_it_is_waited_for() {
    let mut channel = DmaChannel::new(Channel::Gif);
    let transfer = channel.start(TransferBuffer::from_words([1u128, 2, 3]));
    assert!(!channel.is_idle());
    assert_eq!(channel.in_flight(), 1);
    assert_eq!(transfer.channel(), Channel::Gif);
    assert_eq!(transfer.quadwords(), 3);
    assert_eq!(transfer.buffer().words(), &[1u128, 2, 3]);
    let buffer = channel.wait(transfer);
    assert!(channel.is_idle());
    assert_eq!(channel.in_flight(), 0);
    assert_eq!(buffer.words(), &[1u128, 2, 3]);
}

#[test]
fn a_buffer_can_go_out_again_once_it_has_come_back() {
    let mut channel = DmaChannel::new(Channel::ToSpr);
    let mut buffer = TransferBuffer::<2>::new();
    let mut most = 0;
    for round in 0..10u128 {
        buffer.set_word(0, round);
        assert!(channel.is_idle());
        let transfer = channel.start(buffer);
        most = most.max(channel.in_flight());
        assert_eq!(transfer.buffer().word(0), round);
        buffer = channel.wait(transfer);
        most = most.max(channel.in_flight());
    }
    assert_eq!(most, 1);
    assert_eq!(channel.channel(), Channel::ToSpr);
}

#[test]
fn each_channel_keeps_its_own_state() {
    let mut gif = DmaChannel::new(Channel::Gif);
    let vif = DmaChannel::new(Channel::Vif1);
    let transfer = gif.start(TransferBuffer::<1>::new());
    assert_eq!(gif.in_flight(), 1);
    assert_eq!(vif.in_flight(), 0);
    gif.wait(transfer);
    assert_eq!(gif.in_flight(), 0);
}
