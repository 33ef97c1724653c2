//! The hand-off of a transfer buffer to a DMA channel.
//!
//! A channel is idle or has one transfer pending. Starting a transfer hands
//! the buffer over: from then on the DMA controller reads it while the
//! processor runs on, and nobody may write to it. Waiting for the transfer
//! hands the buffer back. The types here keep to that by ownership: a buffer
//! that is in flight lives inside its [`Transfer`], which lets it be read and
//! nothing else, and a channel takes no second buffer while it has one.
//!
//! Nothing here touches the hardware. The caller programs the channel after
//! [`DmaChannel::start`] and calls [`DmaChannel::wait`] once the hardware has
//! reported the end of the transfer.

use crate::packet::TransferBuffer;
use vstd::prelude::*;

verus! {

/// The channels of the DMA controller.
#[derive(Clone, Copy, Debug, PartialEq, Eq, Structural)]
pub enum Channel {
    /// To the interface of vector unit 0.
    Vif0,
    /// To and from the interface of vector unit 1.
    Vif1,
    /// To the interface of the Graphics Synthesizer.
    Gif,
    /// From the image processing unit.
    FromIpu,
    /// To the image processing unit.
    ToIpu,
    /// From the input and output processor.
    Sif0,
    /// To the input and output processor.
    Sif1,
    /// To and from the input and output processor.
    Sif2,
    /// From the scratchpad.
    FromSpr,
    /// To the scratchpad.
    ToSpr,
}

/// A DMA channel as the program sees it: which channel it is and whether a
/// transfer that was started on it is not yet done. There is no way to hold
/// more than one.
pub struct DmaChannel {
    channel: Channel,
    pending: bool,
}

/// A transfer that was started and has not been waited for. It owns the
/// buffer that the DMA controller reads.
pub struct Transfer<const N: usize> {
    channel: Channel,
    buffer: TransferBuffer<N>,
}

impl<const N: usize> Transfer<N> {
    /// The channel that the transfer runs on.
    pub closed spec fn spec_channel(&self) -> Channel {
        self.channel
    }

    /// The buffer that is in flight.
    pub closed spec fn spec_buffer(&self) -> &TransferBuffer<N> {
        &self.buffer
    }

    /// The channel that the transfer runs on.
    #[verifier::when_used_as_spec(spec_channel)]
    pub fn channel(&self) -> (channel: Channel)
        ensures
            channel == self.spec_channel(),
    {
        self.channel
    }

    /// The buffer that is in flight, to be read and not written.
    #[verifier::when_used_as_spec(spec_buffer)]
    pub fn buffer(&self) -> (buffer: &TransferBuffer<N>)
        ensures
            buffer == self.spec_buffer(),
    {
        &self.buffer
    }

    /// The number of quadwords that the transfer moves.
    pub fn quadwords(&self) -> (n: usize)
        ensures
            n == N,
            n == self.buffer()@.len(),
    {
        self.buffer.capacity()
    }
}

impl DmaChannel {
    /// Which channel this is.
    pub closed spec fn spec_channel(&self) -> Channel {
        self.channel
    }

    /// The number of transfers that were started and not yet waited for.
    pub closed spec fn spec_in_flight(&self) -> usize {
        if self.pending {
            1
        } else {
            0
        }
    }

    /// No transfer is pending: one may be started.
    pub open spec fn spec_is_idle(&self) -> bool {
        self.in_flight() == 0
    }

    /// The channel, idle.
    pub fn new(channel: Channel) -> (dma: Self)
        ensures
            dma.channel() == channel,
            dma.is_idle(),
    {
        DmaChannel { channel, pending: false }
    }

    /// Which channel this is.
    #[verifier::when_used_as_spec(spec_channel)]
    pub fn channel(&self) -> (channel: Channel)
        ensures
            channel == self.spec_channel(),
    {
        self.channel
    }

    /// The number of transfers that were started and not yet waited for:
    /// zero or one.
    #[verifier::when_used_as_spec(spec_in_flight)]
    pub fn in_flight(&self) -> (n: usize)
        ensures
            n == self.spec_in_flight(),
            n <= 1,
    {
        if self.pending {
            1
        } else {
            0
        }
    }

    /// No transfer is pending: one may be started.
    #[verifier::when_used_as_spec(spec_is_idle)]
    pub fn is_idle(&self) -> (idle: bool)
        ensures
            idle == self.spec_is_idle(),
    {
        !self.pending
    }

    /// Starts a transfer of `buffer`. The buffer is in flight from here on
    /// and comes back from [`DmaChannel::wait`].
    ///
    /// The channel must be idle: to start a second transfer while one is
    /// pending is the caller's error.
    pub fn start<const N: usize>(&mut self, buffer: TransferBuffer<N>) -> (transfer: Transfer<N>)
        requires
            old(self).is_idle(),
        ensures
            final(self).channel() == old(self).channel(),
            final(self).in_flight() == 1,
            transfer.channel() == old(self).channel(),
            *transfer.buffer() == buffer,
    {
        self.pending = true;
        Transfer { channel: self.channel, buffer }
    }

    /// Ends the pending transfer, which the hardware has reported as done,
    /// and gives its buffer back as it was when the transfer started. The
    /// channel is idle afterwards.
    ///
    /// `transfer` must be the one that is pending on this channel.
    pub fn wait<const N: usize>(&mut self, transfer: Transfer<N>) -> (buffer: TransferBuffer<N>)
        requires
            !old(self).is_idle(),
            transfer.channel() == old(self).channel(),
        ensures
            final(self).channel() == old(self).channel(),
            final(self).is_idle(),
            buffer == *transfer.buffer(),
    {
        self.pending = false;
        transfer.buffer
    }

    /// At most one transfer is in flight on a channel, whatever was done
    /// with it.
    pub proof fn lemma_at_most_one_in_flight(self)
        ensures
            self.in_flight() <= 1,
            self.is_idle() <==> self.in_flight() == 0,
            !self.is_idle() <==> self.in_flight() == 1,
    {
    }
}

} // verus!
