//! Transfer buffers and the packets that are written into them.
//!
//! A packet is one tag followed by its payload. The tag says how many repeat
//! units follow and how many register slots each unit has; the payload holds
//! one quadword for each slot of each unit. The Graphics Synthesizer reads
//! exactly as many quadwords as the tag declares, so a tag that declares
//! another number than the payload holds throws the rest of the stream out
//! of step. The builder here refuses to write such a packet.

use crate::bits::{extract, lemma_field_bounds, lemma_low_bits_values, lemma_placed_fields, place};
use crate::tags::{gif_set_tag, lower_half, pack, tag_word, unpack};
use vstd::prelude::*;

verus! {

/// A region of `N` quadwords that goes to the coprocessor in one transfer.
///
/// Its view is the sequence of its quadwords; there are always `N` of them.
pub struct TransferBuffer<const N: usize> {
    words: [u128; N],
}

impl<const N: usize> View for TransferBuffer<N> {
    type V = Seq<u128>;

    closed spec fn view(&self) -> Seq<u128> {
        self.words@
    }
}

impl<const N: usize> TransferBuffer<N> {
    /// A buffer of `N` quadwords, all zero.
    pub fn new() -> (buffer: Self)
        ensures
            buffer@.len() == N,
            forall|i: int| 0 <= i < N ==> buffer@[i] == 0,
    {
        TransferBuffer { words: [0u128;N] }
    }

    /// A buffer that holds the given quadwords.
    pub fn from_words(words: [u128; N]) -> (buffer: Self)
        ensures
            buffer@ == words@,
    {
        TransferBuffer { words }
    }

    /// The number of quadwords that the buffer holds.
    pub fn capacity(&self) -> (n: usize)
        ensures
            n == N,
            n == self@.len(),
    {
        N
    }

    /// The quadword at `index`.
    pub fn word(&self, index: usize) -> (word: u128)
        requires
            index < N,
        ensures
            word == self@[index as int],
    {
        self.words[index]
    }

    /// Replaces the quadword at `index` and keeps the others.
    pub fn set_word(&mut self, index: usize, word: u128)
        requires
            index < N,
        ensures
            final(self)@ == old(self)@.update(index as int, word),
    {
        self.words[index] = word;
    }

    /// The quadwords, for the transfer to read.
    pub fn words(&self) -> (words: &[u128; N])
        ensures
            words@ == self@,
    {
        &self.words
    }
}

/// What a tag says besides its counts.
#[derive(Clone, Copy, Debug, PartialEq, Eq, Structural)]
pub struct PacketOptions {
    /// The number of repeat units in the payload.
    pub nloop: u64,
    /// This packet is the last of its transfer.
    pub eop: bool,
    /// `prim` is written to PRIM before the payload is read.
    pub pre: bool,
    /// The word for PRIM; its eleven lowest bits are used.
    pub prim: u64,
    /// How the payload is addressed; the two lowest bits are used.
    pub flg: u64,
}

/// Why a packet was not written.
#[derive(Clone, Copy, Debug, PartialEq, Eq, Structural)]
pub enum PacketError {
    /// There is no register selector, or there are more than sixteen.
    Registers,
    /// The number of repeat units does not fit the fifteen bits of the tag.
    LoopCount,
    /// The payload is not one quadword for each slot of each repeat unit.
    Count,
    /// The buffer has no room for the tag and the payload at the offset.
    Capacity,
}

/// A flag as the bit that a tag carries.
pub open spec fn flag_bit(flag: bool) -> u64 {
    if flag {
        1
    } else {
        0
    }
}

/// The selector word made of the first `n` selectors: selector `i` lies in
/// the four bits from `4 * i` on.
pub open spec fn selector_prefix(registers: Seq<u8>, n: nat) -> u64
    decreases n,
{
    if n == 0 {
        0
    } else {
        selector_prefix(registers, (n - 1) as nat) | place(
            registers[n - 1] as u64,
            (4 * (n - 1)) as u64,
            4,
        )
    }
}

/// The upper half of a tag: the register selectors, four bits each, the
/// first one lowest. Each selector is cut down to four bits, and a selector
/// past the sixteenth has no place in the word.
pub open spec fn selectors(registers: Seq<u8>) -> u64 {
    if registers.len() <= 16 {
        selector_prefix(registers, registers.len())
    } else {
        selector_prefix(registers, 16)
    }
}

/// The tag of a packet with these options and selectors. The slot count in
/// it is the number of selectors, sixteen being written as zero.
pub open spec fn packet_tag(options: PacketOptions, registers: Seq<u8>) -> u128 {
    pack(
        tag_word(
            options.nloop,
            flag_bit(options.eop),
            flag_bit(options.pre),
            options.prim,
            options.flg,
            registers.len() as u64,
        ),
        selectors(registers),
    )
}

/// A whole packet: the tag, then the payload.
pub open spec fn packet_words(
    options: PacketOptions,
    registers: Seq<u8>,
    payload: Seq<u128>,
) -> Seq<u128> {
    seq![packet_tag(options, registers)] + payload
}

/// The number of repeat units that a tag declares.
pub open spec fn spec_declared_loops(tag: u128) -> u64 {
    extract(lower_half(tag), 0, 15)
}

/// The number of register slots in each repeat unit that a tag declares. A
/// slot field of zero stands for sixteen.
pub open spec fn spec_declared_slots(tag: u128) -> u64 {
    let field = extract(lower_half(tag), 60, 4);
    if field == 0 {
        16
    } else {
        field
    }
}

/// What keeps a packet from being written at `offset` into a buffer of
/// `capacity` quadwords, if anything does. The first reason that applies is
/// given.
pub open spec fn packet_error(
    capacity: nat,
    offset: nat,
    options: PacketOptions,
    registers: Seq<u8>,
    payload: Seq<u128>,
) -> Option<PacketError> {
    if registers.len() == 0 || registers.len() > 16 {
        Some(PacketError::Registers)
    } else if options.nloop > 0x7FFF {
        Some(PacketError::LoopCount)
    } else if options.nloop * registers.len() != payload.len() {
        Some(PacketError::Count)
    } else if offset + 1 + payload.len() > capacity {
        Some(PacketError::Capacity)
    } else {
        None
    }
}

/// Packs register selectors into the upper half of a tag, four bits each,
/// the first one lowest.
pub fn selector_word(registers: &[u8]) -> (word: u64)
    ensures
        word == selectors(registers@),
{
    let mut word: u64 = 0;
    let mut i: usize = 0;
    while i < registers.len() && i < 16
        invariant
            i <= registers@.len(),
            i <= 16,
            word == selector_prefix(registers@, i as nat),
        decreases registers@.len() - i,
    {
        word = word | place(registers[i] as u64, 4 * (i as u64), 4);
        i += 1;
    }
    word
}

/// The number of repeat units that a tag declares.
#[verifier::when_used_as_spec(spec_declared_loops)]
pub fn declared_loops(tag: u128) -> (n: u64)
    ensures
        n == spec_declared_loops(tag),
{
    let (low, _) = unpack(tag);
    extract(low, 0, 15)
}

/// The number of register slots in each repeat unit that a tag declares.
#[verifier::when_used_as_spec(spec_declared_slots)]
pub fn declared_slots(tag: u128) -> (n: u64)
    ensures
        n == spec_declared_slots(tag),
        1 <= n <= 16,
{
    let (low, _) = unpack(tag);
    let field = extract(low, 60, 4);
    proof {
        lemma_low_bits_values();
    }
    if field == 0 {
        16
    } else {
        field
    }
}

/// A tag built for `nloop` repeat units of `slots` selectors declares just
/// those counts, provided the counts fit the tag at all.
pub proof fn lemma_tag_declares_its_counts(options: PacketOptions, registers: Seq<u8>)
    requires
        options.nloop <= 0x7FFF,
        1 <= registers.len() <= 16,
    ensures
        declared_loops(packet_tag(options, registers)) == options.nloop,
        declared_slots(packet_tag(options, registers)) == registers.len(),
{
    let slots = registers.len() as u64;
    let low = tag_word(
        options.nloop,
        flag_bit(options.eop),
        flag_bit(options.pre),
        options.prim,
        options.flg,
        slots,
    );
    lemma_placed_fields();
    lemma_field_bounds();
    lemma_low_bits_values();
    assert(extract(low, 0, 15) == options.nloop);
    if slots == 16 {
        assert(crate::bits::spec_mask(16, 4) == 0) by (bit_vector);
    }
    let high = selectors(registers);
    assert(lower_half(pack(low, high)) == low) by (nonlinear_arith)
        requires
            pack(low, high) == low + high * 0x1_0000_0000_0000_0000,
            low <= u64::MAX,
    ;
}

/// Writes a packet into `buffer`: the tag at `offset`, the payload behind
/// it. Returns the offset behind the packet, where the next one may go.
///
/// Nothing is written unless the whole packet can be: the selectors must be
/// between one and sixteen, `options.nloop` must fit fifteen bits, the
/// payload must hold one quadword for each selector of each repeat unit, and
/// the buffer must have room. What the quadwords of the payload mean is the
/// caller's business; the selectors are not held against them.
pub fn write_packet<const N: usize>(
    buffer: &mut TransferBuffer<N>,
    offset: usize,
    options: PacketOptions,
    registers: &[u8],
    payload: &[u128],
) -> (result: Result<usize, PacketError>)
    ensures
        match result {
            Ok(next) => {
                &&& packet_error(N as nat, offset as nat, options, registers@, payload@) is None
                &&& next == offset + 1 + payload@.len()
                &&& final(buffer)@ == old(buffer)@.subrange(0, offset as int) + packet_words(
                    options,
                    registers@,
                    payload@,
                ) + old(buffer)@.subrange(next as int, N as int)
                &&& declared_loops(final(buffer)@[offset as int]) * declared_slots(
                    final(buffer)@[offset as int],
                ) == payload@.len()
            },
            Err(e) => {
                &&& packet_error(N as nat, offset as nat, options, registers@, payload@) == Some(e)
                &&& final(buffer)@ == old(buffer)@
            },
        },
{
    let slots = registers.len();
    if slots == 0 || slots > 16 {
        return Err(PacketError::Registers);
    }
    if options.nloop > 0x7FFF {
        return Err(PacketError::LoopCount);
    }
    assert(options.nloop * slots <= 0x7FFF * 16) by (nonlinear_arith)
        requires
            options.nloop <= 0x7FFF,
            slots <= 16,
    ;
    if options.nloop * (slots as u64) != payload.len() as u64 {
        return Err(PacketError::Count);
    }
    if offset >= N || payload.len() > N - offset - 1 {
        return Err(PacketError::Capacity);
    }
    let tag = pack(
        gif_set_tag(
            options.nloop,
            if options.eop {
                1
            } else {
                0
            },
            if options.pre {
                1
            } else {
                0
            },
            options.prim,
            options.flg,
            slots as u64,
        ),
        selector_word(registers),
    );
    assert(tag == packet_tag(options, registers@));
    buffer.words[offset] = tag;
    let mut i: usize = 0;
    while i < payload.len()
        invariant
            i <= payload@.len(),
            offset + 1 + payload@.len() <= N,
            buffer@.len() == N,
            old(buffer)@.len() == N,
            forall|k: int| 0 <= k < offset ==> buffer@[k] == old(buffer)@[k],
            buffer@[offset as int] == tag,
            forall|k: int| 0 <= k < i ==> buffer@[offset + 1 + k] == payload@[k],
            forall|k: int| offset + 1 + i <= k < N ==> buffer@[k] == old(buffer)@[k],
        decreases payload@.len() - i,
    {
        buffer.words[offset + 1 + i] = payload[i];
        i += 1;
    }
    let next = offset + 1 + payload.len();
    proof {
        lemma_tag_declares_its_counts(options, registers@);
        assert(buffer@ =~= old(buffer)@.subrange(0, offset as int) + packet_words(
            options,
            registers@,
            payload@,
        ) + old(buffer)@.subrange(next as int, N as int));
    }
    Ok(next)
}

} // verus!
