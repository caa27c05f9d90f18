//! Scatter-gather mode register layout and descriptor ring logic of the AXI DMA IP core.
pub mod fields;

pub use crate::dma::regs::fields::{Control, Status};

use vstd::prelude::*;

use crate::mmio::RegWrite;

verus! {

/// Scatter-gather mode register block of the AXI DMA IP core, as byte offsets from its base.
pub struct Registers;

impl Registers {
    /// MM2S control register.
    pub const MM2S_CONTROL: usize = 0x00;
    /// MM2S status register.
    pub const MM2S_STATUS: usize = 0x04;
    /// The lower 6 bits are reserved and ignored for writes. The address must be 16 word
    /// aligned (e.g. 0x40, 0x80).
    pub const MM2S_CURRENT_DESCRIPTOR_POINTER_LOWER_WORD: usize = 0x08;
    /// Upper word of the MM2S current descriptor pointer.
    pub const MM2S_CURRENT_DESCRIPTOR_POINTER_UPPER_WORD: usize = 0x0C;
    /// Lower word of the MM2S tail descriptor pointer.
    pub const MM2S_TAIL_DESCRIPTOR_LOWER_WORD: usize = 0x10;
    /// Upper word of the MM2S tail descriptor pointer.
    pub const MM2S_TAIL_DESCRIPTOR_UPPER_WORD: usize = 0x14;
    /// Scatter-gather engine control register (SGCTL).
    pub const SCATTER_GATHER_CONTROL: usize = 0x2C;
    /// S2MM control register.
    pub const S2MM_CONTROL: usize = 0x30;
    /// S2MM status register.
    pub const S2MM_STATUS: usize = 0x34;
    /// The lower 6 bits are reserved and ignored for writes. The address must be 16 word
    /// aligned (e.g. 0x40, 0x80).
    pub const S2MM_CURRENT_DESCRIPTOR_POINTER_LOWER_WORD: usize = 0x38;
    /// Upper word of the S2MM current descriptor pointer.
    pub const S2MM_CURRENT_DESCRIPTOR_POINTER_UPPER_WORD: usize = 0x3C;
    /// Lower word of the S2MM tail descriptor pointer.
    pub const S2MM_TAIL_DESCRIPTOR_LOWER_WORD: usize = 0x40;
    /// Upper word of the S2MM tail descriptor pointer.
    pub const S2MM_TAIL_DESCRIPTOR_UPPER_WORD: usize = 0x44;
    /// Size of the register block in bytes.
    pub const SIZE: usize = 0x48;
}

/// Size and alignment of one scatter-gather buffer descriptor in bytes: descriptors sit in
/// memory back to back, each 16-word aligned.
pub const DESCRIPTOR_SIZE: usize = 0x40;

/// Offset of a descriptor's next-descriptor pointer (lower word). The lower 6 bits are
/// reserved and ignored for writes.
pub const NEXT_DESCRIPTOR_POINTER_LOWER_WORD: usize = 0x00;
/// Offset of a descriptor's next-descriptor pointer (upper word).
pub const NEXT_DESCRIPTOR_POINTER_UPPER_WORD: usize = 0x04;
/// Offset of a descriptor's buffer address (lower word).
pub const BUFFER_ADDRESS_LOWER_WORD: usize = 0x08;
/// Offset of a descriptor's buffer address (upper word).
pub const BUFFER_ADDRESS_UPPER_WORD: usize = 0x0C;
/// Offset of a descriptor's control word.
pub const DESCRIPTOR_CONTROL: usize = 0x18;
/// Offset of a descriptor's status word.
pub const DESCRIPTOR_STATUS: usize = 0x1C;
/// Offset of a descriptor's first application word.
pub const DESCRIPTOR_APP_WORDS: usize = 0x20;

/// Lower 32 bits of a 64-bit address.
pub open spec fn lower_word(addr: u64) -> u32 {
    (addr % 0x1_0000_0000) as u32
}

/// Upper 32 bits of a 64-bit address.
pub open spec fn upper_word(addr: u64) -> u32 {
    (addr / 0x1_0000_0000) as u32
}

/// Splits an address into its lower and upper 32-bit words.
pub fn split_address(addr: u64) -> (r: (u32, u32))
    ensures
        r.0 == lower_word(addr),
        r.1 == upper_word(addr),
        r.1 as u64 * 0x1_0000_0000 + r.0 as u64 == addr,
{
    assert((addr as u32) as u64 == addr % 0x1_0000_0000 && addr >> 32 == addr / 0x1_0000_0000)
        by (bit_vector);
    (addr as u32, (addr >> 32) as u32)
}

/// The writes that make a descriptor point at the buffer at `addr`: the source buffer for
/// MM2S, or the destination buffer for S2MM. Offsets are relative to the descriptor.
pub fn set_buffer_address(addr: usize) -> (r: Vec<RegWrite>)
    ensures
        r@ == seq![
            RegWrite::spec_new(BUFFER_ADDRESS_LOWER_WORD, lower_word(addr as u64)),
            RegWrite::spec_new(BUFFER_ADDRESS_UPPER_WORD, upper_word(addr as u64)),
        ],
{
    let (lower, upper) = split_address(addr as u64);
    let mut writes: Vec<RegWrite> = Vec::new();
    writes.push(RegWrite::new(BUFFER_ADDRESS_LOWER_WORD, lower));
    writes.push(RegWrite::new(BUFFER_ADDRESS_UPPER_WORD, upper));
    writes
}

/// Index of the descriptor that follows descriptor `i` in a ring of `len` descriptors.
pub open spec fn ring_successor(i: int, len: int) -> int {
    (i + 1) % len
}

/// Address of the descriptor that follows descriptor `i` in a ring of `len` descriptors that
/// starts at `base_addr`.
pub open spec fn ring_next_address(base_addr: usize, len: usize, i: int) -> u64 {
    (base_addr + ring_successor(i, len as int) * DESCRIPTOR_SIZE) as u64
}

/// The writes of [`configure_descriptors_cyclic`] for the ring of `len` descriptors at
/// `base_addr`: for each descriptor in order, its next-descriptor pointer's lower word, then
/// its upper word.
pub open spec fn cyclic_link_writes(base_addr: usize, len: usize) -> Seq<RegWrite> {
    Seq::new((2 * len) as nat, |k: int| {
        let i = k / 2;
        if k % 2 == 0 {
            RegWrite::spec_new(
                (i * DESCRIPTOR_SIZE + NEXT_DESCRIPTOR_POINTER_LOWER_WORD) as usize,
                lower_word(ring_next_address(base_addr, len, i)),
            )
        } else {
            RegWrite::spec_new(
                (i * DESCRIPTOR_SIZE + NEXT_DESCRIPTOR_POINTER_UPPER_WORD) as usize,
                upper_word(ring_next_address(base_addr, len, i)),
            )
        }
    })
}

/// Configures a descriptor list cyclic by linking each descriptor's `next_descriptor_pointer` to
/// its successor, wrapping the last descriptor's back around to the first, so the DMA engine
/// walks the whole ring and loops forever instead of running off the end after the first
/// descriptor (whose `next_descriptor_pointer` would otherwise stay null).
///
/// `base_addr` is the address of the first of `len` descriptors laid out back to back; the
/// returned writes have offsets relative to it. An empty list needs no writes.
pub fn configure_descriptors_cyclic(base_addr: usize, len: usize) -> (r: Vec<RegWrite>)
    requires
        base_addr + len * DESCRIPTOR_SIZE <= usize::MAX,
    ensures
        r@ == cyclic_link_writes(base_addr, len),
{
    let mut writes: Vec<RegWrite> = Vec::new();
    if len == 0 {
        assert(writes@ =~= cyclic_link_writes(base_addr, len));
        return writes;
    }
    let mut i: usize = 0;
    while i < len
        invariant
            0 < len,
            i <= len,
            base_addr + len * DESCRIPTOR_SIZE <= usize::MAX,
            writes@ =~= cyclic_link_writes(base_addr, len).take(2 * i),
        decreases len - i,
    {
        let succ = (i + 1) % len;
        assert(succ * DESCRIPTOR_SIZE <= len * DESCRIPTOR_SIZE) by (nonlinear_arith)
            requires succ < len;
        assert(i * DESCRIPTOR_SIZE + DESCRIPTOR_SIZE <= len * DESCRIPTOR_SIZE) by (nonlinear_arith)
            requires i < len;
        // Widening to u64 keeps this correct regardless of target pointer width.
        let next_addr = (base_addr + succ * DESCRIPTOR_SIZE) as u64;
        let (lower, upper) = split_address(next_addr);
        let at = i * DESCRIPTOR_SIZE;
        writes.push(RegWrite::new(at + NEXT_DESCRIPTOR_POINTER_LOWER_WORD, lower));
        writes.push(RegWrite::new(at + NEXT_DESCRIPTOR_POINTER_UPPER_WORD, upper));
        proof {
            let full = cyclic_link_writes(base_addr, len);
            assert((2 * i) / 2 == i && (2 * i) % 2 == 0);
            assert((2 * i + 1) / 2 == i && (2 * i + 1) % 2 == 1);
            assert(full.take(2 * (i + 1)) =~= full.take(2 * i).push(full[2 * i as int]).push(
                full[2 * i + 1],
            ));
        }
        i = i + 1;
    }
    writes
}

/// Following `k` next-descriptor links from descriptor `i` of a ring of `len` descriptors
/// leads to descriptor `(i + k) % len`.
pub open spec fn ring_walk(i: int, len: int, k: nat) -> int
    decreases k,
{
    if k == 0 {
        i
    } else {
        ring_successor(ring_walk(i, len, (k - 1) as nat), len)
    }
}

/// The links written by [`configure_descriptors_cyclic`] form one ring through all
/// descriptors: starting at any descriptor and following `k` links lands on descriptor
/// `(i + k) % len`, so after `len` links the walk is back where it started, having visited
/// every descriptor on the way.
pub proof fn lemma_descriptor_ring(i: int, len: int, k: nat)
    requires
        0 <= i < len,
    ensures
        ring_walk(i, len, k) == (i + k) % len,
    decreases k,
{
    if k > 0 {
        lemma_descriptor_ring(i, len, (k - 1) as nat);
        vstd::arithmetic::div_mod::lemma_add_mod_noop_right(1, i + k - 1, len);
    } else {
        vstd::arithmetic::div_mod::lemma_small_mod(i as nat, len as nat);
    }
}

/// An address's upper and lower words put back together give the address; and in a ring of
/// descriptors 0x40 bytes apart, each descriptor links to the next one, the last back to the
/// first.
pub proof fn lemma_words_and_links(addr: u64, len: usize, i: int)
    requires
        0 <= i < len,
    ensures
        upper_word(addr) as u64 * 0x1_0000_0000 + lower_word(addr) as u64 == addr,
        DESCRIPTOR_SIZE == 0x40,
        i + 1 < len ==> ring_successor(i, len as int) == i + 1,
        i + 1 == len ==> ring_successor(i, len as int) == 0,
{
    if i + 1 < len {
        vstd::arithmetic::div_mod::lemma_small_mod((i + 1) as nat, len as nat);
    } else {
        vstd::arithmetic::div_mod::lemma_mod_self_0(len as int);
    }
}

/// Linking a ring of `len` descriptors writes, for each descriptor `i` in turn, the lower then
/// the upper word of its next-descriptor pointer (at 0x00 and 0x04 of the descriptor, which
/// sits `0x40 * i` bytes into the ring), and those two words make the address of the
/// descriptor after it in the ring: descriptor `i + 1`, or the first one after the last.
pub proof fn lemma_link_writes_point_to_successor(base_addr: usize, len: usize, i: int)
    requires
        0 <= i < len,
        base_addr + len * DESCRIPTOR_SIZE <= usize::MAX,
    ensures
        cyclic_link_writes(base_addr, len).len() == 2 * len,
        cyclic_link_writes(base_addr, len)[2 * i].offset == 0x40 * i,
        cyclic_link_writes(base_addr, len)[2 * i + 1].offset == 0x40 * i + 0x04,
        cyclic_link_writes(base_addr, len)[2 * i + 1].value as u64 * 0x1_0000_0000
            + cyclic_link_writes(base_addr, len)[2 * i].value as u64
            == base_addr + 0x40 * (if i + 1 < len { i + 1 } else { 0 }),
{
    assert((2 * i) / 2 == i && (2 * i) % 2 == 0);
    assert((2 * i + 1) / 2 == i && (2 * i + 1) % 2 == 1);
    lemma_words_and_links(ring_next_address(base_addr, len, i), len, i);
    let succ = ring_successor(i, len as int);
    assert(0 <= succ < len);
    assert(succ * DESCRIPTOR_SIZE <= len * DESCRIPTOR_SIZE) by (nonlinear_arith)
        requires 0 <= succ < len;
    assert(i * DESCRIPTOR_SIZE <= len * DESCRIPTOR_SIZE) by (nonlinear_arith)
        requires 0 <= i < len;
}

} // verus!
