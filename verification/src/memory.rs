//! Flat 1 MiB physical memory with the A20-style wraparound at the 20-bit
//! seam: every address is reduced modulo `WRAP_MODULUS` before indexing, and
//! words are composed of two independently wrapped bytes in little-endian
//! order.

use vstd::prelude::*;

verus! {

/// Number of bytes of physical RAM.
pub const MEM_SIZE: usize = 1048576;

/// Addresses are reduced modulo this value before indexing, which models the
/// wraparound at the 1 MiB seam with the A20 line gated off.
pub const WRAP_MODULUS: u64 = 0xFFFFF;

/// The physical byte index that an address refers to.
pub open spec fn wrap_spec(address: u32) -> int {
    address as int % 0xFFFFF
}

/// The physical byte index of the second byte of a word at `address`.
pub open spec fn wrap_next_spec(address: u32) -> int {
    (address + 1) % 0xFFFFF
}

/// The little-endian word read from `address`: low byte at the wrapped
/// address, high byte at the wrapped successor address.
pub open spec fn word_at_spec(ram: Seq<u8>, address: u32) -> u16 {
    (ram[wrap_spec(address)] + ram[wrap_next_spec(address)] * 256) as u16
}

/// The memory contents after a little-endian word write at `address`.
pub open spec fn write_word_spec(ram: Seq<u8>, address: u32, value: u16) -> Seq<u8> {
    ram.update(wrap_spec(address), (value % 256) as u8).update(
        wrap_next_spec(address),
        (value / 256) as u8,
    )
}

/// 1 MiB of flat physical RAM.
pub struct Memory {
    ram: Vec<u8>,
}

impl View for Memory {
    type V = Seq<u8>;

    closed spec fn view(&self) -> Seq<u8> {
        self.ram@
    }
}

impl Memory {
    /// The memory holds exactly `MEM_SIZE` bytes.
    pub open spec fn wf(&self) -> bool {
        self@.len() == MEM_SIZE
    }

    /// Fresh memory, all bytes zero.
    pub fn new() -> (m: Memory)
        ensures
            m.wf(),
            m@ == Seq::new(MEM_SIZE as nat, |i: int| 0u8),
    {
        let ram: Vec<u8> = vec![0u8; MEM_SIZE];
        proof {
            assert forall|i: int| 0 <= i < MEM_SIZE implies ram@[i] == 0u8 by {
                assert(cloned(0u8, ram@[i]));
            }
            assert(ram@ =~= Seq::new(MEM_SIZE as nat, |i: int| 0u8));
        }
        Memory { ram }
    }

    /// Wraps an address to a physical byte index.
    pub fn wrap_address(address: u32) -> (r: usize)
        ensures
            r == wrap_spec(address),
    {
        (address as u64 % WRAP_MODULUS) as usize
    }

    /// Reads the byte at a wrapped address.
    pub fn get_byte(&self, address: u32) -> (b: u8)
        requires
            self.wf(),
        ensures
            b == self@[wrap_spec(address)],
    {
        self.ram[Memory::wrap_address(address)]
    }

    /// Borrows the byte at a wrapped address for writing.
    pub fn get_byte_mut(&mut self, address: u32) -> (b: &mut u8)
        requires
            old(self).wf(),
        ensures
            *b == old(self)@[wrap_spec(address)],
            final(self)@ == old(self)@.update(wrap_spec(address), *final(b)),
            final(self).wf(),
    {
        let i = Memory::wrap_address(address);
        &mut self.ram[i]
    }

    /// Reads the little-endian word at a wrapped address.
    pub fn read_word(&self, address: u32) -> (w: u16)
        requires
            self.wf(),
        ensures
            w == word_at_spec(self@, address),
    {
        let low = self.ram[Memory::wrap_address(address)];
        let high_index = ((address as u64 + 1) % WRAP_MODULUS) as usize;
        let high = self.ram[high_index];
        (low as u16) + (high as u16) * 256
    }

    /// Writes a word at a wrapped address, little-endian, byte by byte.
    pub fn write_word(&mut self, address: u32, value: u16)
        requires
            old(self).wf(),
        ensures
            final(self)@ == write_word_spec(old(self)@, address, value),
            final(self).wf(),
    {
        let low_index = Memory::wrap_address(address);
        let high_index = ((address as u64 + 1) % WRAP_MODULUS) as usize;
        self.ram[low_index] = (value % 256) as u8;
        self.ram[high_index] = (value / 256) as u8;
    }
}

/// Writing a word anywhere below the wrap seam and reading it back returns
/// the written value, including at the seam itself, where the high byte
/// lands on the wrapped address zero.
pub proof fn lemma_word_round_trip(ram: Seq<u8>, address: u32, value: u16)
    requires
        ram.len() == MEM_SIZE,
        address <= 0xFFFFE,
    ensures
        word_at_spec(write_word_spec(ram, address, value), address) == value,
{
    let written = write_word_spec(ram, address, value);
    assert(wrap_spec(address) != wrap_next_spec(address));
    assert(written[wrap_spec(address)] == value % 256);
    assert(written[wrap_next_spec(address)] == value / 256);
    assert(value % 256 + (value / 256) * 256 == value);
}

} // verus!
