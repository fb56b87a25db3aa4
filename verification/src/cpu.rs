//! The fetch/decode/execute core: one `step` fetches the opcode at CS:IP,
//! dispatches over the implemented families (MOV, PUSH, POP and the
//! segment-register moves), resolves operands through the ModR/M decoder,
//! and moves data between registers and memory.
//!
//! Register indices follow the canonical encoding (AX=0, CX=1, DX=2, BX=3,
//! SP=4, BP=5, SI=6, DI=7; segments ES=0, CS=1, SS=2, DS=3). The whole
//! machine is modelled by `CpuView`, and `step_spec` gives the meaning of
//! one instruction step; `CPU::step` is proved to implement it exactly.

use vstd::prelude::*;

use crate::address::{
    decode_operand_spec, modrm_center, modrm_mode, modrm_rm, operand_valid, parse_rm,
    sign_extend_spec, RegisterOrMemory,
};
use crate::memory::{word_at_spec, wrap_next_spec, wrap_spec, write_word_spec, Memory, MEM_SIZE};
use crate::state::{read_byte_spec, word_low_byte, write_byte_spec, State, StateView, reset_view};

verus! {

/// Faults surfaced to the host; neither is recovered internally, and IP has
/// already advanced past the faulting bytes when one is returned.
#[derive(Clone, Copy, Debug, PartialEq, Eq, Structural)]
pub enum Fault {
    /// The fetched opcode is outside the implemented dispatch table.
    UnsupportedOpcode(u8),
    /// A ModR/M sub-opcode check failed, or a reserved field was non-zero.
    InvalidEncoding,
}

/// Mathematical model of the whole machine: architectural state plus the
/// contents of physical memory.
#[verifier::ext_equal]
pub struct CpuView {
    pub state: StateView,
    pub ram: Seq<u8>,
}

impl CpuView {
    pub open spec fn wf(self) -> bool {
        &&& self.state.wf()
        &&& self.ram.len() == MEM_SIZE
    }
}

/// The 20-bit physical address of segment:offset, before memory wrapping.
pub open spec fn phys_spec(seg: u16, offset: u16) -> u32 {
    (seg * 16 + offset) as u32
}

/// One code byte fetched at CS:IP; IP advances by 1 with 16-bit wrapping.
pub open spec fn fetch_byte_spec(c: CpuView) -> (u8, CpuView) {
    let b = c.ram[wrap_spec(phys_spec(c.state.segs[1], c.state.ip))];
    let advanced = StateView { ip: ((c.state.ip + 1) % 0x10000) as u16, ..c.state };
    (b, CpuView { state: advanced, ..c })
}

/// One little-endian code word fetched at CS:IP; IP advances by 2.
pub open spec fn fetch_word_spec(c: CpuView) -> (u16, CpuView) {
    let w = word_at_spec(c.ram, phys_spec(c.state.segs[1], c.state.ip));
    let advanced = StateView { ip: ((c.state.ip + 2) % 0x10000) as u16, ..c.state };
    (w, CpuView { state: advanced, ..c })
}

/// A ModR/M byte and its displacement consumed from the instruction stream,
/// resolved to an operand descriptor and the middle field.
pub open spec fn parse_rm_spec(c: CpuView) -> (RegisterOrMemory, u8, CpuView) {
    let (modrm, c1) = fetch_byte_spec(c);
    let mode = modrm_mode(modrm);
    let center = modrm_center(modrm);
    let rm = modrm_rm(modrm);
    if mode == 0 && rm == 6 {
        let (disp, c2) = fetch_word_spec(c1);
        (decode_operand_spec(c2.state.regs, mode, rm, disp), center, c2)
    } else if mode == 1 {
        let (b, c2) = fetch_byte_spec(c1);
        (decode_operand_spec(c2.state.regs, mode, rm, sign_extend_spec(b)), center, c2)
    } else if mode == 2 {
        let (disp, c2) = fetch_word_spec(c1);
        (decode_operand_spec(c2.state.regs, mode, rm, disp), center, c2)
    } else {
        (decode_operand_spec(c1.state.regs, mode, rm, 0), center, c1)
    }
}

/// The word an operand refers to: a word register, or the little-endian
/// word at DS:offset.
pub open spec fn read_word_operand_spec(c: CpuView, op: RegisterOrMemory) -> u16 {
    match op {
        RegisterOrMemory::Register(r) => c.state.regs[r as int],
        RegisterOrMemory::Memory(offset) => word_at_spec(c.ram, phys_spec(c.state.segs[3], offset)),
    }
}

/// The machine after writing a word to an operand.
pub open spec fn write_word_operand_spec(c: CpuView, op: RegisterOrMemory, v: u16) -> CpuView {
    match op {
        RegisterOrMemory::Register(r) => CpuView {
            state: StateView { regs: c.state.regs.update(r as int, v), ..c.state },
            ..c
        },
        RegisterOrMemory::Memory(offset) => CpuView {
            ram: write_word_spec(c.ram, phys_spec(c.state.segs[3], offset), v),
            ..c
        },
    }
}

/// The byte an operand refers to: a byte-aliased register view, or the byte
/// at DS:offset.
pub open spec fn read_byte_operand_spec(c: CpuView, op: RegisterOrMemory) -> u8 {
    match op {
        RegisterOrMemory::Register(r) => read_byte_spec(c.state, r),
        RegisterOrMemory::Memory(offset) => c.ram[wrap_spec(phys_spec(c.state.segs[3], offset))],
    }
}

/// The machine after writing a byte to an operand.
pub open spec fn write_byte_operand_spec(c: CpuView, op: RegisterOrMemory, v: u8) -> CpuView {
    match op {
        RegisterOrMemory::Register(r) => CpuView { state: write_byte_spec(c.state, r, v), ..c },
        RegisterOrMemory::Memory(offset) => CpuView {
            ram: c.ram.update(wrap_spec(phys_spec(c.state.segs[3], offset)), v),
            ..c
        },
    }
}

/// The machine after pushing a word: SP predecremented by 2 with 16-bit
/// wrapping, then the word stored little-endian at SS:SP.
pub open spec fn push_word_spec(c: CpuView, v: u16) -> CpuView {
    let sp = ((c.state.regs[4] + 0xFFFE) % 0x10000) as u16;
    CpuView {
        state: StateView { regs: c.state.regs.update(4, sp), ..c.state },
        ram: write_word_spec(c.ram, phys_spec(c.state.segs[2], sp), v),
    }
}

/// The word read at SS:SP, and the machine after SP is postincremented by 2.
pub open spec fn pop_word_spec(c: CpuView) -> (u16, CpuView) {
    let v = word_at_spec(c.ram, phys_spec(c.state.segs[2], c.state.regs[4]));
    let sp = ((c.state.regs[4] + 2) % 0x10000) as u16;
    (v, CpuView { state: StateView { regs: c.state.regs.update(4, sp), ..c.state }, ..c })
}

/// MOV r/m <-> r (opcodes 0x88..0x8B), after the opcode fetch: the middle
/// field names the register operand, `d` selects it as the destination.
pub open spec fn mov_rm_reg_spec(c: CpuView, w: bool, d: bool) -> CpuView {
    let t = parse_rm_spec(c);
    let operand = t.0;
    let reg_op = RegisterOrMemory::Register(t.1);
    let c1 = t.2;
    if w {
        if d {
            write_word_operand_spec(c1, reg_op, read_word_operand_spec(c1, operand))
        } else {
            write_word_operand_spec(c1, operand, read_word_operand_spec(c1, reg_op))
        }
    } else {
        if d {
            write_byte_operand_spec(c1, reg_op, read_byte_operand_spec(c1, operand))
        } else {
            write_byte_operand_spec(c1, operand, read_byte_operand_spec(c1, reg_op))
        }
    }
}

/// MOV imm -> r/m (opcodes 0xC6, 0xC7): the middle field is a sub-opcode
/// and must be zero, else the step faults with the immediate unconsumed.
pub open spec fn mov_imm_rm_spec(c: CpuView, w: bool) -> (CpuView, Option<Fault>) {
    let t = parse_rm_spec(c);
    let operand = t.0;
    let center = t.1;
    let c1 = t.2;
    if center != 0 {
        (c1, Some(Fault::InvalidEncoding))
    } else if w {
        let (imm, c2) = fetch_word_spec(c1);
        (write_word_operand_spec(c2, operand, imm), None)
    } else {
        let (imm, c2) = fetch_byte_spec(c1);
        (write_byte_operand_spec(c2, operand, imm), None)
    }
}

/// MOV imm -> reg (opcodes 0xB0..0xBF): bit 3 selects the width, the low
/// three bits the register.
pub open spec fn mov_imm_reg_spec(c: CpuView, opcode: u8) -> CpuView {
    let w = (opcode / 8) % 2 == 1;
    let reg = opcode % 8;
    if w {
        let (imm, c1) = fetch_word_spec(c);
        CpuView { state: StateView { regs: c1.state.regs.update(reg as int, imm), ..c1.state }, ..c1 }
    } else {
        let (imm, c1) = fetch_byte_spec(c);
        CpuView { state: write_byte_spec(c1.state, reg, imm), ..c1 }
    }
}

/// MOV between the accumulator and a direct memory offset (opcodes
/// 0xA0..0xA3): a 16-bit offset follows the opcode and is paired with DS;
/// the low opcode bit selects the width, bit 1 the direction.
pub open spec fn mov_accum_spec(c: CpuView, opcode: u8) -> CpuView {
    let w = opcode % 2 == 1;
    let (offset, c1) = fetch_word_spec(c);
    let addr = phys_spec(c1.state.segs[3], offset);
    if opcode >= 0xA2 {
        if w {
            CpuView { ram: write_word_spec(c1.ram, addr, c1.state.regs[0]), ..c1 }
        } else {
            CpuView { ram: c1.ram.update(wrap_spec(addr), word_low_byte(c1.state.regs[0])), ..c1 }
        }
    } else {
        if w {
            CpuView {
                state: StateView {
                    regs: c1.state.regs.update(0, word_at_spec(c1.ram, addr)),
                    ..c1.state
                },
                ..c1
            }
        } else {
            CpuView { state: write_byte_spec(c1.state, 0, c1.ram[wrap_spec(addr)]), ..c1 }
        }
    }
}

/// MOV sreg <-> r/m (opcodes 0x8C, 0x8E): the middle field is a 2-bit
/// segment code whose top bit must be zero, else the step faults; the
/// transfer is always word-sized.
pub open spec fn mov_sreg_spec(c: CpuView, opcode: u8) -> (CpuView, Option<Fault>) {
    let t = parse_rm_spec(c);
    let operand = t.0;
    let sr = t.1;
    let c1 = t.2;
    if sr >= 4 {
        (c1, Some(Fault::InvalidEncoding))
    } else if opcode == 0x8E {
        (
            CpuView {
                state: StateView {
                    segs: c1.state.segs.update(sr as int, read_word_operand_spec(c1, operand)),
                    ..c1.state
                },
                ..c1
            },
            None,
        )
    } else {
        (write_word_operand_spec(c1, operand, c1.state.segs[sr as int]), None)
    }
}

/// PUSH r/m16 (opcode 0xFF): the middle field must be 6, else the step
/// faults.
pub open spec fn push_rm_spec(c: CpuView) -> (CpuView, Option<Fault>) {
    let t = parse_rm_spec(c);
    if t.1 != 6 {
        (t.2, Some(Fault::InvalidEncoding))
    } else {
        (push_word_spec(t.2, read_word_operand_spec(t.2, t.0)), None)
    }
}

/// POP r/m16 (opcode 0x8F): the middle field must be 0, else the step
/// faults. The effective address is resolved before SP moves; the operand
/// is written after.
pub open spec fn pop_rm_spec(c: CpuView) -> (CpuView, Option<Fault>) {
    let t = parse_rm_spec(c);
    if t.1 != 0 {
        (t.2, Some(Fault::InvalidEncoding))
    } else {
        let (v, c2) = pop_word_spec(t.2);
        (write_word_operand_spec(c2, t.0, v), None)
    }
}

/// The meaning of one instruction step: the machine after it, and the fault
/// it surfaces, if any. On a fault IP has already advanced past the bytes
/// consumed so far.
#[verifier::opaque]
pub open spec fn step_spec(c: CpuView) -> (CpuView, Option<Fault>) {
    let (opcode, c1) = fetch_byte_spec(c);
    if 0x88 <= opcode <= 0x8B {
        (mov_rm_reg_spec(c1, opcode % 2 == 1, (opcode / 2) % 2 == 1), None)
    } else if opcode == 0xC6 || opcode == 0xC7 {
        mov_imm_rm_spec(c1, opcode % 2 == 1)
    } else if 0xB0 <= opcode <= 0xBF {
        (mov_imm_reg_spec(c1, opcode), None)
    } else if 0xA0 <= opcode <= 0xA3 {
        (mov_accum_spec(c1, opcode), None)
    } else if opcode == 0x8C || opcode == 0x8E {
        mov_sreg_spec(c1, opcode)
    } else if 0x50 <= opcode <= 0x57 {
        (push_word_spec(c1, c1.state.regs[(opcode % 8) as int]), None)
    } else if opcode == 0x06 || opcode == 0x0E || opcode == 0x16 || opcode == 0x1E {
        (push_word_spec(c1, c1.state.segs[((opcode / 8) % 4) as int]), None)
    } else if opcode == 0xFF {
        push_rm_spec(c1)
    } else if 0x58 <= opcode <= 0x5F {
        let (v, c2) = pop_word_spec(c1);
        (
            CpuView {
                state: StateView {
                    regs: c2.state.regs.update((opcode % 8) as int, v),
                    ..c2.state
                },
                ..c2
            },
            None,
        )
    } else if opcode == 0x07 || opcode == 0x0F || opcode == 0x17 || opcode == 0x1F {
        let (v, c2) = pop_word_spec(c1);
        (
            CpuView {
                state: StateView {
                    segs: c2.state.segs.update(((opcode / 8) % 4) as int, v),
                    ..c2.state
                },
                ..c2
            },
            None,
        )
    } else if opcode == 0x8F {
        pop_rm_spec(c1)
    } else {
        (c1, Some(Fault::UnsupportedOpcode(opcode)))
    }
}

/// The memory contents after `bytes` is copied to successive wrapped
/// addresses starting at `address`; later bytes win on wrapped collisions.
pub open spec fn load_spec(ram: Seq<u8>, address: int, bytes: Seq<u8>) -> Seq<u8>
    decreases bytes.len(),
{
    if bytes.len() == 0 {
        ram
    } else {
        load_spec(ram, address, bytes.drop_last()).update(
            (address + bytes.len() - 1) % 0xFFFFF,
            bytes.last(),
        )
    }
}

/// The CPU core: architectural state plus the 1 MiB physical memory it
/// owns.
pub struct CPU {
    pub mem: Memory,
    pub state: State,
}

impl View for CPU {
    type V = CpuView;

    open spec fn view(&self) -> CpuView {
        CpuView { state: self.state@, ram: self.mem@ }
    }
}

impl CPU {
    pub open spec fn wf(&self) -> bool {
        self@.wf()
    }

    /// A machine satisfying the reset invariant, with memory zeroed.
    pub fn new() -> (cpu: CPU)
        ensures
            cpu.wf(),
            cpu@.state == reset_view(),
            cpu@.ram == Seq::new(MEM_SIZE as nat, |i: int| 0u8),
    {
        CPU { mem: Memory::new(), state: State::new() }
    }

    /// Restores the reset invariant on the registers; memory is untouched.
    pub fn reset(&mut self)
        requires
            old(self).wf(),
        ensures
            final(self).wf(),
            final(self)@.state == reset_view(),
            final(self)@.ram == old(self)@.ram,
    {
        self.state.reset();
    }

    /// Copies bytes into memory at successive wrapped physical addresses.
    pub fn load(&mut self, address: u32, bytes: &[u8])
        requires
            old(self).wf(),
        ensures
            final(self).wf(),
            final(self)@.ram == load_spec(old(self)@.ram, address as int, bytes@),
            final(self)@.state == old(self)@.state,
    {
        let ghost ram0 = self@.ram;
        let mut i: usize = 0;
        while i < bytes.len()
            invariant
                i <= bytes@.len(),
                self.wf(),
                self@.state == old(self)@.state,
                self@.ram == load_spec(ram0, address as int, bytes@.subrange(0, i as int)),
                ram0 == old(self)@.ram,
            decreases bytes@.len() - i,
        {
            let b = bytes[i];
            let target = ((address as u128 + i as u128) % (crate::memory::WRAP_MODULUS as u128)) as u32;
            let slot = self.mem.get_byte_mut(target);
            *slot = b;
            proof {
                let prefix = bytes@.subrange(0, i as int);
                let extended = bytes@.subrange(0, i + 1);
                assert(extended.drop_last() =~= prefix);
                assert(extended.last() == bytes@[i as int]);
                assert(wrap_spec(target) == (address + i) % 0xFFFFF);
                assert(self@.ram =~= load_spec(ram0, address as int, extended));
            }
            i = i + 1;
        }
        proof {
            assert(bytes@.subrange(0, bytes@.len() as int) =~= bytes@);
        }
    }

    /// Reads one byte of physical memory at a wrapped address.
    pub fn read_mem(&self, address: u32) -> (b: u8)
        requires
            self.wf(),
        ensures
            b == self@.ram[wrap_spec(address)],
    {
        self.mem.get_byte(address)
    }

    /// Writes one byte of physical memory at a wrapped address.
    pub fn write_mem(&mut self, address: u32, v: u8)
        requires
            old(self).wf(),
        ensures
            final(self).wf(),
            final(self)@.ram == old(self)@.ram.update(wrap_spec(address), v),
            final(self)@.state == old(self)@.state,
    {
        let slot = self.mem.get_byte_mut(address);
        *slot = v;
    }

    /// Observes the architectural state.
    pub fn state(&self) -> (s: &State)
        ensures
            *s == self.state,
    {
        &self.state
    }

    /// Borrows the architectural state for test-fixture setup.
    pub fn state_mut(&mut self) -> (s: &mut State)
        ensures
            *s == old(self).state,
            final(self).state == *final(s),
            final(self).mem == old(self).mem,
    {
        &mut self.state
    }

    /// The physical address of segment:offset.
    pub fn get_address(&self, segment: u8, offset: u16) -> (r: u32)
        requires
            self.wf(),
            segment < 4,
        ensures
            r == phys_spec(self@.state.segs[segment as int], offset),
    {
        (self.state.read_seg(segment) as u32) * 16 + offset as u32
    }

    /// The physical address of segment:register.
    pub fn get_address_register(&self, segment: u8, register: u8) -> (r: u32)
        requires
            self.wf(),
            segment < 4,
            register < 8,
        ensures
            r == phys_spec(self@.state.segs[segment as int], self@.state.regs[register as int]),
    {
        let offset = self.state.read_word(register);
        (self.state.read_seg(segment) as u32) * 16 + offset as u32
    }

    /// The physical address of the next instruction byte, CS:IP.
    pub fn get_address_ip(&self) -> (r: u32)
        requires
            self.wf(),
        ensures
            r == phys_spec(self@.state.segs[1], self@.state.ip),
    {
        (self.state.read_seg(1) as u32) * 16 + self.state.read_ip() as u32
    }

    /// Fetches the byte at CS:IP and advances IP.
    pub fn next_code(&mut self) -> (b: u8)
        requires
            old(self).wf(),
        ensures
            final(self).wf(),
            b == fetch_byte_spec(old(self)@).0,
            final(self)@ == fetch_byte_spec(old(self)@).1,
    {
        let addr = self.get_address_ip();
        let b = self.mem.get_byte(addr);
        self.state.advance_ip(1);
        b
    }

    /// Fetches the little-endian word at CS:IP and advances IP by 2.
    pub fn next_code_word(&mut self) -> (w: u16)
        requires
            old(self).wf(),
        ensures
            final(self).wf(),
            w == fetch_word_spec(old(self)@).0,
            final(self)@ == fetch_word_spec(old(self)@).1,
    {
        let addr = self.get_address_ip();
        let w = self.mem.read_word(addr);
        self.state.advance_ip(2);
        w
    }

    /// Reads the word a decoded operand refers to.
    pub fn read_word_operand(&self, operand: RegisterOrMemory) -> (w: u16)
        requires
            self.wf(),
            operand_valid(operand),
        ensures
            w == read_word_operand_spec(self@, operand),
    {
        match operand {
            RegisterOrMemory::Register(r) => self.state.read_word(r),
            RegisterOrMemory::Memory(offset) => self.mem.read_word(self.get_address(3, offset)),
        }
    }

    /// Writes a word to a decoded operand.
    pub fn write_word_operand(&mut self, operand: RegisterOrMemory, v: u16)
        requires
            old(self).wf(),
            operand_valid(operand),
        ensures
            final(self).wf(),
            final(self)@ == write_word_operand_spec(old(self)@, operand, v),
    {
        match operand {
            RegisterOrMemory::Register(r) => self.state.write_word(r, v),
            RegisterOrMemory::Memory(offset) => {
                let addr = self.get_address(3, offset);
                self.mem.write_word(addr, v);
            },
        }
    }

    /// Reads the byte a decoded operand refers to.
    pub fn read_byte_operand(&self, operand: RegisterOrMemory) -> (b: u8)
        requires
            self.wf(),
            operand_valid(operand),
        ensures
            b == read_byte_operand_spec(self@, operand),
    {
        match operand {
            RegisterOrMemory::Register(r) => self.state.read_byte(r),
            RegisterOrMemory::Memory(offset) => self.mem.get_byte(self.get_address(3, offset)),
        }
    }

    /// Writes a byte to a decoded operand.
    pub fn write_byte_operand(&mut self, operand: RegisterOrMemory, v: u8)
        requires
            old(self).wf(),
            operand_valid(operand),
        ensures
            final(self).wf(),
            final(self)@ == write_byte_operand_spec(old(self)@, operand, v),
    {
        match operand {
            RegisterOrMemory::Register(r) => self.state.write_byte(r, v),
            RegisterOrMemory::Memory(offset) => {
                let addr = self.get_address(3, offset);
                let slot = self.mem.get_byte_mut(addr);
                *slot = v;
            },
        }
    }

    /// Pushes a word: SP is predecremented by 2 with 16-bit wrapping, then
    /// the word is stored at SS:SP.
    fn push_word(&mut self, v: u16)
        requires
            old(self).wf(),
        ensures
            final(self).wf(),
            final(self)@ == push_word_spec(old(self)@, v),
    {
        let sp = self.state.read_word(4);
        let new_sp = ((sp as u32 + 0xFFFE) % 0x10000) as u16;
        self.state.write_word(4, new_sp);
        let addr = self.get_address_register(2, 4);
        self.mem.write_word(addr, v);
    }

    /// Pops a word: the word at SS:SP is read, then SP is postincremented
    /// by 2 with 16-bit wrapping.
    fn pop_word(&mut self) -> (v: u16)
        requires
            old(self).wf(),
        ensures
            final(self).wf(),
            v == pop_word_spec(old(self)@).0,
            final(self)@ == pop_word_spec(old(self)@).1,
    {
        let addr = self.get_address_register(2, 4);
        let v = self.mem.read_word(addr);
        let sp = self.state.read_word(4);
        self.state.write_word(4, ((sp as u32 + 2) % 0x10000) as u16);
        v
    }

    /// MOV r/m <-> r: the middle field names the register operand, `d`
    /// selects it as the destination, `w` the width.
    fn op_mov_rm_reg(&mut self, w: bool, d: bool)
        requires
            old(self).wf(),
        ensures
            final(self).wf(),
            final(self)@ == mov_rm_reg_spec(old(self)@, w, d),
    {
        let (operand, center) = parse_rm(self);
        let reg_op = RegisterOrMemory::Register(center);
        if w {
            if d {
                let v = self.read_word_operand(operand);
                self.write_word_operand(reg_op, v);
            } else {
                let v = self.read_word_operand(reg_op);
                self.write_word_operand(operand, v);
            }
        } else {
            if d {
                let v = self.read_byte_operand(operand);
                self.write_byte_operand(reg_op, v);
            } else {
                let v = self.read_byte_operand(reg_op);
                self.write_byte_operand(operand, v);
            }
        }
    }

    /// MOV imm -> r/m: the middle field is a sub-opcode and must be zero.
    fn op_mov_imm_rm(&mut self, w: bool) -> (r: Result<(), Fault>)
        requires
            old(self).wf(),
        ensures
            final(self).wf(),
            final(self)@ == mov_imm_rm_spec(old(self)@, w).0,
            r == (match mov_imm_rm_spec(old(self)@, w).1 {
                Option::None => Result::<(), Fault>::Ok(()),
                Option::Some(f) => Result::<(), Fault>::Err(f),
            }),
    {
        let (operand, center) = parse_rm(self);
        if center != 0 {
            return Err(Fault::InvalidEncoding);
        }
        if w {
            let imm = self.next_code_word();
            self.write_word_operand(operand, imm);
        } else {
            let imm = self.next_code();
            self.write_byte_operand(operand, imm);
        }
        Ok(())
    }

    /// MOV imm -> reg: bit 3 of the opcode selects the width, the low
    /// three bits the register.
    fn op_mov_imm_reg(&mut self, opcode: u8)
        requires
            old(self).wf(),
            0xB0 <= opcode <= 0xBF,
        ensures
            final(self).wf(),
            final(self)@ == mov_imm_reg_spec(old(self)@, opcode),
    {
        let reg = opcode % 8;
        if (opcode / 8) % 2 == 1 {
            let imm = self.next_code_word();
            self.state.write_word(reg, imm);
        } else {
            let imm = self.next_code();
            self.state.write_byte(reg, imm);
        }
    }

    /// MOV between the accumulator and a direct memory offset.
    fn op_mov_accum(&mut self, opcode: u8)
        requires
            old(self).wf(),
            0xA0 <= opcode <= 0xA3,
        ensures
            final(self).wf(),
            final(self)@ == mov_accum_spec(old(self)@, opcode),
    {
        let w = opcode % 2 == 1;
        let offset = self.next_code_word();
        let addr = self.get_address(3, offset);
        if opcode >= 0xA2 {
            if w {
                let v = self.state.read_word(0);
                self.mem.write_word(addr, v);
            } else {
                let v = self.state.read_byte(0);
                let slot = self.mem.get_byte_mut(addr);
                *slot = v;
            }
        } else {
            if w {
                let v = self.mem.read_word(addr);
                self.state.write_word(0, v);
            } else {
                let v = self.mem.get_byte(addr);
                self.state.write_byte(0, v);
            }
        }
    }

    /// MOV sreg <-> r/m: the middle field is a 2-bit segment code whose
    /// top bit must be zero.
    fn op_mov_sreg(&mut self, opcode: u8) -> (r: Result<(), Fault>)
        requires
            old(self).wf(),
            opcode == 0x8C || opcode == 0x8E,
        ensures
            final(self).wf(),
            final(self)@ == mov_sreg_spec(old(self)@, opcode).0,
            r == (match mov_sreg_spec(old(self)@, opcode).1 {
                Option::None => Result::<(), Fault>::Ok(()),
                Option::Some(f) => Result::<(), Fault>::Err(f),
            }),
    {
        let (operand, sr) = parse_rm(self);
        if sr >= 4 {
            return Err(Fault::InvalidEncoding);
        }
        if opcode == 0x8E {
            let v = self.read_word_operand(operand);
            self.state.write_seg(sr, v);
        } else {
            let v = self.state.read_seg(sr);
            self.write_word_operand(operand, v);
        }
        Ok(())
    }

    /// PUSH r/m16: the middle field must be 6.
    fn op_push_rm(&mut self) -> (r: Result<(), Fault>)
        requires
            old(self).wf(),
        ensures
            final(self).wf(),
            final(self)@ == push_rm_spec(old(self)@).0,
            r == (match push_rm_spec(old(self)@).1 {
                Option::None => Result::<(), Fault>::Ok(()),
                Option::Some(f) => Result::<(), Fault>::Err(f),
            }),
    {
        let (operand, center) = parse_rm(self);
        if center != 6 {
            return Err(Fault::InvalidEncoding);
        }
        let v = self.read_word_operand(operand);
        self.push_word(v);
        Ok(())
    }

    /// POP r/m16: the middle field must be 0.
    fn op_pop_rm(&mut self) -> (r: Result<(), Fault>)
        requires
            old(self).wf(),
        ensures
            final(self).wf(),
            final(self)@ == pop_rm_spec(old(self)@).0,
            r == (match pop_rm_spec(old(self)@).1 {
                Option::None => Result::<(), Fault>::Ok(()),
                Option::Some(f) => Result::<(), Fault>::Err(f),
            }),
    {
        let (operand, center) = parse_rm(self);
        if center != 0 {
            return Err(Fault::InvalidEncoding);
        }
        let v = self.pop_word();
        self.write_word_operand(operand, v);
        Ok(())
    }

    /// Executes exactly one instruction: fetches the opcode at CS:IP,
    /// dispatches by opcode range, and either completes or surfaces a
    /// fault, with IP already advanced past the bytes consumed.
    pub fn step(&mut self) -> (r: Result<(), Fault>)
        requires
            old(self).wf(),
        ensures
            final(self).wf(),
            final(self)@ == step_spec(old(self)@).0,
            r == (match step_spec(old(self)@).1 {
                Option::None => Result::<(), Fault>::Ok(()),
                Option::Some(f) => Result::<(), Fault>::Err(f),
            }),
    {
        proof {
            reveal(step_spec);
        }
        let opcode = self.next_code();
        if 0x88 <= opcode && opcode <= 0x8B {
            self.op_mov_rm_reg(opcode % 2 == 1, (opcode / 2) % 2 == 1);
            Ok(())
        } else if opcode == 0xC6 || opcode == 0xC7 {
            self.op_mov_imm_rm(opcode % 2 == 1)
        } else if 0xB0 <= opcode && opcode <= 0xBF {
            self.op_mov_imm_reg(opcode);
            Ok(())
        } else if 0xA0 <= opcode && opcode <= 0xA3 {
            self.op_mov_accum(opcode);
            Ok(())
        } else if opcode == 0x8C || opcode == 0x8E {
            self.op_mov_sreg(opcode)
        } else if 0x50 <= opcode && opcode <= 0x57 {
            let v = self.state.read_word(opcode % 8);
            self.push_word(v);
            Ok(())
        } else if opcode == 0x06 || opcode == 0x0E || opcode == 0x16 || opcode == 0x1E {
            let v = self.state.read_seg((opcode / 8) % 4);
            self.push_word(v);
            Ok(())
        } else if opcode == 0xFF {
            self.op_push_rm()
        } else if 0x58 <= opcode && opcode <= 0x5F {
            let v = self.pop_word();
            self.state.write_word(opcode % 8, v);
            Ok(())
        } else if opcode == 0x07 || opcode == 0x0F || opcode == 0x17 || opcode == 0x1F {
            let v = self.pop_word();
            self.state.write_seg((opcode / 8) % 4, v);
            Ok(())
        } else if opcode == 0x8F {
            self.op_pop_rm()
        } else {
            Err(Fault::UnsupportedOpcode(opcode))
        }
    }
}

/// The physical address of the stack slot that a push from machine `c`
/// writes: SS:(SP-2), with SP decremented with 16-bit wrapping.
pub open spec fn push_slot_spec(c: CpuView) -> u32 {
    phys_spec(c.state.segs[2], ((c.state.regs[4] + 0xFFFE) % 0x10000) as u16)
}

/// Law: a PUSH of any word register followed directly by a POP of the same
/// register restores every register and leaves SP unchanged; in between,
/// the stack slot holds the pushed word little-endian; memory changes
/// nowhere else. The two instructions must be in place at CS:IP, and the
/// POP opcode byte must not itself sit in the stack slot, else the push
/// would overwrite it.
/// Law: no instruction in the implemented subset modifies FLAGS — MOV,
/// PUSH and POP leave the status word untouched, and so does a faulting
/// step.
pub proof fn lemma_step_preserves_flags(c: CpuView)
    ensures
        step_spec(c).0.state.flags == c.state.flags,
{
    reveal(step_spec);
}

/// One step of PUSH reg (opcode 0x50+r) characterised field by field.
proof fn lemma_step_push_reg(c: CpuView, r: u8)
    requires
        c.wf(),
        r < 8,
        c.ram[wrap_spec(phys_spec(c.state.segs[1], c.state.ip))] == (0x50 + r) as u8,
    ensures
        step_spec(c).1 is None,
        step_spec(c).0.state.regs == c.state.regs.update(
            4,
            ((c.state.regs[4] + 0xFFFE) % 0x10000) as u16,
        ),
        step_spec(c).0.state.segs == c.state.segs,
        step_spec(c).0.state.flags == c.state.flags,
        step_spec(c).0.state.ip == ((c.state.ip + 1) % 0x10000) as u16,
        step_spec(c).0.ram == c.ram.update(
            wrap_spec(push_slot_spec(c)),
            (c.state.regs[r as int] % 256) as u8,
        ).update(wrap_next_spec(push_slot_spec(c)), (c.state.regs[r as int] / 256) as u8),
{
    reveal(step_spec);
    assert((0x50 + r) % 8 == r);
}

/// One step of POP reg (opcode 0x58+r) characterised field by field.
proof fn lemma_step_pop_reg(c: CpuView, r: u8)
    requires
        c.wf(),
        r < 8,
        c.ram[wrap_spec(phys_spec(c.state.segs[1], c.state.ip))] == (0x58 + r) as u8,
    ensures
        step_spec(c).1 is None,
        step_spec(c).0.state.regs == c.state.regs.update(
            4,
            ((c.state.regs[4] + 2) % 0x10000) as u16,
        ).update(r as int, word_at_spec(c.ram, phys_spec(c.state.segs[2], c.state.regs[4]))),
        step_spec(c).0.state.segs == c.state.segs,
        step_spec(c).0.state.flags == c.state.flags,
        step_spec(c).0.state.ip == ((c.state.ip + 1) % 0x10000) as u16,
        step_spec(c).0.ram == c.ram,
{
    reveal(step_spec);
    assert((0x58 + r) % 8 == r);
}

pub proof fn lemma_push_pop_round_trip(c: CpuView, r: u8)
    requires
        c.wf(),
        r < 8,
        c.ram[wrap_spec(phys_spec(c.state.segs[1], c.state.ip))] == (0x50 + r) as u8,
        c.ram[wrap_spec(phys_spec(c.state.segs[1], ((c.state.ip + 1) % 0x10000) as u16))] == (0x58
            + r) as u8,
        wrap_spec(phys_spec(c.state.segs[1], ((c.state.ip + 1) % 0x10000) as u16)) != wrap_spec(
            push_slot_spec(c),
        ),
        wrap_spec(phys_spec(c.state.segs[1], ((c.state.ip + 1) % 0x10000) as u16))
            != wrap_next_spec(push_slot_spec(c)),
    ensures
        ({
            let (c1, f1) = step_spec(c);
            let (c2, f2) = step_spec(c1);
            &&& f1 is None
            &&& f2 is None
            &&& c2.state.regs == c.state.regs
            &&& c2.state.segs == c.state.segs
            &&& c2.state.flags == c.state.flags
            &&& c2.state.ip == ((c.state.ip + 2) % 0x10000) as u16
            &&& c1.ram[wrap_spec(push_slot_spec(c))] == c.state.regs[r as int] % 256
            &&& c1.ram[wrap_next_spec(push_slot_spec(c))] == c.state.regs[r as int] / 256
            &&& c2.ram == c1.ram
        }),
{
    let val = c.state.regs[r as int];
    let sp = c.state.regs[4];
    let sp_pushed = ((sp + 0xFFFE) % 0x10000) as u16;
    let slot = push_slot_spec(c);
    lemma_step_push_reg(c, r);
    let c1 = step_spec(c).0;
    assert(wrap_spec(slot) != wrap_next_spec(slot));
    assert(c1.ram[wrap_spec(phys_spec(c1.state.segs[1], c1.state.ip))] == (0x58 + r) as u8);
    lemma_step_pop_reg(c1, r);
    let c2 = step_spec(c1).0;
    let popped = word_at_spec(c1.ram, phys_spec(c.state.segs[2], sp_pushed));
    assert(popped == val % 256 + (val / 256) * 256);
    assert(popped == val);
    assert(c1.state.regs[4] == sp_pushed);
    assert((sp_pushed + 2) % 0x10000 == sp) by {
        if sp >= 2 {
            assert(sp_pushed == sp - 2);
        } else {
            assert(sp_pushed == sp + 0xFFFE);
        }
    }
    assert(c2.state.regs =~= c.state.regs);
    assert(c2.state.ip == ((c.state.ip + 2) % 0x10000) as u16) by {
        if c.state.ip <= 0xFFFE {
            assert(c1.state.ip == c.state.ip + 1);
        } else {
            assert(c1.state.ip == 0);
        }
    }
}

} // verus!
