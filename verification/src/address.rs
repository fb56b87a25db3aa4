//! ModR/M addressing-mode decoding: the byte after many 8086 opcodes is
//! split `mod:2 | middle:3 | rm:3` and resolves, together with an optional
//! displacement, to either a register reference or a 16-bit effective
//! address within the current data segment.

use vstd::prelude::*;

use crate::cpu::{parse_rm_spec, CPU};

verus! {

/// Operand descriptor produced by the ModR/M decoder: a 3-bit register code
/// (byte or word register, depending on instruction width) or a 16-bit
/// effective address.
#[derive(Clone, Copy, Debug, PartialEq, Eq, Structural)]
pub enum RegisterOrMemory {
    Register(u8),
    Memory(u16),
}

/// A register descriptor names one of the eight registers.
pub open spec fn operand_valid(op: RegisterOrMemory) -> bool {
    match op {
        RegisterOrMemory::Register(r) => r < 8,
        RegisterOrMemory::Memory(_) => true,
    }
}

/// The `mod` field: the top two bits of the ModR/M byte.
pub open spec fn modrm_mode(modrm: u8) -> u8 {
    modrm / 64
}

/// The `middle` field: the middle three bits of the ModR/M byte. It names
/// the reg operand for register-target instructions and is a sub-opcode
/// selector for immediate forms.
pub open spec fn modrm_center(modrm: u8) -> u8 {
    (modrm / 8) % 8
}

/// The `r/m` field: the low three bits of the ModR/M byte.
pub open spec fn modrm_rm(modrm: u8) -> u8 {
    modrm % 8
}

/// How many displacement bytes follow the ModR/M byte.
pub open spec fn disp_size_spec(mode: u8, rm: u8) -> int {
    if mode == 0 && rm == 6 {
        2
    } else if mode == 1 {
        1
    } else if mode == 2 {
        2
    } else {
        0
    }
}

/// An 8-bit displacement sign-extended to 16 bits.
pub open spec fn sign_extend_spec(b: u8) -> u16 {
    if b >= 128 {
        (b + 0xFF00) as u16
    } else {
        b as u16
    }
}

/// The base of the effective-address formula selected by `rm`, as a sum of
/// word registers; `mod=0, rm=6` is the absolute-displacement form with no
/// base.
pub open spec fn rm_base_spec(regs: Seq<u16>, mode: u8, rm: u8) -> int {
    if rm == 0 {
        regs[3] + regs[6]
    } else if rm == 1 {
        regs[3] + regs[7]
    } else if rm == 2 {
        regs[5] + regs[6]
    } else if rm == 3 {
        regs[5] + regs[7]
    } else if rm == 4 {
        regs[6] as int
    } else if rm == 5 {
        regs[7] as int
    } else if rm == 6 {
        if mode == 0 {
            0
        } else {
            regs[5] as int
        }
    } else {
        regs[3] as int
    }
}

/// The 16-bit effective address: base plus displacement, wrapping.
pub open spec fn eff_addr_spec(regs: Seq<u16>, mode: u8, rm: u8, disp: u16) -> u16 {
    ((rm_base_spec(regs, mode, rm) + disp) % 0x10000) as u16
}

/// The operand that a ModR/M byte with displacement `disp` resolves to:
/// `mod=3` names a register, anything else an effective memory address.
pub open spec fn decode_operand_spec(regs: Seq<u16>, mode: u8, rm: u8, disp: u16)
    -> RegisterOrMemory {
    if mode == 3 {
        RegisterOrMemory::Register(rm)
    } else {
        RegisterOrMemory::Memory(eff_addr_spec(regs, mode, rm, disp))
    }
}

/// The canonical ModR/M byte that encodes an operand descriptor: `mod=3`
/// for a register, the absolute-displacement form `mod=0, rm=6` for a
/// memory operand.
pub open spec fn encode_modrm_spec(op: RegisterOrMemory, center: u8) -> u8 {
    match op {
        RegisterOrMemory::Register(r) => (192 + center * 8 + r) as u8,
        RegisterOrMemory::Memory(_) => (center * 8 + 6) as u8,
    }
}

/// The displacement that accompanies the canonical encoding.
pub open spec fn encode_disp_spec(op: RegisterOrMemory) -> u16 {
    match op {
        RegisterOrMemory::Register(_) => 0,
        RegisterOrMemory::Memory(offset) => offset,
    }
}

/// Views a 3-bit register code as an operand descriptor.
pub fn parse_reg(reg: u8) -> (r: RegisterOrMemory)
    ensures
        r == RegisterOrMemory::Register(reg),
{
    RegisterOrMemory::Register(reg)
}

/// Encodes an operand descriptor as its canonical ModR/M byte and 16-bit
/// displacement.
pub fn encode_operand(op: RegisterOrMemory, center: u8) -> (r: (u8, u16))
    requires
        operand_valid(op),
        center < 8,
    ensures
        r.0 == encode_modrm_spec(op, center),
        r.1 == encode_disp_spec(op),
{
    match op {
        RegisterOrMemory::Register(r) => (192 + center * 8 + r, 0),
        RegisterOrMemory::Memory(offset) => (center * 8 + 6, offset),
    }
}

/// Consumes the ModR/M byte and its displacement from the instruction
/// stream and resolves them to an operand descriptor, returned together
/// with the middle field.
pub fn parse_rm(cpu: &mut CPU) -> (r: (RegisterOrMemory, u8))
    requires
        old(cpu).wf(),
    ensures
        final(cpu).wf(),
        r.0 == parse_rm_spec(old(cpu)@).0,
        r.1 == parse_rm_spec(old(cpu)@).1,
        final(cpu)@ == parse_rm_spec(old(cpu)@).2,
        operand_valid(r.0),
        r.1 < 8,
{
    let modrm = cpu.next_code();
    let mode = modrm / 64;
    let center = (modrm / 8) % 8;
    let rm = modrm % 8;
    if mode == 3 {
        return (RegisterOrMemory::Register(rm), center);
    }
    let disp: u16 = if mode == 0 && rm == 6 {
        cpu.next_code_word()
    } else if mode == 0 {
        0
    } else if mode == 1 {
        let b = cpu.next_code();
        if b >= 128 {
            (b as u16) + 0xFF00
        } else {
            b as u16
        }
    } else {
        cpu.next_code_word()
    };
    let base: u32 = if rm == 0 {
        cpu.state.read_word(3) as u32 + cpu.state.read_word(6) as u32
    } else if rm == 1 {
        cpu.state.read_word(3) as u32 + cpu.state.read_word(7) as u32
    } else if rm == 2 {
        cpu.state.read_word(5) as u32 + cpu.state.read_word(6) as u32
    } else if rm == 3 {
        cpu.state.read_word(5) as u32 + cpu.state.read_word(7) as u32
    } else if rm == 4 {
        cpu.state.read_word(6) as u32
    } else if rm == 5 {
        cpu.state.read_word(7) as u32
    } else if rm == 6 {
        if mode == 0 {
            0
        } else {
            cpu.state.read_word(5) as u32
        }
    } else {
        cpu.state.read_word(3) as u32
    };
    let offset = ((base + disp as u32) % 0x10000) as u16;
    (RegisterOrMemory::Memory(offset), center)
}

/// Law: decoding the canonical encoding of a valid operand descriptor
/// returns the descriptor and the middle field unchanged, whatever the
/// register file holds.
pub proof fn lemma_modrm_round_trip(regs: Seq<u16>, op: RegisterOrMemory, center: u8)
    requires
        operand_valid(op),
        center < 8,
    ensures
        ({
            let modrm = encode_modrm_spec(op, center);
            let disp = encode_disp_spec(op);
            &&& decode_operand_spec(regs, modrm_mode(modrm), modrm_rm(modrm), disp) == op
            &&& modrm_center(modrm) == center
        }),
{
    let modrm = encode_modrm_spec(op, center);
    match op {
        RegisterOrMemory::Register(r) => {
            assert(modrm == 192 + center * 8 + r);
            assert(modrm / 64 == 3);
            assert(modrm / 8 == 24 + center);
            assert(modrm % 8 == r);
        },
        RegisterOrMemory::Memory(offset) => {
            assert(modrm == center * 8 + 6);
            assert(modrm / 64 == 0);
            assert(modrm / 8 == center);
            assert(modrm % 8 == 6);
            assert(eff_addr_spec(regs, 0, 6, offset) == offset);
        },
    }
}

} // verus!
