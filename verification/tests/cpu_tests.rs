use i8086::cpu::{Fault, CPU};

/// A machine with CS=0 and IP=0x0100, with `bytes` loaded there.
fn cpu_with_code(bytes: &[u8]) -> CPU {
    let mut cpu = CPU::new();
    cpu.state_mut().write_seg(1, 0);
    cpu.state_mut().write_ip(0x0100);
    cpu.load(0x0100, bytes);
    cpu
}

#[test]
fn mov_ax_immediate() {
    // MOV AX, 0x1234
    let mut cpu = cpu_with_code(&[0xB8, 0x34, 0x12]);
    assert_eq!(cpu.step(), Ok(()));
    assert_eq!(cpu.state().read_word(0), 0x1234);
    assert_eq!(cpu.state().read_ip(), 0x0103);
}

#[test]
fn mov_accumulator_to_memory() {
    // MOV [0x0050], AX with AX=0xBEEF, DS=0
    let mut cpu = cpu_with_code(&[0xA3, 0x50, 0x00]);
    cpu.state_mut().write_word(0, 0xBEEF);
    assert_eq!(cpu.step(), Ok(()));
    assert_eq!(cpu.read_mem(0x0050), 0xEF);
    assert_eq!(cpu.read_mem(0x0051), 0xBE);
    assert_eq!(cpu.state().read_ip(), 0x0103);
}

#[test]
fn push_bx() {
    // PUSH BX with BX=0xCAFE, SS=0, SP=0x0100
    let mut cpu = cpu_with_code(&[0x53]);
    cpu.state_mut().write_word(3, 0xCAFE);
    cpu.state_mut().write_word(4, 0x0100);
    assert_eq!(cpu.step(), Ok(()));
    assert_eq!(cpu.state().read_word(4), 0x00FE);
    assert_eq!(cpu.read_mem(0x00FE), 0xFE);
    assert_eq!(cpu.read_mem(0x00FF), 0xCA);
}

#[test]
fn pop_cx() {
    // POP CX with SS=0, SP=0x00FE, memory FE CA at 0x00FE
    let mut cpu = cpu_with_code(&[0x59]);
    cpu.state_mut().write_word(4, 0x00FE);
    cpu.write_mem(0x00FE, 0xFE);
    cpu.write_mem(0x00FF, 0xCA);
    assert_eq!(cpu.step(), Ok(()));
    assert_eq!(cpu.state().read_word(1), 0xCAFE);
    assert_eq!(cpu.state().read_word(4), 0x0100);
}

#[test]
fn mov_ds_ax() {
    // MOV DS, AX with AX=0x1000 (mod=11, sreg=011, rm=000)
    let mut cpu = cpu_with_code(&[0x8E, 0xD8]);
    cpu.state_mut().write_word(0, 0x1000);
    assert_eq!(cpu.step(), Ok(()));
    assert_eq!(cpu.state().read_seg(3), 0x1000);
}

#[test]
fn mov_byte_ptr_bx_si_cl() {
    // MOV byte ptr [BX+SI], CL with BX=0x0010, SI=0x0002, CL=0x7F, DS=0
    let mut cpu = cpu_with_code(&[0x88, 0x08]);
    cpu.state_mut().write_word(3, 0x0010);
    cpu.state_mut().write_word(6, 0x0002);
    cpu.state_mut().write_byte(1, 0x7F);
    assert_eq!(cpu.step(), Ok(()));
    assert_eq!(cpu.read_mem(0x0012), 0x7F);
}

#[test]
fn mov_word_register_to_register() {
    // MOV AX, BX both ways: 0x89 writes r/m, 0x8B writes reg.
    let mut cpu = cpu_with_code(&[0x89, 0xD8, 0x8B, 0xD1]);
    cpu.state_mut().write_word(3, 0x4321);
    cpu.state_mut().write_word(1, 0x9ABC);
    assert_eq!(cpu.step(), Ok(()));
    assert_eq!(cpu.state().read_word(0), 0x4321);
    assert_eq!(cpu.step(), Ok(()));
    assert_eq!(cpu.state().read_word(2), 0x9ABC);
}

#[test]
fn mov_byte_memory_to_register() {
    // MOV CL, [BX+SI]: opcode 0x8A (w=0, d=1), modrm 0x08.
    let mut cpu = cpu_with_code(&[0x8A, 0x08]);
    cpu.state_mut().write_word(3, 0x0200);
    cpu.state_mut().write_word(6, 0x0001);
    cpu.write_mem(0x0201, 0x5A);
    assert_eq!(cpu.step(), Ok(()));
    assert_eq!(cpu.state().read_byte(1), 0x5A);
}

#[test]
fn mov_immediate_to_memory_word() {
    // MOV word [0x0050], 0x1234: C7 06 50 00 34 12
    let mut cpu = cpu_with_code(&[0xC7, 0x06, 0x50, 0x00, 0x34, 0x12]);
    assert_eq!(cpu.step(), Ok(()));
    assert_eq!(cpu.read_mem(0x0050), 0x34);
    assert_eq!(cpu.read_mem(0x0051), 0x12);
    assert_eq!(cpu.state().read_ip(), 0x0106);
}

#[test]
fn mov_immediate_byte_to_high_register() {
    // MOV DH, 0x42: B6 42
    let mut cpu = cpu_with_code(&[0xB6, 0x42]);
    cpu.state_mut().write_word(2, 0x0011);
    assert_eq!(cpu.step(), Ok(()));
    assert_eq!(cpu.state().read_word(2), 0x4211);
    assert_eq!(cpu.state().read_ip(), 0x0102);
}

#[test]
fn mov_memory_to_accumulator() {
    // A1: MOV AX, [0x0060]; A0: MOV AL, [0x0062]
    let mut cpu = cpu_with_code(&[0xA1, 0x60, 0x00, 0xA0, 0x62, 0x00]);
    cpu.write_mem(0x0060, 0x78);
    cpu.write_mem(0x0061, 0x56);
    cpu.write_mem(0x0062, 0x9A);
    assert_eq!(cpu.step(), Ok(()));
    assert_eq!(cpu.state().read_word(0), 0x5678);
    assert_eq!(cpu.step(), Ok(()));
    assert_eq!(cpu.state().read_word(0), 0x569A);
}

#[test]
fn mov_al_to_memory() {
    // A2: MOV [0x0070], AL leaves AH unwritten.
    let mut cpu = cpu_with_code(&[0xA2, 0x70, 0x00]);
    cpu.state_mut().write_word(0, 0xBBAA);
    assert_eq!(cpu.step(), Ok(()));
    assert_eq!(cpu.read_mem(0x0070), 0xAA);
    assert_eq!(cpu.read_mem(0x0071), 0x00);
}

#[test]
fn mov_sreg_to_memory() {
    // MOV [0x0040], SS: 8C 16 40 00 (mod=00, sreg=010, rm=110)
    let mut cpu = cpu_with_code(&[0x8C, 0x16, 0x40, 0x00]);
    cpu.state_mut().write_seg(2, 0xABCD);
    cpu.state_mut().write_seg(3, 0);
    assert_eq!(cpu.step(), Ok(()));
    assert_eq!(cpu.read_mem(0x0040), 0xCD);
    assert_eq!(cpu.read_mem(0x0041), 0xAB);
}

#[test]
fn push_and_pop_segment_registers() {
    // PUSH DS (0x1E) then POP ES (0x07).
    let mut cpu = cpu_with_code(&[0x1E, 0x07]);
    cpu.state_mut().write_word(4, 0x0200);
    cpu.state_mut().write_seg(3, 0x5678);
    assert_eq!(cpu.step(), Ok(()));
    assert_eq!(cpu.state().read_word(4), 0x01FE);
    assert_eq!(cpu.read_mem(0x01FE), 0x78);
    assert_eq!(cpu.read_mem(0x01FF), 0x56);
    assert_eq!(cpu.step(), Ok(()));
    assert_eq!(cpu.state().read_seg(0), 0x5678);
    assert_eq!(cpu.state().read_word(4), 0x0200);
}

#[test]
fn pop_cs_is_part_of_the_family() {
    // 0x0F is decoded as POP CS here, as on the original 8086.
    let mut cpu = cpu_with_code(&[0x0F]);
    cpu.state_mut().write_word(4, 0x0300);
    cpu.write_mem(0x0300, 0x00);
    cpu.write_mem(0x0301, 0x20);
    assert_eq!(cpu.step(), Ok(()));
    assert_eq!(cpu.state().read_seg(1), 0x2000);
    assert_eq!(cpu.state().read_word(4), 0x0302);
}

#[test]
fn push_rm_and_pop_rm() {
    // PUSH AX via FF F0 (middle=6), then POP CX via 8F C1 (middle=0).
    let mut cpu = cpu_with_code(&[0xFF, 0xF0, 0x8F, 0xC1]);
    cpu.state_mut().write_word(0, 0x7788);
    cpu.state_mut().write_word(4, 0x0400);
    assert_eq!(cpu.step(), Ok(()));
    assert_eq!(cpu.state().read_word(4), 0x03FE);
    assert_eq!(cpu.read_mem(0x03FE), 0x88);
    assert_eq!(cpu.read_mem(0x03FF), 0x77);
    assert_eq!(cpu.step(), Ok(()));
    assert_eq!(cpu.state().read_word(1), 0x7788);
    assert_eq!(cpu.state().read_word(4), 0x0400);
}

#[test]
fn push_then_pop_restores_register_and_sp() {
    // PUSH DX; POP DX leaves the machine registers as they were, with the
    // pushed word visible in the vacated stack slot.
    let mut cpu = cpu_with_code(&[0x52, 0x5A]);
    cpu.state_mut().write_word(2, 0x1357);
    cpu.state_mut().write_word(4, 0x0500);
    assert_eq!(cpu.step(), Ok(()));
    assert_eq!(cpu.step(), Ok(()));
    assert_eq!(cpu.state().read_word(2), 0x1357);
    assert_eq!(cpu.state().read_word(4), 0x0500);
    assert_eq!(cpu.read_mem(0x04FE), 0x57);
    assert_eq!(cpu.read_mem(0x04FF), 0x13);
}

#[test]
fn push_sp_pop_sp_restores_sp() {
    // The round trip holds for SP itself: the pushed value is the old SP,
    // and the POP writes the loaded value after the increment.
    let mut cpu = cpu_with_code(&[0x54, 0x5C]);
    cpu.state_mut().write_word(4, 0x0600);
    assert_eq!(cpu.step(), Ok(()));
    assert_eq!(cpu.read_mem(0x05FE), 0x00);
    assert_eq!(cpu.read_mem(0x05FF), 0x06);
    assert_eq!(cpu.step(), Ok(()));
    assert_eq!(cpu.state().read_word(4), 0x0600);
}

#[test]
fn sp_wraps_through_zero() {
    // PUSH AX with SP=0 wraps SP to 0xFFFE.
    let mut cpu = cpu_with_code(&[0x50]);
    cpu.state_mut().write_word(0, 0xAA55);
    assert_eq!(cpu.step(), Ok(()));
    assert_eq!(cpu.state().read_word(4), 0xFFFE);
    assert_eq!(cpu.read_mem(0xFFFE), 0x55);
    assert_eq!(cpu.read_mem(0xFFFF), 0xAA);
}

#[test]
fn unsupported_opcode_faults() {
    let mut cpu = cpu_with_code(&[0xF4]);
    assert_eq!(cpu.step(), Err(Fault::UnsupportedOpcode(0xF4)));
    // IP has advanced past the faulting byte.
    assert_eq!(cpu.state().read_ip(), 0x0101);
}

#[test]
fn mov_immediate_rm_checks_sub_opcode() {
    // C6 with middle=001 is an invalid encoding.
    let mut cpu = cpu_with_code(&[0xC6, 0x08, 0x42]);
    assert_eq!(cpu.step(), Err(Fault::InvalidEncoding));
}

#[test]
fn mov_sreg_rejects_reserved_bit() {
    // 8E with the top bit of the sreg field set (middle=100).
    let mut cpu = cpu_with_code(&[0x8E, 0xE0]);
    assert_eq!(cpu.step(), Err(Fault::InvalidEncoding));
}

#[test]
fn push_rm_checks_sub_opcode() {
    // FF with middle=000 is not PUSH.
    let mut cpu = cpu_with_code(&[0xFF, 0xC0]);
    assert_eq!(cpu.step(), Err(Fault::InvalidEncoding));
}

#[test]
fn pop_rm_checks_sub_opcode() {
    // 8F with middle=001 is not POP.
    let mut cpu = cpu_with_code(&[0x8F, 0xC9]);
    assert_eq!(cpu.step(), Err(Fault::InvalidEncoding));
}

#[test]
fn reset_vector_executes_first() {
    // After reset the first instruction comes from FFFF:0000 = 0xFFFF0.
    let mut cpu = CPU::new();
    cpu.load(0xFFFF0, &[0xB8, 0x34, 0x12]);
    assert_eq!(cpu.step(), Ok(()));
    assert_eq!(cpu.state().read_word(0), 0x1234);
}

#[test]
fn reset_keeps_memory() {
    let mut cpu = cpu_with_code(&[0xB8, 0x34, 0x12]);
    assert_eq!(cpu.step(), Ok(()));
    cpu.reset();
    assert_eq!(cpu.state().read_word(0), 0x0000);
    assert_eq!(cpu.state().read_seg(1), 0xFFFF);
    assert_eq!(cpu.state().read_ip(), 0x0000);
    assert_eq!(cpu.read_mem(0x0100), 0xB8);
}

#[test]
fn load_wraps_at_the_seam() {
    let mut cpu = CPU::new();
    cpu.load(0xFFFFE, &[1, 2, 3]);
    assert_eq!(cpu.read_mem(0xFFFFE), 1);
    assert_eq!(cpu.read_mem(0), 2);
    assert_eq!(cpu.read_mem(1), 3);
}

#[test]
fn ip_wraps_after_fetch_at_top_of_segment() {
    // A one-byte instruction at CS:0xFFFF wraps IP to 0.
    let mut cpu = CPU::new();
    cpu.state_mut().write_seg(1, 0);
    cpu.state_mut().write_ip(0xFFFF);
    cpu.state_mut().write_word(4, 0x0700);
    cpu.load(0xFFFF, &[0x50]);
    assert_eq!(cpu.step(), Ok(()));
    assert_eq!(cpu.state().read_ip(), 0x0000);
}

#[test]
fn next_code_reads_and_advances() {
    let mut cpu = cpu_with_code(&[0xAB, 0xCD, 0xEF]);
    assert_eq!(cpu.next_code(), 0xAB);
    assert_eq!(cpu.next_code_word(), 0xEFCD);
    assert_eq!(cpu.state().read_ip(), 0x0103);
}

#[test]
fn data_segment_relocates_memory_operands() {
    // With DS=0x1000, MOV [0x0050], AX stores at 0x10050.
    let mut cpu = cpu_with_code(&[0xA3, 0x50, 0x00]);
    cpu.state_mut().write_seg(3, 0x1000);
    cpu.state_mut().write_word(0, 0xBEEF);
    assert_eq!(cpu.step(), Ok(()));
    assert_eq!(cpu.read_mem(0x10050), 0xEF);
    assert_eq!(cpu.read_mem(0x10051), 0xBE);
    assert_eq!(cpu.read_mem(0x0050), 0x00);
}

#[test]
fn write_mem_and_read_mem_wrap() {
    let mut cpu = CPU::new();
    cpu.write_mem(0xFFFFF, 0x42);
    assert_eq!(cpu.read_mem(0x0000), 0x42);
}
