use i8086::memory::Memory;

#[test]
fn word_write_read_round_trip() {
    let mut mem = Memory::new();
    mem.write_word(0x1234, 0xBEEF);
    assert_eq!(mem.read_word(0x1234), 0xBEEF);
    assert_eq!(mem.get_byte(0x1234), 0xEF);
    assert_eq!(mem.get_byte(0x1235), 0xBE);
}

#[test]
fn word_write_is_little_endian() {
    let mut mem = Memory::new();
    mem.write_word(0x0100, 0x1234);
    assert_eq!(mem.get_byte(0x0100), 0x34);
    assert_eq!(mem.get_byte(0x0101), 0x12);
}

#[test]
fn word_at_seam_wraps_high_byte_to_zero() {
    // A word written at 0xFFFFE leaves its low byte there and its high
    // byte at the wrapped address 0.
    let mut mem = Memory::new();
    mem.write_word(0xFFFFE, 0xABCD);
    assert_eq!(mem.get_byte(0xFFFFE), 0xCD);
    assert_eq!(mem.get_byte(0), 0xAB);
    assert_eq!(mem.read_word(0xFFFFE), 0xABCD);
}

#[test]
fn byte_addresses_wrap_at_the_seam() {
    let mut mem = Memory::new();
    *mem.get_byte_mut(0xFFFFF) = 0x55;
    assert_eq!(mem.get_byte(0), 0x55);
    *mem.get_byte_mut(0x10_0001) = 0x66;
    assert_eq!(mem.get_byte(2), 0x66);
}

#[test]
fn get_byte_mut_writes_show_through_reads() {
    let mut mem = Memory::new();
    *mem.get_byte_mut(0x4242) = 0x99;
    assert_eq!(mem.get_byte(0x4242), 0x99);
    assert_eq!(mem.get_byte(0x4241), 0x00);
    assert_eq!(mem.get_byte(0x4243), 0x00);
}

#[test]
fn round_trip_at_many_addresses() {
    let mut mem = Memory::new();
    let cases: [(u32, u16); 5] =
        [(0, 0xFFFF), (1, 0x0001), (0x7FFFF, 0x8001), (0xFFFFD, 0x1234), (0xFFFFE, 0x00FF)];
    for (addr, value) in cases {
        mem.write_word(addr, value);
        assert_eq!(mem.read_word(addr), value);
    }
}
