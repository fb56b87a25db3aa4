//! Core of an Intel 8086 CPU emulator: architectural state with byte/word
//! register aliasing, a 1 MiB flat physical memory with wraparound at the
//! 20-bit seam, a ModR/M addressing-mode decoder, and a fetch/decode/execute
//! step for the MOV, PUSH and POP instruction families.

pub mod address;
pub mod cpu;
pub mod memory;
pub mod state;
