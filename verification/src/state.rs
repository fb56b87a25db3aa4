//! Architectural state of the 8086: eight general-purpose word registers with
//! byte-aliased views, four segment registers, the instruction pointer and the
//! flags word.
//!
//! Register indices follow the canonical encoding: AX=0, CX=1, DX=2, BX=3,
//! SP=4, BP=5, SI=6, DI=7 for words; AL=0, CL=1, DL=2, BL=3, AH=4, CH=5,
//! DH=6, BH=7 for bytes. Segment indices: ES=0, CS=1, SS=2, DS=3.

use vstd::prelude::*;
use vstd::string::StringExecFns;

verus! {

/// Mathematical model of the architectural state.
#[verifier::ext_equal]
pub struct StateView {
    pub regs: Seq<u16>,
    pub segs: Seq<u16>,
    pub ip: u16,
    pub flags: u16,
}

impl StateView {
    /// Exactly eight word registers and four segment registers.
    pub open spec fn wf(self) -> bool {
        &&& self.regs.len() == 8
        &&& self.segs.len() == 4
    }
}

/// The state demanded at reset: all general registers zero, ES=SS=DS=0,
/// CS=0xFFFF, IP=0, flags=0, so that the first fetch comes from FFFF:0000.
pub open spec fn reset_view() -> StateView {
    StateView {
        regs: Seq::new(8, |i: int| 0u16),
        segs: seq![0u16, 0xFFFFu16, 0u16, 0u16],
        ip: 0u16,
        flags: 0u16,
    }
}

/// The low byte of a word register.
pub open spec fn word_low_byte(w: u16) -> u8 {
    (w % 256) as u8
}

/// The high byte of a word register.
pub open spec fn word_high_byte(w: u16) -> u8 {
    (w / 256) as u8
}

/// The byte register named by a 3-bit code `c`: the low two bits select the
/// word (AX/CX/DX/BX), bit 2 selects the high half.
pub open spec fn read_byte_spec(s: StateView, code: u8) -> u8 {
    let w = s.regs[(code % 4) as int];
    if code >= 4 {
        word_high_byte(w)
    } else {
        word_low_byte(w)
    }
}

/// The word that results from overwriting one half of `w`, preserving the
/// other half.
pub open spec fn word_with_byte(w: u16, high: bool, v: u8) -> u16 {
    if high {
        (v * 256 + w % 256) as u16
    } else {
        ((w / 256) * 256 + v) as u16
    }
}

/// The state after a write to the byte register named by `code`.
pub open spec fn write_byte_spec(s: StateView, code: u8, v: u8) -> StateView {
    let idx = (code % 4) as int;
    StateView { regs: s.regs.update(idx, word_with_byte(s.regs[idx], code >= 4, v)), ..s }
}

/// The character that renders a hex nibble, uppercase.
pub open spec fn hex_digit_char(n: int) -> char {
    if n == 0 {
        '0'
    } else if n == 1 {
        '1'
    } else if n == 2 {
        '2'
    } else if n == 3 {
        '3'
    } else if n == 4 {
        '4'
    } else if n == 5 {
        '5'
    } else if n == 6 {
        '6'
    } else if n == 7 {
        '7'
    } else if n == 8 {
        '8'
    } else if n == 9 {
        '9'
    } else if n == 10 {
        'A'
    } else if n == 11 {
        'B'
    } else if n == 12 {
        'C'
    } else if n == 13 {
        'D'
    } else if n == 14 {
        'E'
    } else {
        'F'
    }
}

/// A word rendered as four uppercase hex digits.
pub open spec fn hex4_spec(v: u16) -> Seq<char> {
    seq![
        hex_digit_char(v as int / 4096),
        hex_digit_char((v as int / 256) % 16),
        hex_digit_char((v as int / 16) % 16),
        hex_digit_char(v as int % 16),
    ]
}

/// The fixed three-line diagnostic rendering of the state: word values in
/// uppercase 4-digit hex, fields separated by single spaces.
pub open spec fn dump_spec(s: StateView) -> Seq<char> {
    "ax = "@ + hex4_spec(s.regs[0]) + " bx = "@ + hex4_spec(s.regs[3]) + " cx = "@ + hex4_spec(
        s.regs[1],
    ) + " dx = "@ + hex4_spec(s.regs[2]) + "\nsp = "@ + hex4_spec(s.regs[4]) + " bp = "@
        + hex4_spec(s.regs[5]) + " si = "@ + hex4_spec(s.regs[6]) + " di = "@ + hex4_spec(s.regs[7])
        + " ip = "@ + hex4_spec(s.ip) + "\nes = "@ + hex4_spec(s.segs[0]) + " cs = "@ + hex4_spec(
        s.segs[1],
    ) + " ss = "@ + hex4_spec(s.segs[2]) + " ds = "@ + hex4_spec(s.segs[3])
}

/// Architectural registers of the 8086.
pub struct State {
    registers: Vec<u16>,
    segments: Vec<u16>,
    ip: u16,
    flags: u16,
}

impl View for State {
    type V = StateView;

    closed spec fn view(&self) -> StateView {
        StateView { regs: self.registers@, segs: self.segments@, ip: self.ip, flags: self.flags }
    }
}

impl State {
    /// The vectors hold exactly the architectural register files.
    pub open spec fn wf(&self) -> bool {
        self@.wf()
    }

    /// A state satisfying the reset invariant.
    pub fn new() -> (s: State)
        ensures
            s.wf(),
            s@ == reset_view(),
    {
        let mut registers: Vec<u16> = Vec::new();
        let mut k: usize = 0;
        while k < 8
            invariant
                k <= 8,
                registers@ =~= Seq::new(k as nat, |i: int| 0u16),
            decreases 8 - k,
        {
            registers.push(0);
            k = k + 1;
        }
        let mut segments: Vec<u16> = Vec::new();
        segments.push(0);
        segments.push(0xFFFF);
        segments.push(0);
        segments.push(0);
        let s = State { registers, segments, ip: 0, flags: 0 };
        proof {
            assert(s@.segs =~= reset_view().segs);
            assert(s@ =~= reset_view());
        }
        s
    }

    /// Restores the reset invariant.
    pub fn reset(&mut self)
        ensures
            final(self).wf(),
            final(self)@ == reset_view(),
    {
        *self = State::new();
    }

    /// Reads the word register named by a 3-bit code.
    pub fn read_word(&self, reg: u8) -> (w: u16)
        requires
            self.wf(),
            reg < 8,
        ensures
            w == self@.regs[reg as int],
    {
        self.registers[reg as usize]
    }

    /// Writes the word register named by a 3-bit code.
    pub fn write_word(&mut self, reg: u8, v: u16)
        requires
            old(self).wf(),
            reg < 8,
        ensures
            final(self).wf(),
            final(self)@ == (StateView { regs: old(self)@.regs.update(reg as int, v), ..old(self)@ }),
    {
        self.registers[reg as usize] = v;
    }

    /// Reads the byte register named by a 3-bit code, honouring the aliasing
    /// of AL..BH onto the word registers.
    pub fn read_byte(&self, code: u8) -> (b: u8)
        requires
            self.wf(),
            code < 8,
        ensures
            b == read_byte_spec(self@, code),
    {
        let w = self.registers[(code % 4) as usize];
        if code >= 4 {
            (w / 256) as u8
        } else {
            (w % 256) as u8
        }
    }

    /// Writes the byte register named by a 3-bit code, preserving the other
    /// half of the aliased word register.
    pub fn write_byte(&mut self, code: u8, v: u8)
        requires
            old(self).wf(),
            code < 8,
        ensures
            final(self).wf(),
            final(self)@ == write_byte_spec(old(self)@, code, v),
    {
        let idx = (code % 4) as usize;
        let w = self.registers[idx];
        let updated: u16 = if code >= 4 {
            (v as u16) * 256 + w % 256
        } else {
            (w / 256) * 256 + (v as u16)
        };
        self.registers[idx] = updated;
    }

    /// Reads the segment register named by a 2-bit code.
    pub fn read_seg(&self, seg: u8) -> (w: u16)
        requires
            self.wf(),
            seg < 4,
        ensures
            w == self@.segs[seg as int],
    {
        self.segments[seg as usize]
    }

    /// Writes the segment register named by a 2-bit code.
    pub fn write_seg(&mut self, seg: u8, v: u16)
        requires
            old(self).wf(),
            seg < 4,
        ensures
            final(self).wf(),
            final(self)@ == (StateView { segs: old(self)@.segs.update(seg as int, v), ..old(self)@ }),
    {
        self.segments[seg as usize] = v;
    }

    /// Reads the instruction pointer.
    pub fn read_ip(&self) -> (w: u16)
        ensures
            w == self@.ip,
    {
        self.ip
    }

    /// Writes the instruction pointer.
    pub fn write_ip(&mut self, v: u16)
        ensures
            final(self)@ == (StateView { ip: v, ..old(self)@ }),
            final(self).wf() == old(self).wf(),
    {
        self.ip = v;
    }

    /// Advances the instruction pointer with 16-bit wrapping.
    pub fn advance_ip(&mut self, delta: u16)
        ensures
            final(self)@ == (StateView {
                ip: ((old(self)@.ip + delta) % 0x10000) as u16,
                ..old(self)@
            }),
            final(self).wf() == old(self).wf(),
    {
        self.ip = ((self.ip as u32 + delta as u32) % 0x10000) as u16;
    }

    /// Renders the state as the fixed three-line diagnostic dump.
    pub fn dump(&self) -> (out: String)
        requires
            self.wf(),
        ensures
            out@ == dump_spec(self@),
    {
        let mut out = String::new();
        out.append("ax = ");
        out.append(hex4(self.registers[0]).as_str());
        out.append(" bx = ");
        out.append(hex4(self.registers[3]).as_str());
        out.append(" cx = ");
        out.append(hex4(self.registers[1]).as_str());
        out.append(" dx = ");
        out.append(hex4(self.registers[2]).as_str());
        out.append("\nsp = ");
        out.append(hex4(self.registers[4]).as_str());
        out.append(" bp = ");
        out.append(hex4(self.registers[5]).as_str());
        out.append(" si = ");
        out.append(hex4(self.registers[6]).as_str());
        out.append(" di = ");
        out.append(hex4(self.registers[7]).as_str());
        out.append(" ip = ");
        out.append(hex4(self.ip).as_str());
        out.append("\nes = ");
        out.append(hex4(self.segments[0]).as_str());
        out.append(" cs = ");
        out.append(hex4(self.segments[1]).as_str());
        out.append(" ss = ");
        out.append(hex4(self.segments[2]).as_str());
        out.append(" ds = ");
        out.append(hex4(self.segments[3]).as_str());
        proof {
            assert(out@ =~= dump_spec(self@));
        }
        out
    }
}

/// The one-character string rendering a hex nibble, uppercase.
fn hex_digit_str(n: u8) -> (r: &'static str)
    requires
        n < 16,
    ensures
        r@ == seq![hex_digit_char(n as int)],
{
    let r: &'static str = match n {
        0 => "0",
        1 => "1",
        2 => "2",
        3 => "3",
        4 => "4",
        5 => "5",
        6 => "6",
        7 => "7",
        8 => "8",
        9 => "9",
        10 => "A",
        11 => "B",
        12 => "C",
        13 => "D",
        14 => "E",
        _ => "F",
    };
    proof {
        reveal_strlit("0");
        reveal_strlit("1");
        reveal_strlit("2");
        reveal_strlit("3");
        reveal_strlit("4");
        reveal_strlit("5");
        reveal_strlit("6");
        reveal_strlit("7");
        reveal_strlit("8");
        reveal_strlit("9");
        reveal_strlit("A");
        reveal_strlit("B");
        reveal_strlit("C");
        reveal_strlit("D");
        reveal_strlit("E");
        reveal_strlit("F");
        assert(r@ =~= seq![hex_digit_char(n as int)]);
    }
    r
}

/// A word rendered as four uppercase hex digits.
pub fn hex4(v: u16) -> (out: String)
    ensures
        out@ == hex4_spec(v),
{
    let mut out = String::new();
    out.append(hex_digit_str((v / 4096) as u8));
    out.append(hex_digit_str(((v / 256) % 16) as u8));
    out.append(hex_digit_str(((v / 16) % 16) as u8));
    out.append(hex_digit_str((v % 16) as u8));
    proof {
        assert(out@ =~= hex4_spec(v));
    }
    out
}

/// Law: every word register is the composition of its two byte-register
/// views, the high view times 256 plus the low view.
pub proof fn lemma_register_aliasing(s: StateView, k: u8)
    requires
        s.wf(),
        k < 4,
    ensures
        s.regs[k as int] == read_byte_spec(s, (k + 4) as u8) * 256 + read_byte_spec(s, k),
{
    let w = s.regs[k as int];
    assert(w == (w / 256) * 256 + w % 256);
}

/// Law: writing a byte register then reading it back returns the written
/// value, and the other half of the aliased word register is untouched.
pub proof fn lemma_write_byte_then_read(s: StateView, code: u8, v: u8)
    requires
        s.wf(),
        code < 8,
    ensures
        read_byte_spec(write_byte_spec(s, code, v), code) == v,
        read_byte_spec(write_byte_spec(s, code, v), ((code + 4) % 8) as u8) == read_byte_spec(
            s,
            ((code + 4) % 8) as u8,
        ),
{
    let w = s.regs[(code % 4) as int];
    let updated = word_with_byte(w, code >= 4, v);
    if code >= 4 {
        assert(updated == v * 256 + w % 256);
        assert(updated / 256 == v && updated % 256 == w % 256) by (nonlinear_arith)
            requires
                updated == v * 256 + w % 256,
                v < 256,
                w % 256 < 256,
        ;
    } else {
        assert(updated == (w / 256) * 256 + v);
        assert(updated / 256 == w / 256 && updated % 256 == v) by (nonlinear_arith)
            requires
                updated == (w / 256) * 256 + v,
                v < 256,
        ;
    }
}

/// Law: writing a word register then reading its byte views returns the low
/// and high bytes of the written value.
pub proof fn lemma_write_word_then_read_bytes(s: StateView, k: u8, v: u16)
    requires
        s.wf(),
        k < 4,
    ensures
        read_byte_spec(StateView { regs: s.regs.update(k as int, v), ..s }, k) == v % 256,
        read_byte_spec(StateView { regs: s.regs.update(k as int, v), ..s }, (k + 4) as u8) == v
            / 256,
{
}

} // verus!
