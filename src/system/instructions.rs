use vstd::prelude::*;

use super::{
    lemma_read_frame, lemma_stack_address, lemma_status_round_trip, status_byte, with_status,
    Nmos6507, System, SystemView,
};
use crate::Fatal;

verus! {

/// How an instruction finds its operand.
#[derive(Debug, Clone, Copy, PartialEq, Eq, Structural)]
pub enum AddressMode {
    Absolute,
    AbsoluteX,
    AbsoluteY,
    AbsoluteI,
    Accumulator,
    Immediate,
    Implied,
    Relative,
    ZeroPage,
    ZeroPageIX,
    ZeroPageY,
    ZeroPageX,
    ZeroPageIY,
}

/// What an addressing mode yields: a bus address (with the two facts that cost cycles), an
/// immediate byte, or nothing.
#[derive(Debug, Clone, Copy, PartialEq, Eq, Structural)]
pub enum AddressValue {
    Address { addr: u16, page_boundary_crossed: bool, is_offset: bool },
    Value(u8),
    Nothing,
}

/// A decoded instruction: mnemonic and addressing mode.
#[derive(Debug, Clone, Copy, PartialEq, Eq, Structural)]
pub enum Instruction {
    Adc(AddressMode),
    And(AddressMode),
    Asl(AddressMode),
    Bit(AddressMode),
    Bpl(AddressMode),
    Bmi(AddressMode),
    Bvc(AddressMode),
    Bvs(AddressMode),
    Bcc(AddressMode),
    Bcs(AddressMode),
    Bne(AddressMode),
    Beq(AddressMode),
    Brk(AddressMode),
    Cmp(AddressMode),
    Cpx(AddressMode),
    Cpy(AddressMode),
    Dec(AddressMode),
    Eor(AddressMode),
    Clc(AddressMode),
    Sec(AddressMode),
    Cli(AddressMode),
    Sei(AddressMode),
    Clv(AddressMode),
    Cld(AddressMode),
    Sed(AddressMode),
    Inc(AddressMode),
    Jmp(AddressMode),
    Jsr(AddressMode),
    Lda(AddressMode),
    Ldx(AddressMode),
    Ldy(AddressMode),
    Lsr(AddressMode),
    Nop(AddressMode),
    Ora(AddressMode),
    Tax(AddressMode),
    Txa(AddressMode),
    Dex(AddressMode),
    Inx(AddressMode),
    Tay(AddressMode),
    Tya(AddressMode),
    Dey(AddressMode),
    Iny(AddressMode),
    Rol(AddressMode),
    Ror(AddressMode),
    Rti(AddressMode),
    Rts(AddressMode),
    Sbc(AddressMode),
    Sta(AddressMode),
    Txs(AddressMode),
    Tsx(AddressMode),
    Pha(AddressMode),
    Pla(AddressMode),
    Php(AddressMode),
    Plp(AddressMode),
    Stx(AddressMode),
    Sty(AddressMode),
    /// the illegal double NOP: fetches an operand and ignores it
    Dop(AddressMode),
}

/// A register as an offset: bytes from 0x80 up count as negative.
pub open spec fn sign_extend(v: u8) -> u16 {
    if v < 128 {
        v as u16
    } else {
        (v + 0xFF00) as u16
    }
}

/// The little-endian word of two bytes.
pub open spec fn word(low: u8, high: u8) -> u16 {
    (high * 256 + low) as u16
}

/// Whether two addresses lie in different 256-byte pages.
pub open spec fn crosses_page(a: u16, b: u16) -> bool {
    a / 256 != b / 256
}

/// One more cycle when `b` holds.
pub open spec fn penalty(b: bool) -> nat {
    if b {
        1
    } else {
        0
    }
}

/// The machine with a new CPU.
pub open spec fn with_chip(s: SystemView, chip: Nmos6507) -> SystemView {
    SystemView { chip, ..s }
}

/// The flags that a byte loaded into a register sets.
pub open spec fn with_nz(chip: Nmos6507, v: u8) -> Nmos6507 {
    Nmos6507 { z: v == 0, n: v & 0x80 != 0, ..chip }
}

/// ADC: A + M + C into A, with carry out of bit 7, signed overflow, N and Z.
pub open spec fn add_with_carry(chip: Nmos6507, m: u8) -> Nmos6507 {
    let sum = chip.a + m + penalty(chip.c);
    let r = (sum % 256) as u8;
    Nmos6507 {
        a: r,
        c: sum >= 256,
        v: (chip.a ^ r) & (m ^ r) & 0x80 != 0,
        n: r & 0x80 != 0,
        z: r == 0,
        ..chip
    }
}

/// CMP, CPX or CPY of register value `reg`: Z and N from `reg - m`, and carry when `reg` is
/// strictly greater.
pub open spec fn compare(chip: Nmos6507, reg: u8, m: u8) -> Nmos6507 {
    let r = reg.wrapping_sub(m);
    Nmos6507 { z: r == 0, n: r & 0x80 != 0, c: reg > m, ..chip }
}

/// The byte a shift or rotate makes of `v`, and the bit it shifts out.
pub open spec fn shifted(inst: Instruction, v: u8, carry: bool) -> (u8, bool) {
    match inst {
        Instruction::Asl(_) => (((v * 2) % 256) as u8, v & 0x80 != 0),
        Instruction::Lsr(_) => (v / 2, v & 0x01 != 0),
        Instruction::Rol(_) => ((((v * 2) % 256) + penalty(carry)) as u8, v & 0x80 != 0),
        _ => ((v / 2 + 128 * penalty(carry)) as u8, v & 0x01 != 0),
    }
}

/// Whether a branch is taken on these flags.
pub open spec fn branch_taken(inst: Instruction, chip: Nmos6507) -> bool {
    match inst {
        Instruction::Bpl(_) => !chip.n,
        Instruction::Bmi(_) => chip.n,
        Instruction::Bvc(_) => !chip.v,
        Instruction::Bvs(_) => chip.v,
        Instruction::Bcc(_) => !chip.c,
        Instruction::Bcs(_) => chip.c,
        Instruction::Bne(_) => !chip.z,
        _ => chip.z,
    }
}

impl SystemView {
    /// Two bytes at the program counter, low first, as a word.
    pub open spec fn next_word(self) -> Result<(SystemView, u16), Fatal> {
        match self.next_byte() {
            Ok((s1, low)) => match s1.next_byte() {
                Ok((s2, high)) => Ok((s2, word(low, high))),
                Err(e) => Err(e),
            },
            Err(e) => Err(e),
        }
    }

    /// The word stored at `a` and the byte after it.
    pub open spec fn read_word(self, a: u16) -> Result<(SystemView, u16), Fatal> {
        match self.read(a) {
            Ok((s1, low)) => match s1.read(a.wrapping_add(1)) {
                Ok((s2, high)) => Ok((s2, word(low, high))),
                Err(e) => Err(e),
            },
            Err(e) => Err(e),
        }
    }
}

impl AddressValue {
    /// A plain address.
    pub open spec fn plain(addr: u16) -> AddressValue {
        AddressValue::Address { addr, page_boundary_crossed: false, is_offset: false }
    }

    /// An indexed address.
    pub open spec fn indexed(addr: u16, page_boundary_crossed: bool) -> AddressValue {
        AddressValue::Address { addr, page_boundary_crossed, is_offset: true }
    }

    /// A plain address, as the non-indexed modes yield.
    pub fn addr(addr: u16) -> (r: Self)
        ensures
            r == AddressValue::plain(addr),
    {
        Self::Address { addr, page_boundary_crossed: false, is_offset: false }
    }

    /// An address reached through an index register.
    pub fn offset_addr(addr: u16, page_boundary_crossed: bool) -> (r: Self)
        ensures
            r == AddressValue::indexed(addr, page_boundary_crossed),
    {
        Self::Address { addr, page_boundary_crossed, is_offset: true }
    }
}

impl AddressMode {
    /// The operand of this mode: the machine after the bytes it fetches and reads, what it
    /// yields, and the cycles it costs.
    pub open spec fn operand(self, s: SystemView) -> Result<(SystemView, AddressValue, nat), Fatal> {
        match self {
            AddressMode::Absolute => match s.next_word() {
                Ok((s1, a)) => Ok((s1, AddressValue::plain(a), 3)),
                Err(e) => Err(e),
            },
            AddressMode::AbsoluteX | AddressMode::AbsoluteY => match s.next_word() {
                Ok((s1, a)) => {
                    let reg = if self == AddressMode::AbsoluteX {
                        s.chip.x
                    } else {
                        s.chip.y
                    };
                    let t = a.wrapping_add(sign_extend(reg));
                    Ok((s1, AddressValue::indexed(t, crosses_page(a, t)), 3))
                },
                Err(e) => Err(e),
            },
            AddressMode::AbsoluteI => match s.next_word() {
                Ok((s1, a)) => match s1.read_word(a) {
                    Ok((s2, t)) => Ok((s2, AddressValue::plain(t), 5)),
                    Err(e) => Err(e),
                },
                Err(e) => Err(e),
            },
            AddressMode::Immediate => match s.next_byte() {
                Ok((s1, v)) => Ok((s1, AddressValue::Value(v), 1)),
                Err(e) => Err(e),
            },
            AddressMode::Relative => match s.next_byte() {
                Ok((s1, v)) => Ok(
                    (s1, AddressValue::plain(s1.chip.pc.wrapping_add(sign_extend(v))), 0),
                ),
                Err(e) => Err(e),
            },
            AddressMode::ZeroPage => match s.next_byte() {
                Ok((s1, v)) => Ok((s1, AddressValue::plain(v as u16), 2)),
                Err(e) => Err(e),
            },
            AddressMode::ZeroPageIX => match s.next_byte() {
                Ok((s1, v)) => match s1.read_word(v.wrapping_add(s.chip.x) as u16) {
                    Ok((s2, t)) => Ok((s2, AddressValue::plain(t), 5)),
                    Err(e) => Err(e),
                },
                Err(e) => Err(e),
            },
            AddressMode::ZeroPageY => match s.next_byte() {
                Ok((s1, v)) => Ok((s1, AddressValue::plain(v.wrapping_add(s.chip.y) as u16), 3)),
                Err(e) => Err(e),
            },
            AddressMode::ZeroPageX => match s.next_byte() {
                Ok((s1, v)) => Ok((s1, AddressValue::plain(v.wrapping_add(s.chip.x) as u16), 3)),
                Err(e) => Err(e),
            },
            AddressMode::ZeroPageIY => match s.next_byte() {
                Ok((s1, v)) => match s1.read_word(v as u16) {
                    Ok((s2, a)) => {
                        let t = a.wrapping_add(sign_extend(s.chip.y));
                        Ok((s2, AddressValue::indexed(t, crosses_page(a, t)), 4))
                    },
                    Err(e) => Err(e),
                },
                Err(e) => Err(e),
            },
            AddressMode::Accumulator | AddressMode::Implied => Ok((s, AddressValue::Nothing, 0)),
        }
    }

    /// How many bytes after the opcode this mode fetches.
    pub open spec fn operand_len(self) -> nat {
        match self {
            AddressMode::Absolute | AddressMode::AbsoluteX | AddressMode::AbsoluteY
            | AddressMode::AbsoluteI => 2,
            AddressMode::Accumulator | AddressMode::Implied => 0,
            _ => 1,
        }
    }

    /// The byte an instruction that reads its operand works on, and the cycles of the mode
    /// with one more when an indexed address crosses a page.
    pub open spec fn read_operand(self, s: SystemView) -> Result<(SystemView, u8, nat), Fatal> {
        match self.operand(s) {
            Ok((s1, AddressValue::Value(v), c)) => Ok((s1, v, c)),
            Ok((s1, AddressValue::Address { addr, page_boundary_crossed, .. }, c)) => match s1.read(
                addr,
            ) {
                Ok((s2, v)) => Ok((s2, v, c + penalty(page_boundary_crossed))),
                Err(e) => Err(e),
            },
            Ok((_, AddressValue::Nothing, _)) => Err(Fatal::Operand),
            Err(e) => Err(e),
        }
    }

    /// The address an instruction that writes memory works on, and the cycles of the mode
    /// with one more for any indexed address.
    pub open spec fn target(self, s: SystemView) -> Result<(SystemView, u16, nat), Fatal> {
        match self.operand(s) {
            Ok((s1, AddressValue::Address { addr, is_offset, .. }, c)) => Ok(
                (s1, addr, c + penalty(is_offset)),
            ),
            Ok(_) => Err(Fatal::Operand),
            Err(e) => Err(e),
        }
    }
}

impl Instruction {
    /// The addressing mode the instruction was decoded with.
    pub open spec fn mode(self) -> AddressMode {
        match self {
            Instruction::Adc(m) | Instruction::And(m) | Instruction::Asl(m) | Instruction::Bit(m)
            | Instruction::Bpl(m) | Instruction::Bmi(m) | Instruction::Bvc(m) | Instruction::Bvs(m)
            | Instruction::Bcc(m) | Instruction::Bcs(m) | Instruction::Bne(m) | Instruction::Beq(m)
            | Instruction::Brk(m) | Instruction::Cmp(m) | Instruction::Cpx(m) | Instruction::Cpy(m)
            | Instruction::Dec(m) | Instruction::Eor(m) | Instruction::Clc(m) | Instruction::Sec(m)
            | Instruction::Cli(m) | Instruction::Sei(m) | Instruction::Clv(m) | Instruction::Cld(m)
            | Instruction::Sed(m) | Instruction::Inc(m) | Instruction::Jmp(m) | Instruction::Jsr(m)
            | Instruction::Lda(m) | Instruction::Ldx(m) | Instruction::Ldy(m) | Instruction::Lsr(m)
            | Instruction::Nop(m) | Instruction::Ora(m) | Instruction::Tax(m) | Instruction::Txa(m)
            | Instruction::Dex(m) | Instruction::Inx(m) | Instruction::Tay(m) | Instruction::Tya(m)
            | Instruction::Dey(m) | Instruction::Iny(m) | Instruction::Rol(m) | Instruction::Ror(m)
            | Instruction::Rti(m) | Instruction::Rts(m) | Instruction::Sbc(m) | Instruction::Sta(m)
            | Instruction::Txs(m) | Instruction::Tsx(m) | Instruction::Pha(m) | Instruction::Pla(m)
            | Instruction::Php(m) | Instruction::Plp(m) | Instruction::Stx(m) | Instruction::Sty(m)
            | Instruction::Dop(m) => m,
        }
    }

    /// The CPU after an instruction that reads operand `m`.
    pub open spec fn with_operand(self, chip: Nmos6507, m: u8) -> Nmos6507 {
        match self {
            Instruction::Adc(_) => add_with_carry(chip, m),
            Instruction::Sbc(_) => add_with_carry(chip, !m),
            Instruction::And(_) => with_nz(Nmos6507 { a: chip.a & m, ..chip }, chip.a & m),
            Instruction::Ora(_) => with_nz(Nmos6507 { a: chip.a | m, ..chip }, chip.a | m),
            Instruction::Eor(_) => with_nz(Nmos6507 { a: chip.a ^ m, ..chip }, chip.a ^ m),
            Instruction::Cmp(_) => compare(chip, chip.a, m),
            Instruction::Cpx(_) => compare(chip, chip.x, m),
            Instruction::Cpy(_) => compare(chip, chip.y, m),
            Instruction::Lda(_) => with_nz(Nmos6507 { a: m, ..chip }, m),
            Instruction::Ldx(_) => with_nz(Nmos6507 { x: m, ..chip }, m),
            Instruction::Ldy(_) => with_nz(Nmos6507 { y: m, ..chip }, m),
            _ => Nmos6507 { z: chip.a & m == 0, n: m & 0x80 != 0, v: m & 0x40 != 0, ..chip },
        }
    }

    /// Whether the instruction reads one operand byte and changes only the CPU.
    pub open spec fn reads_operand(self) -> bool {
        match self {
            Instruction::Adc(_) | Instruction::Sbc(_) | Instruction::And(_) | Instruction::Ora(_)
            | Instruction::Eor(_) | Instruction::Cmp(_) | Instruction::Cpx(_) | Instruction::Cpy(_)
            | Instruction::Lda(_) | Instruction::Ldx(_) | Instruction::Ldy(_) => true,
            _ => false,
        }
    }

    /// The CPU after an instruction that neither fetches nor touches the bus.
    pub open spec fn implied(self, chip: Nmos6507) -> Nmos6507 {
        match self {
            Instruction::Clc(_) => Nmos6507 { c: false, ..chip },
            Instruction::Sec(_) => Nmos6507 { c: true, ..chip },
            Instruction::Cli(_) => Nmos6507 { i: false, ..chip },
            Instruction::Sei(_) => Nmos6507 { i: true, ..chip },
            Instruction::Clv(_) => Nmos6507 { v: false, ..chip },
            Instruction::Cld(_) => Nmos6507 { d: false, ..chip },
            Instruction::Sed(_) => Nmos6507 { d: true, ..chip },
            Instruction::Tax(_) => with_nz(Nmos6507 { x: chip.a, ..chip }, chip.a),
            Instruction::Txa(_) => with_nz(Nmos6507 { a: chip.x, ..chip }, chip.x),
            Instruction::Tay(_) => with_nz(Nmos6507 { y: chip.a, ..chip }, chip.a),
            Instruction::Tya(_) => with_nz(Nmos6507 { a: chip.y, ..chip }, chip.y),
            Instruction::Dex(_) => with_nz(
                Nmos6507 { x: chip.x.wrapping_sub(1), ..chip },
                chip.x.wrapping_sub(1),
            ),
            Instruction::Dey(_) => with_nz(
                Nmos6507 { y: chip.y.wrapping_sub(1), ..chip },
                chip.y.wrapping_sub(1),
            ),
            Instruction::Inx(_) => with_nz(
                Nmos6507 { x: chip.x.wrapping_add(1), ..chip },
                chip.x.wrapping_add(1),
            ),
            Instruction::Iny(_) => with_nz(
                Nmos6507 { y: chip.y.wrapping_add(1), ..chip },
                chip.y.wrapping_add(1),
            ),
            Instruction::Txs(_) => Nmos6507 { sp: chip.x, ..chip },
            Instruction::Tsx(_) => Nmos6507 { x: chip.sp, ..chip },
            _ => chip,
        }
    }

    /// Whether the instruction is one of those `implied` describes.
    pub open spec fn is_implied(self) -> bool {
        match self {
            Instruction::Clc(_) | Instruction::Sec(_) | Instruction::Cli(_) | Instruction::Sei(_)
            | Instruction::Clv(_) | Instruction::Cld(_) | Instruction::Sed(_) | Instruction::Tax(_)
            | Instruction::Txa(_) | Instruction::Tay(_) | Instruction::Tya(_) | Instruction::Dex(_)
            | Instruction::Dey(_) | Instruction::Inx(_) | Instruction::Iny(_) | Instruction::Txs(_)
            | Instruction::Tsx(_) | Instruction::Nop(_) => true,
            _ => false,
        }
    }

    /// Whether the instruction is a conditional branch.
    pub open spec fn is_branch(self) -> bool {
        match self {
            Instruction::Bpl(_) | Instruction::Bmi(_) | Instruction::Bvc(_) | Instruction::Bvs(_)
            | Instruction::Bcc(_) | Instruction::Bcs(_) | Instruction::Bne(_) | Instruction::Beq(_) => true,
            _ => false,
        }
    }

    /// Whether the instruction is a shift or rotate.
    pub open spec fn is_shift(self) -> bool {
        match self {
            Instruction::Asl(_) | Instruction::Lsr(_) | Instruction::Rol(_) | Instruction::Ror(_) => true,
            _ => false,
        }
    }

    /// A shift or rotate: of A when the mode yields nothing, else of the byte in memory.
    pub open spec fn shift_step(self, s: SystemView) -> Result<(SystemView, nat), Fatal> {
        match self.mode().operand(s) {
            Ok((s1, AddressValue::Nothing, c)) => {
                let (r, out) = shifted(self, s1.chip.a, s1.chip.c);
                Ok((with_chip(s1, with_nz(Nmos6507 { a: r, c: out, ..s1.chip }, r)), c + 2))
            },
            Ok((s1, AddressValue::Address { addr, is_offset, .. }, c)) => match s1.read(addr) {
                Ok((s2, v)) => {
                    let (r, out) = shifted(self, v, s2.chip.c);
                    match s2.write(addr, r) {
                        Ok(s3) => Ok(
                            (
                                with_chip(s3, with_nz(Nmos6507 { c: out, ..s3.chip }, r)),
                                c + 3 + penalty(is_offset),
                            ),
                        ),
                        Err(e) => Err(e),
                    }
                },
                Err(e) => Err(e),
            },
            Ok(_) => Err(Fatal::Operand),
            Err(e) => Err(e),
        }
    }

    /// A conditional branch: two cycles, one more when taken, and one more again when the
    /// target lies in another page.
    pub open spec fn branch_step(self, s: SystemView) -> Result<(SystemView, nat), Fatal> {
        match self.mode().operand(s) {
            Ok((s1, AddressValue::Address { addr, .. }, c)) => {
                if branch_taken(self, s1.chip) {
                    Ok(
                        (
                            with_chip(s1, Nmos6507 { pc: addr, ..s1.chip }),
                            c + 3 + penalty(crosses_page(s1.chip.pc, addr)),
                        ),
                    )
                } else {
                    Ok((s1, c + 2))
                }
            },
            Ok(_) => Err(Fatal::Operand),
            Err(e) => Err(e),
        }
    }

    /// INC or DEC of a byte in memory.
    pub open spec fn step_memory(self, s: SystemView) -> Result<(SystemView, nat), Fatal> {
        match self.mode().target(s) {
            Ok((s1, addr, c)) => match s1.read(addr) {
                Ok((s2, v)) => {
                    let r = if self is Inc {
                        v.wrapping_add(1)
                    } else {
                        v.wrapping_sub(1)
                    };
                    match with_chip(s2, with_nz(s2.chip, r)).write(addr, r) {
                        Ok(s3) => Ok((s3, c + 3)),
                        Err(e) => Err(e),
                    }
                },
                Err(e) => Err(e),
            },
            Err(e) => Err(e),
        }
    }

    /// STA, STX or STY.
    pub open spec fn store_step(self, s: SystemView) -> Result<(SystemView, nat), Fatal> {
        match self.mode().target(s) {
            Ok((s1, addr, c)) => {
                let v = match self {
                    Instruction::Sta(_) => s1.chip.a,
                    Instruction::Stx(_) => s1.chip.x,
                    _ => s1.chip.y,
                };
                match s1.write(addr, v) {
                    Ok(s2) => Ok((s2, c + 1)),
                    Err(e) => Err(e),
                }
            },
            Err(e) => Err(e),
        }
    }

    /// JSR: pushes the address of its own last byte, high byte first, and jumps.
    pub open spec fn jsr_step(self, s: SystemView) -> Result<(SystemView, nat), Fatal> {
        match self.mode().operand(s) {
            Ok((s1, AddressValue::Address { addr, .. }, c)) => {
                let ret = s1.chip.pc.wrapping_sub(1);
                let sp = s1.chip.sp;
                match s1.write(sp as u16, (ret / 256) as u8) {
                    Ok(s2) => match s2.write(sp.wrapping_sub(1) as u16, (ret % 256) as u8) {
                        Ok(s3) => Ok(
                            (
                                with_chip(
                                    s3,
                                    Nmos6507 { sp: sp.wrapping_sub(2), pc: addr, ..s3.chip },
                                ),
                                c + 3,
                            ),
                        ),
                        Err(e) => Err(e),
                    },
                    Err(e) => Err(e),
                }
            },
            Ok(_) => Err(Fatal::Operand),
            Err(e) => Err(e),
        }
    }

    /// RTS: pulls the low then the high byte and continues one past that address.
    pub open spec fn rts_step(s: SystemView) -> Result<(SystemView, nat), Fatal> {
        let sp1 = s.chip.sp.wrapping_add(1);
        match s.read(sp1 as u16) {
            Ok((s1, low)) => {
                let sp2 = sp1.wrapping_add(1);
                match s1.read(sp2 as u16) {
                    Ok((s2, high)) => Ok(
                        (
                            with_chip(
                                s2,
                                Nmos6507 { sp: sp2, pc: word(low, high).wrapping_add(1), ..s2.chip },
                            ),
                            6,
                        ),
                    ),
                    Err(e) => Err(e),
                }
            },
            Err(e) => Err(e),
        }
    }

    /// PHA or PHP: writes at the stack pointer, then moves it down.
    pub open spec fn push_step(s: SystemView, v: u8) -> Result<(SystemView, nat), Fatal> {
        match s.write(s.chip.sp as u16, v) {
            Ok(s1) => Ok((with_chip(s1, Nmos6507 { sp: s.chip.sp.wrapping_sub(1), ..s1.chip }), 3)),
            Err(e) => Err(e),
        }
    }

    /// PLA or PLP: moves the stack pointer up, then reads there.
    pub open spec fn pull_step(self, s: SystemView) -> Result<(SystemView, nat), Fatal> {
        let sp = s.chip.sp.wrapping_add(1);
        match s.read(sp as u16) {
            Ok((s1, v)) => {
                let chip = Nmos6507 { sp, ..s1.chip };
                Ok(
                    (
                        with_chip(
                            s1,
                            if self is Pla {
                                Nmos6507 { a: v, ..chip }
                            } else {
                                with_status(chip, v)
                            },
                        ),
                        4,
                    ),
                )
            },
            Err(e) => Err(e),
        }
    }

    /// What the instruction does, its opcode already fetched: the machine after it and the
    /// CPU cycles it took.
    #[verifier::opaque]
    pub open spec fn step(self, s: SystemView) -> Result<(SystemView, nat), Fatal> {
        if self.reads_operand() || self is Bit {
            match self.mode().read_operand(s) {
                Ok((s1, v, c)) => Ok((with_chip(s1, self.with_operand(s1.chip, v)), c + 1)),
                Err(e) => Err(e),
            }
        } else if self.is_implied() {
            Ok((with_chip(s, self.implied(s.chip)), 2))
        } else if self.is_shift() {
            self.shift_step(s)
        } else if self.is_branch() {
            self.branch_step(s)
        } else {
            match self {
                Instruction::Brk(_) => Err(Fatal::Unimplemented(0x00)),
                Instruction::Rti(_) => Err(Fatal::Unimplemented(0x40)),
                Instruction::Inc(_) | Instruction::Dec(_) => self.step_memory(s),
                Instruction::Jmp(m) => match m.operand(s) {
                    Ok((s1, AddressValue::Address { addr, .. }, c)) => Ok(
                        (with_chip(s1, Nmos6507 { pc: addr, ..s1.chip }), c),
                    ),
                    Ok(_) => Err(Fatal::Operand),
                    Err(e) => Err(e),
                },
                Instruction::Jsr(_) => self.jsr_step(s),
                Instruction::Rts(_) => Instruction::rts_step(s),
                Instruction::Pha(_) => Instruction::push_step(s, s.chip.a),
                Instruction::Php(_) => Instruction::push_step(s, status_byte(s.chip)),
                Instruction::Pla(_) | Instruction::Plp(_) => self.pull_step(s),
                Instruction::Dop(m) => match m.operand(s) {
                    Ok((s1, _, c)) => Ok((s1, c + 1)),
                    Err(e) => Err(e),
                },
                _ => self.store_step(s),
            }
        }
    }
}

/// The machine and count that an executed instruction leaves, against what its spec gives.
pub open spec fn outcome(
    expected: Result<(SystemView, nat), Fatal>,
    r: Result<usize, Fatal>,
    after: SystemView,
) -> bool {
    match expected {
        Ok((s, n)) => n <= 9 && r == Ok::<usize, Fatal>(n as usize) && after == s,
        Err(e) => r == Err::<usize, Fatal>(e),
    }
}

fn sign_extended(v: u8) -> (r: u16)
    ensures
        r == sign_extend(v),
{
    if v < 128 {
        v as u16
    } else {
        v as u16 + 0xFF00
    }
}

fn make_word(low: u8, high: u8) -> (r: u16)
    ensures
        r == word(low, high),
{
    high as u16 * 256 + low as u16
}

fn with_flags(chip: Nmos6507, v: u8) -> (r: Nmos6507)
    ensures
        r == with_nz(chip, v),
{
    Nmos6507 { z: v == 0, n: v & 0x80 != 0, ..chip }
}

impl System {
    /// Reads two bytes at the program counter as a little-endian word.
    fn next_word(&mut self) -> (r: Result<u16, Fatal>)
        requires
            old(self)@.wf(),
        ensures
            final(self).clocks == old(self).clocks,
            final(self)@.wf(),
            match old(self)@.next_word() {
                Ok((s, w)) => r == Ok::<u16, Fatal>(w) && final(self)@ == s,
                Err(e) => r == Err::<u16, Fatal>(e),
            },
    {
        let low = self.next_byte()?;
        let high = self.next_byte()?;
        Ok(make_word(low, high))
    }

    /// Reads the little-endian word at `a`.
    fn read_word(&mut self, a: u16) -> (r: Result<u16, Fatal>)
        requires
            old(self)@.wf(),
        ensures
            final(self).clocks == old(self).clocks,
            final(self)@.wf(),
            match old(self)@.read_word(a) {
                Ok((s, w)) => r == Ok::<u16, Fatal>(w) && final(self)@ == s,
                Err(e) => r == Err::<u16, Fatal>(e),
            },
    {
        let low = self.memory_get(a)?;
        let high = self.memory_get(a.wrapping_add(1))?;
        Ok(make_word(low, high))
    }
}

impl AddressMode {
    /// Fetches and resolves the operand, adding the cycles of the mode to `clocks`.
    #[verifier::rlimit(40)]
    pub fn execute(&self, system: &mut System, clocks: &mut usize) -> (r: Result<AddressValue, Fatal>)
        requires
            old(system)@.wf(),
            *old(clocks) <= usize::MAX - 5,
        ensures
            final(system).clocks == old(system).clocks,
            final(system)@.wf(),
            match self.operand(old(system)@) {
                Ok((s, v, c)) => r == Ok::<AddressValue, Fatal>(v) && final(system)@ == s
                    && *final(clocks) == *old(clocks) + c,
                Err(e) => r == Err::<AddressValue, Fatal>(e),
            },
    {
        match self {
            Self::Absolute => {
                *clocks += 3;
                let a = system.next_word()?;
                Ok(AddressValue::addr(a))
            },
            Self::AbsoluteX | Self::AbsoluteY => {
                *clocks += 3;
                let reg = match self {
                    Self::AbsoluteX => system.chip.x,
                    _ => system.chip.y,
                };
                let a = system.next_word()?;
                let t = a.wrapping_add(sign_extended(reg));
                Ok(AddressValue::offset_addr(t, a / 256 != t / 256))
            },
            Self::AbsoluteI => {
                *clocks += 5;
                let a = system.next_word()?;
                let t = system.read_word(a)?;
                Ok(AddressValue::addr(t))
            },
            Self::Immediate => {
                *clocks += 1;
                let v = system.next_byte()?;
                Ok(AddressValue::Value(v))
            },
            Self::Relative => {
                let v = system.next_byte()?;
                Ok(AddressValue::addr(system.chip.pc.wrapping_add(sign_extended(v))))
            },
            Self::ZeroPage => {
                *clocks += 2;
                let v = system.next_byte()?;
                Ok(AddressValue::addr(v as u16))
            },
            Self::ZeroPageIX => {
                *clocks += 5;
                let x = system.chip.x;
                let v = system.next_byte()?;
                let t = system.read_word(v.wrapping_add(x) as u16)?;
                Ok(AddressValue::addr(t))
            },
            Self::ZeroPageY => {
                *clocks += 3;
                let y = system.chip.y;
                let v = system.next_byte()?;
                Ok(AddressValue::addr(v.wrapping_add(y) as u16))
            },
            Self::ZeroPageX => {
                *clocks += 3;
                let x = system.chip.x;
                let v = system.next_byte()?;
                Ok(AddressValue::addr(v.wrapping_add(x) as u16))
            },
            Self::ZeroPageIY => {
                *clocks += 4;
                let y = system.chip.y;
                let v = system.next_byte()?;
                let a = system.read_word(v as u16)?;
                let t = a.wrapping_add(sign_extended(y));
                Ok(AddressValue::offset_addr(t, a / 256 != t / 256))
            },
            Self::Accumulator | Self::Implied => Ok(AddressValue::Nothing),
        }
    }

    /// How many bytes after the opcode this mode fetches.
    pub fn operand_bytes(&self) -> (r: usize)
        ensures
            r == self.operand_len(),
    {
        match self {
            Self::Absolute | Self::AbsoluteX | Self::AbsoluteY | Self::AbsoluteI => 2,
            Self::Accumulator | Self::Implied => 0,
            _ => 1,
        }
    }

    /// Resolves the operand and reads the byte it names.
    fn read_value(&self, system: &mut System, clocks: &mut usize) -> (r: Result<u8, Fatal>)
        requires
            old(system)@.wf(),
            *old(clocks) <= usize::MAX - 6,
        ensures
            final(system).clocks == old(system).clocks,
            final(system)@.wf(),
            match self.read_operand(old(system)@) {
                Ok((s, v, c)) => r == Ok::<u8, Fatal>(v) && final(system)@ == s && *final(clocks)
                    == *old(clocks) + c,
                Err(e) => r == Err::<u8, Fatal>(e),
            },
    {
        match self.execute(system, clocks)? {
            AddressValue::Value(v) => Ok(v),
            AddressValue::Address { addr, page_boundary_crossed, .. } => {
                if page_boundary_crossed {
                    *clocks += 1;
                }
                system.memory_get(addr)
            },
            AddressValue::Nothing => Err(Fatal::Operand),
        }
    }

    /// Resolves the operand as an address to write.
    fn target_addr(&self, system: &mut System, clocks: &mut usize) -> (r: Result<u16, Fatal>)
        requires
            old(system)@.wf(),
            *old(clocks) <= usize::MAX - 6,
        ensures
            final(system).clocks == old(system).clocks,
            final(system)@.wf(),
            match self.target(old(system)@) {
                Ok((s, a, c)) => r == Ok::<u16, Fatal>(a) && final(system)@ == s && *final(clocks)
                    == *old(clocks) + c,
                Err(e) => r == Err::<u16, Fatal>(e),
            },
    {
        match self.execute(system, clocks)? {
            AddressValue::Address { addr, is_offset, .. } => {
                if is_offset {
                    *clocks += 1;
                }
                Ok(addr)
            },
            _ => Err(Fatal::Operand),
        }
    }
}

impl Instruction {
    /// The addressing mode the instruction was decoded with.
    pub fn address_mode(&self) -> (r: AddressMode)
        ensures
            r == self.mode(),
    {
        match *self {
            Instruction::Adc(m) | Instruction::And(m) | Instruction::Asl(m) | Instruction::Bit(m)
            | Instruction::Bpl(m) | Instruction::Bmi(m) | Instruction::Bvc(m) | Instruction::Bvs(m)
            | Instruction::Bcc(m) | Instruction::Bcs(m) | Instruction::Bne(m) | Instruction::Beq(m)
            | Instruction::Brk(m) | Instruction::Cmp(m) | Instruction::Cpx(m) | Instruction::Cpy(m)
            | Instruction::Dec(m) | Instruction::Eor(m) | Instruction::Clc(m) | Instruction::Sec(m)
            | Instruction::Cli(m) | Instruction::Sei(m) | Instruction::Clv(m) | Instruction::Cld(m)
            | Instruction::Sed(m) | Instruction::Inc(m) | Instruction::Jmp(m) | Instruction::Jsr(m)
            | Instruction::Lda(m) | Instruction::Ldx(m) | Instruction::Ldy(m) | Instruction::Lsr(m)
            | Instruction::Nop(m) | Instruction::Ora(m) | Instruction::Tax(m) | Instruction::Txa(m)
            | Instruction::Dex(m) | Instruction::Inx(m) | Instruction::Tay(m) | Instruction::Tya(m)
            | Instruction::Dey(m) | Instruction::Iny(m) | Instruction::Rol(m) | Instruction::Ror(m)
            | Instruction::Rti(m) | Instruction::Rts(m) | Instruction::Sbc(m) | Instruction::Sta(m)
            | Instruction::Txs(m) | Instruction::Tsx(m) | Instruction::Pha(m) | Instruction::Pla(m)
            | Instruction::Php(m) | Instruction::Plp(m) | Instruction::Stx(m) | Instruction::Sty(m)
            | Instruction::Dop(m) => m,
        }
    }

    /// The CPU after this instruction works on operand `m`.
    fn apply_operand(&self, chip: Nmos6507, m: u8) -> (r: Nmos6507)
        requires
            self.reads_operand() || *self is Bit,
        ensures
            r == self.with_operand(chip, m),
    {
        match *self {
            Instruction::Adc(_) | Instruction::Sbc(_) => {
                let m = match *self {
                    Instruction::Adc(_) => m,
                    _ => !m,
                };
                let carry: u16 = if chip.c { 1 } else { 0 };
                let sum: u16 = chip.a as u16 + m as u16 + carry;
                let r = (sum % 256) as u8;
                Nmos6507 {
                    a: r,
                    c: sum >= 256,
                    // set only when the result's sign differs from both operands' signs
                    v: (chip.a ^ r) & (m ^ r) & 0x80 != 0,
                    n: r & 0x80 != 0,
                    z: r == 0,
                    ..chip
                }
            },
            Instruction::And(_) => with_flags(Nmos6507 { a: chip.a & m, ..chip }, chip.a & m),
            Instruction::Ora(_) => with_flags(Nmos6507 { a: chip.a | m, ..chip }, chip.a | m),
            Instruction::Eor(_) => with_flags(Nmos6507 { a: chip.a ^ m, ..chip }, chip.a ^ m),
            Instruction::Cmp(_) | Instruction::Cpx(_) | Instruction::Cpy(_) => {
                let base = match *self {
                    Instruction::Cmp(_) => chip.a,
                    Instruction::Cpx(_) => chip.x,
                    _ => chip.y,
                };
                let r = base.wrapping_sub(m);
                Nmos6507 { z: r == 0, n: r & 0x80 != 0, c: base > m, ..chip }
            },
            Instruction::Lda(_) => with_flags(Nmos6507 { a: m, ..chip }, m),
            Instruction::Ldx(_) => with_flags(Nmos6507 { x: m, ..chip }, m),
            Instruction::Ldy(_) => with_flags(Nmos6507 { y: m, ..chip }, m),
            _ => Nmos6507 { z: chip.a & m == 0, n: m & 0x80 != 0, v: m & 0x40 != 0, ..chip },
        }
    }

    /// The CPU after an instruction that touches only registers and flags.
    fn apply_implied(&self, chip: Nmos6507) -> (r: Nmos6507)
        requires
            self.is_implied(),
        ensures
            r == self.implied(chip),
    {
        match *self {
            Instruction::Clc(_) => Nmos6507 { c: false, ..chip },
            Instruction::Sec(_) => Nmos6507 { c: true, ..chip },
            Instruction::Cli(_) => Nmos6507 { i: false, ..chip },
            Instruction::Sei(_) => Nmos6507 { i: true, ..chip },
            Instruction::Clv(_) => Nmos6507 { v: false, ..chip },
            Instruction::Cld(_) => Nmos6507 { d: false, ..chip },
            Instruction::Sed(_) => Nmos6507 { d: true, ..chip },
            Instruction::Tax(_) => with_flags(Nmos6507 { x: chip.a, ..chip }, chip.a),
            Instruction::Txa(_) => with_flags(Nmos6507 { a: chip.x, ..chip }, chip.x),
            Instruction::Tay(_) => with_flags(Nmos6507 { y: chip.a, ..chip }, chip.a),
            Instruction::Tya(_) => with_flags(Nmos6507 { a: chip.y, ..chip }, chip.y),
            Instruction::Dex(_) => {
                let x = chip.x.wrapping_sub(1);
                with_flags(Nmos6507 { x, ..chip }, x)
            },
            Instruction::Dey(_) => {
                let y = chip.y.wrapping_sub(1);
                with_flags(Nmos6507 { y, ..chip }, y)
            },
            Instruction::Inx(_) => {
                let x = chip.x.wrapping_add(1);
                with_flags(Nmos6507 { x, ..chip }, x)
            },
            Instruction::Iny(_) => {
                let y = chip.y.wrapping_add(1);
                with_flags(Nmos6507 { y, ..chip }, y)
            },
            Instruction::Txs(_) => Nmos6507 { sp: chip.x, ..chip },
            Instruction::Tsx(_) => Nmos6507 { x: chip.sp, ..chip },
            _ => chip,
        }
    }

    /// The byte a shift or rotate makes of `v` and the bit it shifts out.
    fn shift_value(&self, v: u8, carry: bool) -> (r: (u8, bool))
        requires
            self.is_shift(),
        ensures
            r == shifted(*self, v, carry),
    {
        let c: u8 = if carry { 1 } else { 0 };
        match *self {
            Instruction::Asl(_) => (((v as u16 * 2) % 256) as u8, v & 0x80 != 0),
            Instruction::Lsr(_) => (v / 2, v & 0x01 != 0),
            Instruction::Rol(_) => ((((v as u16 * 2) % 256) as u8) + c, v & 0x80 != 0),
            _ => (v / 2 + 128 * c, v & 0x01 != 0),
        }
    }

    #[verifier::rlimit(40)]
    fn execute_read(&self, system: &mut System) -> (r: Result<usize, Fatal>)
        requires
            old(system)@.wf(),
            self.reads_operand() || *self is Bit,
        ensures
            final(system).clocks == old(system).clocks,
            final(system)@.wf(),
            outcome(self.step(old(system)@), r, final(system)@),
            r matches Ok(n) ==> n <= 9,
    {
        reveal(Instruction::step);
        let mut clocks: usize = 0;
        let value = self.address_mode().read_value(system, &mut clocks)?;
        system.chip = self.apply_operand(system.chip, value);
        Ok(clocks + 1)
    }

    #[verifier::rlimit(40)]
    fn execute_shift(&self, system: &mut System) -> (r: Result<usize, Fatal>)
        requires
            old(system)@.wf(),
            self.is_shift(),
        ensures
            final(system).clocks == old(system).clocks,
            final(system)@.wf(),
            outcome(self.step(old(system)@), r, final(system)@),
            r matches Ok(n) ==> n <= 9,
    {
        reveal(Instruction::step);
        let mut clocks: usize = 0;
        match self.address_mode().execute(system, &mut clocks)? {
            AddressValue::Nothing => {
                let (r, out) = self.shift_value(system.chip.a, system.chip.c);
                system.chip = with_flags(Nmos6507 { a: r, c: out, ..system.chip }, r);
                Ok(clocks + 2)
            },
            AddressValue::Address { addr, is_offset, .. } => {
                let v = system.memory_get(addr)?;
                let (r, out) = self.shift_value(v, system.chip.c);
                system.memory_set(addr, r)?;
                system.chip = with_flags(Nmos6507 { c: out, ..system.chip }, r);
                Ok(clocks + 3 + if is_offset { 1 } else { 0 })
            },
            AddressValue::Value(_) => Err(Fatal::Operand),
        }
    }

    #[verifier::rlimit(40)]
    fn execute_branch(&self, system: &mut System) -> (r: Result<usize, Fatal>)
        requires
            old(system)@.wf(),
            self.is_branch(),
        ensures
            final(system).clocks == old(system).clocks,
            final(system)@.wf(),
            outcome(self.step(old(system)@), r, final(system)@),
            r matches Ok(n) ==> n <= 9,
    {
        reveal(Instruction::step);
        let mut clocks: usize = 0;
        let addr = match self.address_mode().execute(system, &mut clocks)? {
            AddressValue::Address { addr, .. } => addr,
            _ => return Err(Fatal::Operand),
        };
        let chip = system.chip;
        let should_branch = match *self {
            Instruction::Bpl(_) => !chip.n,
            Instruction::Bmi(_) => chip.n,
            Instruction::Bvc(_) => !chip.v,
            Instruction::Bvs(_) => chip.v,
            Instruction::Bcc(_) => !chip.c,
            Instruction::Bcs(_) => chip.c,
            Instruction::Bne(_) => !chip.z,
            _ => chip.z,
        };
        if should_branch {
            let cross: usize = if chip.pc / 256 != addr / 256 { 1 } else { 0 };
            system.chip.pc = addr;
            Ok(clocks + 3 + cross)
        } else {
            Ok(clocks + 2)
        }
    }

    #[verifier::rlimit(40)]
    fn execute_memory(&self, system: &mut System) -> (r: Result<usize, Fatal>)
        requires
            old(system)@.wf(),
            *self is Inc || *self is Dec,
        ensures
            final(system).clocks == old(system).clocks,
            final(system)@.wf(),
            outcome(self.step(old(system)@), r, final(system)@),
            r matches Ok(n) ==> n <= 9,
    {
        reveal(Instruction::step);
        let mut clocks: usize = 0;
        let addr = self.address_mode().target_addr(system, &mut clocks)?;
        let value = system.memory_get(addr)?;
        let result = match *self {
            Instruction::Inc(_) => value.wrapping_add(1),
            _ => value.wrapping_sub(1),
        };
        system.chip = with_flags(system.chip, result);
        system.memory_set(addr, result)?;
        Ok(clocks + 3)
    }

    #[verifier::rlimit(40)]
    fn execute_store(&self, system: &mut System) -> (r: Result<usize, Fatal>)
        requires
            old(system)@.wf(),
            *self is Sta || *self is Stx || *self is Sty,
        ensures
            final(system).clocks == old(system).clocks,
            final(system)@.wf(),
            outcome(self.step(old(system)@), r, final(system)@),
            r matches Ok(n) ==> n <= 9,
    {
        reveal(Instruction::step);
        let mut clocks: usize = 0;
        let addr = self.address_mode().target_addr(system, &mut clocks)?;
        let value = match *self {
            Instruction::Sta(_) => system.chip.a,
            Instruction::Stx(_) => system.chip.x,
            _ => system.chip.y,
        };
        system.memory_set(addr, value)?;
        Ok(clocks + 1)
    }

    fn execute_jmp(&self, system: &mut System) -> (r: Result<usize, Fatal>)
        requires
            old(system)@.wf(),
            *self is Jmp,
        ensures
            final(system).clocks == old(system).clocks,
            final(system)@.wf(),
            outcome(self.step(old(system)@), r, final(system)@),
            r matches Ok(n) ==> n <= 9,
    {
        reveal(Instruction::step);
        let mut clocks: usize = 0;
        let addr = match self.address_mode().execute(system, &mut clocks)? {
            AddressValue::Address { addr, .. } => addr,
            _ => return Err(Fatal::Operand),
        };
        system.chip.pc = addr;
        Ok(clocks)
    }

    #[verifier::rlimit(40)]
    fn execute_jsr(&self, system: &mut System) -> (r: Result<usize, Fatal>)
        requires
            old(system)@.wf(),
            *self is Jsr,
        ensures
            final(system).clocks == old(system).clocks,
            final(system)@.wf(),
            outcome(self.step(old(system)@), r, final(system)@),
            r matches Ok(n) ==> n <= 9,
    {
        reveal(Instruction::step);
        let mut clocks: usize = 0;
        let addr = match self.address_mode().execute(system, &mut clocks)? {
            AddressValue::Address { addr, .. } => addr,
            _ => return Err(Fatal::Operand),
        };
        // the return address is that of the operand's last byte
        let ret = system.chip.pc.wrapping_sub(1);
        let sp = system.chip.sp;
        system.memory_set(sp as u16, (ret / 256) as u8)?;
        system.memory_set(sp.wrapping_sub(1) as u16, (ret % 256) as u8)?;
        system.chip.sp = sp.wrapping_sub(2);
        system.chip.pc = addr;
        Ok(clocks + 3)
    }

    #[verifier::rlimit(40)]
    fn execute_rts(&self, system: &mut System) -> (r: Result<usize, Fatal>)
        requires
            old(system)@.wf(),
            *self is Rts,
        ensures
            final(system).clocks == old(system).clocks,
            final(system)@.wf(),
            outcome(self.step(old(system)@), r, final(system)@),
            r matches Ok(n) ==> n <= 9,
    {
        reveal(Instruction::step);
        let sp1 = system.chip.sp.wrapping_add(1);
        let low = system.memory_get(sp1 as u16)?;
        let sp2 = sp1.wrapping_add(1);
        let high = system.memory_get(sp2 as u16)?;
        system.chip.sp = sp2;
        system.chip.pc = make_word(low, high).wrapping_add(1);
        Ok(6)
    }

    #[verifier::rlimit(40)]
    fn execute_push(&self, system: &mut System) -> (r: Result<usize, Fatal>)
        requires
            old(system)@.wf(),
            *self is Pha || *self is Php,
        ensures
            final(system).clocks == old(system).clocks,
            final(system)@.wf(),
            outcome(self.step(old(system)@), r, final(system)@),
            r matches Ok(n) ==> n <= 9,
    {
        reveal(Instruction::step);
        let value = match *self {
            Instruction::Pha(_) => system.chip.a,
            _ => system.status(),
        };
        let sp = system.chip.sp;
        system.memory_set(sp as u16, value)?;
        system.chip.sp = sp.wrapping_sub(1);
        Ok(3)
    }

    #[verifier::rlimit(40)]
    fn execute_pull(&self, system: &mut System) -> (r: Result<usize, Fatal>)
        requires
            old(system)@.wf(),
            *self is Pla || *self is Plp,
        ensures
            final(system).clocks == old(system).clocks,
            final(system)@.wf(),
            outcome(self.step(old(system)@), r, final(system)@),
            r matches Ok(n) ==> n <= 9,
    {
        reveal(Instruction::step);
        let sp = system.chip.sp.wrapping_add(1);
        let value = system.memory_get(sp as u16)?;
        system.chip.sp = sp;
        if let Instruction::Pla(_) = *self {
            system.chip.a = value;
        } else {
            system.status_set(value);
        }
        Ok(4)
    }

    fn execute_implied(&self, system: &mut System) -> (r: Result<usize, Fatal>)
        requires
            old(system)@.wf(),
            self.is_implied(),
        ensures
            final(system).clocks == old(system).clocks,
            final(system)@.wf(),
            outcome(self.step(old(system)@), r, final(system)@),
            r matches Ok(n) ==> n <= 9,
    {
        reveal(Instruction::step);
        system.chip = self.apply_implied(system.chip);
        Ok(2)
    }

    fn execute_other(&self, system: &mut System) -> (r: Result<usize, Fatal>)
        requires
            old(system)@.wf(),
            *self is Brk || *self is Rti || *self is Dop,
        ensures
            final(system).clocks == old(system).clocks,
            final(system)@.wf(),
            outcome(self.step(old(system)@), r, final(system)@),
            r matches Ok(n) ==> n <= 9,
    {
        reveal(Instruction::step);
        match *self {
            // BRK and RTI are not modelled
            Instruction::Brk(_) => Err(Fatal::Unimplemented(0x00)),
            Instruction::Rti(_) => Err(Fatal::Unimplemented(0x40)),
            _ => {
                let mut clocks: usize = 0;
                self.address_mode().execute(system, &mut clocks)?;
                Ok(clocks + 1)
            },
        }
    }

    /// Runs the instruction, its opcode already fetched, and returns the CPU cycles it took.
    #[verifier::rlimit(40)]
    pub fn execute(&self, system: &mut System) -> (r: Result<usize, Fatal>)
        requires
            old(system)@.wf(),
        ensures
            final(system).clocks == old(system).clocks,
            final(system)@.wf(),
            outcome(self.step(old(system)@), r, final(system)@),
            r matches Ok(n) ==> n <= 9,
    {
        match *self {
            Instruction::Adc(_) | Instruction::Sbc(_) | Instruction::And(_) | Instruction::Ora(_)
            | Instruction::Eor(_) | Instruction::Cmp(_) | Instruction::Cpx(_) | Instruction::Cpy(_)
            | Instruction::Lda(_) | Instruction::Ldx(_) | Instruction::Ldy(_) | Instruction::Bit(_) => {
                self.execute_read(system)
            },
            Instruction::Clc(_) | Instruction::Sec(_) | Instruction::Cli(_) | Instruction::Sei(_)
            | Instruction::Clv(_) | Instruction::Cld(_) | Instruction::Sed(_) | Instruction::Tax(_)
            | Instruction::Txa(_) | Instruction::Tay(_) | Instruction::Tya(_) | Instruction::Dex(_)
            | Instruction::Dey(_) | Instruction::Inx(_) | Instruction::Iny(_) | Instruction::Txs(_)
            | Instruction::Tsx(_) | Instruction::Nop(_) => self.execute_implied(system),
            Instruction::Asl(_) | Instruction::Lsr(_) | Instruction::Rol(_) | Instruction::Ror(_) => {
                self.execute_shift(system)
            },
            Instruction::Bpl(_) | Instruction::Bmi(_) | Instruction::Bvc(_) | Instruction::Bvs(_)
            | Instruction::Bcc(_) | Instruction::Bcs(_) | Instruction::Bne(_) | Instruction::Beq(_) => {
                self.execute_branch(system)
            },
            Instruction::Inc(_) | Instruction::Dec(_) => self.execute_memory(system),
            Instruction::Jmp(_) => self.execute_jmp(system),
            Instruction::Jsr(_) => self.execute_jsr(system),
            Instruction::Rts(_) => self.execute_rts(system),
            Instruction::Pha(_) | Instruction::Php(_) => self.execute_push(system),
            Instruction::Pla(_) | Instruction::Plp(_) => self.execute_pull(system),
            Instruction::Brk(_) | Instruction::Rti(_) | Instruction::Dop(_) => {
                self.execute_other(system)
            },
            Instruction::Sta(_) | Instruction::Stx(_) | Instruction::Sty(_) => {
                self.execute_store(system)
            },
        }
    }
}

/// The instruction that opcode `opcode` encodes: the documented opcodes this machine runs, and
/// 0x04, the illegal double NOP.
pub open spec fn opcode_table(opcode: u8) -> Option<Instruction> {
    match opcode {
            0x69 => Some(Instruction::Adc(AddressMode::Immediate)),
            0x65 => Some(Instruction::Adc(AddressMode::ZeroPage)),
            0x75 => Some(Instruction::Adc(AddressMode::ZeroPageX)),
            0x6D => Some(Instruction::Adc(AddressMode::Absolute)),
            0x7D => Some(Instruction::Adc(AddressMode::AbsoluteX)),
            0x79 => Some(Instruction::Adc(AddressMode::AbsoluteY)),
            0x61 => Some(Instruction::Adc(AddressMode::ZeroPageIX)),
            0x71 => Some(Instruction::Adc(AddressMode::ZeroPageIY)),
            0x29 => Some(Instruction::And(AddressMode::Immediate)),
            0x25 => Some(Instruction::And(AddressMode::ZeroPage)),
            0x35 => Some(Instruction::And(AddressMode::ZeroPageX)),
            0x2D => Some(Instruction::And(AddressMode::Absolute)),
            0x3D => Some(Instruction::And(AddressMode::AbsoluteX)),
            0x39 => Some(Instruction::And(AddressMode::AbsoluteY)),
            0x21 => Some(Instruction::And(AddressMode::ZeroPageIX)),
            0x31 => Some(Instruction::And(AddressMode::ZeroPageIY)),
            0x0A => Some(Instruction::Asl(AddressMode::Accumulator)),
            0x06 => Some(Instruction::Asl(AddressMode::ZeroPage)),
            0x16 => Some(Instruction::Asl(AddressMode::ZeroPageX)),
            0x0E => Some(Instruction::Asl(AddressMode::Absolute)),
            0x1E => Some(Instruction::Asl(AddressMode::AbsoluteX)),
            0x24 => Some(Instruction::Bit(AddressMode::ZeroPage)),
            0x2C => Some(Instruction::Bit(AddressMode::Absolute)),
            0x10 => Some(Instruction::Bpl(AddressMode::Relative)),
            0x30 => Some(Instruction::Bmi(AddressMode::Relative)),
            0x50 => Some(Instruction::Bvc(AddressMode::Relative)),
            0x70 => Some(Instruction::Bvs(AddressMode::Relative)),
            0x90 => Some(Instruction::Bcc(AddressMode::Relative)),
            0xB0 => Some(Instruction::Bcs(AddressMode::Relative)),
            0xD0 => Some(Instruction::Bne(AddressMode::Relative)),
            0xF0 => Some(Instruction::Beq(AddressMode::Relative)),
            0x00 => Some(Instruction::Brk(AddressMode::Implied)),
            0xC9 => Some(Instruction::Cmp(AddressMode::Immediate)),
            0xC5 => Some(Instruction::Cmp(AddressMode::ZeroPage)),
            0xD5 => Some(Instruction::Cmp(AddressMode::ZeroPageX)),
            0xCD => Some(Instruction::Cmp(AddressMode::Absolute)),
            0xDD => Some(Instruction::Cmp(AddressMode::AbsoluteX)),
            0xD9 => Some(Instruction::Cmp(AddressMode::AbsoluteY)),
            0xC1 => Some(Instruction::Cmp(AddressMode::ZeroPageIX)),
            0xD1 => Some(Instruction::Cmp(AddressMode::ZeroPageIY)),
            0xE0 => Some(Instruction::Cpx(AddressMode::Immediate)),
            0xE4 => Some(Instruction::Cpx(AddressMode::ZeroPage)),
            0xEC => Some(Instruction::Cpx(AddressMode::Absolute)),
            0xC0 => Some(Instruction::Cpy(AddressMode::Immediate)),
            0xC4 => Some(Instruction::Cpy(AddressMode::ZeroPage)),
            0xCC => Some(Instruction::Cpy(AddressMode::Absolute)),
            0xC6 => Some(Instruction::Dec(AddressMode::ZeroPage)),
            0xD6 => Some(Instruction::Dec(AddressMode::ZeroPageX)),
            0xCE => Some(Instruction::Dec(AddressMode::Absolute)),
            0xDE => Some(Instruction::Dec(AddressMode::AbsoluteX)),
            0x49 => Some(Instruction::Eor(AddressMode::Immediate)),
            0x45 => Some(Instruction::Eor(AddressMode::ZeroPage)),
            0x55 => Some(Instruction::Eor(AddressMode::ZeroPageX)),
            0x4D => Some(Instruction::Eor(AddressMode::Absolute)),
            0x5D => Some(Instruction::Eor(AddressMode::AbsoluteX)),
            0x59 => Some(Instruction::Eor(AddressMode::AbsoluteY)),
            0x41 => Some(Instruction::Eor(AddressMode::ZeroPageIX)),
            0x51 => Some(Instruction::Eor(AddressMode::ZeroPageIY)),
            0x18 => Some(Instruction::Clc(AddressMode::Implied)),
            0x38 => Some(Instruction::Sec(AddressMode::Implied)),
            0x58 => Some(Instruction::Cli(AddressMode::Implied)),
            0x78 => Some(Instruction::Sei(AddressMode::Implied)),
            0xB8 => Some(Instruction::Clv(AddressMode::Implied)),
            0xD8 => Some(Instruction::Cld(AddressMode::Implied)),
            0xF8 => Some(Instruction::Sed(AddressMode::Implied)),
            0xE6 => Some(Instruction::Inc(AddressMode::ZeroPage)),
            0xF6 => Some(Instruction::Inc(AddressMode::ZeroPageX)),
            0xEE => Some(Instruction::Inc(AddressMode::Absolute)),
            0xFE => Some(Instruction::Inc(AddressMode::AbsoluteX)),
            0x4C => Some(Instruction::Jmp(AddressMode::Absolute)),
            0x6C => Some(Instruction::Jmp(AddressMode::AbsoluteI)),
            0x20 => Some(Instruction::Jsr(AddressMode::Absolute)),
            0xA9 => Some(Instruction::Lda(AddressMode::Immediate)),
            0xA5 => Some(Instruction::Lda(AddressMode::ZeroPage)),
            0xB5 => Some(Instruction::Lda(AddressMode::ZeroPageX)),
            0xAD => Some(Instruction::Lda(AddressMode::Absolute)),
            0xBD => Some(Instruction::Lda(AddressMode::AbsoluteX)),
            0xB9 => Some(Instruction::Lda(AddressMode::AbsoluteY)),
            0xA1 => Some(Instruction::Lda(AddressMode::ZeroPageIX)),
            0xB1 => Some(Instruction::Lda(AddressMode::ZeroPageIY)),
            0xA2 => Some(Instruction::Ldx(AddressMode::Immediate)),
            0xA6 => Some(Instruction::Ldx(AddressMode::ZeroPage)),
            0xB6 => Some(Instruction::Ldx(AddressMode::ZeroPageY)),
            0xAE => Some(Instruction::Ldx(AddressMode::Absolute)),
            0xBE => Some(Instruction::Ldx(AddressMode::AbsoluteY)),
            0xA0 => Some(Instruction::Ldy(AddressMode::Immediate)),
            0xA4 => Some(Instruction::Ldy(AddressMode::ZeroPage)),
            0xB4 => Some(Instruction::Ldy(AddressMode::ZeroPageX)),
            0xAC => Some(Instruction::Ldy(AddressMode::Absolute)),
            0xBC => Some(Instruction::Ldy(AddressMode::AbsoluteX)),
            0x4A => Some(Instruction::Lsr(AddressMode::Accumulator)),
            0x46 => Some(Instruction::Lsr(AddressMode::ZeroPage)),
            0x56 => Some(Instruction::Lsr(AddressMode::ZeroPageX)),
            0x4E => Some(Instruction::Lsr(AddressMode::Absolute)),
            0x5E => Some(Instruction::Lsr(AddressMode::AbsoluteX)),
            0xEA => Some(Instruction::Nop(AddressMode::Implied)),
            0x09 => Some(Instruction::Ora(AddressMode::Immediate)),
            0x05 => Some(Instruction::Ora(AddressMode::ZeroPage)),
            0x15 => Some(Instruction::Ora(AddressMode::ZeroPageX)),
            0x0D => Some(Instruction::Ora(AddressMode::Absolute)),
            0x1D => Some(Instruction::Ora(AddressMode::AbsoluteX)),
            0x19 => Some(Instruction::Ora(AddressMode::AbsoluteY)),
            0x01 => Some(Instruction::Ora(AddressMode::ZeroPageIX)),
            0x11 => Some(Instruction::Ora(AddressMode::ZeroPageIY)),
            0xAA => Some(Instruction::Tax(AddressMode::Implied)),
            0x8A => Some(Instruction::Txa(AddressMode::Implied)),
            0xCA => Some(Instruction::Dex(AddressMode::Implied)),
            0xE8 => Some(Instruction::Inx(AddressMode::Implied)),
            0xA8 => Some(Instruction::Tay(AddressMode::Implied)),
            0x98 => Some(Instruction::Tya(AddressMode::Implied)),
            0x88 => Some(Instruction::Dey(AddressMode::Implied)),
            0xC8 => Some(Instruction::Iny(AddressMode::Implied)),
            0x2A => Some(Instruction::Rol(AddressMode::Accumulator)),
            0x26 => Some(Instruction::Rol(AddressMode::ZeroPage)),
            0x36 => Some(Instruction::Rol(AddressMode::ZeroPageX)),
            0x2E => Some(Instruction::Rol(AddressMode::Absolute)),
            0x3E => Some(Instruction::Rol(AddressMode::AbsoluteX)),
            0x6A => Some(Instruction::Ror(AddressMode::Accumulator)),
            0x66 => Some(Instruction::Ror(AddressMode::ZeroPage)),
            0x76 => Some(Instruction::Ror(AddressMode::ZeroPageX)),
            0x6E => Some(Instruction::Ror(AddressMode::Absolute)),
            0x7E => Some(Instruction::Ror(AddressMode::AbsoluteX)),
            0x40 => Some(Instruction::Rti(AddressMode::Implied)),
            0x60 => Some(Instruction::Rts(AddressMode::Implied)),
            0xE9 => Some(Instruction::Sbc(AddressMode::Immediate)),
            0xE5 => Some(Instruction::Sbc(AddressMode::ZeroPage)),
            0xF5 => Some(Instruction::Sbc(AddressMode::ZeroPageX)),
            0xED => Some(Instruction::Sbc(AddressMode::Absolute)),
            0xFD => Some(Instruction::Sbc(AddressMode::AbsoluteX)),
            0xF9 => Some(Instruction::Sbc(AddressMode::AbsoluteY)),
            0xE1 => Some(Instruction::Sbc(AddressMode::ZeroPageIX)),
            0xF1 => Some(Instruction::Sbc(AddressMode::ZeroPageIY)),
            0x85 => Some(Instruction::Sta(AddressMode::ZeroPage)),
            0x95 => Some(Instruction::Sta(AddressMode::ZeroPageX)),
            0x8D => Some(Instruction::Sta(AddressMode::Absolute)),
            0x9D => Some(Instruction::Sta(AddressMode::AbsoluteX)),
            0x99 => Some(Instruction::Sta(AddressMode::AbsoluteY)),
            0x81 => Some(Instruction::Sta(AddressMode::ZeroPageIX)),
            0x91 => Some(Instruction::Sta(AddressMode::ZeroPageIY)),
            0x9A => Some(Instruction::Txs(AddressMode::Implied)),
            0xBA => Some(Instruction::Tsx(AddressMode::Implied)),
            0x48 => Some(Instruction::Pha(AddressMode::Implied)),
            0x68 => Some(Instruction::Pla(AddressMode::Implied)),
            0x08 => Some(Instruction::Php(AddressMode::Implied)),
            0x28 => Some(Instruction::Plp(AddressMode::Implied)),
            0x86 => Some(Instruction::Stx(AddressMode::ZeroPage)),
            0x96 => Some(Instruction::Stx(AddressMode::ZeroPageY)),
            0x8E => Some(Instruction::Stx(AddressMode::Absolute)),
            0x84 => Some(Instruction::Sty(AddressMode::ZeroPage)),
            0x94 => Some(Instruction::Sty(AddressMode::ZeroPageY)),
            0x8C => Some(Instruction::Sty(AddressMode::Absolute)),
            0x04 => Some(Instruction::Dop(AddressMode::ZeroPage)),
        _ => None,
    }
}

impl Instruction {
    /// Decodes an opcode byte.
    pub fn decode(opcode: u8) -> (r: Result<Instruction, Fatal>)
        ensures
            match opcode_table(opcode) {
                Some(inst) => r == Ok::<Instruction, Fatal>(inst),
                None => r == Err::<Instruction, Fatal>(Fatal::Decode(opcode)),
            },
    {
        Ok(
            match opcode {
                    0x69 => Instruction::Adc(AddressMode::Immediate),
                    0x65 => Instruction::Adc(AddressMode::ZeroPage),
                    0x75 => Instruction::Adc(AddressMode::ZeroPageX),
                    0x6D => Instruction::Adc(AddressMode::Absolute),
                    0x7D => Instruction::Adc(AddressMode::AbsoluteX),
                    0x79 => Instruction::Adc(AddressMode::AbsoluteY),
                    0x61 => Instruction::Adc(AddressMode::ZeroPageIX),
                    0x71 => Instruction::Adc(AddressMode::ZeroPageIY),
                    0x29 => Instruction::And(AddressMode::Immediate),
                    0x25 => Instruction::And(AddressMode::ZeroPage),
                    0x35 => Instruction::And(AddressMode::ZeroPageX),
                    0x2D => Instruction::And(AddressMode::Absolute),
                    0x3D => Instruction::And(AddressMode::AbsoluteX),
                    0x39 => Instruction::And(AddressMode::AbsoluteY),
                    0x21 => Instruction::And(AddressMode::ZeroPageIX),
                    0x31 => Instruction::And(AddressMode::ZeroPageIY),
                    0x0A => Instruction::Asl(AddressMode::Accumulator),
                    0x06 => Instruction::Asl(AddressMode::ZeroPage),
                    0x16 => Instruction::Asl(AddressMode::ZeroPageX),
                    0x0E => Instruction::Asl(AddressMode::Absolute),
                    0x1E => Instruction::Asl(AddressMode::AbsoluteX),
                    0x24 => Instruction::Bit(AddressMode::ZeroPage),
                    0x2C => Instruction::Bit(AddressMode::Absolute),
                    0x10 => Instruction::Bpl(AddressMode::Relative),
                    0x30 => Instruction::Bmi(AddressMode::Relative),
                    0x50 => Instruction::Bvc(AddressMode::Relative),
                    0x70 => Instruction::Bvs(AddressMode::Relative),
                    0x90 => Instruction::Bcc(AddressMode::Relative),
                    0xB0 => Instruction::Bcs(AddressMode::Relative),
                    0xD0 => Instruction::Bne(AddressMode::Relative),
                    0xF0 => Instruction::Beq(AddressMode::Relative),
                    0x00 => Instruction::Brk(AddressMode::Implied),
                    0xC9 => Instruction::Cmp(AddressMode::Immediate),
                    0xC5 => Instruction::Cmp(AddressMode::ZeroPage),
                    0xD5 => Instruction::Cmp(AddressMode::ZeroPageX),
                    0xCD => Instruction::Cmp(AddressMode::Absolute),
                    0xDD => Instruction::Cmp(AddressMode::AbsoluteX),
                    0xD9 => Instruction::Cmp(AddressMode::AbsoluteY),
                    0xC1 => Instruction::Cmp(AddressMode::ZeroPageIX),
                    0xD1 => Instruction::Cmp(AddressMode::ZeroPageIY),
                    0xE0 => Instruction::Cpx(AddressMode::Immediate),
                    0xE4 => Instruction::Cpx(AddressMode::ZeroPage),
                    0xEC => Instruction::Cpx(AddressMode::Absolute),
                    0xC0 => Instruction::Cpy(AddressMode::Immediate),
                    0xC4 => Instruction::Cpy(AddressMode::ZeroPage),
                    0xCC => Instruction::Cpy(AddressMode::Absolute),
                    0xC6 => Instruction::Dec(AddressMode::ZeroPage),
                    0xD6 => Instruction::Dec(AddressMode::ZeroPageX),
                    0xCE => Instruction::Dec(AddressMode::Absolute),
                    0xDE => Instruction::Dec(AddressMode::AbsoluteX),
                    0x49 => Instruction::Eor(AddressMode::Immediate),
                    0x45 => Instruction::Eor(AddressMode::ZeroPage),
                    0x55 => Instruction::Eor(AddressMode::ZeroPageX),
                    0x4D => Instruction::Eor(AddressMode::Absolute),
                    0x5D => Instruction::Eor(AddressMode::AbsoluteX),
                    0x59 => Instruction::Eor(AddressMode::AbsoluteY),
                    0x41 => Instruction::Eor(AddressMode::ZeroPageIX),
                    0x51 => Instruction::Eor(AddressMode::ZeroPageIY),
                    0x18 => Instruction::Clc(AddressMode::Implied),
                    0x38 => Instruction::Sec(AddressMode::Implied),
                    0x58 => Instruction::Cli(AddressMode::Implied),
                    0x78 => Instruction::Sei(AddressMode::Implied),
                    0xB8 => Instruction::Clv(AddressMode::Implied),
                    0xD8 => Instruction::Cld(AddressMode::Implied),
                    0xF8 => Instruction::Sed(AddressMode::Implied),
                    0xE6 => Instruction::Inc(AddressMode::ZeroPage),
                    0xF6 => Instruction::Inc(AddressMode::ZeroPageX),
                    0xEE => Instruction::Inc(AddressMode::Absolute),
                    0xFE => Instruction::Inc(AddressMode::AbsoluteX),
                    0x4C => Instruction::Jmp(AddressMode::Absolute),
                    0x6C => Instruction::Jmp(AddressMode::AbsoluteI),
                    0x20 => Instruction::Jsr(AddressMode::Absolute),
                    0xA9 => Instruction::Lda(AddressMode::Immediate),
                    0xA5 => Instruction::Lda(AddressMode::ZeroPage),
                    0xB5 => Instruction::Lda(AddressMode::ZeroPageX),
                    0xAD => Instruction::Lda(AddressMode::Absolute),
                    0xBD => Instruction::Lda(AddressMode::AbsoluteX),
                    0xB9 => Instruction::Lda(AddressMode::AbsoluteY),
                    0xA1 => Instruction::Lda(AddressMode::ZeroPageIX),
                    0xB1 => Instruction::Lda(AddressMode::ZeroPageIY),
                    0xA2 => Instruction::Ldx(AddressMode::Immediate),
                    0xA6 => Instruction::Ldx(AddressMode::ZeroPage),
                    0xB6 => Instruction::Ldx(AddressMode::ZeroPageY),
                    0xAE => Instruction::Ldx(AddressMode::Absolute),
                    0xBE => Instruction::Ldx(AddressMode::AbsoluteY),
                    0xA0 => Instruction::Ldy(AddressMode::Immediate),
                    0xA4 => Instruction::Ldy(AddressMode::ZeroPage),
                    0xB4 => Instruction::Ldy(AddressMode::ZeroPageX),
                    0xAC => Instruction::Ldy(AddressMode::Absolute),
                    0xBC => Instruction::Ldy(AddressMode::AbsoluteX),
                    0x4A => Instruction::Lsr(AddressMode::Accumulator),
                    0x46 => Instruction::Lsr(AddressMode::ZeroPage),
                    0x56 => Instruction::Lsr(AddressMode::ZeroPageX),
                    0x4E => Instruction::Lsr(AddressMode::Absolute),
                    0x5E => Instruction::Lsr(AddressMode::AbsoluteX),
                    0xEA => Instruction::Nop(AddressMode::Implied),
                    0x09 => Instruction::Ora(AddressMode::Immediate),
                    0x05 => Instruction::Ora(AddressMode::ZeroPage),
                    0x15 => Instruction::Ora(AddressMode::ZeroPageX),
                    0x0D => Instruction::Ora(AddressMode::Absolute),
                    0x1D => Instruction::Ora(AddressMode::AbsoluteX),
                    0x19 => Instruction::Ora(AddressMode::AbsoluteY),
                    0x01 => Instruction::Ora(AddressMode::ZeroPageIX),
                    0x11 => Instruction::Ora(AddressMode::ZeroPageIY),
                    0xAA => Instruction::Tax(AddressMode::Implied),
                    0x8A => Instruction::Txa(AddressMode::Implied),
                    0xCA => Instruction::Dex(AddressMode::Implied),
                    0xE8 => Instruction::Inx(AddressMode::Implied),
                    0xA8 => Instruction::Tay(AddressMode::Implied),
                    0x98 => Instruction::Tya(AddressMode::Implied),
                    0x88 => Instruction::Dey(AddressMode::Implied),
                    0xC8 => Instruction::Iny(AddressMode::Implied),
                    0x2A => Instruction::Rol(AddressMode::Accumulator),
                    0x26 => Instruction::Rol(AddressMode::ZeroPage),
                    0x36 => Instruction::Rol(AddressMode::ZeroPageX),
                    0x2E => Instruction::Rol(AddressMode::Absolute),
                    0x3E => Instruction::Rol(AddressMode::AbsoluteX),
                    0x6A => Instruction::Ror(AddressMode::Accumulator),
                    0x66 => Instruction::Ror(AddressMode::ZeroPage),
                    0x76 => Instruction::Ror(AddressMode::ZeroPageX),
                    0x6E => Instruction::Ror(AddressMode::Absolute),
                    0x7E => Instruction::Ror(AddressMode::AbsoluteX),
                    0x40 => Instruction::Rti(AddressMode::Implied),
                    0x60 => Instruction::Rts(AddressMode::Implied),
                    0xE9 => Instruction::Sbc(AddressMode::Immediate),
                    0xE5 => Instruction::Sbc(AddressMode::ZeroPage),
                    0xF5 => Instruction::Sbc(AddressMode::ZeroPageX),
                    0xED => Instruction::Sbc(AddressMode::Absolute),
                    0xFD => Instruction::Sbc(AddressMode::AbsoluteX),
                    0xF9 => Instruction::Sbc(AddressMode::AbsoluteY),
                    0xE1 => Instruction::Sbc(AddressMode::ZeroPageIX),
                    0xF1 => Instruction::Sbc(AddressMode::ZeroPageIY),
                    0x85 => Instruction::Sta(AddressMode::ZeroPage),
                    0x95 => Instruction::Sta(AddressMode::ZeroPageX),
                    0x8D => Instruction::Sta(AddressMode::Absolute),
                    0x9D => Instruction::Sta(AddressMode::AbsoluteX),
                    0x99 => Instruction::Sta(AddressMode::AbsoluteY),
                    0x81 => Instruction::Sta(AddressMode::ZeroPageIX),
                    0x91 => Instruction::Sta(AddressMode::ZeroPageIY),
                    0x9A => Instruction::Txs(AddressMode::Implied),
                    0xBA => Instruction::Tsx(AddressMode::Implied),
                    0x48 => Instruction::Pha(AddressMode::Implied),
                    0x68 => Instruction::Pla(AddressMode::Implied),
                    0x08 => Instruction::Php(AddressMode::Implied),
                    0x28 => Instruction::Plp(AddressMode::Implied),
                    0x86 => Instruction::Stx(AddressMode::ZeroPage),
                    0x96 => Instruction::Stx(AddressMode::ZeroPageY),
                    0x8E => Instruction::Stx(AddressMode::Absolute),
                    0x84 => Instruction::Sty(AddressMode::ZeroPage),
                    0x94 => Instruction::Sty(AddressMode::ZeroPageY),
                    0x8C => Instruction::Sty(AddressMode::Absolute),
                    0x04 => Instruction::Dop(AddressMode::ZeroPage),
                _ => return Err(Fatal::Decode(opcode)),
            },
        )
    }
}

proof fn lemma_next_byte_frame(s: SystemView)
    requires
        s.wf(),
    ensures
        s.next_byte() matches Ok((t, _)) ==> t.wf() && t.chip == (Nmos6507 {
            pc: s.chip.pc.wrapping_add(1),
            ..s.chip
        }) && t.memory == s.memory,
{
    lemma_read_frame(s, s.chip.pc);
}

/// A load sets its register to the operand, Z exactly when the operand is zero, and N exactly
/// when the operand's bit 7 is set.
pub proof fn lemma_load_flags(inst: Instruction, s: SystemView)
    requires
        inst is Lda || inst is Ldx || inst is Ldy,
    ensures
        match inst.mode().read_operand(s) {
            Ok((_, m, _)) => inst.step(s) matches Ok((t, _)) && t.chip.z == (m == 0) && t.chip.n == (
            m & 0x80 != 0) && m == match inst {
                Instruction::Lda(_) => t.chip.a,
                Instruction::Ldx(_) => t.chip.x,
                _ => t.chip.y,
            },
            Err(e) => inst.step(s) == Err::<(SystemView, nat), Fatal>(e),
        },
{
    reveal(Instruction::step);
}

/// After ADC, SBC, AND, ORA or EOR, N is bit 7 of the accumulator and Z says whether it is
/// zero.
pub proof fn lemma_result_flags(inst: Instruction, s: SystemView)
    requires
        inst is Adc || inst is Sbc || inst is And || inst is Ora || inst is Eor,
    ensures
        inst.step(s) matches Ok((t, _)) ==> t.chip.n == (t.chip.a & 0x80 != 0) && t.chip.z == (
        t.chip.a == 0),
{
    reveal(Instruction::step);
}

/// The carry out of ADC is whether A + M + C reaches 256; that of SBC is whether A covers
/// M plus the borrow 1 - C.
pub proof fn lemma_carry(inst: Instruction, chip: Nmos6507, m: u8)
    requires
        inst is Adc || inst is Sbc,
    ensures
        inst is Adc ==> inst.with_operand(chip, m).c == (chip.a + m + penalty(chip.c) >= 256),
        inst is Sbc ==> inst.with_operand(chip, m).c == (chip.a >= m + 1 - penalty(chip.c)),
{
    assert(!m == 255 - m) by (bit_vector);
}

/// PHA then PLA, and PHP then PLP, leave the CPU as it was, when the stack pointer is in the
/// upper half of page zero, where RAM answers.
#[verifier::rlimit(40)]
pub proof fn lemma_push_pull(s: SystemView)
    requires
        s.wf(),
        s.chip.sp >= 0x80,
    ensures
        Instruction::Pha(AddressMode::Implied).step(s) matches Ok((t, _)) && Instruction::Pla(
            AddressMode::Implied,
        ).step(t) matches Ok((u, _)) && u.chip == s.chip,
        Instruction::Php(AddressMode::Implied).step(s) matches Ok((t, _)) && Instruction::Plp(
            AddressMode::Implied,
        ).step(t) matches Ok((u, _)) && u.chip == s.chip,
{
    reveal(Instruction::step);
    reveal(SystemView::write);
    reveal(SystemView::read);
    lemma_stack_address(s.chip.sp);
    lemma_status_round_trip(s.chip);
}

#[verifier::rlimit(60)]
/// JSR then RTS leaves A, X, Y, the flags and the stack pointer as they were and continues
/// after the JSR's operand, when both stack bytes lie where RAM answers.
pub proof fn lemma_call_return(s: SystemView)
    requires
        s.wf(),
        s.chip.sp >= 0x81,
        Instruction::Jsr(AddressMode::Absolute).step(s) is Ok,
    ensures
        Instruction::Jsr(AddressMode::Absolute).step(s) matches Ok((t, _)) && Instruction::Rts(
            AddressMode::Implied,
        ).step(t) matches Ok((u, _)) && u.chip == (Nmos6507 {
            pc: s.chip.pc.wrapping_add(2),
            ..s.chip
        }),
{
    reveal(Instruction::step);
    reveal(SystemView::write);
    reveal(SystemView::read);
    lemma_next_byte_frame(s);
    let (s1, _) = s.next_byte().unwrap();
    lemma_next_byte_frame(s1);
    let (s2, _) = s1.next_byte().unwrap();
    let sp = s.chip.sp;
    lemma_stack_address(sp);
    lemma_stack_address((sp - 1) as u8);
    let ret = s2.chip.pc.wrapping_sub(1);
    vstd::arithmetic::div_mod::lemma_fundamental_div_mod(ret as int, 256);
    assert(word((ret % 256) as u8, (ret / 256) as u8) == ret);
}

/// A relative branch takes two cycles when not taken, three when taken within the page of the
/// next instruction, and four when taken into another page.
pub proof fn lemma_branch_cycles(inst: Instruction, s: SystemView)
    requires
        s.wf(),
        inst.is_branch(),
        inst.mode() == AddressMode::Relative,
    ensures
        inst.step(s) matches Ok((t, n)) ==> {
            let next = s.chip.pc.wrapping_add(1);
            let taken = branch_taken(inst, s.chip);
            &&& !taken ==> n == 2 && t.chip.pc == next
            &&& taken && !crosses_page(next, t.chip.pc) ==> n == 3
            &&& taken && crosses_page(next, t.chip.pc) ==> n == 4
        },
{
    reveal(Instruction::step);
    lemma_next_byte_frame(s);
}

/// No instruction takes more than nine cycles, whatever mode it was given.
#[verifier::rlimit(80)]
pub proof fn lemma_step_cycles(inst: Instruction, s: SystemView)
    ensures
        inst.step(s) matches Ok((_, n)) ==> n <= 9,
{
    reveal(Instruction::step);
    // one case for each group of the definition
    if inst.reads_operand() || inst is Bit {
    } else if inst.is_implied() {
    } else if inst.is_shift() {
    } else if inst.is_branch() {
    } else if inst is Jsr {
    } else {
    }
}

/// The operand fetch moves the program counter past exactly `operand_len` bytes.
#[verifier::rlimit(40)]
pub proof fn lemma_operand_advances_pc(mode: AddressMode, s: SystemView)
    requires
        s.wf(),
    ensures
        mode.operand(s) matches Ok((t, _, _)) ==> t.chip.pc == (s.chip.pc + mode.operand_len())
            % 0x10000,
{
    lemma_next_byte_frame(s);
    if let Ok((s1, low)) = s.next_byte() {
        lemma_next_byte_frame(s1);
        // the two-byte modes, and the vector that the indirect one reads
        if let Ok((s2, high)) = s1.next_byte() {
            let w = word(low, high);
            lemma_read_frame(s2, w);
            if let Ok((s3, _)) = s2.read(w) {
                lemma_read_frame(s3, w.wrapping_add(1));
            }
        }
        // the vectors that the indirect zero-page modes read
        let zx = low.wrapping_add(s.chip.x) as u16;
        lemma_read_frame(s1, zx);
        if let Ok((s3, _)) = s1.read(zx) {
            lemma_read_frame(s3, zx.wrapping_add(1));
        }
        lemma_read_frame(s1, low as u16);
        if let Ok((s3, _)) = s1.read(low as u16) {
            lemma_read_frame(s3, (low as u16).wrapping_add(1));
        }
    }
}

/// The assembler name of an instruction.
pub open spec fn mnemonic_text(inst: Instruction) -> Seq<char> {
    match inst {
        Instruction::Adc(_) => "ADC"@,
        Instruction::And(_) => "AND"@,
        Instruction::Asl(_) => "ASL"@,
        Instruction::Bit(_) => "BIT"@,
        Instruction::Bpl(_) => "BPL"@,
        Instruction::Bmi(_) => "BMI"@,
        Instruction::Bvc(_) => "BVC"@,
        Instruction::Bvs(_) => "BVS"@,
        Instruction::Bcc(_) => "BCC"@,
        Instruction::Bcs(_) => "BCS"@,
        Instruction::Bne(_) => "BNE"@,
        Instruction::Beq(_) => "BEQ"@,
        Instruction::Brk(_) => "BRK"@,
        Instruction::Cmp(_) => "CMP"@,
        Instruction::Cpx(_) => "CPX"@,
        Instruction::Cpy(_) => "CPY"@,
        Instruction::Dec(_) => "DEC"@,
        Instruction::Eor(_) => "EOR"@,
        Instruction::Clc(_) => "CLC"@,
        Instruction::Sec(_) => "SEC"@,
        Instruction::Cli(_) => "CLI"@,
        Instruction::Sei(_) => "SEI"@,
        Instruction::Clv(_) => "CLV"@,
        Instruction::Cld(_) => "CLD"@,
        Instruction::Sed(_) => "SED"@,
        Instruction::Inc(_) => "INC"@,
        Instruction::Jmp(_) => "JMP"@,
        Instruction::Jsr(_) => "JSR"@,
        Instruction::Lda(_) => "LDA"@,
        Instruction::Ldx(_) => "LDX"@,
        Instruction::Ldy(_) => "LDY"@,
        Instruction::Lsr(_) => "LSR"@,
        Instruction::Nop(_) => "NOP"@,
        Instruction::Ora(_) => "ORA"@,
        Instruction::Tax(_) => "TAX"@,
        Instruction::Txa(_) => "TXA"@,
        Instruction::Dex(_) => "DEX"@,
        Instruction::Inx(_) => "INX"@,
        Instruction::Tay(_) => "TAY"@,
        Instruction::Tya(_) => "TYA"@,
        Instruction::Dey(_) => "DEY"@,
        Instruction::Iny(_) => "INY"@,
        Instruction::Rol(_) => "ROL"@,
        Instruction::Ror(_) => "ROR"@,
        Instruction::Rti(_) => "RTI"@,
        Instruction::Rts(_) => "RTS"@,
        Instruction::Sbc(_) => "SBC"@,
        Instruction::Sta(_) => "STA"@,
        Instruction::Txs(_) => "TXS"@,
        Instruction::Tsx(_) => "TSX"@,
        Instruction::Pha(_) => "PHA"@,
        Instruction::Pla(_) => "PLA"@,
        Instruction::Php(_) => "PHP"@,
        Instruction::Plp(_) => "PLP"@,
        Instruction::Stx(_) => "STX"@,
        Instruction::Sty(_) => "STY"@,
        Instruction::Dop(_) => "DOP"@,
    }
}

impl Instruction {
    /// The assembler name of the instruction.
    pub fn mnemonic(&self) -> (r: &'static str)
        ensures
            r@ == mnemonic_text(*self),
    {
        match *self {
            Instruction::Adc(_) => "ADC",
            Instruction::And(_) => "AND",
            Instruction::Asl(_) => "ASL",
            Instruction::Bit(_) => "BIT",
            Instruction::Bpl(_) => "BPL",
            Instruction::Bmi(_) => "BMI",
            Instruction::Bvc(_) => "BVC",
            Instruction::Bvs(_) => "BVS",
            Instruction::Bcc(_) => "BCC",
            Instruction::Bcs(_) => "BCS",
            Instruction::Bne(_) => "BNE",
            Instruction::Beq(_) => "BEQ",
            Instruction::Brk(_) => "BRK",
            Instruction::Cmp(_) => "CMP",
            Instruction::Cpx(_) => "CPX",
            Instruction::Cpy(_) => "CPY",
            Instruction::Dec(_) => "DEC",
            Instruction::Eor(_) => "EOR",
            Instruction::Clc(_) => "CLC",
            Instruction::Sec(_) => "SEC",
            Instruction::Cli(_) => "CLI",
            Instruction::Sei(_) => "SEI",
            Instruction::Clv(_) => "CLV",
            Instruction::Cld(_) => "CLD",
            Instruction::Sed(_) => "SED",
            Instruction::Inc(_) => "INC",
            Instruction::Jmp(_) => "JMP",
            Instruction::Jsr(_) => "JSR",
            Instruction::Lda(_) => "LDA",
            Instruction::Ldx(_) => "LDX",
            Instruction::Ldy(_) => "LDY",
            Instruction::Lsr(_) => "LSR",
            Instruction::Nop(_) => "NOP",
            Instruction::Ora(_) => "ORA",
            Instruction::Tax(_) => "TAX",
            Instruction::Txa(_) => "TXA",
            Instruction::Dex(_) => "DEX",
            Instruction::Inx(_) => "INX",
            Instruction::Tay(_) => "TAY",
            Instruction::Tya(_) => "TYA",
            Instruction::Dey(_) => "DEY",
            Instruction::Iny(_) => "INY",
            Instruction::Rol(_) => "ROL",
            Instruction::Ror(_) => "ROR",
            Instruction::Rti(_) => "RTI",
            Instruction::Rts(_) => "RTS",
            Instruction::Sbc(_) => "SBC",
            Instruction::Sta(_) => "STA",
            Instruction::Txs(_) => "TXS",
            Instruction::Tsx(_) => "TSX",
            Instruction::Pha(_) => "PHA",
            Instruction::Pla(_) => "PLA",
            Instruction::Php(_) => "PHP",
            Instruction::Plp(_) => "PLP",
            Instruction::Stx(_) => "STX",
            Instruction::Sty(_) => "STY",
            Instruction::Dop(_) => "DOP",
        }
    }
}

} // verus!
