use vstd::prelude::*;
use vstd::string::StringSliceAdditionalSpecFns;

use crate::system::instructions::{opcode_table, sign_extend, AddressMode, Instruction};

verus! {

/// Where the debugger stops: an address, or a symbol to look up.
#[derive(Debug, Clone)]
pub enum BreakPointType {
    Number(u16),
    Symbol(String),
}

/// The value of an ASCII hexadecimal digit, either case.
pub open spec fn hex_digit(b: u8) -> Option<nat> {
    if 0x30 <= b <= 0x39 {
        Some((b - 0x30) as nat)
    } else if 0x61 <= b <= 0x66 {
        Some((b - 0x61 + 10) as nat)
    } else if 0x41 <= b <= 0x46 {
        Some((b - 0x41 + 10) as nat)
    } else {
        None
    }
}

/// The number that a run of hexadecimal digits spells, most significant first.
pub open spec fn hex_value(digits: Seq<u8>) -> nat
    decreases digits.len(),
{
    if digits.len() == 0 {
        0
    } else {
        hex_value(digits.drop_last()) * 16 + hex_digit(digits.last()).unwrap_or(0)
    }
}

/// Text without the `+` it may start with.
pub open spec fn unsigned_digits(s: Seq<u8>) -> Seq<u8> {
    if s.len() > 0 && s[0] == 0x2B {
        s.drop_first()
    } else {
        s
    }
}

/// The address that text `s` spells in hexadecimal: an optional `+`, then one or more digits
/// whose value fits in 16 bits.
pub open spec fn hex_address(s: Seq<u8>) -> Option<u16> {
    let digits = unsigned_digits(s);
    if digits.len() > 0 && (forall|i: int| 0 <= i < digits.len() ==> #[trigger] hex_digit(digits[i])
        is Some) && hex_value(digits) <= 0xFFFF {
        Some(hex_value(digits) as u16)
    } else {
        None
    }
}

proof fn lemma_hex_value_grows(digits: Seq<u8>, i: int)
    requires
        0 <= i <= digits.len(),
    ensures
        hex_value(digits.take(i)) <= hex_value(digits),
    decreases digits.len(),
{
    if i < digits.len() {
        lemma_hex_value_grows(digits.drop_last(), i);
        assert(digits.drop_last().take(i) =~= digits.take(i));
    } else {
        assert(digits.take(i) =~= digits);
    }
}

fn digit_value(b: u8) -> (r: Option<u32>)
    ensures
        r matches Some(v) ==> hex_digit(b) == Some(v as nat) && v < 16,
        r is None ==> hex_digit(b) is None,
{
    if 0x30 <= b && b <= 0x39 {
        Some((b - 0x30) as u32)
    } else if 0x61 <= b && b <= 0x66 {
        Some((b - 0x61 + 10) as u32)
    } else if 0x41 <= b && b <= 0x46 {
        Some((b - 0x41 + 10) as u32)
    } else {
        None
    }
}

/// Reads a breakpoint from the command line: an address in hexadecimal, or else the name of
/// a symbol.
pub fn try_parse_breakpoint(s: &str) -> (r: Result<BreakPointType, String>)
    ensures
        match hex_address(s.spec_bytes()) {
            Some(v) => r matches Ok(BreakPointType::Number(n)) && n == v,
            None => r matches Ok(BreakPointType::Symbol(name)) && name@ == s@,
        },
{
    let bytes = s.as_bytes();
    let ghost text = s.spec_bytes();
    let start: usize = if bytes.len() > 0 && bytes[0] == 0x2B {
        1
    } else {
        0
    };
    let ghost digits = text.subrange(start as int, text.len() as int);
    proof {
        if start == 1 {
            assert(digits =~= text.drop_first());
        } else {
            assert(digits =~= text);
        }
        assert(digits == unsigned_digits(text));
    }
    if bytes.len() == start {
        return Ok(BreakPointType::Symbol(s.to_owned()));
    }
    let mut value: u32 = 0;
    let mut i: usize = start;
    while i < bytes.len()
        invariant
            bytes@ == text,
            text == s.spec_bytes(),
            start <= i <= bytes.len(),
            digits == text.subrange(start as int, text.len() as int),
            digits == unsigned_digits(text),
            value as nat == hex_value(digits.take(i - start)),
            value <= 0xFFFF,
            forall|j: int| 0 <= j < i - start ==> #[trigger] hex_digit(digits[j]) is Some,
        decreases bytes.len() - i,
    {
        let d = match digit_value(bytes[i]) {
            Some(d) => d,
            None => {
                proof {
                    assert(hex_digit(digits[i - start]) is None);
                    assert(hex_address(text) is None);
                }
                return Ok(BreakPointType::Symbol(s.to_owned()));
            },
        };
        proof {
            assert(digits.take(i - start + 1).drop_last() =~= digits.take(i - start));
        }
        value = value * 16 + d;
        i = i + 1;
        if value > 0xFFFF {
            proof {
                lemma_hex_value_grows(digits, i - start);
                assert(hex_value(digits) > 0xFFFF);
                assert(hex_address(text) is None);
            }
            return Ok(BreakPointType::Symbol(s.to_owned()));
        }
    }
    proof {
        assert(digits.take(i - start) =~= digits);
    }
    Ok(BreakPointType::Number(value as u16))
}

/// One line of a disassembled cartridge.
#[derive(Debug, Clone, Copy, PartialEq, Eq, Structural)]
pub enum Listing {
    /// An instruction at `addr`; `operand` is the word or byte after the opcode, or the target
    /// of a branch.
    Code { addr: u16, inst: Instruction, operand: u16 },
    /// A byte after the first one that decodes to no instruction.
    Data { addr: u16, byte: u8 },
}

/// The byte at `i`, or zero past the end.
pub open spec fn byte_at(p: Seq<u8>, i: int) -> u8 {
    if 0 <= i < p.len() {
        p[i]
    } else {
        0
    }
}

/// What a `Code` line shows after the instruction at `i`, opcode `inst`.
pub open spec fn operand_at(p: Seq<u8>, i: int, inst: Instruction) -> u16 {
    let low = byte_at(p, i + 1);
    if inst.mode().operand_len() == 2 {
        (byte_at(p, i + 2) * 256 + low) as u16
    } else if inst.mode() == AddressMode::Relative {
        ((0x1000 + i + 2) as u16).wrapping_add(sign_extend(low))
    } else {
        low as u16
    }
}

/// Where the line after the instruction at `i` starts, at most the end of the cartridge.
pub open spec fn next_line(p: Seq<u8>, i: int, inst: Instruction) -> int {
    let j = i + 1 + inst.mode().operand_len();
    if j > p.len() {
        p.len() as int
    } else {
        j
    }
}

/// The listing of cartridge `p` from byte `i` on: instructions one after the other until a
/// byte decodes to none; from there on every byte is data.
pub open spec fn listing(p: Seq<u8>, i: int) -> Seq<Listing>
    decreases p.len() - i,
{
    if i < 0 || i >= p.len() {
        Seq::empty()
    } else {
        match opcode_table(p[i]) {
            Some(inst) => seq![
                Listing::Code {
                    addr: (0x1000 + i) as u16,
                    inst,
                    operand: operand_at(p, i, inst),
                },
            ] + listing(p, next_line(p, i, inst)),
            None => Seq::new(
                (p.len() - i) as nat,
                |k: int| Listing::Data { addr: (0x1000 + i + k) as u16, byte: p[i + k] },
            ),
        }
    }
}

fn byte_or_zero(program: &[u8; 4096], i: usize) -> (r: u8)
    ensures
        r == byte_at(program@, i as int),
{
    if i < 4096 {
        program[i]
    } else {
        0
    }
}

/// Disassembles a cartridge from its first byte.
pub fn disassemble(program: &[u8; 4096]) -> (r: Vec<Listing>)
    ensures
        r@ == listing(program@, 0),
{
    let mut out: Vec<Listing> = Vec::new();
    let mut i: usize = 0;
    while i < 4096
        invariant
            i <= 4096,
            program@.len() == 4096,
            out@ + listing(program@, i as int) == listing(program@, 0),
        decreases 4096 - i,
    {
        let ghost before = out@;
        match Instruction::decode(program[i]) {
            Ok(inst) => {
                let mode = inst.address_mode();
                let len = mode.operand_bytes();
                let low = byte_or_zero(program, i + 1);
                let operand: u16 = if len == 2 {
                    byte_or_zero(program, i + 2) as u16 * 256 + low as u16
                } else if let AddressMode::Relative = mode {
                    ((0x1000 + i + 2) as u16).wrapping_add(
                        if low < 128 {
                            low as u16
                        } else {
                            low as u16 + 0xFF00
                        },
                    )
                } else {
                    low as u16
                };
                out.push(Listing::Code { addr: (0x1000 + i) as u16, inst, operand });
                let next = if i + 1 + len > 4096 {
                    4096
                } else {
                    i + 1 + len
                };
                proof {
                    assert(out@ + listing(program@, next as int) =~= before + listing(
                        program@,
                        i as int,
                    ));
                }
                i = next;
            },
            Err(_) => {
                let start = i;
                while i < 4096
                    invariant
                        start <= i <= 4096,
                        start < 4096,
                        program@.len() == 4096,
                        opcode_table(program@[start as int]) is None,
                        before + listing(program@, start as int) == listing(program@, 0),
                        out@ == before + listing(program@, start as int).take(i - start),
                    decreases 4096 - i,
                {
                    let ghost prev = out@;
                    out.push(Listing::Data { addr: (0x1000 + i) as u16, byte: program[i] });
                    proof {
                        assert(listing(program@, start as int).take(i + 1 - start) =~= listing(
                            program@,
                            start as int,
                        ).take(i - start).push(
                            Listing::Data { addr: (0x1000 + i) as u16, byte: program@[i as int] },
                        ));
                    }
                    i = i + 1;
                }
                proof {
                    assert(listing(program@, start as int).take(i - start) =~= listing(
                        program@,
                        start as int,
                    ));
                    assert(listing(program@, i as int) =~= Seq::<Listing>::empty());
                    assert(out@ + listing(program@, i as int) =~= out@);
                }
            },
        }
    }
    proof {
        assert(listing(program@, i as int) =~= Seq::<Listing>::empty());
        assert(out@ =~= out@ + listing(program@, i as int));
    }
    out
}

} // verus!
