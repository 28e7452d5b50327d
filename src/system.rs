use vstd::prelude::*;

pub mod colors;
pub mod instructions;
pub mod riot;
pub mod tia;

use crate::renderer::WindowEvent;
use crate::Fatal;
use instructions::Instruction;
use riot::Riot;
use tia::{Tia, TiaView};

verus! {

/// Bytes of RAM.
pub const MEMORY_SIZE: usize = 128;
/// Bytes of cartridge ROM.
pub const PROGRAM_SIZE: usize = 4096;
/// The most CPU cycles one instruction and the WSYNC stall after it can take together.
pub const MAX_STEP_CLOCKS: usize = 85;

/// The 6507: registers and flags.
#[derive(Debug, Clone, Copy, PartialEq, Eq, Structural)]
pub struct Nmos6507 {
    /// X indexing register
    pub x: u8,
    /// Y indexing register
    pub y: u8,
    /// accumulator
    pub a: u8,
    /// program counter
    pub pc: u16,
    /// stack pointer
    pub sp: u8,
    /// negative
    pub n: bool,
    /// zero
    pub z: bool,
    /// carry
    pub c: bool,
    /// overflow
    pub v: bool,
    /// decimal
    pub d: bool,
    /// interrupt disable
    pub i: bool,
    /// break
    pub b: bool,
}

impl Nmos6507 {
    /// The CPU at power-on: every register and flag clear, the program counter at the start of
    /// the cartridge.
    pub open spec fn power_on() -> Nmos6507 {
        Nmos6507 {
            x: 0,
            y: 0,
            a: 0,
            pc: 0x1000,
            sp: 0,
            n: false,
            z: false,
            c: false,
            v: false,
            d: false,
            i: false,
            b: false,
        }
    }

    pub fn new() -> (r: Nmos6507)
        ensures
            r == Nmos6507::power_on(),
    {
        Nmos6507 {
            x: 0,
            y: 0,
            a: 0,
            pc: 0x1000,
            sp: 0,
            n: false,
            z: false,
            c: false,
            v: false,
            d: false,
            i: false,
            b: false,
        }
    }
}

/// The whole machine: CPU, RIOT, TIA, RAM, ROM, and the CPU cycles run so far.
pub struct System {
    pub chip: Nmos6507,
    pub riot: Riot,
    pub tia: Tia,
    pub memory: [u8; MEMORY_SIZE],
    pub program: [u8; PROGRAM_SIZE],
    pub clocks: usize,
}

/// What a `System` holds, with RAM, ROM and the frame as sequences.
pub struct SystemView {
    pub chip: Nmos6507,
    pub riot: Riot,
    pub tia: TiaView,
    pub memory: Seq<u8>,
    pub program: Seq<u8>,
    pub clocks: usize,
}

impl View for System {
    type V = SystemView;

    open spec fn view(&self) -> SystemView {
        SystemView {
            chip: self.chip,
            riot: self.riot,
            tia: self.tia@,
            memory: self.memory@,
            program: self.program@,
            clocks: self.clocks,
        }
    }
}

/// The region of the bus that an access reaches.
#[derive(Debug, Clone, Copy, PartialEq, Eq, Structural)]
pub enum Region {
    Rom,
    Ram,
    Tia,
    Riot,
}

/// Address bit 12 set: the cartridge.
pub open spec fn is_rom(a: u16) -> bool {
    a & 0x1000 != 0
}

/// Bits 12 and 9 clear, bit 7 set: RAM.
pub open spec fn is_ram(a: u16) -> bool {
    a & 0x1200 == 0 && a & 0x0080 != 0
}

/// Bits 12 and 7 clear: the TIA.
pub open spec fn is_tia(a: u16) -> bool {
    a & 0x1080 == 0
}

/// The RIOT on a write: bit 12 clear and one of bits 9, 7, 4, 2 set.
pub open spec fn is_riot_write(a: u16) -> bool {
    a & 0x1000 == 0 && a & 0x0294 != 0
}

/// The RIOT on a read: bit 12 clear and bit 10 or 7 set.
pub open spec fn is_riot_read(a: u16) -> bool {
    a & 0x1000 == 0 && a & 0x0480 != 0
}

/// The region a read of `a` reaches; the masks are tried in the order ROM, RAM, TIA, RIOT.
pub open spec fn read_region(a: u16) -> Option<Region> {
    if is_rom(a) {
        Some(Region::Rom)
    } else if is_ram(a) {
        Some(Region::Ram)
    } else if is_tia(a) {
        Some(Region::Tia)
    } else if is_riot_read(a) {
        Some(Region::Riot)
    } else {
        None
    }
}

/// The region a write to `a` reaches, in the same order.
pub open spec fn write_region(a: u16) -> Option<Region> {
    if is_rom(a) {
        Some(Region::Rom)
    } else if is_ram(a) {
        Some(Region::Ram)
    } else if is_tia(a) {
        Some(Region::Tia)
    } else if is_riot_write(a) {
        Some(Region::Riot)
    } else {
        None
    }
}

/// `mask` applied to a flag: `mask` when set, else zero.
pub open spec fn flag_bits(flag: bool, mask: u8) -> u8 {
    if flag {
        mask
    } else {
        0
    }
}

/// The status byte: C, Z, I, D, B in bits 0..4, bit 5 always set, V and N in bits 6 and 7.
pub open spec fn status_byte(chip: Nmos6507) -> u8 {
    (flag_bits(chip.c, 1) + flag_bits(chip.z, 2) + flag_bits(chip.i, 4) + flag_bits(chip.d, 8)
        + flag_bits(chip.b, 16) + 32 + flag_bits(chip.v, 64) + flag_bits(chip.n, 128)) as u8
}

/// The CPU with its flags loaded from status byte `r`.
pub open spec fn with_status(chip: Nmos6507, r: u8) -> Nmos6507 {
    Nmos6507 {
        c: r & 1 != 0,
        z: r & 2 != 0,
        i: r & 4 != 0,
        d: r & 8 != 0,
        b: r & 16 != 0,
        v: r & 64 != 0,
        n: r & 128 != 0,
        ..chip
    }
}

impl SystemView {
    /// The sizes of RAM, ROM and frame, and the chips' own invariants.
    pub open spec fn wf(self) -> bool {
        &&& self.memory.len() == MEMORY_SIZE
        &&& self.program.len() == PROGRAM_SIZE
        &&& self.tia.wf()
        &&& self.riot.wf()
    }

    /// A read of bus address `a`: the machine after it and the byte read.
    #[verifier::opaque]
    pub open spec fn read(self, a: u16) -> Result<(SystemView, u8), Fatal> {
        if is_rom(a) {
            Ok((self, self.program[(a & 0x0FFF) as int]))
        } else if is_ram(a) {
            Ok((self, self.memory[(a & 0x007F) as int]))
        } else if is_tia(a) {
            match self.tia.read(a & 0x000F) {
                Ok(v) => Ok((self, v)),
                Err(e) => Err(e),
            }
        } else if is_riot_read(a) {
            match self.riot.read(a) {
                Ok((riot, v)) => Ok((SystemView { riot, ..self }, v)),
                Err(e) => Err(e),
            }
        } else {
            Err(Fatal::Memory(a))
        }
    }

    /// A write of `v` to bus address `a`: the machine after it.
    #[verifier::opaque]
    pub open spec fn write(self, a: u16, v: u8) -> Result<SystemView, Fatal> {
        if is_rom(a) {
            Err(Fatal::Memory(a))
        } else if is_ram(a) {
            Ok(SystemView { memory: self.memory.update((a & 0x007F) as int, v), ..self })
        } else if is_tia(a) {
            match self.tia.written(a & 0x003F, v) {
                Ok(tia) => Ok(SystemView { tia, ..self }),
                Err(e) => Err(e),
            }
        } else if is_riot_write(a) {
            if riot::is_timer_register(a & 0x001F) {
                Ok(SystemView { riot: self.riot.written(a & 0x001F, v), ..self })
            } else {
                Err(Fatal::Unimplemented(a & 0x001F))
            }
        } else {
            Err(Fatal::Memory(a))
        }
    }

    /// The byte at the program counter, with the counter moved past it.
    pub open spec fn next_byte(self) -> Result<(SystemView, u8), Fatal> {
        match self.read(self.chip.pc) {
            Ok((s, b)) => Ok(
                (
                    SystemView {
                        chip: Nmos6507 { pc: self.chip.pc.wrapping_add(1), ..s.chip },
                        ..s
                    },
                    b,
                ),
            ),
            Err(e) => Err(e),
        }
    }

    /// The machine after `cycles` CPU cycles: the count grows and both chips advance.
    #[verifier::opaque]
    pub open spec fn ticked(self, cycles: nat) -> SystemView {
        SystemView {
            clocks: (self.clocks + cycles) as usize,
            riot: self.riot.ticked(cycles),
            tia: self.tia.ticked(cycles),
            ..self
        }
    }

    /// The machine after one instruction: it runs, the chips advance by its cycles, the RIOT
    /// leaves the state that a timer write put it in, and a WSYNC stall is run out. The cycle
    /// count grows by the instruction's cycles and the stall's.
    pub open spec fn executed(self, inst: Instruction) -> Result<SystemView, Fatal> {
        match inst.step(self) {
            Ok((s, cycles)) => {
                let t = s.ticked(cycles);
                let u = SystemView {
                    riot: Riot { timer_reset: false, ..t.riot },
                    tia: t.tia.synced(),
                    ..t
                };
                let stall = t.tia.sync_clocks();
                Ok(
                    SystemView {
                        clocks: (self.clocks + cycles + stall) as usize,
                        ..u.ticked(stall as nat)
                    },
                )
            },
            Err(e) => Err(e),
        }
    }
}

/// The masks that fold an address onto a region stay inside it.
pub proof fn lemma_masks(a: u16)
    by (bit_vector)
    ensures
        a & 0x0FFF < 4096,
        a & 0x007F < 128,
        a & 0x003F < 64,
        a & 0x001F < 32,
        a & 0x000F < 16,
{
}

impl System {
    /// A machine at power-on with cartridge `program`.
    pub fn new(program: [u8; 4096]) -> (r: System)
        ensures
            r@.wf(),
            r.chip == Nmos6507::power_on(),
            r.riot == Riot::power_on(),
            r.tia@.power_on(),
            r.memory@ == Seq::new(MEMORY_SIZE as nat, |i: int| 0u8),
            r.program@ == program@,
            r.clocks == 0,
    {
        let r = System {
            chip: Nmos6507::new(),
            riot: Riot::new(),
            tia: Tia::new(),
            clocks: 0,
            memory: [0; MEMORY_SIZE],
            program,
        };
        assert(r.memory@ =~= Seq::new(MEMORY_SIZE as nat, |i: int| 0u8));
        r
    }

    /// Writes `value` to bus address `index`.
    pub fn memory_set(&mut self, index: u16, value: u8) -> (r: Result<(), Fatal>)
        requires
            old(self)@.wf(),
        ensures
            final(self).clocks == old(self).clocks,
            final(self)@.wf(),
            match old(self)@.write(index, value) {
                Ok(s) => r is Ok && final(self)@ == s,
                Err(e) => r == Err::<(), Fatal>(e) && final(self)@ == old(self)@,
            },
    {
        proof {
            reveal(SystemView::write);
            lemma_masks(index);
        }
        if (index & 0x1000) != 0 {
            return Err(Fatal::Memory(index));
        }
        if (index & 0x1200) == 0 && (index & 0x0080) != 0 {
            self.memory[(index & 0x007F) as usize] = value;
            return Ok(());
        }
        if (index & 0x1080) == 0 {
            return self.tia.set(index & 0x003F, value);
        }
        if (index & 0x0294) != 0 {
            return self.riot.set(index & 0x001F, value);
        }
        Err(Fatal::Memory(index))
    }

    /// Reads bus address `index`.
    pub fn memory_get(&mut self, index: u16) -> (r: Result<u8, Fatal>)
        requires
            old(self)@.wf(),
        ensures
            final(self).clocks == old(self).clocks,
            final(self)@.wf(),
            match old(self)@.read(index) {
                Ok((s, v)) => r == Ok::<u8, Fatal>(v) && final(self)@ == s,
                Err(e) => r == Err::<u8, Fatal>(e) && final(self)@ == old(self)@,
            },
    {
        proof {
            reveal(SystemView::read);
            lemma_masks(index);
        }
        if (index & 0x1000) != 0 {
            return Ok(self.program[(index & 0x0FFF) as usize]);
        }
        if (index & 0x1200) == 0 && (index & 0x0080) != 0 {
            return Ok(self.memory[(index & 0x007F) as usize]);
        }
        if (index & 0x1080) == 0 {
            return self.tia.get(index & 0x000F);
        }
        if (index & 0x0480) != 0 {
            return self.riot.get(index);
        }
        Err(Fatal::Memory(index))
    }

    /// Reads the byte at the program counter and moves the counter past it.
    pub fn next_byte(&mut self) -> (r: Result<u8, Fatal>)
        requires
            old(self)@.wf(),
        ensures
            final(self).clocks == old(self).clocks,
            final(self)@.wf(),
            match old(self)@.next_byte() {
                Ok((s, v)) => r == Ok::<u8, Fatal>(v) && final(self)@ == s,
                Err(e) => r == Err::<u8, Fatal>(e),
            },
    {
        let pc = self.chip.pc;
        let byte = self.memory_get(pc)?;
        self.chip.pc = pc.wrapping_add(1);
        Ok(byte)
    }

    /// Counts `clocks` CPU cycles and advances the RIOT and the TIA by them.
    pub fn tick(&mut self, clocks: usize)
        requires
            old(self)@.wf(),
            old(self).clocks + clocks <= usize::MAX,
            3 * clocks + tia::COLOR_CLOCKS_PER_FRAME <= usize::MAX,
        ensures
            final(self)@.wf(),
            final(self)@ == old(self)@.ticked(clocks as nat),
            final(self).clocks == old(self).clocks + clocks,
    {
        reveal(SystemView::ticked);
        self.clocks = self.clocks + clocks;
        self.riot.tick(clocks);
        self.tia.tick(clocks);
    }

    /// Runs `inst`, whose opcode was already fetched, then the chips and the WSYNC stall.
    #[verifier::rlimit(40)]
    pub fn execute(&mut self, inst: Instruction) -> (r: Result<(), Fatal>)
        requires
            old(self)@.wf(),
            old(self).clocks <= usize::MAX - MAX_STEP_CLOCKS,
        ensures
            final(self)@.wf(),
            final(self).tia.color_clocks < tia::COLOR_CLOCKS_PER_FRAME,
            match old(self)@.executed(inst) {
                Ok(s) => r is Ok && final(self)@ == s,
                Err(e) => r == Err::<(), Fatal>(e),
            },
    {
        let ticks = inst.execute(self)?;
        self.tick(ticks);
        self.riot.timer_reset = false;
        let wsync_clocks = self.tia.sync().value;
        proof {
            assert(wsync_clocks <= 76);
        }
        self.tick(wsync_clocks);
        Ok(())
    }

    /// One turn of the machine: fetches the opcode at the program counter, decodes it, and
    /// runs it with `execute`.
    #[verifier::rlimit(40)]
    pub fn step(&mut self) -> (r: Result<(), Fatal>)
        requires
            old(self)@.wf(),
            old(self).clocks <= usize::MAX - MAX_STEP_CLOCKS,
        ensures
            final(self)@.wf(),
            match old(self)@.next_byte() {
                Ok((s, opcode)) => match instructions::opcode_table(opcode) {
                    Some(inst) => match s.executed(inst) {
                        Ok(t) => r is Ok && final(self)@ == t,
                        Err(e) => r == Err::<(), Fatal>(e),
                    },
                    None => r == Err::<(), Fatal>(Fatal::Decode(opcode)),
                },
                Err(e) => r == Err::<(), Fatal>(e),
            },
    {
        let opcode = self.next_byte()?;
        let inst = Instruction::decode(opcode)?;
        self.execute(inst)
    }

    /// The status byte that PHP pushes.
    pub fn status(&self) -> (r: u8)
        ensures
            r == status_byte(self.chip),
    {
        let c: u8 = if self.chip.c { 1 } else { 0 };
        let z: u8 = if self.chip.z { 2 } else { 0 };
        let i: u8 = if self.chip.i { 4 } else { 0 };
        let d: u8 = if self.chip.d { 8 } else { 0 };
        let b: u8 = if self.chip.b { 16 } else { 0 };
        let v: u8 = if self.chip.v { 64 } else { 0 };
        let n: u8 = if self.chip.n { 128 } else { 0 };
        c + z + i + d + b + 32 + v + n
    }

    /// Loads the flags from status byte `register`, as PLP does.
    pub fn status_set(&mut self, register: u8)
        ensures
            final(self).chip == with_status(old(self).chip, register),
            final(self).riot == old(self).riot,
            final(self).tia@ == old(self).tia@,
            final(self).memory@ == old(self).memory@,
            final(self).program@ == old(self).program@,
            final(self).clocks == old(self).clocks,
    {
        self.chip.c = register & 1 != 0;
        self.chip.z = register & 2 != 0;
        self.chip.i = register & 4 != 0;
        self.chip.d = register & 8 != 0;
        self.chip.b = register & 16 != 0;
        self.chip.v = register & 64 != 0;
        self.chip.n = register & 128 != 0;
    }

    /// Hands an event from the host to the chips that latch input.
    pub fn input_event(&mut self, event: &WindowEvent)
        requires
            old(self)@.wf(),
        ensures
            final(self)@.wf(),
            final(self)@ == (SystemView {
                riot: old(self)@.riot.with_event(*event),
                tia: old(self)@.tia.with_event(*event),
                ..old(self)@
            }),
    {
        self.riot.input_event(event);
        self.tia.input_event(event);
    }
}

/// Every bus access reaches exactly one region: the ROM, RAM and TIA masks never overlap, no
/// other region shares an address with ROM, and the masks, tried in order, always find one.
pub proof fn lemma_decode_masks(a: u16)
    ensures
        read_region(a) is Some,
        write_region(a) is Some,
        !(is_rom(a) && is_ram(a)),
        !(is_rom(a) && is_tia(a)),
        !(is_ram(a) && is_tia(a)),
        !(is_rom(a) && (is_riot_read(a) || is_riot_write(a))),
{
    assert(a & 0x1000 != 0 || (a & 0x1200 == 0 && a & 0x0080 != 0) || a & 0x1080 == 0 || (a
        & 0x1000 == 0 && a & 0x0480 != 0)) by (bit_vector);
    assert(a & 0x1000 != 0 || (a & 0x1200 == 0 && a & 0x0080 != 0) || a & 0x1080 == 0 || (a
        & 0x1000 == 0 && a & 0x0294 != 0)) by (bit_vector);
    assert(!(a & 0x1000 != 0 && a & 0x1200 == 0)) by (bit_vector);
    assert(!(a & 0x1000 != 0 && a & 0x1080 == 0)) by (bit_vector);
    assert(!(a & 0x0080 != 0 && a & 0x1080 == 0)) by (bit_vector);
}

/// Where a stack address in the upper half of page zero goes: RAM, at the byte below 0x80.
pub proof fn lemma_stack_address(x: u8)
    requires
        x >= 0x80,
    ensures
        is_ram(x as u16),
        !is_rom(x as u16),
        (x as u16) & 0x007F == x - 0x80,
{
    assert((x as u16) & 0x1200 == 0 && (x as u16) & 0x0080 != 0 && (x as u16) & 0x1000 == 0
        && (x as u16) & 0x007F == x - 0x80) by (bit_vector)
        requires
            x >= 0x80,
    ;
}

/// A read leaves everything but the RIOT as it was, and keeps the machine well formed.
pub proof fn lemma_read_frame(s: SystemView, a: u16)
    requires
        s.wf(),
    ensures
        s.read(a) matches Ok((t, _)) ==> t == (SystemView { riot: t.riot, ..s }) && t.wf(),
{
    reveal(SystemView::read);
}

/// The status byte carries each flag in its own bit, so loading it back restores the flags.
pub proof fn lemma_status_round_trip(chip: Nmos6507)
    ensures
        with_status(chip, status_byte(chip)) == chip,
{
    let c = flag_bits(chip.c, 1);
    let z = flag_bits(chip.z, 2);
    let i = flag_bits(chip.i, 4);
    let d = flag_bits(chip.d, 8);
    let b = flag_bits(chip.b, 16);
    let v = flag_bits(chip.v, 64);
    let n = flag_bits(chip.n, 128);
    let r = (c + z + i + d + b + 32 + v + n) as u8;
    assert((r & 1 != 0) == (c != 0) && (r & 2 != 0) == (z != 0) && (r & 4 != 0) == (i != 0) && (r
        & 8 != 0) == (d != 0) && (r & 16 != 0) == (b != 0) && (r & 64 != 0) == (v != 0) && (r & 128
        != 0) == (n != 0)) by (bit_vector)
        requires
            c == 0 || c == 1,
            z == 0 || z == 2,
            i == 0 || i == 4,
            d == 0 || d == 8,
            b == 0 || b == 16,
            v == 0 || v == 64,
            n == 0 || n == 128,
            r == (c + z + i + d + b + 32 + v + n) as u8,
    ;
}

/// The cycle count grows by exactly the cycles an instruction returns plus the WSYNC stall
/// run out after it, so it never falls.
#[verifier::rlimit(40)]
pub proof fn lemma_clock_count(s: SystemView, inst: Instruction)
    requires
        s.clocks <= usize::MAX - MAX_STEP_CLOCKS,
    ensures
        match inst.step(s) {
            Ok((s1, n)) => s.executed(inst) matches Ok(t) && t.clocks == s.clocks + n
                + s1.ticked(n).tia.sync_clocks() && t.clocks >= s.clocks,
            Err(e) => s.executed(inst) == Err::<SystemView, Fatal>(e),
        },
{
    reveal(SystemView::ticked);
    instructions::lemma_step_cycles(inst, s);
}

/// After every instruction the beam is inside the frame.
pub proof fn lemma_beam_in_frame(s: SystemView, inst: Instruction)
    ensures
        s.executed(inst) matches Ok(t) ==> t.tia.color_clocks < tia::COLOR_CLOCKS_PER_FRAME,
{
    reveal(SystemView::ticked);
}

} // verus!
