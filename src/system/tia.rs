use vstd::prelude::*;

use vstd::arithmetic::power2::pow2;

use super::colors::{pixel_byte, pixel_bytes};
use crate::renderer::{InputType, WindowEvent};
use crate::Fatal;

verus! {

/// Color clocks in one scan line.
pub const COLOR_CLOCKS_PER_LINE: usize = 228;
/// Scan lines in one frame.
pub const SCAN_LINES: usize = 262;
/// Color clocks in one frame.
pub const COLOR_CLOCKS_PER_FRAME: usize = 59736;
/// Color clocks per CPU cycle.
pub const COLOR_CLOCKS_PER_SYSTEM_CLOCK: usize = 3;
/// Visible pixels per line.
pub const WIDTH: u32 = 160;
/// Visible lines per frame.
pub const HEIGHT: u32 = 192;
/// Bytes per pixel in the frame buffer.
pub const STRIDE: usize = 4;
/// Bytes in the frame buffer.
pub const BUFF_SIZE: usize = 122880;
/// Pixels in the frame buffer.
pub const PIXELS: usize = 30720;
/// The first scan line that is drawn.
pub const DRAWING_START_ROW: usize = 40;
/// The first color clock of a line that is drawn.
pub const DRAWING_START_COLUMN: usize = 68;
/// Lines drawn per frame.
pub const DRAWING_ROWS: usize = 192;
/// Pixels drawn per line.
pub const DRAWING_COLUMNS: usize = 160;
/// Where VSYNC puts the beam: the start of the fourth line.
pub const FRAME_TOP: usize = 684;

/// Register index of INPT4, the trigger of the first joystick.
pub const INPT4: u16 = 0xC;

/// CPU cycles that a WSYNC stall adds.
pub struct WsyncClocks {
    pub value: usize,
}

/// The frame buffer: four bytes per pixel, row by row.
pub struct Buffer(pub [u8; BUFF_SIZE]);

/// How many copies of player 0 are drawn, and how wide.
#[derive(Debug, Clone, Copy, PartialEq, Eq, Structural)]
pub enum Nusize {
    OneCopy,
    Quad,
}

/// The TIA: the beam, the registers that shape what it draws, and the frame it draws into.
pub struct Tia {
    pub vsync: bool,
    pub vblank: bool,
    pub wsync: bool,
    /// A RESP0 write waits here until the next `sync`.
    pub set_resp0: bool,
    pub colupf: u8,
    pub colubk: u8,
    pub colup0: u8,
    pub colup1: u8,
    /// CTRLPF bit 0: the right half of the playfield mirrors the left.
    pub pf_reflected: bool,
    pub pf0: u8,
    pub pf1: u8,
    pub pf2: u8,
    /// The beam: color clocks since the top of the frame.
    pub color_clocks: usize,
    pub joystick1_trigger_pressed: bool,
    pub nusize0: Nusize,
    /// Color clock of the line where player 0 starts.
    pub resp0: usize,
    pub grp0: u8,
    pub buffer: Buffer,
}

/// What a `Tia` holds, with the frame buffer as a sequence of bytes.
pub struct TiaView {
    pub vsync: bool,
    pub vblank: bool,
    pub wsync: bool,
    pub set_resp0: bool,
    pub colupf: u8,
    pub colubk: u8,
    pub colup0: u8,
    pub colup1: u8,
    pub pf_reflected: bool,
    pub pf0: u8,
    pub pf1: u8,
    pub pf2: u8,
    pub color_clocks: usize,
    pub joystick1_trigger_pressed: bool,
    pub nusize0: Nusize,
    pub resp0: usize,
    pub grp0: u8,
    pub buffer: Seq<u8>,
}

impl View for Tia {
    type V = TiaView;

    open spec fn view(&self) -> TiaView {
        TiaView {
            vsync: self.vsync,
            vblank: self.vblank,
            wsync: self.wsync,
            set_resp0: self.set_resp0,
            colupf: self.colupf,
            colubk: self.colubk,
            colup0: self.colup0,
            colup1: self.colup1,
            pf_reflected: self.pf_reflected,
            pf0: self.pf0,
            pf1: self.pf1,
            pf2: self.pf2,
            color_clocks: self.color_clocks,
            joystick1_trigger_pressed: self.joystick1_trigger_pressed,
            nusize0: self.nusize0,
            resp0: self.resp0,
            grp0: self.grp0,
            buffer: self.buffer.0@,
        }
    }
}

/// The color clock of the frame at which pixel `p` (row by row) is drawn.
pub open spec fn clock_of_pixel(p: int) -> int {
    (p / 160 + 40) * 228 + p % 160 + 68
}

/// Whether color clock `i` of a frame falls on a visible pixel.
pub open spec fn is_visible(i: int) -> bool {
    &&& 68 <= i % 228 < 228
    &&& 40 <= i / 228 < 232
}

impl TiaView {
    /// The beam stays inside one frame, on a whole CPU cycle.
    pub open spec fn wf(self) -> bool {
        &&& self.color_clocks < COLOR_CLOCKS_PER_FRAME
        &&& self.color_clocks % 3 == 0
        &&& self.resp0 < 240
        &&& self.buffer.len() == BUFF_SIZE
    }

    /// Whether the playfield covers screen column `column` (0..160).
    ///
    /// The left half shows PF0 bits 4..7, PF1 bits 7..0 and PF2 bits 0..7, four columns per
    /// bit. The right half repeats it, or mirrors it when `pf_reflected` is set.
    pub open spec fn playfield_bit(self, column: int) -> bool {
        let j = column / 4;
        let k = if j < 20 {
            j
        } else if self.pf_reflected {
            39 - j
        } else {
            j - 20
        };
        if k < 4 {
            self.pf0 & (1u8 << (4 + k) as u8) != 0
        } else if k < 12 {
            self.pf1 & (1u8 << (11 - k) as u8) != 0
        } else {
            self.pf2 & (1u8 << (k - 12) as u8) != 0
        }
    }

    /// Whether player 0 covers screen column `column`: four copies wide, from RESP0 on.
    pub open spec fn player0_bit(self, column: int) -> bool {
        let start = self.resp0 - 68;
        &&& self.nusize0 == Nusize::Quad
        &&& self.resp0 >= 68
        &&& start <= column < start + 32
        &&& self.grp0 & (1u8 << (7 - (column - start) / 4) as u8) != 0
    }

    /// The color register value painted at screen column `column`.
    pub open spec fn pixel_color(self, column: int) -> u8 {
        if self.player0_bit(column) {
            self.colup0
        } else if self.playfield_bit(column) {
            self.colupf
        } else {
            self.colubk
        }
    }

    /// The frame buffer after the beam sweeps color clocks `from..=to` with these registers.
    pub open spec fn painted(self, from: int, to: int) -> Seq<u8> {
        Seq::new(
            self.buffer.len(),
            |k: int|
                if from <= clock_of_pixel(k / 4) <= to {
                    pixel_byte(self.pixel_color((k / 4) % 160), k % 4)
                } else {
                    self.buffer[k]
                },
        )
    }

    /// The chip after `cycles` CPU cycles: the beam sweeps from where it is to `3 * cycles`
    /// color clocks further, both ends included, painting each visible pixel it meets, and
    /// wraps at the end of the frame.
    pub open spec fn ticked(self, cycles: nat) -> TiaView {
        let to = self.color_clocks + 3 * cycles;
        TiaView {
            color_clocks: (to % COLOR_CLOCKS_PER_FRAME as int) as usize,
            buffer: self.painted(self.color_clocks as int, to),
            ..self
        }
    }

    /// CPU cycles from the beam to the end of its line, rounded down.
    pub open spec fn wsync_ticks(self) -> usize {
        ((228 - self.color_clocks % 228) / 3) as usize
    }

    /// The chip after a write of `value` to register `index` (0..64).
    pub open spec fn written(self, index: u16, value: u8) -> Result<TiaView, Fatal> {
        if index == 0x00 {
            Ok(TiaView { vsync: value & 0x02 != 0, ..self })
        } else if index == 0x01 {
            Ok(TiaView { vblank: value & 0x02 != 0, ..self })
        } else if index == 0x02 {
            Ok(TiaView { wsync: true, ..self })
        } else if index == 0x04 {
            if value == 0 {
                Ok(TiaView { nusize0: Nusize::OneCopy, ..self })
            } else if value == 7 {
                Ok(TiaView { nusize0: Nusize::Quad, ..self })
            } else {
                Err(Fatal::Unimplemented(index))
            }
        } else if index == 0x06 {
            Ok(TiaView { colup0: value, ..self })
        } else if index == 0x07 {
            Ok(TiaView { colup1: value, ..self })
        } else if index == 0x08 {
            Ok(TiaView { colupf: value, ..self })
        } else if index == 0x09 {
            Ok(TiaView { colubk: value, ..self })
        } else if index == 0x0A {
            Ok(TiaView { pf_reflected: value & 0x01 == 1, ..self })
        } else if index == 0x0D {
            Ok(TiaView { pf0: value & 0xF0, ..self })
        } else if index == 0x0E {
            Ok(TiaView { pf1: value, ..self })
        } else if index == 0x0F {
            Ok(TiaView { pf2: value, ..self })
        } else if index == 0x10 {
            Ok(TiaView { set_resp0: true, ..self })
        } else if index == 0x1B {
            Ok(TiaView { grp0: value, ..self })
        } else if index < 0x40 {
            Ok(self)
        } else {
            Err(Fatal::Unimplemented(index))
        }
    }

    /// What a read of register `index` returns: the trigger (low while pressed) or zero.
    pub open spec fn read(self, index: u16) -> Result<u8, Fatal> {
        if index & 0x000F == INPT4 {
            Ok(if self.joystick1_trigger_pressed { 0 } else { 0x80 })
        } else if index & 0x000F == 0x000E {
            Ok(0)
        } else {
            Err(Fatal::Unimplemented(index))
        }
    }

    /// The chip after `sync`: a pending RESP0 takes the beam's column plus six; a pending
    /// WSYNC is consumed, and with VSYNC set the beam goes to the top of the frame.
    pub open spec fn synced(self) -> TiaView {
        let t = if self.set_resp0 {
            TiaView { resp0: (self.color_clocks % 228 + 6) as usize, set_resp0: false, ..self }
        } else {
            self
        };
        if t.wsync {
            TiaView {
                color_clocks: if t.vsync { FRAME_TOP } else { t.color_clocks },
                wsync: false,
                ..t
            }
        } else {
            t
        }
    }

    /// The stall that `sync` reports: the rest of the beam's line, once VSYNC has moved it.
    pub open spec fn sync_clocks(self) -> usize {
        if self.wsync {
            self.synced().wsync_ticks()
        } else {
            0
        }
    }

    /// The chip after the host reports `event`.
    pub open spec fn with_event(self, event: WindowEvent) -> TiaView {
        match event {
            WindowEvent::InputStart(InputType::Joystick1Button) => TiaView {
                joystick1_trigger_pressed: true,
                ..self
            },
            WindowEvent::InputEnd(InputType::Joystick1Button) => TiaView {
                joystick1_trigger_pressed: false,
                ..self
            },
            _ => self,
        }
    }

    /// A chip at power-on: every register clear, the beam at the top, the frame white.
    pub open spec fn power_on(self) -> bool {
        &&& !self.vsync && !self.vblank && !self.wsync && !self.set_resp0
        &&& self.colupf == 0 && self.colubk == 0 && self.colup0 == 0 && self.colup1 == 0
        &&& !self.pf_reflected && self.pf0 == 0 && self.pf1 == 0 && self.pf2 == 0
        &&& self.color_clocks == 0
        &&& !self.joystick1_trigger_pressed
        &&& self.nusize0 == Nusize::OneCopy && self.resp0 == 0 && self.grp0 == 0
        &&& self.buffer == Seq::new(BUFF_SIZE as nat, |k: int| 0xFFu8)
    }
}

/// Bit `k` of `w`.
pub open spec fn bit_of(w: int, k: nat) -> bool {
    (w / pow2(k) as int) % 2 == 1
}

proof fn lemma_shift_in(w: int, b: int, k: nat)
    requires
        0 <= w,
        b == 0 || b == 1,
    ensures
        bit_of(2 * w + b, 0) == (b == 1),
        bit_of(2 * w + b, k + 1) == bit_of(w, k),
{
    vstd::arithmetic::power2::lemma2_to64();
    vstd::arithmetic::power2::lemma_pow2_unfold(k + 1);
    vstd::arithmetic::power2::lemma_pow2_pos(k);
    vstd::arithmetic::div_mod::lemma_fundamental_div_mod_converse(2 * w + b, 2, w, b);
    vstd::arithmetic::div_mod::lemma_div_denominator(2 * w + b, 2, pow2(k) as int);
}

proof fn lemma_pixel_clock(q: int)
    requires
        0 <= q < PIXELS,
    ensures
        clock_of_pixel(q) / 228 == q / 160 + 40,
        clock_of_pixel(q) % 228 == q % 160 + 68,
        q == (q / 160) * 160 + q % 160,
        is_visible(clock_of_pixel(q)),
{
    vstd::arithmetic::div_mod::lemma_fundamental_div_mod(q, 160);
    vstd::arithmetic::div_mod::lemma_fundamental_div_mod_converse(
        clock_of_pixel(q),
        228,
        q / 160 + 40,
        q % 160 + 68,
    );
}

proof fn lemma_clock_pixel(i: int, row: int, column: int)
    requires
        0 <= row < 192,
        0 <= column < 160,
        i == (row + 40) * 228 + column + 68,
    ensures
        clock_of_pixel(row * 160 + column) == i,
        (row * 160 + column) / 160 == row,
        (row * 160 + column) % 160 == column,
        0 <= row * 160 + column < PIXELS,
{
    vstd::arithmetic::div_mod::lemma_fundamental_div_mod_converse(row * 160 + column, 160, row, column);
    assert(row * 160 + column < PIXELS) by (nonlinear_arith)
        requires
            0 <= row < 192,
            0 <= column < 160,
    ;
}

proof fn lemma_byte_pixel(p: int, k: int)
    requires
        0 <= p,
        p * 4 <= k < p * 4 + 4,
    ensures
        k / 4 == p,
        k % 4 == k - p * 4,
{
    vstd::arithmetic::div_mod::lemma_fundamental_div_mod_converse(k, 4, p, k - p * 4);
}

impl Tia {
    /// A chip at power-on.
    pub fn new() -> (r: Tia)
        ensures
            r@.power_on(),
            r@.wf(),
    {
        let r = Tia {
            vsync: false,
            vblank: false,
            wsync: false,
            set_resp0: false,
            colupf: 0,
            colubk: 0,
            colup0: 0,
            colup1: 0,
            pf_reflected: false,
            pf0: 0,
            pf1: 0,
            pf2: 0,
            color_clocks: 0,
            joystick1_trigger_pressed: false,
            nusize0: Nusize::OneCopy,
            resp0: 0,
            grp0: 0,
            buffer: Buffer([0xFF; BUFF_SIZE]),
        };
        assert(r@.buffer =~= Seq::new(BUFF_SIZE as nat, |k: int| 0xFFu8));
        r
    }

    /// Writes `value` to register `index`.
    pub fn set(&mut self, index: u16, value: u8) -> (r: Result<(), Fatal>)
        ensures
            match old(self)@.written(index, value) {
                Ok(t) => r is Ok && final(self)@ == t,
                Err(e) => r == Err::<(), Fatal>(e) && final(self)@ == old(self)@,
            },
    {
        match index {
            0x00 => self.vsync = (value & 0x02) != 0,
            0x01 => self.vblank = (value & 0x02) != 0,
            0x02 => self.wsync = true,
            0x04 => return self.set_player1_nusize(value),
            0x06 => self.colup0 = value,
            0x07 => self.colup1 = value,
            0x08 => self.colupf = value,
            0x09 => self.colubk = value,
            0x0A => self.pf_reflected = (value & 0x01) == 1,
            0x0D => self.pf0 = value & 0xF0,
            0x0E => self.pf1 = value,
            0x0F => self.pf2 = value,
            0x10 => self.set_resp0 = true,
            0x1B => self.grp0 = value,
            // RSYNC, the registers of sound, missiles, ball and motion: not modelled
            0x03 | 0x05 | 0x0B..=0x0C | 0x11..=0x1A | 0x1C..=0x3F => {},
            _ => return Err(Fatal::Unimplemented(index)),
        }
        Ok(())
    }

    /// Reads register `index`.
    pub fn get(&self, index: u16) -> (r: Result<u8, Fatal>)
        ensures
            r == self@.read(index),
    {
        if (index & 0x000F) == INPT4 {
            return if !self.joystick1_trigger_pressed {
                Ok(0b1000_0000)
            } else {
                Ok(0)
            };
        }
        // not a register, but programs read it to spend cycles
        if (index & 0x000F) == 0x000E {
            return Ok(0);
        }
        Err(Fatal::Unimplemented(index))
    }

    /// The color register value at screen column `column`.
    fn pixel_color(&self, column: usize) -> (r: u8)
        requires
            column < 160,
            self@.resp0 < 240,
        ensures
            r == self@.pixel_color(column as int),
    {
        if let Nusize::Quad = self.nusize0 {
            if self.resp0 >= DRAWING_START_COLUMN {
                let sprite_start = self.resp0 - DRAWING_START_COLUMN;
                if column >= sprite_start && column - sprite_start < 32 {
                    let offset = column - sprite_start;
                    if self.grp0 & (1u8 << (7 - offset / 4) as u8) != 0 {
                        return self.colup0;
                    }
                }
            }
        }
        if self.playfield_bit(column) {
            self.colupf
        } else {
            self.colubk
        }
    }

    /// The playfield of a line as a 40-bit word, leftmost four columns in bit 39: PF0 bits
    /// 4..7 reversed, PF1, PF2 reversed, then the right half, repeated or mirrored.
    pub fn get_playfield(&self) -> (r: u64)
        ensures
            r < 0x100_0000_0000,
            forall|j: int|
                0 <= j < 40 ==> #[trigger] bit_of(r as int, (39 - j) as nat) == self@.playfield_bit(
                    4 * j,
                ),
    {
        let mut word: u64 = 0;
        let mut j: usize = 0;
        proof {
            vstd::arithmetic::power2::lemma2_to64();
            vstd::arithmetic::power2::lemma2_to64_rest();
        }
        while j < 40
            invariant
                j <= 40,
                word < pow2(j as nat),
                pow2(40) == 0x100_0000_0000,
                forall|i: int|
                    0 <= i < j ==> #[trigger] bit_of(word as int, (j - 1 - i) as nat)
                        == self@.playfield_bit(4 * i),
            decreases 40 - j,
        {
            let b: u64 = if self.playfield_bit(4 * j) {
                1
            } else {
                0
            };
            proof {
                vstd::arithmetic::power2::lemma_pow2_unfold((j + 1) as nat);
                if j + 1 < 40 {
                    vstd::arithmetic::power2::lemma_pow2_strictly_increases((j + 1) as nat, 40);
                }
            }
            let ghost prev = word;
            let ghost pj = j;
            word = word * 2 + b;
            j = j + 1;
            proof {
                assert forall|i: int| 0 <= i < j implies #[trigger] bit_of(
                    word as int,
                    (j - 1 - i) as nat,
                ) == self@.playfield_bit(4 * i) by {
                    if i == pj {
                        lemma_shift_in(prev as int, b as int, 0);
                    } else {
                        lemma_shift_in(prev as int, b as int, (pj - 1 - i) as nat);
                        assert(bit_of(prev as int, (pj - 1 - i) as nat) == self@.playfield_bit(
                            4 * i,
                        ));
                        assert((j - 1 - i) as nat == ((pj - 1 - i) as nat + 1) as nat);
                    }
                }
            }
        }
        proof {
            assert forall|i: int| 0 <= i < 40 implies #[trigger] bit_of(word as int, (39 - i) as nat)
                == self@.playfield_bit(4 * i) by {
                assert(j - 1 - i == 39 - i);
            }
        }
        word
    }

    /// Whether the playfield covers screen column `column`.
    pub fn playfield_bit(&self, column: usize) -> (r: bool)
        requires
            column < 160,
        ensures
            r == self@.playfield_bit(column as int),
    {
        let j = column / 4;
        let k = if j < 20 {
            j
        } else if self.pf_reflected {
            39 - j
        } else {
            j - 20
        };
        if k < 4 {
            self.pf0 & (1u8 << (4 + k) as u8) != 0
        } else if k < 12 {
            self.pf1 & (1u8 << (11 - k) as u8) != 0
        } else {
            self.pf2 & (1u8 << (k - 12) as u8) != 0
        }
    }

    /// Advances the beam by `cycles` CPU cycles, painting the pixels it passes.
    #[verifier::rlimit(40)]
    pub fn tick(&mut self, cycles: usize)
        requires
            old(self)@.wf(),
            3 * cycles + COLOR_CLOCKS_PER_FRAME <= usize::MAX,
        ensures
            final(self)@ == old(self)@.ticked(cycles as nat),
            final(self)@.wf(),
    {
        let start = self.color_clocks;
        let new_color_clocks = self.color_clocks + cycles * COLOR_CLOCKS_PER_SYSTEM_CLOCK;
        let ghost old_view = self@;
        let mut i = start;
        while i <= new_color_clocks
            invariant
                start == old_view.color_clocks,
                new_color_clocks == start + 3 * cycles,
                start <= i <= new_color_clocks + 1,
                new_color_clocks < usize::MAX,
                old_view.wf(),
                self@ == (TiaView { buffer: self@.buffer, ..old_view }),
                self@.buffer.len() == BUFF_SIZE,
                forall|k: int|
                    0 <= k < BUFF_SIZE ==> #[trigger] self@.buffer[k] == if start <= clock_of_pixel(
                        k / 4,
                    ) < i {
                        pixel_byte(old_view.pixel_color((k / 4) % 160), k % 4)
                    } else {
                        old_view.buffer[k]
                    },
            decreases new_color_clocks + 1 - i,
        {
            let column = i % COLOR_CLOCKS_PER_LINE;
            let line = i / COLOR_CLOCKS_PER_LINE;
            let ghost before = self@.buffer;
            if column >= DRAWING_START_COLUMN && line >= DRAWING_START_ROW && line - DRAWING_START_ROW
                < DRAWING_ROWS {
                let col = column - DRAWING_START_COLUMN;
                let row = line - DRAWING_START_ROW;
                proof {
                    vstd::arithmetic::div_mod::lemma_fundamental_div_mod(i as int, 228);
                    lemma_clock_pixel(i as int, row as int, col as int);
                }
                let pixel = row * DRAWING_COLUMNS + col;
                let pixel_start = pixel * STRIDE;
                let color = self.pixel_color(col);
                let bytes = pixel_bytes(color);
                self.buffer.0[pixel_start] = bytes[0];
                self.buffer.0[pixel_start + 1] = bytes[1];
                self.buffer.0[pixel_start + 2] = bytes[2];
                self.buffer.0[pixel_start + 3] = bytes[3];
                proof {
                    assert forall|k: int| 0 <= k < BUFF_SIZE implies #[trigger] self@.buffer[k]
                        == if start <= clock_of_pixel(k / 4) < i + 1 {
                        pixel_byte(old_view.pixel_color((k / 4) % 160), k % 4)
                    } else {
                        old_view.buffer[k]
                    } by {
                        if pixel_start <= k < pixel_start + 4 {
                            lemma_byte_pixel(pixel as int, k);
                        } else {
                            assert(self@.buffer[k] == before[k]);
                            let q = k / 4;
                            vstd::arithmetic::div_mod::lemma_fundamental_div_mod(k, 4);
                            lemma_pixel_clock(q);
                            if clock_of_pixel(q) == i {
                                assert(q == pixel);
                            }
                        }
                    }
                }
            } else {
                proof {
                    assert forall|k: int| 0 <= k < BUFF_SIZE implies #[trigger] self@.buffer[k]
                        == if start <= clock_of_pixel(k / 4) < i + 1 {
                        pixel_byte(old_view.pixel_color((k / 4) % 160), k % 4)
                    } else {
                        old_view.buffer[k]
                    } by {
                        let q = k / 4;
                        vstd::arithmetic::div_mod::lemma_fundamental_div_mod(k, 4);
                        lemma_pixel_clock(q);
                        if clock_of_pixel(q) == i {
                            assert(is_visible(i as int));
                        }
                    }
                }
            }
            i = i + 1;
        }
        self.color_clocks = new_color_clocks % COLOR_CLOCKS_PER_FRAME;
        proof {
            assert(self@.buffer =~= old_view.painted(start as int, new_color_clocks as int));
            assert(self@.color_clocks % 3 == 0) by {
                vstd::arithmetic::div_mod::lemma_fundamental_div_mod(new_color_clocks as int, 59736);
                vstd::arithmetic::div_mod::lemma_mod_mod(new_color_clocks as int, 3, 19912);
            }
        }
    }

    /// CPU cycles from the beam to the end of its line, rounded down.
    pub fn wsync_ticks(&self) -> (r: usize)
        requires
            self@.wf(),
        ensures
            r == self@.wsync_ticks(),
    {
        (COLOR_CLOCKS_PER_LINE - self.color_clocks % COLOR_CLOCKS_PER_LINE)
            / COLOR_CLOCKS_PER_SYSTEM_CLOCK
    }

    /// Whether the beam is on one of the drawn lines.
    pub fn is_drawing(&self) -> (r: bool)
        ensures
            r == (40 <= self.color_clocks / 228 < 232),
    {
        let line = self.scan_line();
        line >= DRAWING_START_ROW && line - DRAWING_START_ROW < DRAWING_ROWS
    }

    /// Applies what waits for the end of an instruction: a RESP0 latch, and a WSYNC stall,
    /// whose length in CPU cycles it returns.
    pub fn sync(&mut self) -> (r: WsyncClocks)
        requires
            old(self)@.wf(),
        ensures
            r.value == old(self)@.sync_clocks(),
            final(self)@ == old(self)@.synced(),
            final(self)@.wf(),
    {
        if self.set_resp0 {
            // the sprite lands six color clocks after the beam
            self.resp0 = self.beam_position() + 6;
            self.set_resp0 = false;
        }
        if self.wsync {
            if self.vsync {
                self.color_clocks = FRAME_TOP;
            }
            self.wsync = false;
            return WsyncClocks { value: self.wsync_ticks() };
        }
        WsyncClocks { value: 0 }
    }

    /// Latches the trigger of the first joystick.
    pub fn input_event(&mut self, event: &WindowEvent)
        ensures
            final(self)@ == old(self)@.with_event(*event),
    {
        match event {
            WindowEvent::InputStart(InputType::Joystick1Button) => {
                self.joystick1_trigger_pressed = true
            },
            WindowEvent::InputEnd(InputType::Joystick1Button) => {
                self.joystick1_trigger_pressed = false
            },
            _ => {},
        }
    }

    /// The screen column of color clock `color_clocks`, wrapping below the drawn area.
    pub fn column(color_clocks: usize) -> (r: usize)
        ensures
            r == (color_clocks % 228).wrapping_sub(68),
    {
        (color_clocks % COLOR_CLOCKS_PER_LINE).wrapping_sub(DRAWING_START_COLUMN)
    }

    /// The screen row of color clock `color_clocks`, wrapping above the drawn area.
    pub fn row(color_clocks: usize) -> (r: usize)
        ensures
            r == (color_clocks / 228).wrapping_sub(40),
    {
        (color_clocks / COLOR_CLOCKS_PER_LINE).wrapping_sub(DRAWING_START_ROW)
    }

    /// The scan line of the beam.
    pub fn scan_line(&self) -> (r: usize)
        ensures
            r == self.color_clocks / 228,
    {
        self.color_clocks / COLOR_CLOCKS_PER_LINE
    }

    /// The color clock of the beam within its line.
    pub fn beam_position(&self) -> (r: usize)
        ensures
            r == self.color_clocks % 228,
    {
        self.color_clocks % COLOR_CLOCKS_PER_LINE
    }

    /// NUSIZ0: one copy (0) or four wide copies (7); other layouts are not modelled.
    pub fn set_player1_nusize(&mut self, value: u8) -> (r: Result<(), Fatal>)
        ensures
            value == 0 ==> r is Ok && final(self)@ == (TiaView {
                nusize0: Nusize::OneCopy,
                ..old(self)@
            }),
            value == 7 ==> r is Ok && final(self)@ == (TiaView {
                nusize0: Nusize::Quad,
                ..old(self)@
            }),
            value != 0 && value != 7 ==> r == Err::<(), Fatal>(Fatal::Unimplemented(0x04))
                && final(self)@ == old(self)@,
    {
        self.nusize0 = match value {
            0x00 => Nusize::OneCopy,
            0x07 => Nusize::Quad,
            _ => return Err(Fatal::Unimplemented(0x04)),
        };
        Ok(())
    }
}

impl Default for Tia {
    fn default() -> (r: Tia)
        ensures
            r@.power_on(),
            r@.wf(),
    {
        Tia::new()
    }
}

/// Without reflection the right half of a line repeats the left half of the playfield; with
/// it, the right half mirrors the left.
pub proof fn lemma_playfield_halves(t: TiaView, column: int)
    requires
        0 <= column < 80,
    ensures
        !t.pf_reflected ==> t.playfield_bit(column) == t.playfield_bit(column + 80),
        t.pf_reflected ==> t.playfield_bit(column) == t.playfield_bit(159 - column),
{
    vstd::arithmetic::div_mod::lemma_fundamental_div_mod(column, 4);
    vstd::arithmetic::div_mod::lemma_fundamental_div_mod_converse(
        column + 80,
        4,
        column / 4 + 20,
        column % 4,
    );
    vstd::arithmetic::div_mod::lemma_fundamental_div_mod_converse(
        159 - column,
        4,
        39 - column / 4,
        3 - column % 4,
    );
}

/// A WSYNC stall, run out, leaves the beam at the start of a line; with VSYNC set, at the
/// start of the line after the frame's top.
pub proof fn lemma_wsync_ends_line(t: TiaView)
    requires
        t.wf(),
        t.wsync,
    ensures
        t.synced().ticked(t.sync_clocks() as nat).color_clocks % 228 == 0,
        t.vsync ==> t.synced().ticked(t.sync_clocks() as nat).color_clocks == FRAME_TOP + 228,
{
    let cc = t.synced().color_clocks as int;
    let q = cc / 228;
    let r = cc % 228;
    vstd::arithmetic::div_mod::lemma_fundamental_div_mod(cc, 228);
    vstd::arithmetic::div_mod::lemma_mod_mod(cc, 3, 76);
    assert(r % 3 == 0);
    let w = (228 - r) / 3;
    vstd::arithmetic::div_mod::lemma_fundamental_div_mod(228 - r, 3);
    assert(3 * w == 228 - r);
    let to = cc + 3 * w;
    assert(to == 228 * (q + 1));
    assert(q < 262) by {
        vstd::arithmetic::div_mod::lemma_div_by_multiple_is_strongly_ordered(cc, 59736, 262, 228);
        assert(59736 == 262 * 228);
        vstd::arithmetic::div_mod::lemma_div_is_ordered(cc, 59736, 228);
    }
    if q + 1 < 262 {
        assert(to < 59736) by (nonlinear_arith)
            requires
                to == 228 * (q + 1),
                q + 1 < 262,
        ;
        vstd::arithmetic::div_mod::lemma_small_mod(to as nat, 59736);
        vstd::arithmetic::div_mod::lemma_mod_multiples_basic(q + 1, 228);
    } else {
        assert(to == 59736);
    }
}

} // verus!
