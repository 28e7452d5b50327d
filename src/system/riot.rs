use vstd::prelude::*;

use crate::renderer::{InputType, WindowEvent};
use crate::Fatal;

verus! {

/// Register index (after the bus folds the mirrors) that starts the timer at one cycle per tick.
pub const TIM1T: u16 = 0x14;
/// Register index that starts the timer at eight cycles per tick.
pub const TIM8T: u16 = 0x15;
/// Register index that starts the timer at 64 cycles per tick.
pub const TIM64T: u16 = 0x16;
/// Register index that starts the timer at 1024 cycles per tick.
pub const T1024T: u16 = 0x17;

/// The RIOT chip: the interval timer and the joystick direction latch.
#[derive(Debug)]
pub struct Riot {
    /// The value that INTIM reads.
    pub timer: u8,
    /// CPU cycles counted towards the next decrement.
    pub clocks: usize,
    /// CPU cycles per decrement; 0 while no timer was ever started.
    pub clocks_per_interval: usize,
    /// Set when the timer passes below zero; cleared by a write or a read of INTIM.
    pub timint: bool,
    /// Set by a timer write; while set, `tick` leaves the timer alone.
    pub timer_reset: bool,
    /// The joystick direction lines, active low.
    pub swcha: u8,
}

/// The cycles per decrement that a timer register selects.
pub open spec fn interval_of(index: u16) -> usize {
    if index == TIM1T {
        1
    } else if index == TIM8T {
        8
    } else if index == TIM64T {
        64
    } else {
        1024
    }
}

/// Whether `index` is one of the four timer registers.
pub open spec fn is_timer_register(index: u16) -> bool {
    TIM1T <= index <= T1024T
}

/// Whether a read at bus address `index` reads INTIM.
pub open spec fn reads_intim(index: u16) -> bool {
    index & 0x0284 == 0x0284
}

/// Whether a read at bus address `index` reads SWCHA.
pub open spec fn reads_swcha(index: u16) -> bool {
    index & 0x0287 == 0x0280
}

/// The SWCHA bit of a joystick direction; `None` for the trigger.
pub open spec fn direction_bit(input: InputType) -> Option<u8> {
    match input {
        InputType::Joystick1Up => Some(4),
        InputType::Joystick1Down => Some(5),
        InputType::Joystick1Left => Some(6),
        InputType::Joystick1Right => Some(7),
        InputType::Joystick1Button => None,
    }
}

impl Riot {
    /// The fields hold values that the chip can reach.
    pub open spec fn wf(&self) -> bool {
        &&& (self.clocks_per_interval == 0 || self.clocks_per_interval == 1
            || self.clocks_per_interval == 8 || self.clocks_per_interval == 64
            || self.clocks_per_interval == 1024)
        &&& self.clocks < 1024
    }

    /// The chip at power-on: no timer running and every joystick line high.
    pub open spec fn power_on() -> Riot {
        Riot {
            timer: 0,
            clocks: 0,
            clocks_per_interval: 0,
            timint: false,
            timer_reset: false,
            swcha: 0xFF,
        }
    }

    /// The chip after a write of `value` to timer register `index`.
    pub open spec fn written(self, index: u16, value: u8) -> Riot {
        Riot {
            timer: value,
            clocks: (interval_of(index) - 1) as usize,
            clocks_per_interval: interval_of(index),
            timint: false,
            timer_reset: true,
            ..self
        }
    }

    /// A read of bus address `index`: the chip after it and the byte read.
    pub open spec fn read(self, index: u16) -> Result<(Riot, u8), Fatal> {
        if reads_intim(index) {
            Ok((Riot { timint: false, ..self }, self.timer))
        } else if reads_swcha(index) {
            Ok((self, self.swcha))
        } else {
            Err(Fatal::Unimplemented(index))
        }
    }

    /// The chip after the host reports `event`.
    pub open spec fn with_event(self, event: WindowEvent) -> Riot {
        match event {
            WindowEvent::InputStart(input) => match direction_bit(input) {
                Some(bit) => Riot { swcha: self.swcha & !(1u8 << bit), ..self },
                None => self,
            },
            WindowEvent::InputEnd(input) => match direction_bit(input) {
                Some(bit) => Riot { swcha: self.swcha | (1u8 << bit), ..self },
                None => self,
            },
            _ => self,
        }
    }

    /// The chip after `cycles` CPU cycles.
    ///
    /// The timer drops by one each `clocks_per_interval` cycles (the count of decrements is
    /// taken modulo 256). When it passes below zero, TIMINT is raised, the interval falls to
    /// one cycle, and the timer reads 0xFF less the cycles spent since it passed zero.
    pub open spec fn ticked(self, cycles: nat) -> Riot {
        if self.clocks_per_interval == 0 || self.timer_reset {
            self
        } else {
            let p = self.clocks_per_interval as int;
            let total = self.clocks + cycles;
            let ticks = (total / p) % 256;
            if ticks <= self.timer {
                Riot { timer: (self.timer - ticks) as u8, clocks: (total % p) as usize, ..self }
            } else {
                let past_zero = (ticks - self.timer - 1) * p + total % p;
                Riot {
                    timer: ((255 - past_zero) % 256) as u8,
                    clocks_per_interval: 1,
                    timint: true,
                    ..self
                }
            }
        }
    }

    /// A chip that was never written.
    pub fn new() -> (r: Riot)
        ensures
            r == Riot::power_on(),
    {
        Riot {
            timer: 0,
            clocks: 0,
            clocks_per_interval: 0,
            timint: false,
            timer_reset: false,
            swcha: 0xFF,
        }
    }

    /// Writes `value` to register `index`; only the four timer registers are modelled.
    pub fn set(&mut self, index: u16, value: u8) -> (r: Result<(), Fatal>)
        ensures
            is_timer_register(index) ==> r is Ok && *final(self) == old(self).written(index, value),
            !is_timer_register(index) ==> r == Err::<(), Fatal>(Fatal::Unimplemented(index))
                && *final(self) == *old(self),
    {
        let interval: usize = if index == TIM1T {
            1
        } else if index == TIM8T {
            8
        } else if index == TIM64T {
            64
        } else if index == T1024T {
            1024
        } else {
            return Err(Fatal::Unimplemented(index));
        };
        self.timint = false;
        self.timer_reset = true;
        self.timer = value;
        // the first decrement comes on the next cycle
        self.clocks = interval - 1;
        self.clocks_per_interval = interval;
        Ok(())
    }

    /// Reads bus address `index`: INTIM (which clears TIMINT) or SWCHA.
    pub fn get(&mut self, index: u16) -> (r: Result<u8, Fatal>)
        ensures
            match old(self).read(index) {
                Ok((riot, v)) => r == Ok::<u8, Fatal>(v) && *final(self) == riot,
                Err(e) => r == Err::<u8, Fatal>(e) && *final(self) == *old(self),
            },
    {
        if index & 0x0284 == 0x0284 {
            self.timint = false;
            return Ok(self.timer);
        }
        if index & 0x0287 == 0x0280 {
            return Ok(self.swcha);
        }
        Err(Fatal::Unimplemented(index))
    }

    /// Advances the timer by `cycles` CPU cycles.
    #[verifier::rlimit(30)]
    pub fn tick(&mut self, cycles: usize)
        requires
            old(self).wf(),
            cycles <= usize::MAX - 1024,
        ensures
            final(self).wf(),
            *final(self) == old(self).ticked(cycles as nat),
    {
        if self.clocks_per_interval == 0 || self.timer_reset {
            return;
        }
        let p = self.clocks_per_interval;
        let total = self.clocks + cycles;
        // the count of decrements is kept modulo 256
        let ticks = ((total / p) % 256) as u8;
        if ticks <= self.timer {
            self.timer = self.timer - ticks;
            self.clocks = total % p;
        } else {
            let value = self.timer.wrapping_sub(ticks);
            let over = 0xFFu8 - value;
            let whole = 0xFFu8 - (((over as usize) * p) % 256) as u8;
            let part = ((total % p) % 256) as u8;
            proof {
                assert(over == ticks - self.timer - 1);
                lemma_wrapped_countdown(over as int, p as int, (total % p) as int);
            }
            self.timer = whole.wrapping_sub(part);
            self.clocks_per_interval = 1;
            self.timint = true;
        }
    }

    /// Latches a joystick direction into SWCHA: a press pulls its line low, a release lets it
    /// go high.
    pub fn input_event(&mut self, event: &WindowEvent)
        ensures
            *final(self) == old(self).with_event(*event),
    {
        match *event {
            WindowEvent::InputStart(input) => {
                let bit = direction_line(input);
                if let Some(b) = bit {
                    self.swcha = self.swcha & !(1u8 << b);
                }
            },
            WindowEvent::InputEnd(input) => {
                let bit = direction_line(input);
                if let Some(b) = bit {
                    self.swcha = self.swcha | (1u8 << b);
                }
            },
            _ => {},
        }
    }
}

impl Default for Riot {
    fn default() -> (r: Riot)
        ensures
            r == Riot::power_on(),
    {
        Riot::new()
    }
}

fn direction_line(input: InputType) -> (r: Option<u8>)
    ensures
        r == direction_bit(input),
{
    match input {
        InputType::Joystick1Up => Some(4),
        InputType::Joystick1Down => Some(5),
        InputType::Joystick1Left => Some(6),
        InputType::Joystick1Right => Some(7),
        InputType::Joystick1Button => None,
    }
}

proof fn lemma_wrapped_countdown(over: int, p: int, part: int)
    requires
        0 <= over < 256,
        1 <= p <= 1024,
        0 <= part < p,
    ensures
        ((255 - ((over * p) % 256)) - part % 256) % 256 == (255 - (over * p + part)) % 256,
{
    assert(0 <= over * p) by (nonlinear_arith)
        requires
            0 <= over,
            1 <= p,
    ;
    vstd::arithmetic::div_mod::lemma_fundamental_div_mod(over * p, 256);
    vstd::arithmetic::div_mod::lemma_fundamental_div_mod(part, 256);
    vstd::arithmetic::div_mod::lemma_mod_multiples_vanish(
        (over * p) / 256 + part / 256,
        255 - (over * p) % 256 - part % 256,
        256,
    );
}

/// A timer write is read back unchanged by INTIM until the system loop clears the write's
/// latch, however many cycles are ticked meanwhile.
pub proof fn lemma_write_then_read(riot: Riot, index: u16, value: u8, cycles: nat)
    requires
        is_timer_register(index),
    ensures
        riot.written(index, value).read(0x0284) matches Ok((_, v)) && v == value,
        riot.written(index, value).ticked(cycles).read(0x0284) matches Ok((_, v)) && v == value,
{
    lemma_intim_address();
}

/// After a write of `n` to a timer register (its latch cleared by the system loop), INTIM
/// reads 0 once `n` intervals have passed; one cycle later it reads 0xFF and TIMINT is set.
pub proof fn lemma_countdown(riot: Riot, index: u16, n: u8)
    requires
        is_timer_register(index),
    ensures
        ({
            let started = Riot { timer_reset: false, ..riot.written(index, n) };
            let p = interval_of(index) as nat;
            let at_zero = started.ticked(n as nat * p);
            let past = at_zero.ticked(1);
            &&& at_zero.read(0x0284) matches Ok((_, v)) && v == 0
            &&& past.read(0x0284) matches Ok((_, v)) && v == 0xFF
            &&& past.timint
        }),
{
    lemma_intim_address();
    let started = Riot { timer_reset: false, ..riot.written(index, n) };
    let p = interval_of(index) as int;
    assert(1 <= p <= 1024);
    let total = (p - 1) + n * p;
    vstd::arithmetic::div_mod::lemma_fundamental_div_mod_converse(total, p, n as int, p - 1);
    assert(total / p % 256 == n);
    let at_zero = started.ticked(n as nat * p as nat);
    assert(at_zero.timer == 0);
    assert(at_zero.clocks == p - 1);
    assert(at_zero.clocks_per_interval == p);
    vstd::arithmetic::div_mod::lemma_mod_self_0(p);
    vstd::arithmetic::div_mod::lemma_div_basics(p);
    assert((p - 1 + 1) / p == 1);
    let past = at_zero.ticked(1);
    assert(at_zero.clocks + 1 == p);
    assert(past.timint);
    assert(p / p % 256 == 1);
    assert((1 - 0 - 1) * p + p % p == 0) by (nonlinear_arith)
        requires
            p % p == 0,
    ;
    assert(past.timer == 0xFF);
    assert(past.read(0x0284) matches Ok((_, v)) && v == 0xFF);
    assert(at_zero.read(0x0284) matches Ok((_, v)) && v == 0);
}

proof fn lemma_intim_address()
    ensures
        reads_intim(0x0284),
{
    assert(0x0284u16 & 0x0284 == 0x0284) by (bit_vector);
}

/// Reading INTIM clears TIMINT, and a tick sets it again only when the timer passes below
/// zero.
pub proof fn lemma_timint_cleared(riot: Riot, cycles: nat)
    ensures
        riot.read(0x0284) matches Ok((after, _)) && !after.timint,
        ({
            let p = riot.clocks_per_interval as int;
            let ticks = (riot.clocks + cycles) / p % 256;
            riot.ticked(cycles).timint ==> riot.timint || (p != 0 && !riot.timer_reset && ticks
                > riot.timer)
        }),
{
    lemma_intim_address();
}

} // verus!
