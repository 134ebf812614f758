//! Hardware capabilities the control core depends on, as traits, together
//! with deterministic fake implementations for driving the logic without the
//! device.
//!
//! The traits model exactly what the drivers consume: a register-addressed
//! bus transactor, a digital output, a digital input, and a free-running
//! counter with a fixed tick period. The register-file model of the bus
//! assumes the device's registers change only through this interface.

use vstd::prelude::*;

verus! {

/// A failed bus transaction; the drivers treat every failure alike.
#[derive(PartialEq, Eq, Structural, Clone, Copy, Debug)]
pub struct BusFault;

/// A register-addressed two-wire transactor for one device.
///
/// `regs` is the register file of the addressed device as this interface has
/// established it; `writes_attempted` counts write transactions put on the
/// bus, failed ones included.
pub trait RegisterBus: Sized {
    spec fn regs(&self) -> Map<u8, u8>;

    spec fn writes_attempted(&self) -> nat;

    /// One write transaction: the payload names a register and the byte to
    /// store there. On failure the register file is unchanged.
    fn write(&mut self, addr: u8, register: u8, data: u8) -> (r: Result<(), BusFault>)
        ensures
            final(self).writes_attempted() == old(self).writes_attempted() + 1,
            r matches Ok(()) ==> final(self).regs() == old(self).regs().insert(register, data),
            r matches Err(_) ==> final(self).regs() == old(self).regs(),
    ;

    /// One write-then-read transaction: request a register, read one byte
    /// back. Reading never alters the register file.
    fn write_read(&mut self, addr: u8, register: u8) -> (r: Result<u8, BusFault>)
        ensures
            final(self).regs() == old(self).regs(),
            final(self).writes_attempted() == old(self).writes_attempted(),
            r matches Ok(b) ==> b == old(self).regs()[register],
    ;
}

/// A digital output line.
pub trait OutputPin: Sized {
    fn set_high(&mut self);

    fn set_low(&mut self);
}

/// A digital input line. What it reads is the environment's to decide, so
/// nothing is promised of the result.
pub trait InputPin: Sized {
    fn is_high(&mut self) -> bool;

    fn is_low(&mut self) -> bool;
}

/// A resettable free-running counter with a fixed tick period. What a read
/// returns depends on elapsed time, so nothing is promised of the result.
pub trait TickCounter: Sized {
    fn reset(&mut self);

    fn read_ticks(&mut self) -> u16;
}

/// Deterministic bus fake: a 64-byte register file with failure injection.
/// `writes` counts write transactions at run time (saturating); the ghost
/// count backs the trait's bookkeeping without a bound.
pub struct FakeBus {
    pub mem: Vec<u8>,
    pub fail_reads: bool,
    pub fail_writes: bool,
    pub writes: u64,
    pub writes_ghost: Ghost<nat>,
}

impl FakeBus {
    pub open spec fn wf(&self) -> bool {
        self.mem@.len() == 64
    }

    /// A register file of zeroes, no failure injection.
    pub fn new() -> (r: Self)
        ensures
            r.wf(),
            r.writes == 0,
            r.writes_attempted() == 0,
            !r.fail_reads,
            !r.fail_writes,
            forall|reg: u8| #[trigger] r.regs()[reg] == 0u8,
    {
        let mut mem: Vec<u8> = Vec::new();
        let mut i: usize = 0;
        while i < 64
            invariant
                mem@.len() == i,
                i <= 64,
                forall|j: int| 0 <= j < i ==> mem@[j] == 0u8,
            decreases 64 - i,
        {
            mem.push(0);
            i = i + 1;
        }
        FakeBus { mem, fail_reads: false, fail_writes: false, writes: 0, writes_ghost: Ghost(0) }
    }

    /// Store a canned byte in the fake's register file.
    pub fn set_reg(&mut self, register: u8, data: u8)
        requires
            old(self).wf(),
            register < 64,
        ensures
            final(self).wf(),
            final(self).regs() == old(self).regs().insert(register, data),
            final(self).writes_attempted() == old(self).writes_attempted(),
            final(self).writes == old(self).writes,
            final(self).fail_reads == old(self).fail_reads,
            final(self).fail_writes == old(self).fail_writes,
    {
        self.mem.set(register as usize, data);
        proof {
            assert(self.regs() =~= old(self).regs().insert(register, data));
        }
    }

    /// Read back a byte of the fake's register file.
    pub fn get_reg(&self, register: u8) -> (r: u8)
        requires
            self.wf(),
            register < 64,
        ensures
            r == self.regs()[register],
    {
        self.mem[register as usize]
    }

    /// How many write transactions were attempted, for assertions in tests.
    pub fn writes(&self) -> (r: u64)
        ensures
            r == self.writes,
    {
        self.writes
    }
}

impl RegisterBus for FakeBus {
    open spec fn regs(&self) -> Map<u8, u8> {
        Map::new(
            |reg: u8| true,
            |reg: u8|
                if reg < 64 && self.mem@.len() == 64 {
                    self.mem@[reg as int]
                } else {
                    0u8
                },
        )
    }

    open spec fn writes_attempted(&self) -> nat {
        self.writes_ghost@
    }

    fn write(&mut self, addr: u8, register: u8, data: u8) -> (r: Result<(), BusFault>) {
        self.writes_ghost = Ghost(self.writes_ghost@ + 1);
        if self.writes < u64::MAX {
            self.writes = self.writes + 1;
        }
        if self.fail_writes || register >= 64 || self.mem.len() != 64 {
            Err(BusFault)
        } else {
            self.mem.set(register as usize, data);
            proof {
                assert(self.regs() =~= old(self).regs().insert(register, data));
            }
            Ok(())
        }
    }

    fn write_read(&mut self, addr: u8, register: u8) -> (r: Result<u8, BusFault>) {
        if self.fail_reads || register >= 64 || self.mem.len() != 64 {
            Err(BusFault)
        } else {
            Ok(self.mem[register as usize])
        }
    }
}

/// Deterministic output-pin fake: records the driven level.
pub struct FakeOutputPin {
    pub high: bool,
}

impl FakeOutputPin {
    pub fn new() -> (r: Self)
        ensures
            !r.high,
    {
        FakeOutputPin { high: false }
    }

    pub fn is_high(&self) -> (r: bool)
        ensures
            r == self.high,
    {
        self.high
    }
}

impl OutputPin for FakeOutputPin {
    fn set_high(&mut self) {
        self.high = true;
    }

    fn set_low(&mut self) {
        self.high = false;
    }
}

/// Deterministic input-pin fake: each poll consumes the next scripted level;
/// past the script's end the line reads low.
pub struct ScriptedInputPin {
    pub levels: Vec<bool>,
    pub pos: usize,
}

impl ScriptedInputPin {
    pub fn new(levels: Vec<bool>) -> (r: Self)
        ensures
            r.levels == levels,
            r.pos == 0,
    {
        ScriptedInputPin { levels, pos: 0 }
    }

    fn next_level(&mut self) -> bool {
        if self.pos < self.levels.len() {
            let v = self.levels[self.pos];
            self.pos = self.pos + 1;
            v
        } else {
            false
        }
    }
}

impl InputPin for ScriptedInputPin {
    fn is_high(&mut self) -> bool {
        self.next_level()
    }

    fn is_low(&mut self) -> bool {
        !self.next_level()
    }
}

/// Deterministic counter fake: each read returns the next scripted tick
/// count; past the script's end the counter reads saturated, so a settling
/// wait always completes.
pub struct ScriptedCounter {
    pub values: Vec<u16>,
    pub pos: usize,
}

impl ScriptedCounter {
    pub fn new(values: Vec<u16>) -> (r: Self)
        ensures
            r.values == values,
            r.pos == 0,
    {
        ScriptedCounter { values, pos: 0 }
    }
}

impl TickCounter for ScriptedCounter {
    fn reset(&mut self) {
    }

    fn read_ticks(&mut self) -> u16 {
        if self.pos < self.values.len() {
            let v = self.values[self.pos];
            self.pos = self.pos + 1;
            v
        } else {
            u16::MAX
        }
    }
}

} // verus!
