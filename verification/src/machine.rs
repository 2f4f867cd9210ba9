//! The machine model: every hardware side effect of the early-boot core is an
//! `Event` recorded on an explicit `Machine` value, the singleton capability
//! that orchestration obtains once at power-on and threads through every
//! component.
//!
//! Port reads are answered from a finite script of device responses; once the
//! script is exhausted a read reports an idle line status (transmitter empty),
//! the model's stand-in for hardware that eventually becomes ready.  This
//! keeps every busy-wait terminating while still exercising arbitrary finite
//! runs of "not ready" states.

use vstd::prelude::*;

verus! {

/// Line-status value with only the transmit-holding-register-empty bit set;
/// what a quiescent device reports, and what port reads return once the
/// response script is exhausted.
pub const IDLE_STATUS: u8 = 0x20;

/// One hardware side effect, in the order it was performed.
#[derive(Clone, Copy, PartialEq, Eq, Structural, Debug)]
pub enum Event {
    /// A byte was read from an I/O port and the device answered `value`.
    PortRead { port: u16, value: u8 },
    /// A byte was written to an I/O port.
    PortWrite { port: u16, value: u8 },
    /// The primary machine control register was written.
    Cr0Write { value: u64 },
    /// The auxiliary machine control register was written.
    Cr4Write { value: u64 },
    /// External interrupts were masked at the processor.
    MaskInterrupts,
    /// One iteration of the terminal low-power wait.
    LowPowerWait,
}

/// The machine state visible to the early-boot core: the event log, the
/// scripted port-read responses, the two control registers, the interrupt
/// mask, and whether the terminal halt state has been entered.
pub struct Machine {
    /// Every hardware side effect performed so far, in order.
    pub events: Vec<Event>,
    /// Values that successive port reads will return, in order.
    pub read_script: Vec<u8>,
    /// How many scripted responses have been consumed.
    pub cursor: usize,
    /// Whether external interrupts are unmasked at the processor.
    pub interrupts_enabled: bool,
    /// Whether the terminal halt state has been entered.
    pub halted: bool,
    /// The primary machine control register.
    pub cr0: u64,
    /// The auxiliary machine control register.
    pub cr4: u64,
}

/// The value the next port read returns: the next scripted response, or the
/// idle line status once the script is exhausted.
pub open spec fn next_read_value(m: Machine) -> u8 {
    if m.cursor < m.read_script@.len() {
        m.read_script@[m.cursor as int]
    } else {
        IDLE_STATUS
    }
}

/// Holds when `b` differs from `a` at most in the event log and the
/// read-script cursor: no register, mask, halt or script change.
pub open spec fn same_but_io(a: Machine, b: Machine) -> bool {
    &&& b.read_script@ == a.read_script@
    &&& b.interrupts_enabled == a.interrupts_enabled
    &&& b.halted == a.halted
    &&& b.cr0 == a.cr0
    &&& b.cr4 == a.cr4
}

/// The events `b` appended to `a`'s log.
pub open spec fn appended(a: Machine, b: Machine) -> Seq<Event> {
    b.events@.skip(a.events@.len() as int)
}

impl Machine {
    /// A machine at power-on, before any recorded side effect, with the given
    /// script of port-read responses.
    pub fn power_on(read_script: Vec<u8>, cr0: u64, cr4: u64) -> (m: Machine)
        ensures
            m.events@ == Seq::<Event>::empty(),
            m.read_script == read_script,
            m.cursor == 0,
            m.interrupts_enabled == true,
            m.halted == false,
            m.cr0 == cr0,
            m.cr4 == cr4,
    {
        Machine {
            events: Vec::new(),
            read_script,
            cursor: 0,
            interrupts_enabled: true,
            halted: false,
            cr0,
            cr4,
        }
    }

    /// Writes one byte to one I/O port: an unconditional side effect,
    /// recorded and never elided.
    pub fn write_port(&mut self, port: u16, value: u8)
        ensures
            final(self).events@ == old(self).events@.push(Event::PortWrite { port, value }),
            final(self).cursor == old(self).cursor,
            same_but_io(*old(self), *final(self)),
    {
        self.events.push(Event::PortWrite { port, value });
    }

    /// Reads one byte from one I/O port: returns the device's next scripted
    /// response (the idle line status once the script is exhausted) and
    /// records the observation.
    pub fn read_port(&mut self, port: u16) -> (value: u8)
        ensures
            value == next_read_value(*old(self)),
            final(self).events@ == old(self).events@.push(Event::PortRead { port, value }),
            final(self).cursor == if old(self).cursor < old(self).read_script@.len() {
                old(self).cursor + 1
            } else {
                old(self).cursor as int
            },
            same_but_io(*old(self), *final(self)),
    {
        let value: u8 = if self.cursor < self.read_script.len() {
            let v: u8 = self.read_script[self.cursor];
            self.cursor = self.cursor + 1;
            v
        } else {
            IDLE_STATUS
        };
        self.events.push(Event::PortRead { port, value });
        value
    }

    /// Masks external interrupts at the processor.
    pub fn mask_interrupts(&mut self)
        ensures
            final(self).events@ == old(self).events@.push(Event::MaskInterrupts),
            final(self).cursor == old(self).cursor,
            final(self).read_script@ == old(self).read_script@,
            final(self).interrupts_enabled == false,
            final(self).halted == old(self).halted,
            final(self).cr0 == old(self).cr0,
            final(self).cr4 == old(self).cr4,
    {
        self.interrupts_enabled = false;
        self.events.push(Event::MaskInterrupts);
    }

    /// Enters the terminal halt state and performs the first low-power wait.
    /// The machine never leaves this state; every further step is
    /// `wait_step`, which changes nothing beyond recording the wait.
    pub fn halt(&mut self)
        ensures
            final(self).events@ == old(self).events@.push(Event::LowPowerWait),
            final(self).cursor == old(self).cursor,
            final(self).read_script@ == old(self).read_script@,
            final(self).interrupts_enabled == old(self).interrupts_enabled,
            final(self).halted == true,
            final(self).cr0 == old(self).cr0,
            final(self).cr4 == old(self).cr4,
    {
        self.halted = true;
        self.events.push(Event::LowPowerWait);
    }

    /// One step of the terminal halt state: a low-power wait that changes no
    /// machine state beyond recording the wait itself.
    pub fn wait_step(&mut self)
        requires
            old(self).halted,
        ensures
            final(self).events@ == old(self).events@.push(Event::LowPowerWait),
            final(self).cursor == old(self).cursor,
            same_but_io(*old(self), *final(self)),
    {
        self.events.push(Event::LowPowerWait);
    }

    /// Runs `steps` iterations of the terminal halt state: the log grows by
    /// exactly `steps` low-power waits and nothing else changes, so a halted
    /// machine never resumes or mutates state however far it is run.
    pub fn run_halted(&mut self, steps: usize)
        requires
            old(self).halted,
        ensures
            final(self).events@ == old(self).events@
                + Seq::new(steps as nat, |i: int| Event::LowPowerWait),
            final(self).cursor == old(self).cursor,
            same_but_io(*old(self), *final(self)),
    {
        let ghost m0: Machine = *self;
        proof {
            assert(self.events@ =~= m0.events@
                + Seq::new(0 as nat, |j: int| Event::LowPowerWait));
        }
        let mut i: usize = 0;
        while i < steps
            invariant
                i <= steps,
                self.halted,
                self.events@ == m0.events@ + Seq::new(i as nat, |j: int| Event::LowPowerWait),
                self.cursor == m0.cursor,
                same_but_io(m0, *self),
            decreases steps - i,
        {
            self.wait_step();
            i = i + 1;
            proof {
                assert(self.events@ =~= m0.events@
                    + Seq::new(i as nat, |j: int| Event::LowPowerWait));
            }
        }
    }
}

} // verus!
