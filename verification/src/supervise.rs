//! Supervision of the running core: the slot that the main flow and the
//! interrupt handler share, and what each terminating event leads to.

use vstd::prelude::*;
use crate::cpu::{kill_write, Cpu, RegWrite};

verus! {

/// The slot that owns the core's handle while the core runs. Whoever takes
/// the handle out halts the core.
#[derive(Debug, PartialEq, Eq)]
pub struct CoreSlot {
    pub handle: Option<Cpu>,
}

/// How the loader waits once the core runs.
#[derive(Clone, Copy, Debug, PartialEq, Eq)]
pub enum WaitMode {
    /// No companion command: sleep until interrupted.
    Idle,
    /// Run the companion command and wait for it to exit.
    Companion,
}

/// What ends the wait.
#[derive(Clone, Copy, Debug, PartialEq, Eq)]
pub enum Event {
    /// The interrupt signal arrived.
    Interrupt,
    /// The companion process exited with this code.
    CompanionExited { code: i32 },
}

/// What to do on an event: the store that halts the core, if this event is
/// the one that got the handle, and the code to exit the process with.
#[derive(Clone, Copy, Debug, PartialEq, Eq)]
pub struct Teardown {
    pub kill: Option<RegWrite>,
    pub exit_code: i32,
}

/// The code that the process exits with on an event.
pub open spec fn exit_code_of(event: Event) -> i32 {
    match event {
        Event::Interrupt => 0,
        Event::CompanionExited { code } => code,
    }
}

/// Number of halting stores that `attempts` releases of a slot, one after
/// another, lead to.
pub open spec fn kills_issued(slot: CoreSlot, attempts: nat) -> nat
    decreases attempts,
{
    if attempts == 0 {
        0
    } else {
        let first: nat = if slot.kill_on_release() is Some {
            1
        } else {
            0
        };
        first + kills_issued(slot.released(), (attempts - 1) as nat)
    }
}

impl CoreSlot {
    /// The store that releasing the slot leads to: the one that halts the
    /// core if the handle is still there, none otherwise.
    pub open spec fn kill_on_release(&self) -> Option<RegWrite> {
        if self.handle is Some {
            Some(kill_write())
        } else {
            None
        }
    }

    /// The slot after a release: empty.
    pub open spec fn released(&self) -> CoreSlot {
        CoreSlot { handle: None }
    }

    /// Puts a handle into a new slot.
    pub fn new(cpu: Cpu) -> (slot: CoreSlot)
        ensures
            slot.handle == Some(cpu),
    {
        CoreSlot { handle: Some(cpu) }
    }

    /// Takes the handle out if it is there.
    pub fn take(&mut self) -> (taken: Option<Cpu>)
        ensures
            taken == old(self).handle,
            *final(self) == old(self).released(),
    {
        self.handle.take()
    }

    /// Takes the handle out if it is there and halts the core. Returns the
    /// store to perform.
    pub fn release(&mut self) -> (kill: Option<RegWrite>)
        ensures
            kill == old(self).kill_on_release(),
            *final(self) == old(self).released(),
    {
        match self.take() {
            Some(cpu) => {
                let mut cpu = cpu;
                Some(cpu.kill())
            },
            None => None,
        }
    }
}

/// Chooses how to wait from the companion command line: idle when it is
/// empty.
pub fn wait_mode(args: &Vec<String>) -> (mode: WaitMode)
    ensures
        mode == (if args@.len() == 0 {
            WaitMode::Idle
        } else {
            WaitMode::Companion
        }),
{
    if args.len() == 0 {
        WaitMode::Idle
    } else {
        WaitMode::Companion
    }
}

/// Handles the event that ends the wait: releases the slot and gives the
/// code to exit with, 0 after an interrupt and the companion's own code after
/// its exit.
pub fn on_event(slot: &mut CoreSlot, event: Event) -> (r: Teardown)
    ensures
        r.kill == old(slot).kill_on_release(),
        r.exit_code == exit_code_of(event),
        *final(slot) == old(slot).released(),
{
    let kill = slot.release();
    let exit_code = match event {
        Event::Interrupt => 0,
        Event::CompanionExited { code } => code,
    };
    Teardown { kill, exit_code }
}

/// However many times a slot is released, the core is halted at most once:
/// once if the slot held the handle and was released at all, never
/// otherwise.
pub proof fn lemma_kill_at_most_once(slot: CoreSlot, attempts: nat)
    ensures
        kills_issued(slot, attempts) <= 1,
        kills_issued(slot, attempts) == 1 <==> slot.handle is Some && attempts >= 1,
    decreases attempts,
{
    if attempts > 0 {
        lemma_kill_at_most_once(slot.released(), (attempts - 1) as nat);
    }
}

} // verus!
