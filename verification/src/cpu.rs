//! Control of the soft core: its register window, the boot and kill
//! sequences, and the polled mailbox. The functions here decide which
//! register is written with what; the caller performs the accesses.

use vstd::prelude::*;
use crate::hal::HalError;
use crate::reloc::truncate32;

verus! {

/// Physical address of the register window.
pub const REGISTER_WINDOW_BASE: u64 = 0x4000_0000;

/// Size in bytes of the register window.
pub const REGISTER_WINDOW_SIZE: usize = 4096;

/// Byte offset of the clocking control register.
pub const CLOCKING: usize = 0;

/// Byte offset of the reset vector register.
pub const RESET_ADDR: usize = 4;

/// Byte offset of the debug register.
pub const DEBUG: usize = 8;

/// Byte offset of the GPIO input register.
pub const GPIO_READ: usize = 16;

/// Byte offset of the GPIO output register.
pub const GPIO_WRITE: usize = 20;

/// Byte offset of the GPIO output-enable register.
pub const GPIO_WRITE_ENABLE: usize = 24;

/// Byte offset of the mailbox write status word (ready, level).
pub const MAILBOX_WRITE_STATUS: usize = 32;

/// Byte offset of the mailbox read status word (valid, level).
pub const MAILBOX_READ_STATUS: usize = 36;

/// Byte offset of the mailbox read data register.
pub const MAILBOX_READ_DATA: usize = 40;

/// Byte offset of the mailbox write data register.
pub const MAILBOX_WRITE_DATA: usize = 44;

/// Clocking bit that holds the core in reset.
pub const RESET: u32 = 0b01;

/// Clocking bit that lets the core's clock run.
pub const CLOCK_ENABLE: u32 = 0b10;

/// Bring-up status of the core.
#[derive(Clone, Copy, Debug, PartialEq, Eq)]
pub enum CoreState {
    Unopened,
    Mapped,
    Running,
    Killed,
}

/// One 32-bit store into the register window.
#[derive(Clone, Copy, Debug, PartialEq, Eq)]
pub struct RegWrite {
    pub offset: usize,
    pub value: u32,
}

/// What a mailbox operation does next.
#[derive(Clone, Copy, Debug, PartialEq, Eq)]
pub enum MailboxStep {
    /// The device is not ready: yield the processor and poll the status
    /// word at this offset again.
    Poll { status: usize },
    /// Store the value into the write data register.
    Write { write: RegWrite },
    /// Load the read data register at this offset; that is the value
    /// received.
    Read { data: usize },
}

/// The core as its controlling process sees it: the bring-up status and the
/// values last stored into the clocking and reset vector registers (0 while
/// none was stored).
#[derive(Debug, PartialEq, Eq)]
pub struct Cpu {
    pub state: CoreState,
    pub clocking: u32,
    pub reset_addr: u32,
}

/// The store that halts the core: reset asserted, clock disabled.
pub open spec fn kill_write() -> RegWrite {
    RegWrite { offset: CLOCKING, value: RESET }
}

/// The stores that start the core at `entry`: halt it, set the reset vector,
/// hold it in reset with the clock running so that it latches the vector,
/// then release the reset.
pub open spec fn boot_writes(entry: u32) -> Seq<RegWrite> {
    seq![
        kill_write(),
        RegWrite { offset: RESET_ADDR, value: entry },
        RegWrite { offset: CLOCKING, value: 0b11 },
        RegWrite { offset: CLOCKING, value: CLOCK_ENABLE },
    ]
}

/// The value of the register at `offset` after the stores, given what it held
/// before.
pub open spec fn register_after(writes: Seq<RegWrite>, offset: usize, before: u32) -> u32
    decreases writes.len(),
{
    if writes.len() == 0 {
        before
    } else if writes.last().offset == offset {
        writes.last().value
    } else {
        register_after(writes.drop_last(), offset, before)
    }
}

/// The flag in the low half of a mailbox status word.
pub open spec fn status_flag(word: u32) -> u16 {
    (word % 0x1_0000) as u16
}

/// The fill level in the high half of a mailbox status word.
pub open spec fn status_level(word: u32) -> u16 {
    (word / 0x1_0000) as u16
}

/// Splits a mailbox status word into its flag and its fill level.
pub fn decode_status(word: u32) -> (r: (u16, u16))
    ensures
        r.0 == status_flag(word),
        r.1 == status_level(word),
{
    ((word % 0x1_0000) as u16, (word / 0x1_0000) as u16)
}

impl Cpu {
    /// The relation between the status and the registers' last values.
    pub open spec fn wf(&self) -> bool {
        &&& self.state == CoreState::Running ==> self.clocking == CLOCK_ENABLE
        &&& self.state == CoreState::Killed ==> self.clocking == RESET
        &&& (self.state == CoreState::Unopened || self.state == CoreState::Mapped)
            ==> self.clocking == 0 && self.reset_addr == 0
    }

    /// The core once halted: in reset with the clock disabled, the reset
    /// vector as it was.
    pub open spec fn killed(&self) -> Cpu {
        Cpu { state: CoreState::Killed, clocking: RESET, reset_addr: self.reset_addr }
    }

    /// The core once started at `entry`: clock running, reset released.
    pub open spec fn booted(&self, entry: u32) -> Cpu {
        Cpu { state: CoreState::Running, clocking: CLOCK_ENABLE, reset_addr: entry }
    }

    /// Takes the outcome of mapping the register window: `Ok`, or the system
    /// error code of the failed mapping.
    pub fn open(mapped: Result<(), i32>) -> (r: Result<Cpu, HalError>)
        ensures
            match mapped {
                Ok(_) => r == Ok::<Cpu, HalError>(
                    Cpu { state: CoreState::Mapped, clocking: 0, reset_addr: 0 },
                ),
                Err(code) => r == Err::<Cpu, HalError>(HalError::DeviceMapFailed { code }),
            },
            r matches Ok(cpu) ==> cpu.wf(),
    {
        match mapped {
            Ok(_) => Ok(Cpu { state: CoreState::Mapped, clocking: 0, reset_addr: 0 }),
            Err(code) => Err(HalError::DeviceMapFailed { code }),
        }
    }

    /// Starts the core at `code_addr`, of which the core sees the low 32
    /// bits. Returns the stores to perform, in order.
    pub fn boot(&mut self, code_addr: usize) -> (writes: Vec<RegWrite>)
        ensures
            writes@ == boot_writes(truncate32(code_addr as int)),
            *final(self) == old(self).booted(truncate32(code_addr as int)),
            final(self).clocking == register_after(writes@, CLOCKING, old(self).clocking),
            final(self).reset_addr == register_after(writes@, RESET_ADDR, old(self).reset_addr),
            final(self).wf(),
    {
        let wide: u64 = code_addr as u64;
        let entry: u32 = (wide % 0x1_0000_0000) as u32;
        let first = self.kill();
        let mut writes: Vec<RegWrite> = Vec::new();
        writes.push(first);
        writes.push(RegWrite { offset: RESET_ADDR, value: entry });
        writes.push(RegWrite { offset: CLOCKING, value: 0b11 });
        writes.push(RegWrite { offset: CLOCKING, value: CLOCK_ENABLE });
        self.state = CoreState::Running;
        self.clocking = CLOCK_ENABLE;
        self.reset_addr = entry;
        proof {
            assert(writes@ =~= boot_writes(entry));
            lemma_boot_registers(entry, old(self).clocking, old(self).reset_addr);
        }
        writes
    }

    /// Halts the core, whatever its status. Returns the store to perform.
    pub fn kill(&mut self) -> (write: RegWrite)
        ensures
            write == kill_write(),
            *final(self) == old(self).killed(),
            final(self).clocking == register_after(seq![write], CLOCKING, old(self).clocking),
            final(self).wf(),
    {
        self.state = CoreState::Killed;
        self.clocking = RESET;
        let write = RegWrite { offset: CLOCKING, value: RESET };
        proof {
            assert(seq![write].last() == write);
        }
        write
    }

    /// One step of sending `val` through the mailbox, given the write status
    /// word just read: the store of `val` once the ready flag is set, another
    /// poll until then.
    pub fn mailbox_send(&mut self, status: u32, val: u32) -> (step: MailboxStep)
        ensures
            *final(self) == *old(self),
            status_flag(status) != 0 ==> step == (MailboxStep::Write {
                write: RegWrite { offset: MAILBOX_WRITE_DATA, value: val },
            }),
            status_flag(status) == 0 ==> step == (MailboxStep::Poll {
                status: MAILBOX_WRITE_STATUS,
            }),
    {
        let (ready, _level) = decode_status(status);
        if ready != 0 {
            MailboxStep::Write { write: RegWrite { offset: MAILBOX_WRITE_DATA, value: val } }
        } else {
            MailboxStep::Poll { status: MAILBOX_WRITE_STATUS }
        }
    }

    /// One step of receiving a value from the mailbox, given the read status
    /// word just read: the load of the data register once the valid flag is
    /// set, another poll until then.
    pub fn mailbox_recv(&mut self, status: u32) -> (step: MailboxStep)
        ensures
            *final(self) == *old(self),
            status_flag(status) != 0 ==> step == (MailboxStep::Read { data: MAILBOX_READ_DATA }),
            status_flag(status) == 0 ==> step == (MailboxStep::Poll {
                status: MAILBOX_READ_STATUS,
            }),
    {
        let (valid, _level) = decode_status(status);
        if valid != 0 {
            MailboxStep::Read { data: MAILBOX_READ_DATA }
        } else {
            MailboxStep::Poll { status: MAILBOX_READ_STATUS }
        }
    }
}

/// The boot sequence leaves the clock running with the reset released and the
/// reset vector at the entry; its first store is the one that halts the core,
/// and the store that asserts reset and clock together comes after it.
pub proof fn lemma_boot_registers(entry: u32, clocking: u32, reset_addr: u32)
    ensures
        register_after(boot_writes(entry), CLOCKING, clocking) == CLOCK_ENABLE,
        register_after(boot_writes(entry), RESET_ADDR, reset_addr) == entry,
        boot_writes(entry)[0] == kill_write(),
        boot_writes(entry)[2] == (RegWrite { offset: CLOCKING, value: (RESET | CLOCK_ENABLE) }),
        register_after(boot_writes(entry).take(1), CLOCKING, clocking) == RESET,
{
    let w = boot_writes(entry);
    assert(w.last() == w[3]);
    assert(w.drop_last().last() == w[2]);
    assert(w.drop_last().drop_last().last() == w[1]);
    reveal_with_fuel(register_after, 4);
    assert(w.take(1).last() == w[0]);
    assert(RESET | CLOCK_ENABLE == 0b11) by (bit_vector);
}

/// Halting the core leaves the clocking register with only the reset bit
/// set, whatever it held and whatever the core's status was. Halting it
/// again changes nothing.
pub proof fn lemma_kill_resets(cpu: Cpu, clocking: u32)
    ensures
        register_after(seq![kill_write()], CLOCKING, clocking) == RESET,
        RESET & CLOCK_ENABLE == 0,
        cpu.killed().clocking == RESET,
        cpu.killed().state == CoreState::Killed,
        cpu.killed().killed() == cpu.killed(),
{
    assert(seq![kill_write()].last() == kill_write());
    assert(RESET & CLOCK_ENABLE == 0) by (bit_vector);
}

} // verus!
