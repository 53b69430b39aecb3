use rv_loader::cpu::{
    decode_status, CoreState, Cpu, MailboxStep, RegWrite, CLOCKING, CLOCK_ENABLE,
    MAILBOX_READ_DATA, MAILBOX_READ_STATUS, MAILBOX_WRITE_DATA, MAILBOX_WRITE_STATUS, RESET,
    RESET_ADDR,
};
use rv_loader::hal::{alloc_request, sync_reply, DmaBuf, HalError, MemoryMap, Userdma};
use rv_loader::supervise::{on_event, wait_mode, CoreSlot, Event, Teardown, WaitMode};

fn opened() -> Cpu {
    Cpu::open(Ok(())).unwrap()
}

fn clocking_after(writes: &[RegWrite], before: u32) -> u32 {
    let mut value = before;
    for w in writes {
        if w.offset == CLOCKING {
            value = w.value;
        }
    }
    value
}

#[test]
fn open_reports_a_failed_mapping() {
    assert_eq!(Cpu::open(Err(13)), Err(HalError::DeviceMapFailed { code: 13 }));
    assert_eq!(opened(), Cpu { state: CoreState::Mapped, clocking: 0, reset_addr: 0 });
}

#[test]
fn register_offsets() {
    assert_eq!(CLOCKING, 0);
    assert_eq!(RESET_ADDR, 4);
    assert_eq!(MAILBOX_WRITE_STATUS, 32);
    assert_eq!(MAILBOX_READ_STATUS, 36);
    assert_eq!(MAILBOX_READ_DATA, 40);
    assert_eq!(MAILBOX_WRITE_DATA, 44);
}

#[test]
fn boot_writes_vector_then_releases_reset() {
    let mut cpu = opened();
    let writes = cpu.boot(0x1000_0000);
    assert_eq!(
        writes,
        vec![
            RegWrite { offset: CLOCKING, value: 0b01 },
            RegWrite { offset: RESET_ADDR, value: 0x1000_0000 },
            RegWrite { offset: CLOCKING, value: 0b11 },
            RegWrite { offset: CLOCKING, value: 0b10 },
        ]
    );
    assert_eq!(
        cpu,
        Cpu { state: CoreState::Running, clocking: CLOCK_ENABLE, reset_addr: 0x1000_0000 }
    );
}

#[test]
fn boot_resets_before_it_enables_the_clock() {
    let mut cpu = opened();
    cpu.boot(0x2000_0000);
    let writes = cpu.boot(0x3000_0004);
    assert_eq!(writes[0], RegWrite { offset: CLOCKING, value: RESET });
    let both = writes.iter().position(|w| w.offset == CLOCKING && w.value == (RESET | CLOCK_ENABLE));
    assert_eq!(both, Some(2));
    assert_eq!(clocking_after(&writes, 0xFFFF_FFFF), CLOCK_ENABLE);
    assert_eq!(cpu.reset_addr, 0x3000_0004);
}

#[test]
fn kill_leaves_only_the_reset_bit_in_every_state() {
    let mut mapped = opened();
    let mut running = opened();
    running.boot(0x1000);
    let mut killed = opened();
    killed.kill();
    let mut unopened = Cpu { state: CoreState::Unopened, clocking: 0, reset_addr: 0 };
    for cpu in [&mut mapped, &mut running, &mut killed, &mut unopened] {
        let write = cpu.kill();
        assert_eq!(write, RegWrite { offset: CLOCKING, value: 0b01 });
        assert_eq!(clocking_after(&[write], 0b10), RESET);
        assert_eq!(cpu.state, CoreState::Killed);
        assert_eq!(cpu.clocking, RESET);
    }
    assert_eq!(running.reset_addr, 0x1000);
}

#[test]
fn boot_address_is_truncated_to_32_bits() {
    let mut cpu = opened();
    let writes = cpu.boot(0x1_2345_6789);
    assert_eq!(writes[1], RegWrite { offset: RESET_ADDR, value: 0x2345_6789 });
}

#[test]
fn status_word_holds_flag_and_level() {
    assert_eq!(decode_status(0), (0, 0));
    assert_eq!(decode_status(0x0003_0001), (1, 3));
    assert_eq!(decode_status(0xFFFF_0000), (0, 0xFFFF));
    assert_eq!(decode_status(0x1234_ABCD), (0xABCD, 0x1234));
}

#[test]
fn mailbox_send_waits_for_ready() {
    let mut cpu = opened();
    assert_eq!(cpu.mailbox_send(0, 42), MailboxStep::Poll { status: MAILBOX_WRITE_STATUS });
    assert_eq!(
        cpu.mailbox_send(0x0007_0000, 42),
        MailboxStep::Poll { status: MAILBOX_WRITE_STATUS }
    );
    assert_eq!(
        cpu.mailbox_send(1, 42),
        MailboxStep::Write { write: RegWrite { offset: MAILBOX_WRITE_DATA, value: 42 } }
    );
    assert_eq!(
        cpu.mailbox_send(0x0002_8000, 0xDEAD_BEEF),
        MailboxStep::Write { write: RegWrite { offset: MAILBOX_WRITE_DATA, value: 0xDEAD_BEEF } }
    );
    assert_eq!(cpu, opened());
}

#[test]
fn mailbox_recv_waits_for_valid() {
    let mut cpu = opened();
    assert_eq!(cpu.mailbox_recv(0), MailboxStep::Poll { status: MAILBOX_READ_STATUS });
    assert_eq!(cpu.mailbox_recv(0x0001_0000), MailboxStep::Poll { status: MAILBOX_READ_STATUS });
    assert_eq!(cpu.mailbox_recv(1), MailboxStep::Read { data: MAILBOX_READ_DATA });
    assert_eq!(cpu.mailbox_recv(0xFFFF_FFFF), MailboxStep::Read { data: MAILBOX_READ_DATA });
    assert_eq!(cpu, opened());
}

#[test]
fn interrupt_while_running_halts_and_exits_zero() {
    let mut cpu = opened();
    cpu.boot(0x1000_0000);
    let mut slot = CoreSlot::new(cpu);
    let teardown = on_event(&mut slot, Event::Interrupt);
    assert_eq!(
        teardown,
        Teardown { kill: Some(RegWrite { offset: CLOCKING, value: RESET }), exit_code: 0 }
    );
    assert_eq!(slot, CoreSlot { handle: None });
}

#[test]
fn companion_exit_code_is_passed_on() {
    let mut cpu = opened();
    cpu.boot(0x1000_0000);
    let mut slot = CoreSlot::new(cpu);
    let teardown = on_event(&mut slot, Event::CompanionExited { code: 7 });
    assert_eq!(teardown.kill, Some(RegWrite { offset: CLOCKING, value: 0b01 }));
    assert_eq!(teardown.exit_code, 7);
    assert_eq!(slot.handle, None);
}

#[test]
fn core_is_killed_at_most_once() {
    let mut cpu = opened();
    cpu.boot(0x1000_0000);
    let mut slot = CoreSlot::new(cpu);
    let first = on_event(&mut slot, Event::CompanionExited { code: 3 });
    let second = on_event(&mut slot, Event::Interrupt);
    let third = slot.release();
    assert!(first.kill.is_some());
    assert_eq!(second, Teardown { kill: None, exit_code: 0 });
    assert_eq!(third, None);
    assert_eq!(slot.take(), None);
}

#[test]
fn take_hands_the_handle_out_once() {
    let mut slot = CoreSlot::new(opened());
    assert_eq!(slot.take(), Some(opened()));
    assert_eq!(slot.take(), None);
    assert_eq!(slot.release(), None);
}

#[test]
fn wait_mode_follows_the_command_line() {
    assert_eq!(wait_mode(&Vec::new()), WaitMode::Idle);
    assert_eq!(wait_mode(&vec!["sh".to_string()]), WaitMode::Companion);
    assert_eq!(wait_mode(&vec!["sh".to_string(), "-c".to_string()]), WaitMode::Companion);
}

#[test]
fn sync_bracket_flags() {
    let mut buf = DmaBuf::from_fd(5, 4096);
    assert_eq!(buf.size(), 4096);
    assert_eq!(buf.fd, 5);
    assert!(!buf.syncing());
    assert_eq!(buf.sync_start(), 0x3);
    assert!(buf.syncing());
    assert_eq!(buf.sync_end(), 0x7);
    assert!(!buf.syncing());
    assert_eq!(buf.with_sync(), (0x3, 0x7));
    assert!(!buf.syncing());
    assert_eq!(buf, DmaBuf::from_fd(5, 4096));
}

#[test]
fn buffer_mapping_reply() {
    let mut buf = DmaBuf::from_fd(5, 8192);
    let map = buf.map(Ok(0x7000_0000));
    assert_eq!(map, Ok(MemoryMap { base: 0x7000_0000, size: 8192 }));
    assert_eq!(map.unwrap().size(), 8192);
    assert_eq!(buf.map(Err(12)), Err(HalError::MappingFailed { code: 12 }));
    assert_eq!(buf, DmaBuf::from_fd(5, 8192));
}

#[test]
fn allocation_session() {
    assert_eq!(Userdma::open(Err(2)), Err(HalError::DriverUnavailable { code: 2 }));
    assert_eq!(Userdma::open(Ok(3)), Ok(Userdma { fd: 3 }));
}

#[test]
fn allocation_replies() {
    let dma = Userdma::open(Ok(3)).unwrap();
    assert_eq!(alloc_request(4096), Ok(4096));
    assert_eq!(alloc_request(0xFFFF_FFFF), Ok(0xFFFF_FFFF));
    assert_eq!(dma.alloc_buf(4096, -1, 0, 12), Err(HalError::AllocationFailed { code: 12 }));
    assert_eq!(
        dma.alloc_buf(4096, 7, 0x1000_0000, 0),
        Ok((DmaBuf::from_fd(7, 4096), 0x1000_0000))
    );
    assert_eq!(dma.alloc_buf(0, 0, 0, 0), Ok((DmaBuf::from_fd(0, 0), 0)));
    let buf = DmaBuf::from_fd(7, 4096);
    assert_eq!(dma.get_phys(&buf, -1, 0, 9), Err(HalError::QueryFailed { code: 9 }));
    assert_eq!(dma.get_phys(&buf, 0, 0x2000_0000, 0), Ok(0x2000_0000));
    assert_eq!(dma.print_buf(&buf, 0, 0), Ok(()));
    assert_eq!(dma.print_buf(&buf, -1, 22), Err(HalError::QueryFailed { code: 22 }));
    assert_eq!(dma.print_buf(&buf, 1, 22), Err(HalError::QueryFailed { code: 22 }));
    assert_eq!(sync_reply(0, 0), Ok(()));
    assert_eq!(sync_reply(-1, 5), Err(HalError::SyncFailed { code: 5 }));
}

#[test]
fn allocation_request_must_fit_32_bits() {
    assert_eq!(alloc_request(0x1_0000_0000), Err(HalError::SizeTooLarge));
}
