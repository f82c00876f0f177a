use alarm_mux::console::{App as ConsoleApp, Console, UartError, UartRequest};
use alarm_mux::driver::{CommandResult, ErrorCode, GenericSyscallReturnValue, ReturnCode, Upcall};
use alarm_mux::grant::Grant;
use alarm_mux::mem::{ReadOnlyAppSlice, ReadWriteAppSlice};
use alarm_mux::mlx90614::{I2CError, Mlx90614SMBus, SMBusRequest, ScheduledUpcall, State};

fn make_console(tx_len: usize, rx_len: usize, clients: usize) -> Console {
    let mut grant: Grant<ConsoleApp> = Grant::new();
    let mut i = 0;
    while i < clients {
        grant.register(ConsoleApp::default());
        i += 1;
    }
    Console::new(tx_len, rx_len, grant)
}

#[test]
fn console_write_fits_in_one_transfer() {
    let mut c = make_console(64, 64, 1);
    c.allow_readonly(0, 1, ReadOnlyAppSlice::new(10)).unwrap();
    let (r, req) = c.command(1, 10, 0, 0);
    assert_eq!(r, CommandResult::success());
    assert_eq!(req, Some(UartRequest::Transmit { app_id: 0, offset: 0, len: 10 }));
    // The whole write fit: completion is owed on the next interrupt.
    c.subscribe(1, Upcall::new(5), 0).unwrap();
    let (done, next) = c.transmitted_buffer(10, ReturnCode::Success);
    assert_eq!(done.map(|d| (d.target, d.written)), Some((Upcall::new(5), 10)));
    assert_eq!(next, None);
}

#[test]
fn console_write_is_clipped_to_app_buffer() {
    let mut c = make_console(64, 64, 1);
    c.allow_readonly(0, 1, ReadOnlyAppSlice::new(8)).unwrap();
    let (r, req) = c.command(1, 100, 0, 0);
    assert_eq!(r, CommandResult::success());
    assert_eq!(req, Some(UartRequest::Transmit { app_id: 0, offset: 0, len: 8 }));
}

#[test]
fn console_long_write_continues_across_interrupts() {
    let mut c = make_console(16, 64, 1);
    c.allow_readonly(0, 1, ReadOnlyAppSlice::new(40)).unwrap();
    let (_, req) = c.command(1, 40, 0, 0);
    assert_eq!(req, Some(UartRequest::Transmit { app_id: 0, offset: 0, len: 16 }));
    let (done, req) = c.transmitted_buffer(16, ReturnCode::Success);
    assert!(done.is_none());
    assert_eq!(req, Some(UartRequest::Transmit { app_id: 0, offset: 16, len: 16 }));
    let (done, req) = c.transmitted_buffer(16, ReturnCode::Success);
    assert!(done.is_none());
    assert_eq!(req, Some(UartRequest::Transmit { app_id: 0, offset: 32, len: 8 }));
    let (done, req) = c.transmitted_buffer(8, ReturnCode::Success);
    assert_eq!(done.map(|d| d.written), Some(40));
    assert_eq!(req, None);
}

#[test]
fn console_competing_write_queues_and_resumes() {
    let mut c = make_console(64, 64, 2);
    c.allow_readonly(0, 1, ReadOnlyAppSlice::new(10)).unwrap();
    c.allow_readonly(1, 1, ReadOnlyAppSlice::new(6)).unwrap();
    let (_, req) = c.command(1, 10, 0, 0);
    assert_eq!(req, Some(UartRequest::Transmit { app_id: 0, offset: 0, len: 10 }));
    // The second writer queues while the buffer is lent out.
    let (r, req) = c.command(1, 6, 0, 1);
    assert_eq!(r, CommandResult::success());
    assert_eq!(req, None);
    // When the first write completes, the queued one is resumed.
    let (done, req) = c.transmitted_buffer(10, ReturnCode::Success);
    assert_eq!(done.map(|d| d.written), Some(10));
    assert_eq!(req, Some(UartRequest::Transmit { app_id: 1, offset: 0, len: 6 }));
    let (done, req) = c.transmitted_buffer(6, ReturnCode::Success);
    assert_eq!(done.map(|d| d.written), Some(6));
    assert_eq!(req, None);
}

#[test]
fn console_receive_round_trip() {
    let mut c = make_console(64, 64, 1);
    c.allow_readwrite(0, 1, ReadWriteAppSlice::new(32)).unwrap();
    c.subscribe(2, Upcall::new(9), 0).unwrap();
    let (r, req) = c.command(2, 20, 0, 0);
    assert_eq!(r, CommandResult::success());
    assert_eq!(req, Some(UartRequest::Receive { len: 20 }));
    // A second receive is refused while one is in flight.
    let (r, req) = c.command(2, 5, 0, 0);
    assert_eq!(r, CommandResult::failure(ErrorCode::Busy));
    assert_eq!(req, None);
    let done = c.received_buffer(20, ReturnCode::Success, UartError::NoError);
    assert_eq!(
        done.map(|d| (d.target, d.status, d.length)),
        Some((Upcall::new(9), ReturnCode::Success, 20))
    );
}

#[test]
fn console_receive_longer_than_kernel_buffer_is_invalid() {
    let mut c = make_console(64, 16, 1);
    c.allow_readwrite(0, 1, ReadWriteAppSlice::new(32)).unwrap();
    let (r, req) = c.command(2, 20, 0, 0);
    assert_eq!(r, CommandResult::failure(ErrorCode::Invalid));
    assert_eq!(req, None);
}

#[test]
fn console_receive_overrun_reports_clipped_length() {
    let mut c = make_console(64, 64, 1);
    c.allow_readwrite(0, 1, ReadWriteAppSlice::new(8)).unwrap();
    c.command(2, 8, 0, 0);
    // A buggy device handing back more than asked for must not leak the
    // wrong length.
    let done = c.received_buffer(12, ReturnCode::Success, UartError::NoError);
    assert_eq!(done.map(|d| (d.status, d.length)), Some((ReturnCode::Size, 8)));
}

#[test]
fn console_receive_error_reports_failure() {
    let mut c = make_console(64, 64, 1);
    c.allow_readwrite(0, 1, ReadWriteAppSlice::new(8)).unwrap();
    c.command(2, 8, 0, 0);
    let done = c.received_buffer(3, ReturnCode::Success, UartError::Parity);
    assert_eq!(done.map(|d| (d.status, d.length)), Some((ReturnCode::Fail, 0)));
}

#[test]
fn console_abort_and_checks() {
    let mut c = make_console(64, 64, 1);
    let (r, req) = c.command(0, 0, 0, 0);
    assert_eq!(r, CommandResult::success());
    assert_eq!(req, None);
    let (r, req) = c.command(3, 0, 0, 0);
    assert_eq!(r, CommandResult::success());
    assert_eq!(req, Some(UartRequest::AbortReceive));
    let (r, _) = c.command(4, 0, 0, 0);
    assert_eq!(r, CommandResult::failure(ErrorCode::Unsupported));
    let (r, _) = c.command(1, 4, 0, 7);
    assert_eq!(r, CommandResult::failure(ErrorCode::InvalidProcess));
}

#[test]
fn console_allows_swap_buffers() {
    let mut c = make_console(64, 64, 1);
    let ro = ReadOnlyAppSlice::new(10);
    assert_eq!(c.allow_readonly(0, 1, ro), Ok(ReadOnlyAppSlice::new(0)));
    assert_eq!(c.allow_readonly(0, 1, ReadOnlyAppSlice::new(4)), Ok(ro));
    let rw = ReadWriteAppSlice::new(12);
    assert_eq!(c.allow_readwrite(0, 1, rw), Ok(ReadWriteAppSlice::new(0)));
    assert_eq!(c.allow_readwrite(0, 2, rw), Err((rw, ErrorCode::Unsupported)));
    assert_eq!(c.allow_readwrite(3, 1, rw), Err((rw, ErrorCode::InvalidProcess)));
}

#[test]
fn thermometer_probe_reports_presence() {
    let mut t = Mlx90614SMBus::new();
    t.subscribe(0, Upcall::new(4), 0).unwrap();
    let (r, req) = t.command(1, 0, 0, 0);
    assert_eq!(r, CommandResult::success());
    assert_eq!(req, Some(SMBusRequest { register: 0x04, write_len: 1, read_len: 1 }));
    assert_eq!(t.state, State::IsPresent);
    // The device answers with its signature value.
    let (client, upcall) = t.command_complete(60, 0, I2CError::CommandComplete);
    assert_eq!(client, None);
    assert_eq!(upcall, Some(ScheduledUpcall { target: Upcall::new(4), value: 1 }));
    assert_eq!(t.state, State::Idle);
    // A different answer means absent.
    t.command(1, 0, 0, 0);
    let (_, upcall) = t.command_complete(59, 0, I2CError::CommandComplete);
    assert_eq!(upcall, Some(ScheduledUpcall { target: Upcall::new(4), value: 0 }));
}

#[test]
fn thermometer_reads_temperature_in_centi_celsius() {
    let mut t = Mlx90614SMBus::new();
    t.subscribe(0, Upcall::new(4), 0).unwrap();
    t.set_client(Upcall::new(8));
    let (r, req) = t.command(3, 0, 0, 0);
    assert_eq!(r, CommandResult::success());
    assert_eq!(req, Some(SMBusRequest { register: 0x07, write_len: 1, read_len: 2 }));
    // Raw reading 0x39DC = 14812 fiftieths of a kelvin: 2324 centidegrees.
    let (client, upcall) = t.command_complete(0xDC, 0x39, I2CError::CommandComplete);
    assert_eq!((0xDC + 256 * 0x39) * 2 - 27300, 2324);
    assert_eq!(client, Some(2324));
    assert_eq!(upcall, Some(ScheduledUpcall { target: Upcall::new(4), value: 2324 }));
}

#[test]
fn thermometer_is_busy_while_reading() {
    let mut t = Mlx90614SMBus::new();
    let (r, req) = t.command(2, 0, 0, 0);
    assert_eq!(r, CommandResult::success());
    assert_eq!(req, Some(SMBusRequest { register: 0x06, write_len: 1, read_len: 1 }));
    let (r, req) = t.command(3, 0, 0, 0);
    assert_eq!(r, CommandResult::failure(ErrorCode::Busy));
    assert_eq!(req, None);
    // A failed transaction still answers the subscriber with zero.
    let (client, upcall) = t.command_complete(0, 0, I2CError::AddressNak);
    assert_eq!(client, None);
    assert_eq!(upcall.map(|u| u.value), Some(0));
    assert_eq!(t.state, State::Idle);
}

#[test]
fn thermometer_checks() {
    let mut t = Mlx90614SMBus::new();
    let (r, req) = t.command(0, 0, 0, 0);
    assert_eq!(r, CommandResult::success());
    assert_eq!(req, None);
    let (r, _) = t.command(9, 0, 0, 0);
    assert_eq!(r, CommandResult::failure(ErrorCode::Unsupported));
    assert_eq!(
        t.subscribe(1, Upcall::new(2), 0),
        Err((Upcall::new(2), ErrorCode::Unsupported))
    );
    let (code, req) = t.read_temperature();
    assert_eq!(code, ReturnCode::Success);
    assert_eq!(req.register, 0x07);
}

#[test]
fn command_result_success_matches_generic_value() {
    // The console maps legacy status words through the generic result.
    let r = CommandResult::from_return_code(ReturnCode::Invalid);
    assert_eq!(
        r.into_inner(),
        GenericSyscallReturnValue::Failure(ErrorCode::Invalid)
    );
}
