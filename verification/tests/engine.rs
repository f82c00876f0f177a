use alarm_mux::alarm::{AlarmData, AlarmDriver, Expiration};
use alarm_mux::driver::{CommandResult, ErrorCode, GenericSyscallReturnValue, Upcall};
use alarm_mux::grant::Grant;
use alarm_mux::mem::ReadWriteAppSlice;
use alarm_mux::time::{HardwareTimer, TimerSetpoint, TimerWidth};

fn make_driver(width: TimerWidth, clients: usize) -> AlarmDriver {
    let timer = HardwareTimer::new(width, 1000);
    let mut grant: Grant<AlarmData> = Grant::new();
    let mut i = 0;
    while i < clients {
        grant.register(AlarmData::default());
        i += 1;
    }
    AlarmDriver::new(timer, grant)
}

#[test]
fn presence_check_succeeds() {
    let mut d = make_driver(TimerWidth::Bits32, 1);
    let r = d.command(0, 0, 0, 0);
    assert_eq!(r, CommandResult::success());
    assert_eq!(d.num_armed, 0);
}

#[test]
fn frequency_query_returns_tick_rate() {
    let mut d = make_driver(TimerWidth::Bits32, 1);
    let r = d.command(1, 0, 0, 0);
    assert_eq!(r.into_inner(), GenericSyscallReturnValue::SuccessU32(1000));
}

#[test]
fn capture_now_returns_low_bits() {
    let mut d = make_driver(TimerWidth::Bits64, 1);
    d.alarm.set_now(0x5_0000_1234);
    let r = d.command(2, 0, 0, 0);
    assert_eq!(r.into_inner(), GenericSyscallReturnValue::SuccessU32(0x1234));
}

#[test]
fn unknown_command_is_unsupported() {
    let mut d = make_driver(TimerWidth::Bits32, 1);
    let r = d.command(7, 1, 2, 0);
    assert_eq!(r, CommandResult::failure(ErrorCode::Unsupported));
    assert_eq!(d.num_armed, 0);
}

#[test]
fn invalid_process_is_rejected() {
    let mut d = make_driver(TimerWidth::Bits32, 2);
    let r = d.command(6, 100, 50, 5);
    assert_eq!(r, CommandResult::failure(ErrorCode::InvalidProcess));
    assert_eq!(d.num_armed, 0);
    assert!(d.alarm.setpoint.is_none());
}

#[test]
fn arm_round_trip_yields_enabled_record_and_fire_time() {
    let mut d = make_driver(TimerWidth::Bits32, 1);
    let r = d.command(6, 100, 50, 0);
    assert_eq!(r.into_inner(), GenericSyscallReturnValue::SuccessU32(150));
    assert_eq!(
        d.current_expiration(0),
        Some(Expiration::Enabled { reference: 100, dt: 50 })
    );
    assert_eq!(d.num_armed, 1);
}

#[test]
fn arm_round_trip_wraps_fire_time() {
    let mut d = make_driver(TimerWidth::Bits32, 1);
    let r = d.command(6, 0xFFFF_FFF0, 0x20, 0);
    assert_eq!(
        r.into_inner(),
        GenericSyscallReturnValue::SuccessU32(0xFFFF_FFF0u32.wrapping_add(0x20))
    );
    assert_eq!(
        d.current_expiration(0),
        Some(Expiration::Enabled { reference: 0xFFFF_FFF0, dt: 0x20 })
    );
}

#[test]
fn set_absolute_uses_now_as_reference() {
    let mut d = make_driver(TimerWidth::Bits32, 1);
    d.alarm.set_now(1000);
    let r = d.command(4, 900, 0, 0);
    assert_eq!(r.into_inner(), GenericSyscallReturnValue::SuccessU32(900));
    assert_eq!(
        d.current_expiration(0),
        Some(Expiration::Enabled { reference: 1000, dt: 900u32.wrapping_sub(1000) })
    );
}

#[test]
fn set_relative_fires_after_delta() {
    let mut d = make_driver(TimerWidth::Bits32, 1);
    d.alarm.set_now(1000);
    let r = d.command(5, 50, 0, 0);
    assert_eq!(r.into_inner(), GenericSyscallReturnValue::SuccessU32(1050));
    assert_eq!(
        d.current_expiration(0),
        Some(Expiration::Enabled { reference: 1000, dt: 50 })
    );
    assert_eq!(d.alarm.setpoint, Some(TimerSetpoint { reference: 1000, dt: 50 }));
}

#[test]
fn stop_disarms_and_second_stop_fails() {
    let mut d = make_driver(TimerWidth::Bits32, 1);
    d.command(6, 100, 50, 0);
    assert_eq!(d.num_armed, 1);
    let r = d.command(3, 0, 0, 0);
    assert_eq!(r, CommandResult::success());
    assert_eq!(d.num_armed, 0);
    assert_eq!(d.current_expiration(0), Some(Expiration::Disabled));
    assert!(d.alarm.setpoint.is_none());
    let again = d.command(3, 0, 0, 0);
    assert_eq!(again, CommandResult::failure(ErrorCode::AlreadyDisabled));
    assert_eq!(d.num_armed, 0);
}

#[test]
fn stop_when_never_armed_fails_without_change() {
    let mut d = make_driver(TimerWidth::Bits32, 2);
    let r = d.command(3, 0, 0, 1);
    assert_eq!(r, CommandResult::failure(ErrorCode::AlreadyDisabled));
    assert_eq!(d.num_armed, 0);
    assert_eq!(d.current_expiration(1), Some(Expiration::Disabled));
}

#[test]
fn rearming_keeps_count_at_one() {
    let mut d = make_driver(TimerWidth::Bits32, 1);
    d.command(6, 100, 50, 0);
    d.command(6, 200, 70, 0);
    assert_eq!(d.num_armed, 1);
    assert_eq!(
        d.current_expiration(0),
        Some(Expiration::Enabled { reference: 200, dt: 70 })
    );
}

#[test]
fn earliest_of_two_clients_is_programmed() {
    // Client A is due at 150, client B at 130; with now at 120 the hardware
    // must carry B.
    let mut d = make_driver(TimerWidth::Bits32, 2);
    d.alarm.set_now(120);
    d.command(6, 100, 50, 0);
    d.command(6, 120, 10, 1);
    assert_eq!(d.num_armed, 2);
    assert_eq!(d.alarm.setpoint, Some(TimerSetpoint { reference: 120, dt: 10 }));
}

#[test]
fn earliest_selection_is_order_independent() {
    let mut d = make_driver(TimerWidth::Bits32, 2);
    d.alarm.set_now(120);
    d.command(6, 120, 10, 1);
    d.command(6, 100, 50, 0);
    assert_eq!(d.alarm.setpoint, Some(TimerSetpoint { reference: 120, dt: 10 }));
}

#[test]
fn wraparound_alarm_does_not_fire_early() {
    // Armed just before the 32-bit wrap, due just after it: sweeps on the
    // near side of the wrap must leave the client armed.
    let mut d = make_driver(TimerWidth::Bits32, 1);
    d.alarm.set_now(0xFFFF_FFF0);
    d.command(6, 0xFFFF_FFF0, 0x20, 0);
    d.alarm.set_now(0xFFFF_FFF8);
    let fired = d.alarm();
    assert!(fired.is_empty());
    assert_eq!(d.num_armed, 1);
    d.alarm.set_now(0x0);
    let fired = d.alarm();
    assert!(fired.is_empty());
    assert_eq!(d.num_armed, 1);
    d.alarm.set_now(0xF);
    let fired = d.alarm();
    assert!(fired.is_empty());
    assert_eq!(d.num_armed, 1);
}

#[test]
fn wraparound_alarm_fires_at_wrapped_time() {
    let mut d = make_driver(TimerWidth::Bits32, 1);
    d.alarm.set_now(0xFFFF_FFF0);
    d.command(6, 0xFFFF_FFF0, 0x20, 0);
    d.alarm.set_now(0x10);
    let fired = d.alarm();
    assert_eq!(fired.len(), 1);
    assert_eq!(fired[0].process_id, 0);
    assert_eq!(fired[0].now, 0x10);
    assert_eq!(fired[0].expiration, 0x10);
    assert_eq!(fired[0].reserved, 0);
    assert_eq!(d.num_armed, 0);
    assert!(d.alarm.setpoint.is_none());
}

#[test]
fn sweep_notifies_every_elapsed_client_once() {
    // Three clients all already elapsed at interrupt time: one sweep
    // notifies each exactly once and leaves nobody armed.
    let mut d = make_driver(TimerWidth::Bits32, 3);
    d.alarm.set_now(100);
    d.subscribe(0, Upcall::new(11), 0).unwrap();
    d.subscribe(0, Upcall::new(22), 1).unwrap();
    d.subscribe(0, Upcall::new(33), 2).unwrap();
    d.command(6, 100, 10, 0);
    d.command(6, 100, 20, 1);
    d.command(6, 100, 30, 2);
    assert_eq!(d.num_armed, 3);
    d.alarm.set_now(200);
    let fired = d.alarm();
    assert_eq!(fired.len(), 3);
    assert_eq!(fired[0].process_id, 0);
    assert_eq!(fired[1].process_id, 1);
    assert_eq!(fired[2].process_id, 2);
    assert_eq!(fired[0].callback, Upcall::new(11));
    assert_eq!(fired[1].callback, Upcall::new(22));
    assert_eq!(fired[2].callback, Upcall::new(33));
    assert_eq!(fired[0].expiration, 110);
    assert_eq!(fired[1].expiration, 120);
    assert_eq!(fired[2].expiration, 130);
    assert!(fired.iter().all(|n| n.now == 200 && n.reserved == 0));
    assert_eq!(d.num_armed, 0);
    assert!(d.alarm.setpoint.is_none());
    assert_eq!(d.current_expiration(1), Some(Expiration::Disabled));
}

#[test]
fn sweep_spares_still_pending_clients() {
    let mut d = make_driver(TimerWidth::Bits32, 2);
    d.alarm.set_now(100);
    d.command(6, 100, 10, 0);
    d.command(6, 100, 1000, 1);
    d.alarm.set_now(500);
    let fired = d.alarm();
    assert_eq!(fired.len(), 1);
    assert_eq!(fired[0].process_id, 0);
    assert_eq!(d.num_armed, 1);
    assert_eq!(
        d.current_expiration(1),
        Some(Expiration::Enabled { reference: 100, dt: 1000 })
    );
    // The survivor is reprogrammed into the hardware.
    assert_eq!(d.alarm.setpoint, Some(TimerSetpoint { reference: 100, dt: 1000 }));
}

#[test]
fn zero_delta_fires_on_next_sweep() {
    // A degenerate zero offset is accepted and produces an immediately
    // elapsed alarm.
    let mut d = make_driver(TimerWidth::Bits32, 1);
    d.alarm.set_now(500);
    let r = d.command(6, 500, 0, 0);
    assert_eq!(r.into_inner(), GenericSyscallReturnValue::SuccessU32(500));
    let fired = d.alarm();
    assert_eq!(fired.len(), 1);
    assert_eq!(fired[0].expiration, 500);
    assert_eq!(d.num_armed, 0);
}

#[test]
fn wide_counter_reconstructs_previous_epoch() {
    // With a 64-bit counter at 0x1_0000_0050, a reference of 0xFFFFFFF0
    // belongs to the previous 32-bit epoch: the hardware must be programmed
    // with 0x0_FFFFFFF0, not 0x1_FFFFFFF0.
    let mut d = make_driver(TimerWidth::Bits64, 1);
    d.alarm.set_now(0x1_0000_0050);
    d.command(6, 0xFFFF_FFF0, 0x100, 0);
    assert_eq!(
        d.alarm.setpoint,
        Some(TimerSetpoint { reference: 0x0_FFFF_FFF0, dt: 0x100 })
    );
}

#[test]
fn wide_counter_keeps_current_epoch() {
    let mut d = make_driver(TimerWidth::Bits64, 1);
    d.alarm.set_now(0x1_0000_0050);
    d.command(6, 0x30, 0x100, 0);
    assert_eq!(
        d.alarm.setpoint,
        Some(TimerSetpoint { reference: 0x1_0000_0030, dt: 0x100 })
    );
}

#[test]
fn wide_counter_sweeps_on_low_bits() {
    let mut d = make_driver(TimerWidth::Bits64, 1);
    d.alarm.set_now(0x1_FFFF_FFF0);
    d.command(6, 0xFFFF_FFF0, 0x20, 0);
    d.alarm.set_now(0x2_0000_0008);
    let fired = d.alarm();
    assert!(fired.is_empty());
    assert_eq!(d.num_armed, 1);
    d.alarm.set_now(0x2_0000_0010);
    let fired = d.alarm();
    assert_eq!(fired.len(), 1);
    assert_eq!(fired[0].now, 0x10);
    assert_eq!(fired[0].expiration, 0x10);
}

#[test]
fn subscribe_swaps_notification_targets() {
    let mut d = make_driver(TimerWidth::Bits32, 1);
    let first = d.subscribe(0, Upcall::new(7), 0);
    assert_eq!(first, Ok(Upcall::new(0)));
    let second = d.subscribe(0, Upcall::new(9), 0);
    assert_eq!(second, Ok(Upcall::new(7)));
}

#[test]
fn subscribe_rejects_unknown_number_and_process() {
    let mut d = make_driver(TimerWidth::Bits32, 1);
    assert_eq!(
        d.subscribe(1, Upcall::new(7), 0),
        Err((Upcall::new(7), ErrorCode::Unsupported))
    );
    assert_eq!(
        d.subscribe(0, Upcall::new(7), 3),
        Err((Upcall::new(7), ErrorCode::InvalidProcess))
    );
}

#[test]
fn allow_requires_enabled_snapshot_mechanism() {
    let mut d = make_driver(TimerWidth::Bits32, 1);
    let slice = ReadWriteAppSlice::new(16);
    assert_eq!(
        d.allow_readwrite(0, 0, slice),
        Err((slice, ErrorCode::NoDevice))
    );
    // Once the mechanism has run, the region is accepted and the previous
    // (empty) one handed back.
    d.update_values(0);
    assert_eq!(d.allow_readwrite(0, 0, slice), Ok(ReadWriteAppSlice::new(0)));
    assert_eq!(
        d.allow_readwrite(0, 1, slice),
        Err((slice, ErrorCode::Unsupported))
    );
}

#[test]
fn snapshot_publishes_count_and_ticks() {
    let mut d = make_driver(TimerWidth::Bits64, 1);
    d.update_values(0);
    d.allow_readwrite(0, 0, ReadWriteAppSlice::new(12)).unwrap();
    d.alarm.set_now(0x1_2345_6789);
    let bytes = d.update_values(0).unwrap();
    let mut expected = 1u32.to_le_bytes().to_vec();
    expected.extend_from_slice(&0x1_2345_6789u64.to_le_bytes());
    assert_eq!(bytes, expected);
    // The publish counter advanced again.
    let bytes = d.update_values(0).unwrap();
    assert_eq!(&bytes[0..4], &2u32.to_le_bytes());
}

#[test]
fn snapshot_skips_short_region() {
    let mut d = make_driver(TimerWidth::Bits32, 1);
    d.update_values(0);
    d.allow_readwrite(0, 0, ReadWriteAppSlice::new(8)).unwrap();
    assert_eq!(d.update_values(0), None);
    assert_eq!(d.update_values(5), None);
}
