use alarm_mux::driver::{
    CommandResult, ErrorCode, GenericSyscallReturnValue, ReturnCode, Upcall,
};
use alarm_mux::grant::Grant;
use alarm_mux::mem::{u32_le_bytes, u64_le_bytes, ReadWriteAppSlice};
use alarm_mux::ros::{App, ROSDriver, VERSION};
use alarm_mux::time::{
    add32, extend_reference, sub32, ticks_add, ticks_sub, ticks_within_range, within_range32,
    HardwareTimer, TimerWidth,
};

#[test]
fn command_result_builders_carry_their_payloads() {
    assert_eq!(
        CommandResult::failure(ErrorCode::Busy).into_inner(),
        GenericSyscallReturnValue::Failure(ErrorCode::Busy)
    );
    assert_eq!(
        CommandResult::failure_u32(ErrorCode::Fail, 7).into_inner(),
        GenericSyscallReturnValue::FailureU32(ErrorCode::Fail, 7)
    );
    assert_eq!(
        CommandResult::failure_u32_u32(ErrorCode::Size, 7, 8).into_inner(),
        GenericSyscallReturnValue::FailureU32U32(ErrorCode::Size, 7, 8)
    );
    assert_eq!(
        CommandResult::failure_u64(ErrorCode::Invalid, 9).into_inner(),
        GenericSyscallReturnValue::FailureU64(ErrorCode::Invalid, 9)
    );
    assert_eq!(
        CommandResult::success().into_inner(),
        GenericSyscallReturnValue::Success
    );
    assert_eq!(
        CommandResult::success_u32(1).into_inner(),
        GenericSyscallReturnValue::SuccessU32(1)
    );
    assert_eq!(
        CommandResult::success_u32_u32(1, 2).into_inner(),
        GenericSyscallReturnValue::SuccessU32U32(1, 2)
    );
    assert_eq!(
        CommandResult::success_u32_u32_u32(1, 2, 3).into_inner(),
        GenericSyscallReturnValue::SuccessU32U32U32(1, 2, 3)
    );
    assert_eq!(
        CommandResult::success_u64(4).into_inner(),
        GenericSyscallReturnValue::SuccessU64(4)
    );
    assert_eq!(
        CommandResult::success_u64_u32(4, 5).into_inner(),
        GenericSyscallReturnValue::SuccessU64U32(4, 5)
    );
}

#[test]
fn command_result_from_return_code_maps_status_words() {
    assert_eq!(
        CommandResult::from_return_code(ReturnCode::Success),
        CommandResult::success()
    );
    assert_eq!(
        CommandResult::from_return_code(ReturnCode::Busy),
        CommandResult::failure(ErrorCode::Busy)
    );
    assert_eq!(
        CommandResult::from_return_code(ReturnCode::Unsupported),
        CommandResult::failure(ErrorCode::Unsupported)
    );
}

#[test]
fn wrapping_helpers_match_modular_arithmetic() {
    assert_eq!(add32(0xFFFF_FFFF, 1), 0);
    assert_eq!(add32(0xFFFF_FFF0, 0x20), 0x10);
    assert_eq!(sub32(0, 1), 0xFFFF_FFFF);
    assert_eq!(sub32(0x10, 0xFFFF_FFF0), 0x20);
    assert!(within_range32(5, 0, 10));
    assert!(!within_range32(10, 0, 10));
    assert!(within_range32(0x5, 0xFFFF_FFF0, 0x10));
    assert!(!within_range32(0x10, 0xFFFF_FFF0, 0x10));
    assert!(!within_range32(0xFFFF_FFEF, 0xFFFF_FFF0, 0x10));
}

#[test]
fn width_aware_helpers_wrap_at_their_modulus() {
    let w32 = TimerWidth::Bits32;
    let w64 = TimerWidth::Bits64;
    assert_eq!(ticks_add(w32, 0xFFFF_FFFF, 1), 0);
    assert_eq!(ticks_add(w64, 0xFFFF_FFFF, 1), 0x1_0000_0000);
    assert_eq!(ticks_add(w64, u64::MAX, 1), 0);
    assert_eq!(ticks_sub(w32, 0, 1), 0xFFFF_FFFF);
    assert_eq!(ticks_sub(w64, 0, 1), u64::MAX);
    assert!(ticks_within_range(w64, 0x1_0000_0005, 0xFFFF_FFF0, 0x1_0000_0010));
    assert!(!ticks_within_range(w64, 0x1_0000_0010, 0xFFFF_FFF0, 0x1_0000_0010));
}

#[test]
fn extend_reference_reconstructs_epochs() {
    // Same epoch: the high bits of now are kept.
    assert_eq!(
        extend_reference(TimerWidth::Bits64, 0x1_0000_0050, 0x30),
        0x1_0000_0030
    );
    // Wrapped: the reference belongs to the previous epoch.
    assert_eq!(
        extend_reference(TimerWidth::Bits64, 0x1_0000_0050, 0xFFFF_FFF0),
        0x0_FFFF_FFF0
    );
    // A 32-bit counter has no higher bits to reconstruct.
    assert_eq!(
        extend_reference(TimerWidth::Bits32, 0x50, 0xFFFF_FFF0),
        0xFFFF_FFF0
    );
}

#[test]
fn le_bytes_match_std_encoding() {
    assert_eq!(u32_le_bytes(0x0102_0304), vec![4, 3, 2, 1]);
    assert_eq!(u32_le_bytes(0xDEAD_BEEF), 0xDEAD_BEEFu32.to_le_bytes().to_vec());
    assert_eq!(
        u64_le_bytes(0x0102_0304_0506_0708),
        vec![8, 7, 6, 5, 4, 3, 2, 1]
    );
    assert_eq!(
        u64_le_bytes(0x1234_5678_9ABC_DEF0),
        0x1234_5678_9ABC_DEF0u64.to_le_bytes().to_vec()
    );
}

#[test]
fn grant_stores_one_record_per_process() {
    let mut g: Grant<u32> = Grant::new();
    assert_eq!(g.len(), 0);
    assert!(!g.is_live(0));
    let a = g.register(10);
    let b = g.register(20);
    assert_eq!((a, b), (0, 1));
    assert_eq!(g.len(), 2);
    assert!(g.is_live(0) && g.is_live(1) && !g.is_live(2));
    assert_eq!(g.read(1), 20);
    g.put(0, 99);
    assert_eq!(g.read(0), 99);
}

#[test]
fn hardware_timer_tracks_setpoint_and_counter() {
    let mut t = HardwareTimer::new(TimerWidth::Bits32, 32768);
    assert_eq!(t.frequency(), 32768);
    assert_eq!(t.now(), 0);
    assert!(t.setpoint.is_none());
    t.set_now(0x100);
    assert_eq!(t.now(), 0x100);
    assert_eq!(t.now_low(), 0x100);
    t.set_alarm(0x100, 0x50);
    assert!(t.setpoint.is_some());
    t.disarm();
    assert!(t.setpoint.is_none());
}

fn make_ros(region_len: usize) -> ROSDriver {
    let timer = HardwareTimer::new(TimerWidth::Bits64, 1000);
    let mut grant: Grant<App> = Grant::new();
    grant.register(App::default());
    let mut d = ROSDriver::new(timer, grant);
    if region_len > 0 {
        d.allow_shared(0, 0, ReadWriteAppSlice::new(region_len)).unwrap();
    }
    d
}

#[test]
fn ros_publishes_full_snapshot() {
    let mut d = make_ros(16);
    d.timer.set_now(0x1_0000_0042);
    let bytes = d.update_values(0, 7);
    let mut expected = 0u32.to_le_bytes().to_vec();
    expected.extend_from_slice(&7u32.to_le_bytes());
    expected.extend_from_slice(&0x1_0000_0042u64.to_le_bytes());
    assert_eq!(bytes, expected);
    assert_eq!(d.count, 1);
    let bytes = d.update_values(0, 8);
    assert_eq!(&bytes[0..4], &1u32.to_le_bytes());
    assert_eq!(d.count, 2);
}

#[test]
fn ros_truncates_to_region_capacity() {
    let mut d = make_ros(8);
    let bytes = d.update_values(0, 3);
    let mut expected = 0u32.to_le_bytes().to_vec();
    expected.extend_from_slice(&3u32.to_le_bytes());
    assert_eq!(bytes, expected);

    let mut d = make_ros(4);
    assert_eq!(d.update_values(0, 3), 0u32.to_le_bytes().to_vec());

    let mut d = make_ros(0);
    assert_eq!(d.update_values(0, 3), Vec::<u8>::new());
    assert_eq!(d.count, 1);
}

#[test]
fn ros_allow_shared_swaps_regions() {
    let mut d = make_ros(0);
    let slice = ReadWriteAppSlice::new(32);
    assert_eq!(d.allow_shared(0, 0, slice), Ok(ReadWriteAppSlice::new(0)));
    assert_eq!(d.allow_shared(0, 0, ReadWriteAppSlice::new(8)), Ok(slice));
    assert_eq!(d.allow_shared(0, 1, slice), Err((slice, ErrorCode::Unsupported)));
    assert_eq!(
        d.allow_shared(9, 0, slice),
        Err((slice, ErrorCode::InvalidProcess))
    );
}

#[test]
fn ros_command_reports_version() {
    let mut d = make_ros(0);
    let r = d.command(0, 0, 0, 0);
    assert_eq!(r.into_inner(), GenericSyscallReturnValue::SuccessU32(VERSION));
    let r = d.command(1, 0, 0, 0);
    assert_eq!(r, CommandResult::failure(ErrorCode::Unsupported));
}

#[test]
fn upcall_default_is_null_target() {
    assert_eq!(Upcall::default(), Upcall::new(0));
}
