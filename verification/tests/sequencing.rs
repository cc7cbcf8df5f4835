use ble_lock::command::CommandError;
use ble_lock::config::DUTY_RESOLUTION_BITS;
use ble_lock::controller::{Drive, LockSystem};

// Full-scale duty value of the configured duty register resolution.
const FULL_SCALE: u32 = (1 << DUTY_RESOLUTION_BITS) - 1;

const REST_DRIVE: Drive = Drive { duty: 410, hold_ms: 1000 };

#[test]
fn startup_moves_to_rest_and_settles() {
    let (sys, init) = LockSystem::new(FULL_SCALE);
    assert_eq!(init, REST_DRIVE);
    assert!(!sys.is_busy());
    assert!(sys.is_resting());
    assert_eq!(sys.position_degrees(), 0);
}

#[test]
fn unlock_pulse_for_90() {
    let (mut sys, _init) = LockSystem::new(FULL_SCALE);
    assert!(sys.on_write(b"90".to_vec()));
    let first = sys.take_command().expect("90 is a valid command");
    assert_eq!(first, Drive { duty: 1229, hold_ms: 1000 });
    assert_eq!(sys.position_degrees(), 90);
    let second = sys.finish_dwell();
    assert_eq!(second, REST_DRIVE);
    assert_eq!(sys.position_degrees(), 0);
    sys.finish_settle();
    assert!(sys.is_resting());
    assert!(!sys.is_busy());
}

#[test]
fn whole_cycle_for_90() {
    let (mut sys, _init) = LockSystem::new(FULL_SCALE);
    assert!(sys.on_write(b"90".to_vec()));
    let drives = sys.run_cycle().expect("90 is a valid command");
    assert_eq!(drives, (Drive { duty: 1229, hold_ms: 1000 }, REST_DRIVE));
    assert!(sys.is_resting());
    assert!(!sys.is_busy());
    assert_eq!(sys.position_degrees(), 0);
}

#[test]
fn out_of_range_command_rejected_immediately() {
    let (mut sys, _init) = LockSystem::new(FULL_SCALE);
    assert!(sys.on_write(b"200".to_vec()));
    assert_eq!(sys.take_command(), Err(CommandError::TooLarge(200)));
    // No motion, and the controller is at once ready for the next command.
    assert_eq!(sys.position_degrees(), 0);
    assert!(sys.is_resting());
    assert!(!sys.is_busy());
    assert!(sys.on_write(b"90".to_vec()));
}

#[test]
fn malformed_command_rejected_without_motion() {
    let (mut sys, _init) = LockSystem::new(FULL_SCALE);
    assert!(sys.on_write(b"abc".to_vec()));
    assert_eq!(sys.take_command(), Err(CommandError::Malformed));
    assert_eq!(sys.position_degrees(), 0);
    assert!(!sys.is_busy());
}

#[test]
fn second_command_during_sequence_is_dropped() {
    let (mut sys, _init) = LockSystem::new(FULL_SCALE);
    assert!(sys.on_write(b"45".to_vec()));
    let first = sys.take_command().expect("45 is a valid command");
    assert_eq!(first, Drive { duty: 819, hold_ms: 1000 });
    // Delivered while the first sequence executes: dropped as busy.
    assert!(!sys.on_write(b"90".to_vec()));
    let _ = sys.finish_dwell();
    assert!(!sys.on_write(b"90".to_vec()));
    sys.finish_settle();
    // The dropped command caused no second motion: nothing is pending,
    // and the controller admits new commands again.
    assert!(!sys.is_busy());
    assert_eq!(sys.position_degrees(), 0);
    assert!(sys.on_write(b"90".to_vec()));
}

#[test]
fn zero_command_is_idempotent() {
    let (mut sys, _init) = LockSystem::new(FULL_SCALE);
    assert!(sys.on_write(b"0".to_vec()));
    let drives = sys.run_cycle().expect("0 is a valid command");
    // Both drives program the rest duty: no net motion, and no error.
    assert_eq!(drives, (REST_DRIVE, REST_DRIVE));
    assert_eq!(sys.position_degrees(), 0);
    assert!(!sys.is_busy());
}
