use simple_rt::tunnel::{blocking_flags, Direction, StartError, Tunnel, RELAY_BUFFER_SIZE};
use simple_rt::worker::{Phase, ReadOutcome, Worker};

#[test]
fn new_tunnel_is_idle() {
    let t = Tunnel::new();
    assert!(!t.is_started());
}

#[test]
fn stop_on_idle_tunnel_joins_nothing() {
    let mut t = Tunnel::new();
    assert_eq!(t.stop(), 0);
    assert_eq!(t.stop(), 0);
    assert!(!t.is_started());
}

#[test]
fn start_runs_two_workers() {
    let mut t = Tunnel::new();
    assert_eq!(t.start(true, true), Ok(0));
    assert!(t.is_started());
    assert_eq!(t.stop(), 2);
    assert!(!t.is_started());
}

#[test]
fn start_while_running_is_rejected() {
    let mut t = Tunnel::new();
    assert_eq!(t.start(true, true), Ok(0));
    assert_eq!(t.start(true, true), Err(StartError::AlreadyRunning));
    assert!(t.is_started());
    assert_eq!(t.stop(), 2);
}

#[test]
fn failed_acquisition_starts_nothing() {
    let mut t = Tunnel::new();
    assert_eq!(t.start(false, true), Err(StartError::HandleAcquisition));
    assert_eq!(t.start(true, false), Err(StartError::HandleAcquisition));
    assert!(!t.is_started());
    assert_eq!(t.stop(), 0);
}

#[test]
fn restart_after_stop_succeeds() {
    let mut t = Tunnel::new();
    assert_eq!(t.start(true, true), Ok(0));
    assert_eq!(t.stop(), 2);
    assert_eq!(t.start(true, true), Ok(0));
    assert!(t.is_started());
}

#[test]
fn worker_exit_stops_session_and_restart_reclaims_old_workers() {
    let mut t = Tunnel::new();
    assert_eq!(t.start(true, true), Ok(0));
    t.worker_exited();
    assert!(!t.is_started());
    assert_eq!(t.start(true, true), Ok(2));
    assert_eq!(t.stop(), 2);
}

#[test]
fn error_messages() {
    assert_eq!(StartError::AlreadyRunning.message(), "already running");
    assert_eq!(StartError::HandleAcquisition.message(), "handle acquisition failed");
}

#[test]
fn directions_route_both_ways() {
    assert_eq!(Direction::TunToAccessory.route(3, 7), (3, 7));
    assert_eq!(Direction::AccessoryToTun.route(3, 7), (7, 3));
}

#[test]
fn blocking_flags_clear_only_the_nonblock_bit() {
    assert_eq!(blocking_flags(0o4002, 0o4000), 0o2);
    assert_eq!(blocking_flags(0o2, 0o4000), 0o2);
}

#[test]
fn worker_forwards_each_chunk_then_stops_on_eof() {
    let mut w = Worker::new(Direction::TunToAccessory);
    let mut buf = [0u8; RELAY_BUFFER_SIZE];
    buf[..3].copy_from_slice(&[1, 2, 3]);
    assert!(w.check(true));
    assert_eq!(w.on_read(&buf, ReadOutcome::Data(3)), Some(3));
    assert_eq!(w.phase(), Phase::Writing);
    assert!(w.on_write(true));
    assert_eq!(w.phase(), Phase::Checking);
    assert!(w.check(true));
    assert_eq!(w.on_read(&buf, ReadOutcome::Data(0)), None);
    assert!(w.is_finished());
}

#[test]
fn worker_accepts_a_full_buffer() {
    let mut w = Worker::new(Direction::AccessoryToTun);
    let buf = [9u8; RELAY_BUFFER_SIZE];
    assert!(w.check(true));
    assert_eq!(w.on_read(&buf, ReadOutcome::Data(RELAY_BUFFER_SIZE)), Some(4096));
}

#[test]
fn worker_stops_on_read_failure() {
    let mut w = Worker::new(Direction::AccessoryToTun);
    assert_eq!(w.direction(), Direction::AccessoryToTun);
    assert!(w.check(true));
    assert_eq!(w.on_read(&[0u8; 8], ReadOutcome::Failed), None);
    assert!(w.is_finished());
}

#[test]
fn worker_stops_on_write_failure() {
    let mut w = Worker::new(Direction::TunToAccessory);
    assert!(w.check(true));
    assert_eq!(w.on_read(&[5u8; 8], ReadOutcome::Data(8)), Some(8));
    assert!(!w.on_write(false));
    assert!(w.is_finished());
}

#[test]
fn sibling_leaves_after_fault() {
    let mut t = Tunnel::new();
    assert_eq!(t.start(true, true), Ok(0));
    let mut a = Worker::new(Direction::TunToAccessory);
    let mut b = Worker::new(Direction::AccessoryToTun);
    assert!(a.check(t.is_started()));
    assert!(b.check(t.is_started()));
    assert_eq!(a.on_read(&[0u8; 4], ReadOutcome::Failed), None);
    t.worker_exited();
    assert_eq!(b.on_read(&[1u8; 4], ReadOutcome::Data(4)), Some(4));
    assert!(b.on_write(true));
    assert!(!b.check(t.is_started()));
    assert!(b.is_finished());
    assert_eq!(t.stop(), 2);
}
