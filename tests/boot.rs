use slimevr_firmware::boot::{Boot, BootError, BootStep, Stage, Task};

fn prepared(with_logger: bool) -> Boot {
    let mut b = Boot::new(with_logger);
    for s in [
        BootStep::SetupGlobals,
        BootStep::Provision,
        BootStep::Settle,
        BootStep::InitStore,
        BootStep::InitScheduler,
    ] {
        assert_eq!(b.step(s), Ok(()));
    }
    b
}

#[test]
fn full_boot_reaches_running() {
    let mut b = prepared(false);
    assert_eq!(b.stage(), Stage::SchedulerReady);
    for t in [Task::Network, Task::Protocol, Task::Imu] {
        assert_eq!(b.step(BootStep::Spawn(t)), Ok(()));
        assert!(b.spawned(t));
    }
    assert_eq!(b.step(BootStep::Run), Ok(()));
    assert_eq!(b.stage(), Stage::Running);
}

#[test]
fn spawn_before_provisioning_is_refused() {
    let mut b = Boot::new(false);
    assert_eq!(b.step(BootStep::Spawn(Task::Imu)), Err(BootError::OutOfOrder));
    assert_eq!(b.step(BootStep::SetupGlobals), Ok(()));
    assert_eq!(b.step(BootStep::Spawn(Task::Network)), Err(BootError::OutOfOrder));
    assert!(!b.spawned(Task::Network));
    assert_eq!(b.step(BootStep::InitStore), Err(BootError::OutOfOrder));
    assert_eq!(b.stage(), Stage::GlobalsReady);
}

#[test]
fn second_initialization_is_refused() {
    let mut b = prepared(false);
    assert_eq!(b.step(BootStep::InitStore), Err(BootError::Repeated));
    assert_eq!(b.step(BootStep::InitScheduler), Err(BootError::Repeated));
    assert_eq!(b.step(BootStep::Provision), Err(BootError::Repeated));
    assert_eq!(b.stage(), Stage::SchedulerReady);
}

#[test]
fn task_set_is_fixed() {
    let mut b = prepared(false);
    assert_eq!(b.step(BootStep::Spawn(Task::Network)), Ok(()));
    assert_eq!(b.step(BootStep::Spawn(Task::Network)), Err(BootError::AlreadySpawned));
    assert_eq!(b.step(BootStep::Spawn(Task::Logger)), Err(BootError::NotConfigured));
    assert_eq!(b.step(BootStep::Run), Err(BootError::TasksMissing));
    assert_eq!(b.step(BootStep::Spawn(Task::Protocol)), Ok(()));
    assert_eq!(b.step(BootStep::Spawn(Task::Imu)), Ok(()));
    assert_eq!(b.step(BootStep::Run), Ok(()));
    assert_eq!(b.step(BootStep::Spawn(Task::Logger)), Err(BootError::AlreadyRunning));
    assert_eq!(b.step(BootStep::Run), Err(BootError::AlreadyRunning));
}

#[test]
fn logger_task_when_configured() {
    let mut b = prepared(true);
    for t in [Task::Network, Task::Protocol, Task::Imu] {
        assert_eq!(b.step(BootStep::Spawn(t)), Ok(()));
    }
    assert_eq!(b.step(BootStep::Run), Err(BootError::TasksMissing));
    assert_eq!(b.step(BootStep::Spawn(Task::Logger)), Ok(()));
    assert_eq!(b.step(BootStep::Run), Ok(()));
}
