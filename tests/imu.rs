use slimevr_firmware::imu::{
    on_sample, poll_once, stub_device_type, DeviceType, FusedImu, ImuPacket, SensorAction,
};
use slimevr_firmware::packets::Packets;
use slimevr_firmware::ShutdownReason;

#[test]
fn sample_is_tagged_and_queued() {
    let mut store: Packets<ImuPacket<[i32; 4]>> = Packets::new(2);
    let r = on_sample::<[i32; 4], ()>(DeviceType::Mpu6050, Ok([1, 0, 0, 0]), &mut store);
    assert!(matches!(r, SensorAction::Sent));
    let p = store.pop().unwrap();
    assert_eq!(p.device, DeviceType::Mpu6050);
    assert_eq!(p.quat, [1, 0, 0, 0]);
}

#[test]
fn would_block_yields_without_queueing() {
    let mut store: Packets<ImuPacket<u8>> = Packets::new(2);
    let r = on_sample::<u8, ()>(DeviceType::Mpu6050, Err(nb::Error::WouldBlock), &mut store);
    assert!(matches!(r, SensorAction::Yield));
    assert!(store.is_empty());
}

#[test]
fn read_error_is_reported() {
    let mut store: Packets<ImuPacket<u8>> = Packets::new(2);
    let r = on_sample::<u8, u16>(DeviceType::Mpu6050, Err(nb::Error::Other(42)), &mut store);
    assert!(matches!(r, SensorAction::Failed(42)));
    assert!(store.is_empty());
}

#[test]
fn full_store_applies_backpressure() {
    let mut store: Packets<ImuPacket<u8>> = Packets::new(1);
    let tag = stub_device_type();
    assert!(matches!(on_sample::<u8, ()>(tag, Ok(1), &mut store), SensorAction::Sent));
    match on_sample::<u8, ()>(tag, Ok(2), &mut store) {
        SensorAction::Backpressure(p) => {
            assert_eq!(p.quat, 2);
            assert_eq!(p.device, DeviceType::Unknown(0xFF));
        }
        _ => panic!("expected backpressure"),
    }
    assert_eq!(store.len(), 1);
    assert_eq!(store.pop().unwrap().quat, 1);
}

#[test]
fn stub_tag_is_unknown_sentinel() {
    assert_eq!(stub_device_type(), DeviceType::Unknown(0xFF));
}

#[test]
fn shutdown_reason_compares() {
    let r = ShutdownReason::CtrlC;
    assert_eq!(r, ShutdownReason::CtrlC);
}

/// Replays a fixed list of poll outcomes.
struct Scripted {
    outcomes: Vec<nb::Result<i16, u8>>,
}

impl FusedImu for Scripted {
    type Sample = i16;
    type Error = u8;

    fn device_type() -> DeviceType {
        DeviceType::Unknown(7)
    }

    fn quat(&mut self) -> nb::Result<i16, u8> {
        self.outcomes.remove(0)
    }
}

#[test]
fn poll_once_runs_the_sensor_task_step() {
    let mut imu = Scripted {
        outcomes: vec![
            Ok(1),
            Err(nb::Error::WouldBlock),
            Err(nb::Error::Other(9)),
            Ok(2),
            Ok(3),
        ],
    };
    let mut store: Packets<ImuPacket<i16>> = Packets::new(2);
    assert!(matches!(poll_once(&mut imu, &mut store), SensorAction::Sent));
    assert!(matches!(poll_once(&mut imu, &mut store), SensorAction::Yield));
    assert!(matches!(poll_once(&mut imu, &mut store), SensorAction::Failed(9)));
    assert!(matches!(poll_once(&mut imu, &mut store), SensorAction::Sent));
    match poll_once(&mut imu, &mut store) {
        SensorAction::Backpressure(p) => assert_eq!(p.quat, 3),
        _ => panic!("expected backpressure"),
    }
    let first = store.pop().unwrap();
    assert_eq!(first.device, DeviceType::Unknown(7));
    assert_eq!(first.quat, 1);
    assert_eq!(store.pop().unwrap().quat, 2);
    assert!(store.pop().is_none());
}
