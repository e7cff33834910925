use vstd::prelude::*;

use crate::packets::{enqueue, Packets};

verus! {

/// Relies on `nb::Error`, the error half of a non-blocking call's result: a
/// public enum whose two variants are `Other(E)`, a failure, and `WouldBlock`,
/// no result yet. Declared with its variants visible so that verified code can
/// match on them.
#[verifier::external_type_specification]
#[verifier::reject_recursive_types(E)]
pub struct ExNbError<E>(nb::Error<E>);

/// Which kind of sensor produced a sample; fixed for the life of a driver and
/// sent with every orientation packet.
#[derive(Clone, Copy, Debug, PartialEq, Eq)]
pub enum DeviceType {
    Mpu6050,
    /// Any other sensor, by its raw code.
    Unknown(u8),
}

/// The tag of the stand-in driver that needs no hardware.
pub fn stub_device_type() -> (r: DeviceType)
    ensures
        r == DeviceType::Unknown(0xFF),
{
    DeviceType::Unknown(0xFF)
}

/// One orientation sample and the kind of sensor that produced it.
pub struct ImuPacket<Q> {
    pub device: DeviceType,
    pub quat: Q,
}

/// What the sensor task does after one poll of its driver.
pub enum SensorAction<Q, E> {
    /// The sample was queued for the network task.
    Sent,
    /// The store was full: the packet is handed back to be offered again.
    Backpressure(ImuPacket<Q>),
    /// The sensor had no new data; yield and poll again.
    Yield,
    /// The read failed; report it and poll again on the next slot.
    Failed(E),
}

/// The sensor task's decision on one poll outcome of a driver of kind
/// `device`: a sample is tagged and offered to the store, and nothing else
/// touches it.
pub fn on_sample<Q, E>(
    device: DeviceType,
    outcome: Result<Q, nb::Error<E>>,
    store: &mut Packets<ImuPacket<Q>>,
) -> (r: SensorAction<Q, E>)
    requires
        old(store).wf(),
    ensures
        final(store).wf(),
        final(store).cap() == old(store).cap(),
        match outcome {
            Ok(q) => {
                let p = ImuPacket { device, quat: q };
                &&& final(store)@ == enqueue(old(store)@, old(store).cap(), p)
                &&& old(store)@.len() < old(store).cap() ==> r is Sent
                &&& old(store)@.len() >= old(store).cap() ==> r == SensorAction::<Q, E>::Backpressure(p)
            },
            Err(nb::Error::WouldBlock) => r is Yield && final(store)@ == old(store)@,
            Err(nb::Error::Other(e)) => r == SensorAction::<Q, E>::Failed(e) && final(store)@ == old(store)@,
        },
{
    match outcome {
        Ok(q) => {
            let p = ImuPacket { device, quat: q };
            match store.push(p) {
                Ok(()) => SensorAction::Sent,
                Err(p) => SensorAction::Backpressure(p),
            }
        },
        Err(nb::Error::WouldBlock) => SensorAction::Yield,
        Err(nb::Error::Other(e)) => SensorAction::Failed(e),
    }
}

/// The capability every orientation-sensor driver offers: a non-blocking read
/// of one orientation sample, and the fixed kind of sensor it drives.
pub trait FusedImu {
    type Sample;

    type Error;

    /// The kind of sensor; the same for every call on one driver type.
    fn device_type() -> DeviceType;

    /// One fresh sample; `WouldBlock` while the sensor has no new data.
    fn quat(&mut self) -> Result<Self::Sample, nb::Error<Self::Error>>;
}

/// One pass of the sensor task: polls `imu` once and queues what it produced,
/// tagged with the driver's kind. Whatever the driver returned, the store
/// either gains that one packet at the back or keeps its packets as they were.
pub fn poll_once<I: FusedImu>(imu: &mut I, store: &mut Packets<ImuPacket<I::Sample>>) -> (r:
    SensorAction<I::Sample, I::Error>)
    requires
        old(store).wf(),
    ensures
        final(store).wf(),
        final(store).cap() == old(store).cap(),
        r is Sent <==> final(store)@.len() == old(store)@.len() + 1,
        r is Sent ==> final(store)@.drop_last() == old(store)@,
        !(r is Sent) ==> final(store)@ == old(store)@,
{
    let device = I::device_type();
    let outcome = imu.quat();
    on_sample(device, outcome, store)
}

} // verus!
