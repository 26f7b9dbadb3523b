use vstd::prelude::*;

verus! {

/// What the rest of the program is told about the link to the sensor.
#[derive(Debug, Clone, Copy, PartialEq, Eq, Structural)]
pub enum DeviceState {
    /// Nothing has been reported yet.
    Initial,
    /// Looking for the sensor. `no_permission` is set when the last attempt to
    /// start a scan was refused for lack of permission.
    Scanning { no_permission: bool },
    /// A sensor was found and is being connected.
    Connecting,
    /// The sensor is connected and delivers breath values.
    Connected,
}

/// An event sent to every subscriber.
#[derive(Debug, Clone, Copy, PartialEq, Eq, Structural)]
pub enum DeviceEvent {
    /// The link to the sensor changed.
    StateChange(DeviceState),
    /// A new breath strength in percent: negative while sipping, positive
    /// while puffing, 0 at rest.
    Breath(i8),
}

/// An event on its way to one subscriber.
#[derive(Debug, Clone, Copy, PartialEq, Eq, Structural)]
pub struct Delivery {
    /// The number of the subscriber, in the order of registration.
    pub subscriber: usize,
    /// The event.
    pub event: DeviceEvent,
}

/// Hands an event to every subscriber: one delivery for each, in the order
/// of registration, each with the same event.
pub fn fan_out(event: DeviceEvent, subscribers: usize) -> (deliveries: Vec<Delivery>)
    ensures
        deliveries@.len() == subscribers,
        forall|i: int|
            0 <= i < subscribers ==> deliveries@[i] == (Delivery { subscriber: i as usize, event }),
{
    let mut deliveries: Vec<Delivery> = Vec::new();
    let mut subscriber: usize = 0;
    while subscriber < subscribers
        invariant
            subscriber <= subscribers,
            deliveries@.len() == subscriber,
            forall|i: int|
                0 <= i < subscriber ==> deliveries@[i] == (Delivery {
                    subscriber: i as usize,
                    event,
                }),
        decreases subscribers - subscriber,
    {
        deliveries.push(Delivery { subscriber, event });
        subscriber += 1;
    }
    deliveries
}

} // verus!
