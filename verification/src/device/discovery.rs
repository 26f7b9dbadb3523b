use crate::device::constants::{MELODY_SMART_DATA_CHARACTERISTIC_ID, MELODY_SMART_SERVICE_ID};
use crate::error::DeviceError;
use vstd::prelude::*;

verus! {

/// Names a peripheral by its place in the listing in which it was found: the
/// number of the adapter, and the number of the peripheral among those that
/// this adapter sees.
#[derive(Debug, Clone, Copy, PartialEq, Eq, Structural)]
pub struct PeripheralHandle {
    pub adapter: usize,
    pub peripheral: usize,
}

/// Names a characteristic of the connected peripheral by its place among the
/// discovered services: the number of the service, and the number of the
/// characteristic within it.
#[derive(Debug, Clone, Copy, PartialEq, Eq, Structural)]
pub struct CharacteristicHandle {
    pub service: usize,
    pub characteristic: usize,
}

/// What a peripheral answered when it was asked for its properties.
#[derive(Debug, PartialEq, Eq)]
pub enum PeripheralProperties {
    /// The query failed.
    Failed,
    /// The peripheral has no properties.
    Missing,
    /// The UUIDs of the services that the peripheral advertises.
    Services(Vec<u128>),
}

/// What an adapter answered when it was asked for the peripherals it sees.
#[derive(Debug, PartialEq, Eq)]
pub enum AdapterPeripherals {
    /// The query failed.
    Failed,
    /// The peripherals, in the order in which the adapter gave them.
    Visible(Vec<PeripheralProperties>),
}

/// A service discovered on a connected peripheral.
#[derive(Debug, PartialEq, Eq)]
pub struct Service {
    /// The UUID of the service.
    pub uuid: u128,
    /// The UUIDs of its characteristics, in the order of discovery.
    pub characteristics: Vec<u128>,
}

/// Place `(a1, b1)` comes before place `(a2, b2)` in a listing of lists.
pub open spec fn comes_before(a1: int, b1: int, a2: int, b2: int) -> bool {
    a1 < a2 || (a1 == a2 && b1 < b2)
}

/// Peripheral `p` of adapter `a` is listed with its properties and advertises
/// the service of the sensor.
pub open spec fn advertises_sensor(adapters: Seq<AdapterPeripherals>, a: int, p: int) -> bool {
    &&& 0 <= a < adapters.len()
    &&& adapters[a] matches AdapterPeripherals::Visible(peripherals)
    &&& 0 <= p < peripherals@.len()
    &&& peripherals@[p] matches PeripheralProperties::Services(services)
    &&& services@.contains(MELODY_SMART_SERVICE_ID)
}

/// `handle` names the first peripheral of the listing that advertises the
/// service of the sensor.
pub open spec fn is_first_sensor(
    adapters: Seq<AdapterPeripherals>,
    handle: PeripheralHandle,
) -> bool {
    &&& advertises_sensor(adapters, handle.adapter as int, handle.peripheral as int)
    &&& forall|a: int, p: int|
        comes_before(a, p, handle.adapter as int, handle.peripheral as int)
            ==> !advertises_sensor(adapters, a, p)
}

/// The first peripheral of the listing that advertises the service of the
/// sensor, if there is one.
pub open spec fn first_sensor(adapters: Seq<AdapterPeripherals>) -> Option<PeripheralHandle> {
    if exists|handle: PeripheralHandle| is_first_sensor(adapters, handle) {
        Some(choose|handle: PeripheralHandle| is_first_sensor(adapters, handle))
    } else {
        None
    }
}

/// At most one handle names the first sensor of a listing.
pub proof fn lemma_first_sensor_unique(
    adapters: Seq<AdapterPeripherals>,
    h1: PeripheralHandle,
    h2: PeripheralHandle,
)
    requires
        is_first_sensor(adapters, h1),
        is_first_sensor(adapters, h2),
    ensures
        h1 == h2,
{
    if h1 != h2 {
        let (adapter1, place1) = (h1.adapter as int, h1.peripheral as int);
        let (adapter2, place2) = (h2.adapter as int, h2.peripheral as int);
        assert(comes_before(adapter1, place1, adapter2, place2) || comes_before(
            adapter2,
            place2,
            adapter1,
            place1,
        ));
    }
}

/// Where a peripheral of the listing advertises the service of the sensor,
/// one of them is the first.
pub proof fn lemma_advertised_sensor_has_first(adapters: &Vec<AdapterPeripherals>, a: int, p: int)
    requires
        advertises_sensor(adapters@, a, p),
    ensures
        first_sensor(adapters@) is Some,
    decreases a, p,
{
    if exists|a0: int, p0: int|
        comes_before(a0, p0, a, p) && advertises_sensor(adapters@, a0, p0) {
        let (a0, p0) = choose|a0: int, p0: int|
            comes_before(a0, p0, a, p) && advertises_sensor(adapters@, a0, p0);
        lemma_advertised_sensor_has_first(adapters, a0, p0);
    } else {
        let handle = PeripheralHandle { adapter: a as usize, peripheral: p as usize };
        assert(adapters.len() == adapters@.len());
        if let AdapterPeripherals::Visible(peripherals) = adapters@[a] {
            assert(peripherals.len() == peripherals@.len());
        }
        assert(is_first_sensor(adapters@, handle));
    }
}

/// A listing has a first sensor exactly if one of its peripherals advertises
/// the service of the sensor.
pub proof fn lemma_first_sensor_iff_advertised(adapters: &Vec<AdapterPeripherals>)
    ensures
        first_sensor(adapters@) is Some <==> exists|a: int, p: int|
            advertises_sensor(adapters@, a, p),
{
    if exists|a: int, p: int| advertises_sensor(adapters@, a, p) {
        let (a, p) = choose|a: int, p: int| advertises_sensor(adapters@, a, p);
        lemma_advertised_sensor_has_first(adapters, a, p);
    }
    if first_sensor(adapters@) is Some {
        let handle = choose|handle: PeripheralHandle| is_first_sensor(adapters@, handle);
        assert(advertises_sensor(adapters@, handle.adapter as int, handle.peripheral as int));
    }
}

/// Characteristic `c` of service `s` is the data characteristic of the
/// sensor, within the service of the sensor.
pub open spec fn is_data_characteristic(services: Seq<Service>, s: int, c: int) -> bool {
    &&& 0 <= s < services.len()
    &&& services[s].uuid == MELODY_SMART_SERVICE_ID
    &&& 0 <= c < services[s].characteristics@.len()
    &&& services[s].characteristics@[c] == MELODY_SMART_DATA_CHARACTERISTIC_ID
}

/// `handle` names the first data characteristic among the services.
pub open spec fn is_first_data_characteristic(
    services: Seq<Service>,
    handle: CharacteristicHandle,
) -> bool {
    &&& is_data_characteristic(services, handle.service as int, handle.characteristic as int)
    &&& forall|s: int, c: int|
        comes_before(s, c, handle.service as int, handle.characteristic as int)
            ==> !is_data_characteristic(services, s, c)
}

/// The first data characteristic among the services, if there is one.
pub open spec fn first_data_characteristic(services: Seq<Service>) -> Option<CharacteristicHandle> {
    if exists|handle: CharacteristicHandle| is_first_data_characteristic(services, handle) {
        Some(choose|handle: CharacteristicHandle| is_first_data_characteristic(services, handle))
    } else {
        None
    }
}

/// At most one handle names the first data characteristic.
pub proof fn lemma_first_data_characteristic_unique(
    services: Seq<Service>,
    h1: CharacteristicHandle,
    h2: CharacteristicHandle,
)
    requires
        is_first_data_characteristic(services, h1),
        is_first_data_characteristic(services, h2),
    ensures
        h1 == h2,
{
    if h1 != h2 {
        let (service1, place1) = (h1.service as int, h1.characteristic as int);
        let (service2, place2) = (h2.service as int, h2.characteristic as int);
        assert(comes_before(service1, place1, service2, place2) || comes_before(
            service2,
            place2,
            service1,
            place1,
        ));
    }
}

/// Whether `ids` holds `id`.
pub fn contains_uuid(ids: &Vec<u128>, id: u128) -> (found: bool)
    ensures
        found == ids@.contains(id),
{
    let mut i: usize = 0;
    while i < ids.len()
        invariant
            i <= ids.len(),
            forall|j: int| 0 <= j < i ==> ids@[j] != id,
        decreases ids.len() - i,
    {
        if ids[i] == id {
            return true;
        }
        i += 1;
    }
    false
}

/// Searches what the adapters see for the sensor: the first peripheral, in
/// the order of the listing, whose properties are known and name the service
/// of the sensor. An adapter or a peripheral whose query failed is passed
/// over.
pub fn find_peripheral(adapters: &Vec<AdapterPeripherals>) -> (found: Option<PeripheralHandle>)
    ensures
        found == first_sensor(adapters@),
        found matches Some(handle) ==> is_first_sensor(adapters@, handle),
        found is None ==> forall|a: int, p: int| !advertises_sensor(adapters@, a, p),
{
    let mut a: usize = 0;
    while a < adapters.len()
        invariant
            a <= adapters.len(),
            forall|a0: int, p0: int| a0 < a ==> !advertises_sensor(adapters@, a0, p0),
        decreases adapters.len() - a,
    {
        match &adapters[a] {
            AdapterPeripherals::Failed => {},
            AdapterPeripherals::Visible(peripherals) => {
                let mut p: usize = 0;
                while p < peripherals.len()
                    invariant
                        a < adapters.len(),
                        adapters@[a as int] == AdapterPeripherals::Visible(*peripherals),
                        p <= peripherals.len(),
                        forall|a0: int, p0: int|
                            a0 < a ==> !advertises_sensor(adapters@, a0, p0),
                        forall|p0: int| p0 < p ==> !advertises_sensor(adapters@, a as int, p0),
                    decreases peripherals.len() - p,
                {
                    match &peripherals[p] {
                        PeripheralProperties::Services(services) => {
                            if contains_uuid(services, MELODY_SMART_SERVICE_ID) {
                                let handle = PeripheralHandle { adapter: a, peripheral: p };
                                proof {
                                    assert(is_first_sensor(adapters@, handle));
                                    let chosen = choose|h: PeripheralHandle|
                                        is_first_sensor(adapters@, h);
                                    lemma_first_sensor_unique(adapters@, handle, chosen);
                                }
                                return Some(handle);
                            }
                        },
                        _ => {},
                    }
                    p += 1;
                }
            },
        }
        a += 1;
    }
    None
}

/// Searches the discovered services for the data characteristic of the
/// sensor: the first characteristic with its UUID, in the first service with
/// the UUID of the sensor's service that has one.
pub fn find_data_characteristic(services: &Vec<Service>) -> (found: Result<
    CharacteristicHandle,
    DeviceError,
>)
    ensures
        found.ok() == first_data_characteristic(services@),
        found matches Ok(handle) ==> is_first_data_characteristic(services@, handle),
        found matches Err(error) ==> error == DeviceError::MissingCharacteristic && forall|
            s: int,
            c: int,
        | !is_data_characteristic(services@, s, c),
{
    let mut s: usize = 0;
    while s < services.len()
        invariant
            s <= services.len(),
            forall|s0: int, c0: int| s0 < s ==> !is_data_characteristic(services@, s0, c0),
        decreases services.len() - s,
    {
        if services[s].uuid == MELODY_SMART_SERVICE_ID {
            let characteristics = &services[s].characteristics;
            let mut c: usize = 0;
            while c < characteristics.len()
                invariant
                    s < services.len(),
                    services@[s as int].uuid == MELODY_SMART_SERVICE_ID,
                    *characteristics == services@[s as int].characteristics,
                    c <= characteristics.len(),
                    forall|s0: int, c0: int|
                        s0 < s ==> !is_data_characteristic(services@, s0, c0),
                    forall|c0: int| c0 < c ==> !is_data_characteristic(services@, s as int, c0),
                decreases characteristics.len() - c,
            {
                if characteristics[c] == MELODY_SMART_DATA_CHARACTERISTIC_ID {
                    let handle = CharacteristicHandle { service: s, characteristic: c };
                    proof {
                        assert(is_first_data_characteristic(services@, handle));
                        let chosen = choose|h: CharacteristicHandle|
                            is_first_data_characteristic(services@, h);
                        lemma_first_data_characteristic_unique(services@, handle, chosen);
                    }
                    return Ok(handle);
                }
                c += 1;
            }
        }
        s += 1;
    }
    Err(DeviceError::MissingCharacteristic)
}

} // verus!
