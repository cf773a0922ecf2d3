//! Fixed protocol identifiers of the device, and the two predicates that
//! recognise it: one over what it advertises, one over what it serves.

use vstd::prelude::*;

verus! {

/// Bulk data service.
pub const BULK_SERVICE_UUID: u128 = 0x9eae1000_9d0d_48c5_aa55_33e27f9bc533;

/// Live data service, companion of the bulk service.
pub const LIVE_SERVICE_UUID: u128 = 0xd85ef000_168e_4a71_aa55_33e27f9bc533;

/// Settings service, companion of the bulk service.
pub const SETTINGS_SERVICE_UUID: u128 = 0xf6d80000_5a10_4eba_aa55_33e27f9bc533;

/// Characteristic that serves the telemetry record.
pub const BULK_LIVE_CHAR_UUID: u128 = 0x9eae1001_9d0d_48c5_aa55_33e27f9bc533;

/// Characteristic that serves the firmware build string.
pub const BULK_BUILD_CHAR_UUID: u128 = 0x9eae1003_9d0d_48c5_aa55_33e27f9bc533;

/// Characteristic that serves the device ID.
pub const BULK_DEVICE_ID_CHAR_UUID: u128 = 0x9eae1005_9d0d_48c5_aa55_33e27f9bc533;

/// What the transport knows of a peripheral at the moment of an event.
#[derive(Debug)]
pub struct DeviceSnapshot {
    /// Radio address of the peripheral.
    pub address: u64,
    /// Service identifiers seen in its advertisements, where it advertised any.
    pub advertised: Option<Vec<u128>>,
    /// Whether the transport holds a connection to it.
    pub connected: bool,
}

/// The services that a device must expose before it is polled.
pub open spec fn required_services() -> Set<u128> {
    set![BULK_SERVICE_UUID, LIVE_SERVICE_UUID, SETTINGS_SERVICE_UUID]
}

/// A peripheral is the target device when its advertisement lists the bulk
/// service; one that advertises no service list is not.
pub open spec fn advertises_target(advertised: Option<Vec<u128>>) -> bool {
    advertised matches Some(services) && services@.contains(BULK_SERVICE_UUID)
}

/// A manifest is complete when every required service occurs in it.
pub open spec fn manifest_complete(manifest: Seq<u128>) -> bool {
    required_services().subset_of(manifest.to_set())
}

/// Looks a characteristic up among those that a device exposes: the
/// position of the first one with the given identifier, or nothing when the
/// device exposes none.
pub fn find_characteristic(characteristics: &[u128], uuid: u128) -> (position: Option<usize>)
    ensures
        position is None <==> !characteristics@.contains(uuid),
        position matches Some(at) ==> at < characteristics@.len() && characteristics@[at as int] == uuid
            && !characteristics@.take(at as int).contains(uuid),
{
    let mut i: usize = 0;
    while i < characteristics.len()
        invariant
            i <= characteristics@.len(),
            forall|j: int| 0 <= j < i ==> characteristics@[j] != uuid,
        decreases characteristics@.len() - i,
    {
        if characteristics[i] == uuid {
            return Some(i);
        }
        i += 1;
    }
    None
}

fn lists(services: &[u128], uuid: u128) -> (found: bool)
    ensures
        found == services@.contains(uuid),
{
    match find_characteristic(services, uuid) {
        Some(_) => true,
        None => false,
    }
}

/// Classifies a discovered peripheral from its advertisement alone.
pub fn is_target(device: &DeviceSnapshot) -> (target: bool)
    ensures
        target == advertises_target(device.advertised),
{
    match &device.advertised {
        Some(services) => lists(services.as_slice(), BULK_SERVICE_UUID),
        None => false,
    }
}

/// Checks the service manifest of a connected device: true exactly when the
/// manifest holds all three required services, whatever else it holds.
pub fn has_required_services(manifest: &[u128]) -> (complete: bool)
    ensures
        complete == manifest_complete(manifest@),
        complete == (manifest@.contains(BULK_SERVICE_UUID) && manifest@.contains(LIVE_SERVICE_UUID)
            && manifest@.contains(SETTINGS_SERVICE_UUID)),
{
    let complete = lists(manifest, BULK_SERVICE_UUID) && lists(manifest, LIVE_SERVICE_UUID) && lists(
        manifest,
        SETTINGS_SERVICE_UUID,
    );
    proof {
        if complete {
            assert forall|u: u128| required_services().contains(u) implies manifest@.to_set().contains(u) by {}
        } else {
            assert(required_services().contains(BULK_SERVICE_UUID));
            assert(required_services().contains(LIVE_SERVICE_UUID));
            assert(required_services().contains(SETTINGS_SERVICE_UUID));
        }
    }
    complete
}

} // verus!
