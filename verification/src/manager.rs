//! Lifecycle controller: the single state machine that follows every device
//! from discovery to polling.
//!
//! The controller decides; its driver performs. The driver takes the
//! transport's events in arrival order, resolves the device each one names,
//! hands the event to the controller and carries out the reaction. What a
//! request brings back (a service manifest, the identity values, a failure)
//! is handed to the controller as an event of its own. The driver never
//! waits for a polling session to end: sessions run beside it and are
//! cancelled through the reaction.

use crate::bulk::DecodeError;
use crate::identity::{decode_identity, identity_of};
use crate::protocol::{advertises_target, has_required_services, is_target, manifest_complete, DeviceSnapshot};
use std::collections::HashMap;
use vstd::prelude::*;

verus! {

broadcast use vstd::std_specs::hash::group_hash_axioms;

/// Why no transport could be set up.
#[derive(Debug, Clone, Copy, PartialEq, Eq, Structural)]
pub enum SetupError {
    /// The machine has no radio adapter.
    NoAdaptersFound,
}

/// Picks the adapter to scan with: the first of those enumerated. With none
/// there, startup fails.
pub fn get_first_adapter(adapters: usize) -> (r: Result<usize, SetupError>)
    ensures
        adapters == 0 ==> r == Err::<usize, SetupError>(SetupError::NoAdaptersFound),
        adapters > 0 ==> r == Ok::<usize, SetupError>(0),
{
    if adapters == 0 {
        Err(SetupError::NoAdaptersFound)
    } else {
        Ok(0)
    }
}

/// Why a device was given up.
#[derive(Debug, Clone, Copy, PartialEq, Eq, Structural)]
pub enum Failure {
    /// A connect or service-discovery request failed in the transport.
    TransportFailed,
    /// The service manifest lacks a required service.
    ServiceValidationFailed,
    /// An identity characteristic is missing or could not be read.
    IdentityReadFailed,
    /// The identity values were read but do not decode.
    IdentityInvalid(DecodeError),
    /// The polling session stopped by itself.
    SessionEnded,
}

/// Where the controller has a device.
#[derive(Debug, Clone, Copy, PartialEq, Eq, Structural)]
pub enum Phase {
    /// Seen and recognised, found connected already.
    Discovered,
    /// A connect request is out.
    Connecting,
    /// Connected; its services are being discovered.
    Connected,
    /// The manifest is complete; its identity is being read.
    Validated,
    /// A polling session runs for it.
    Polling,
    /// Seen to disconnect.
    Disconnected,
    /// Given up; it stays as it is until it advertises or connects again.
    Failed(Failure),
}

/// What the driver hands to the controller.
#[derive(Debug)]
pub enum DeviceEvent {
    /// The transport discovered a peripheral.
    Discovered(DeviceSnapshot),
    /// The transport saw a known peripheral advertise again.
    Updated(DeviceSnapshot),
    /// The transport connected to a peripheral.
    Connected(DeviceSnapshot),
    /// The transport lost the connection to a peripheral.
    Disconnected(DeviceSnapshot),
    /// Service discovery finished with this manifest.
    ServicesDiscovered { address: u64, manifest: Vec<u128> },
    /// Both identity characteristics were read.
    IdentityRead { address: u64, build: Vec<u8>, device_id: Vec<u8> },
    /// An identity characteristic is missing or its read failed.
    IdentityUnavailable { address: u64 },
    /// A connect or service-discovery request failed.
    TransportFailed { address: u64 },
    /// The polling session of the device stopped by itself.
    SessionEnded { address: u64 },
    /// Any other transport event.
    Other,
}

/// What the controller asks the driver to do next.
#[derive(Debug, PartialEq, Eq)]
pub enum Request {
    /// Nothing.
    Nothing,
    /// Connect to the device.
    Connect(u64),
    /// Discover the services of the device and report its manifest.
    DiscoverServices(u64),
    /// Read the build and device-ID characteristics and report them.
    ReadIdentity(u64),
    /// Start a polling session whose messages carry `device_id`.
    StartPolling { address: u64, build: String, device_id: String },
    /// Report that the device was given up; it is not disconnected.
    Abandon { address: u64, failure: Failure },
}

/// The controller's answer to one event.
#[derive(Debug, PartialEq, Eq)]
pub struct Reaction {
    /// The device whose polling session is to be cancelled, if any.
    pub cancel: Option<u64>,
    /// What to do next.
    pub request: Request,
}

/// A request as contracts speak of it.
pub enum RequestView {
    Nothing,
    Connect(u64),
    DiscoverServices(u64),
    ReadIdentity(u64),
    StartPolling { address: u64, build: Seq<char>, device_id: Seq<char> },
    Abandon { address: u64, failure: Failure },
}

/// A reaction as contracts speak of it.
pub struct ReactionView {
    pub cancel: Option<u64>,
    pub request: RequestView,
}

impl View for Request {
    type V = RequestView;

    open spec fn view(&self) -> RequestView {
        match self {
            Request::Nothing => RequestView::Nothing,
            Request::Connect(address) => RequestView::Connect(*address),
            Request::DiscoverServices(address) => RequestView::DiscoverServices(*address),
            Request::ReadIdentity(address) => RequestView::ReadIdentity(*address),
            Request::StartPolling { address, build, device_id } => RequestView::StartPolling {
                address: *address,
                build: build@,
                device_id: device_id@,
            },
            Request::Abandon { address, failure } => RequestView::Abandon {
                address: *address,
                failure: *failure,
            },
        }
    }
}

impl View for Reaction {
    type V = ReactionView;

    open spec fn view(&self) -> ReactionView {
        ReactionView { cancel: self.cancel, request: self.request@ }
    }
}

/// Whether a polling session runs for the device at `address`.
pub open spec fn is_polling(devices: Map<u64, Phase>, address: u64) -> bool {
    devices.contains_key(address) && devices[address] is Polling
}

/// Whether the controller has the device at `address` in `phase`.
pub open spec fn in_phase(devices: Map<u64, Phase>, address: u64, phase: Phase) -> bool {
    devices.contains_key(address) && devices[address] == phase
}

/// The reaction that asks for nothing.
pub open spec fn no_reaction() -> ReactionView {
    ReactionView { cancel: None, request: RequestView::Nothing }
}

/// The reaction that only makes a request.
pub open spec fn only(request: RequestView) -> ReactionView {
    ReactionView { cancel: None, request }
}

/// The session to cancel when the device at `address` leaves polling.
pub open spec fn session_to_cancel(devices: Map<u64, Phase>, address: u64) -> Option<u64> {
    if is_polling(devices, address) {
        Some(address)
    } else {
        None
    }
}

/// The device was given up for `failure`.
pub open spec fn give_up(devices: Map<u64, Phase>, address: u64, failure: Failure) -> (
    Map<u64, Phase>,
    ReactionView,
) {
    (devices.insert(address, Phase::Failed(failure)), only(RequestView::Abandon { address, failure }))
}

/// A target device advertised: connect unless the transport holds a
/// connection already. A session still running for a device that is no
/// longer connected is cancelled.
pub open spec fn on_advertised(devices: Map<u64, Phase>, device: DeviceSnapshot) -> (
    Map<u64, Phase>,
    ReactionView,
) {
    let address = device.address;
    if !advertises_target(device.advertised) {
        (devices, no_reaction())
    } else if !device.connected {
        (
            devices.insert(address, Phase::Connecting),
            ReactionView {
                cancel: session_to_cancel(devices, address),
                request: RequestView::Connect(address),
            },
        )
    } else if devices.contains_key(address) {
        (devices, no_reaction())
    } else {
        (devices.insert(address, Phase::Discovered), no_reaction())
    }
}

/// A target device connected: discover its services, unless it is being
/// polled already.
pub open spec fn on_connected(devices: Map<u64, Phase>, device: DeviceSnapshot) -> (
    Map<u64, Phase>,
    ReactionView,
) {
    let address = device.address;
    if !advertises_target(device.advertised) || is_polling(devices, address) {
        (devices, no_reaction())
    } else {
        (devices.insert(address, Phase::Connected), only(RequestView::DiscoverServices(address)))
    }
}

/// A target device disconnected: record it and cancel its session.
pub open spec fn on_disconnected(devices: Map<u64, Phase>, device: DeviceSnapshot) -> (
    Map<u64, Phase>,
    ReactionView,
) {
    let address = device.address;
    if !advertises_target(device.advertised) {
        (devices, no_reaction())
    } else {
        (
            devices.insert(address, Phase::Disconnected),
            ReactionView { cancel: session_to_cancel(devices, address), request: RequestView::Nothing },
        )
    }
}

/// The manifest of a connected device arrived: read its identity when the
/// manifest is complete, give the device up when it is not.
pub open spec fn on_services(devices: Map<u64, Phase>, address: u64, manifest: Seq<u128>) -> (
    Map<u64, Phase>,
    ReactionView,
) {
    if !in_phase(devices, address, Phase::Connected) {
        (devices, no_reaction())
    } else if manifest_complete(manifest) {
        (devices.insert(address, Phase::Validated), only(RequestView::ReadIdentity(address)))
    } else {
        give_up(devices, address, Failure::ServiceValidationFailed)
    }
}

/// The identity values of a validated device arrived: start polling when
/// they decode, give the device up when they do not.
pub open spec fn on_identity(
    devices: Map<u64, Phase>,
    address: u64,
    build: Seq<u8>,
    device_id: Seq<u8>,
) -> (Map<u64, Phase>, ReactionView) {
    if !in_phase(devices, address, Phase::Validated) {
        (devices, no_reaction())
    } else {
        match identity_of(build, device_id) {
            Ok((build_text, id_text)) => (
                devices.insert(address, Phase::Polling),
                only(RequestView::StartPolling { address, build: build_text, device_id: id_text }),
            ),
            Err(e) => give_up(devices, address, Failure::IdentityInvalid(e)),
        }
    }
}

/// The transition function of the controller: the device table after an
/// event, and the reaction that answers it.
pub open spec fn lifecycle_step(devices: Map<u64, Phase>, e: DeviceEvent) -> (Map<u64, Phase>, ReactionView) {
    match e {
        DeviceEvent::Discovered(device) => on_advertised(devices, device),
        DeviceEvent::Updated(device) => on_advertised(devices, device),
        DeviceEvent::Connected(device) => on_connected(devices, device),
        DeviceEvent::Disconnected(device) => on_disconnected(devices, device),
        DeviceEvent::ServicesDiscovered { address, manifest } => on_services(devices, address, manifest@),
        DeviceEvent::IdentityRead { address, build, device_id } => on_identity(
            devices,
            address,
            build@,
            device_id@,
        ),
        DeviceEvent::IdentityUnavailable { address } => if in_phase(devices, address, Phase::Validated) {
            give_up(devices, address, Failure::IdentityReadFailed)
        } else {
            (devices, no_reaction())
        },
        DeviceEvent::TransportFailed { address } => if in_phase(devices, address, Phase::Connecting)
            || in_phase(devices, address, Phase::Connected) {
            give_up(devices, address, Failure::TransportFailed)
        } else {
            (devices, no_reaction())
        },
        DeviceEvent::SessionEnded { address } => if is_polling(devices, address) {
            give_up(devices, address, Failure::SessionEnded)
        } else {
            (devices, no_reaction())
        },
        DeviceEvent::Other => (devices, no_reaction()),
    }
}

/// The lifecycle controller: for each device address, where it stands.
pub struct LifecycleController {
    devices: HashMap<u64, Phase>,
}

impl View for LifecycleController {
    type V = Map<u64, Phase>;

    closed spec fn view(&self) -> Map<u64, Phase> {
        self.devices@
    }
}

impl LifecycleController {
    /// A controller that knows no device.
    pub fn new() -> (controller: LifecycleController)
        ensures
            controller@ == Map::<u64, Phase>::empty(),
    {
        LifecycleController { devices: HashMap::new() }
    }

    /// Where the controller has the device at `address`, if it knows it.
    pub fn phase(&self, address: u64) -> (phase: Option<Phase>)
        ensures
            phase is Some <==> self@.contains_key(address),
            phase matches Some(p) ==> p == self@[address],
    {
        match self.devices.get(&address) {
            Some(phase) => Some(*phase),
            None => None,
        }
    }

    /// Whether a polling session runs for the device at `address`.
    pub fn is_polling(&self, address: u64) -> (polling: bool)
        ensures
            polling == is_polling(self@, address),
    {
        match self.phase(address) {
            Some(Phase::Polling) => true,
            _ => false,
        }
    }

    fn stands_in(&self, address: u64, phase: Phase) -> (stands: bool)
        ensures
            stands == in_phase(self@, address, phase),
    {
        match self.phase(address) {
            Some(p) => p == phase,
            None => false,
        }
    }

    fn quiet() -> (reaction: Reaction)
        ensures
            reaction@ == no_reaction(),
    {
        Reaction { cancel: None, request: Request::Nothing }
    }

    fn give_up(&mut self, address: u64, failure: Failure) -> (reaction: Reaction)
        ensures
            (final(self)@, reaction@) == give_up(old(self)@, address, failure),
    {
        self.devices.insert(address, Phase::Failed(failure));
        Reaction { cancel: None, request: Request::Abandon { address, failure } }
    }

    fn session_to_cancel(&self, address: u64) -> (cancel: Option<u64>)
        ensures
            cancel == session_to_cancel(self@, address),
    {
        if self.is_polling(address) {
            Some(address)
        } else {
            None
        }
    }

    fn advertised(&mut self, device: DeviceSnapshot) -> (reaction: Reaction)
        ensures
            (final(self)@, reaction@) == on_advertised(old(self)@, device),
    {
        let address = device.address;
        if !is_target(&device) {
            Self::quiet()
        } else if !device.connected {
            let cancel = self.session_to_cancel(address);
            self.devices.insert(address, Phase::Connecting);
            Reaction { cancel, request: Request::Connect(address) }
        } else if self.devices.contains_key(&address) {
            Self::quiet()
        } else {
            self.devices.insert(address, Phase::Discovered);
            Self::quiet()
        }
    }

    fn connected(&mut self, device: DeviceSnapshot) -> (reaction: Reaction)
        ensures
            (final(self)@, reaction@) == on_connected(old(self)@, device),
    {
        let address = device.address;
        if !is_target(&device) || self.is_polling(address) {
            Self::quiet()
        } else {
            self.devices.insert(address, Phase::Connected);
            Reaction { cancel: None, request: Request::DiscoverServices(address) }
        }
    }

    fn disconnected(&mut self, device: DeviceSnapshot) -> (reaction: Reaction)
        ensures
            (final(self)@, reaction@) == on_disconnected(old(self)@, device),
    {
        let address = device.address;
        if !is_target(&device) {
            Self::quiet()
        } else {
            let cancel = self.session_to_cancel(address);
            self.devices.insert(address, Phase::Disconnected);
            Reaction { cancel, request: Request::Nothing }
        }
    }

    fn services(&mut self, address: u64, manifest: Vec<u128>) -> (reaction: Reaction)
        ensures
            (final(self)@, reaction@) == on_services(old(self)@, address, manifest@),
    {
        if !self.stands_in(address, Phase::Connected) {
            Self::quiet()
        } else if has_required_services(manifest.as_slice()) {
            self.devices.insert(address, Phase::Validated);
            Reaction { cancel: None, request: Request::ReadIdentity(address) }
        } else {
            self.give_up(address, Failure::ServiceValidationFailed)
        }
    }

    fn identity(&mut self, address: u64, build: Vec<u8>, device_id: Vec<u8>) -> (reaction: Reaction)
        ensures
            (final(self)@, reaction@) == on_identity(old(self)@, address, build@, device_id@),
    {
        if !self.stands_in(address, Phase::Validated) {
            return Self::quiet();
        }
        match decode_identity(build.as_slice(), device_id.as_slice()) {
            Ok((build_text, id_text)) => {
                self.devices.insert(address, Phase::Polling);
                Reaction {
                    cancel: None,
                    request: Request::StartPolling { address, build: build_text, device_id: id_text },
                }
            },
            Err(e) => self.give_up(address, Failure::IdentityInvalid(e)),
        }
    }

    /// Takes one event and answers with the reaction that the transition
    /// function gives. Every event is answered; none makes the controller
    /// fail.
    pub fn process_event(&mut self, event: DeviceEvent) -> (reaction: Reaction)
        ensures
            (final(self)@, reaction@) == lifecycle_step(old(self)@, event),
    {
        match event {
            DeviceEvent::Discovered(device) => self.advertised(device),
            DeviceEvent::Updated(device) => self.advertised(device),
            DeviceEvent::Connected(device) => self.connected(device),
            DeviceEvent::Disconnected(device) => self.disconnected(device),
            DeviceEvent::ServicesDiscovered { address, manifest } => self.services(address, manifest),
            DeviceEvent::IdentityRead { address, build, device_id } => self.identity(
                address,
                build,
                device_id,
            ),
            DeviceEvent::IdentityUnavailable { address } => {
                if self.stands_in(address, Phase::Validated) {
                    self.give_up(address, Failure::IdentityReadFailed)
                } else {
                    Self::quiet()
                }
            },
            DeviceEvent::TransportFailed { address } => {
                if self.stands_in(address, Phase::Connecting) || self.stands_in(address, Phase::Connected) {
                    self.give_up(address, Failure::TransportFailed)
                } else {
                    Self::quiet()
                }
            },
            DeviceEvent::SessionEnded { address } => {
                if self.is_polling(address) {
                    self.give_up(address, Failure::SessionEnded)
                } else {
                    Self::quiet()
                }
            },
            DeviceEvent::Other => Self::quiet(),
        }
    }
}

/// The device table after a controller that knew no device took `events`
/// one after the other.
pub open spec fn table_after(events: Seq<DeviceEvent>) -> Map<u64, Phase>
    decreases events.len(),
{
    if events.len() == 0 {
        Map::empty()
    } else {
        lifecycle_step(table_after(events.drop_last()), events.last()).0
    }
}

/// The reaction to the last of `events`, taken after those before it.
pub open spec fn last_reaction(events: Seq<DeviceEvent>) -> ReactionView
    recommends
        events.len() > 0,
{
    lifecycle_step(table_after(events.drop_last()), events.last()).1
}

/// Whether a reaction asks to start a session for the device at `address`.
pub open spec fn starts_session(reaction: ReactionView, address: u64) -> bool {
    reaction.request matches RequestView::StartPolling { address: started, .. } && started == address
}

/// Whether a reaction ends the session of the device at `address`: either it
/// asks to cancel it, or it reports that the session stopped by itself.
pub open spec fn ends_session(reaction: ReactionView, address: u64) -> bool {
    reaction.cancel == Some(address) || reaction.request == (RequestView::Abandon {
        address,
        failure: Failure::SessionEnded,
    })
}

/// Sessions started less sessions ended for the device at `address`, over
/// the reactions to `events`.
pub open spec fn sessions_open(events: Seq<DeviceEvent>, address: u64) -> int
    decreases events.len(),
{
    if events.len() == 0 {
        0
    } else {
        let reaction = last_reaction(events);
        let started: int = if starts_session(reaction, address) {
            1
        } else {
            0
        };
        let ended: int = if ends_session(reaction, address) {
            1
        } else {
            0
        };
        sessions_open(events.drop_last(), address) + started - ended
    }
}

/// Whether an event brings a complete manifest for the device at `address`.
pub open spec fn validates(e: DeviceEvent, address: u64) -> bool {
    e matches DeviceEvent::ServicesDiscovered { address: validated, manifest } && validated == address
        && manifest_complete(manifest@)
}

/// Whether some event of `events` brought a complete manifest for the device
/// at `address`.
pub open spec fn was_validated(events: Seq<DeviceEvent>, address: u64) -> bool {
    exists|i: int| 0 <= i < events.len() && validates(#[trigger] events[i], address)
}

/// One step starts a session for a device exactly when it takes the device
/// into polling, and ends one exactly when it takes the device out of it.
/// A step never does both for one device.
pub proof fn lemma_step_follows_sessions(devices: Map<u64, Phase>, e: DeviceEvent, address: u64)
    ensures
        starts_session(lifecycle_step(devices, e).1, address) <==> !is_polling(devices, address)
            && is_polling(lifecycle_step(devices, e).0, address),
        ends_session(lifecycle_step(devices, e).1, address) <==> is_polling(devices, address)
            && !is_polling(lifecycle_step(devices, e).0, address),
{
}

/// An event about a device that is not the target changes nothing and asks
/// for nothing.
pub proof fn lemma_other_devices_are_ignored(devices: Map<u64, Phase>, device: DeviceSnapshot)
    requires
        !advertises_target(device.advertised),
    ensures
        lifecycle_step(devices, DeviceEvent::Discovered(device)) == (devices, no_reaction()),
        lifecycle_step(devices, DeviceEvent::Updated(device)) == (devices, no_reaction()),
        lifecycle_step(devices, DeviceEvent::Connected(device)) == (devices, no_reaction()),
        lifecycle_step(devices, DeviceEvent::Disconnected(device)) == (devices, no_reaction()),
{
}

/// At most one polling session is active per device address at any time:
/// over any run, the sessions started less the sessions ended for an address
/// is one while the controller has the device in polling and zero otherwise.
pub proof fn lemma_at_most_one_session(events: Seq<DeviceEvent>, address: u64)
    ensures
        sessions_open(events, address) == (if is_polling(table_after(events), address) {
            1int
        } else {
            0int
        }),
        0 <= sessions_open(events, address) <= 1,
    decreases events.len(),
{
    if events.len() > 0 {
        lemma_at_most_one_session(events.drop_last(), address);
        lemma_step_follows_sessions(table_after(events.drop_last()), events.last(), address);
    }
}

/// A session is started only for a device that has none: when the reaction
/// to the last event starts one, none was open before.
pub proof fn lemma_session_starts_from_none(events: Seq<DeviceEvent>, address: u64)
    requires
        events.len() > 0,
        starts_session(last_reaction(events), address),
    ensures
        sessions_open(events.drop_last(), address) == 0,
        sessions_open(events, address) == 1,
{
    lemma_at_most_one_session(events.drop_last(), address);
    lemma_at_most_one_session(events, address);
    lemma_step_follows_sessions(table_after(events.drop_last()), events.last(), address);
}

/// A device stands validated or in polling only after an event brought a
/// complete manifest for it.
pub proof fn lemma_validated_by_manifest(events: Seq<DeviceEvent>, address: u64)
    requires
        in_phase(table_after(events), address, Phase::Validated) || is_polling(
            table_after(events),
            address,
        ),
    ensures
        was_validated(events, address),
    decreases events.len(),
{
    if events.len() > 0 {
        let before = events.drop_last();
        let table = table_after(before);
        if validates(events.last(), address) {
            assert(validates(events[events.len() - 1], address));
        } else {
            assert(in_phase(table, address, Phase::Validated) || is_polling(table, address));
            lemma_validated_by_manifest(before, address);
            let i = choose|i: int| 0 <= i < before.len() && validates(#[trigger] before[i], address);
            assert(validates(events[i], address));
        }
    }
}

/// A polling session exists only for a device whose manifest check passed:
/// when the reaction to the last event starts a session, an earlier event
/// brought a complete manifest for that device.
pub proof fn lemma_session_only_after_validation(events: Seq<DeviceEvent>, address: u64)
    requires
        events.len() > 0,
        starts_session(last_reaction(events), address),
    ensures
        was_validated(events.drop_last(), address),
{
    lemma_validated_by_manifest(events.drop_last(), address);
}

} // verus!
