use crate::device::constants::{
    COMMAND_LED_LEFT_ON, COMMAND_REQUEST_BREATH, CONNECT_DELAY, IS_CONNECTED_DEADLINE,
    MELODY_SMART_SERVICE_ID, POLL_DELAY, WRITE_DEADLINE,
};
use crate::device::discovery::{
    advertises_sensor, find_data_characteristic, find_peripheral, first_data_characteristic,
    first_sensor, lemma_first_sensor_iff_advertised, AdapterPeripherals, CharacteristicHandle,
    PeripheralHandle, Service,
};
use crate::device::types::{DeviceEvent, DeviceState};
use crate::error::DeviceError;
use vstd::prelude::*;

verus! {

/// Where the connection to the sensor stands.
#[derive(Debug, Clone, Copy, PartialEq, Eq, Structural)]
pub enum ConnectionState {
    /// Looking for the sensor.
    Scanning {
        /// Wait for the retry delay before the next attempt.
        retry: bool,
        /// The last attempt to start a scan was refused for lack of
        /// permission.
        no_permission: bool,
        /// The adapters are scanning already.
        scan_started: bool,
    },
    /// The sensor was found and is being connected.
    Connecting { peripheral: PeripheralHandle },
    /// The sensor is connected.
    Connected { peripheral: PeripheralHandle, data_char: CharacteristicHandle },
}

impl ConnectionState {
    /// What subscribers are told of this state.
    pub open spec fn device_state(self) -> DeviceState {
        match self {
            ConnectionState::Scanning { no_permission, .. } => DeviceState::Scanning {
                no_permission,
            },
            ConnectionState::Connecting { .. } => DeviceState::Connecting,
            ConnectionState::Connected { .. } => DeviceState::Connected,
        }
    }

    /// The state in which every search for the sensor begins anew after a
    /// failure.
    pub open spec fn rescan() -> ConnectionState {
        ConnectionState::Scanning { retry: true, no_permission: false, scan_started: false }
    }

    /// What subscribers are told of this state.
    pub fn to_device_state(&self) -> (state: DeviceState)
        ensures
            state == self.device_state(),
    {
        match self {
            ConnectionState::Scanning { no_permission, .. } => DeviceState::Scanning {
                no_permission: *no_permission,
            },
            ConnectionState::Connecting { .. } => DeviceState::Connecting,
            ConnectionState::Connected { .. } => DeviceState::Connected,
        }
    }
}

/// A command that the sensor understands.
#[derive(Debug, Clone, Copy, PartialEq, Eq, Structural)]
pub enum DeviceCommand {
    /// Ask for a breath reading; the answer comes as a notification.
    RequestBreath,
    /// Switch the left LED on.
    LedLeftOn,
}

impl DeviceCommand {
    /// The bytes that are written to the data characteristic.
    pub open spec fn wire_bytes(self) -> [u8; 2] {
        match self {
            DeviceCommand::RequestBreath => COMMAND_REQUEST_BREATH,
            DeviceCommand::LedLeftOn => COMMAND_LED_LEFT_ON,
        }
    }

    /// The bytes that are written to the data characteristic.
    pub fn bytes(&self) -> (bytes: [u8; 2])
        ensures
            bytes == self.wire_bytes(),
    {
        match self {
            DeviceCommand::RequestBreath => COMMAND_REQUEST_BREATH,
            DeviceCommand::LedLeftOn => COMMAND_LED_LEFT_ON,
        }
    }
}

/// What the connection manager asks its driver to do next. The driver does
/// it, waiting for the outcome where there is one, and reports back with a
/// `LinkEvent`.
#[derive(Debug, Clone, Copy, PartialEq, Eq, Structural)]
pub enum LinkAction {
    /// Wait.
    Sleep { millis: u64 },
    /// Start scanning for peripherals with this service on every adapter.
    StartScan { service: u128 },
    /// Ask every adapter for the peripherals it sees, and each of those for
    /// its properties.
    ListPeripherals,
    /// Connect to the peripheral and discover its services.
    Connect { peripheral: PeripheralHandle },
    /// Subscribe to the notifications of the characteristic.
    Subscribe { peripheral: PeripheralHandle, characteristic: CharacteristicHandle },
    /// Write the command to the characteristic, giving up after the deadline.
    Write {
        peripheral: PeripheralHandle,
        characteristic: CharacteristicHandle,
        command: DeviceCommand,
        deadline_millis: u64,
    },
    /// Ask whether the peripheral is still connected, giving up after the
    /// deadline.
    CheckConnected { peripheral: PeripheralHandle, deadline_millis: u64 },
    /// Send the event to every subscriber.
    Emit { event: DeviceEvent },
    /// Start reading the notifications of the peripheral.
    StartReader { peripheral: PeripheralHandle },
    /// Cancel the notification reader and wait until it has stopped.
    StopReader,
}

/// How the last `LinkAction` ended.
#[derive(Debug, PartialEq, Eq)]
pub enum LinkEvent {
    /// It was carried out.
    Done,
    /// It failed.
    Failed { error: DeviceError },
    /// It ran past its deadline.
    TimedOut,
    /// The answer to `ListPeripherals`, one entry for each adapter.
    Peripherals { adapters: Vec<AdapterPeripherals> },
    /// The answer to `Connect`: the services of the peripheral.
    Services { services: Vec<Service> },
    /// The answer to `CheckConnected`.
    ConnectionStatus { connected: bool },
}

impl LinkEvent {
    /// The event reports a failure for lack of permission.
    pub open spec fn permission_denied(self) -> bool {
        self matches LinkEvent::Failed { error } && error.permission_denied()
    }

    /// The event brings a listing in which a peripheral advertises the
    /// service of the sensor.
    pub open spec fn shows_sensor(self) -> bool {
        self matches LinkEvent::Peripherals { adapters } && exists|a: int, p: int|
            advertises_sensor(adapters@, a, p)
    }

    /// The sensor that the event brings: the first one of its listing.
    pub open spec fn found_sensor(self) -> Option<PeripheralHandle> {
        match self {
            LinkEvent::Peripherals { adapters } => first_sensor(adapters@),
            _ => None,
        }
    }

    /// The event brings services among which the data characteristic is
    /// found.
    pub open spec fn found_data_characteristic(self) -> Option<CharacteristicHandle> {
        match self {
            LinkEvent::Services { services } => first_data_characteristic(services@),
            _ => None,
        }
    }
}

/// A sensor is found exactly in an event that shows one.
pub proof fn lemma_found_sensor_iff_shown(event: LinkEvent)
    ensures
        event.found_sensor() is Some <==> event.shows_sensor(),
{
    if let LinkEvent::Peripherals { adapters } = event {
        lemma_first_sensor_iff_advertised(&adapters);
    }
}

/// The request whose outcome the connection manager is waiting for.
#[derive(Debug, Clone, Copy, PartialEq, Eq, Structural)]
pub enum Pending {
    /// Nothing was asked for yet.
    Start,
    /// The retry delay before a search.
    RetryDelay,
    /// The start of the scan.
    StartScan,
    /// The listing of the visible peripherals.
    ListPeripherals,
    /// Connecting to the peripheral and discovering its services.
    Connect { peripheral: PeripheralHandle },
    /// Subscribing to the data characteristic.
    Subscribe { peripheral: PeripheralHandle, data_char: CharacteristicHandle },
    /// Switching the LED on, once the subscription stands.
    LedOn { peripheral: PeripheralHandle, data_char: CharacteristicHandle },
    /// The check whether the sensor is still connected.
    CheckConnected,
    /// The retry delay after the connection was found lost.
    LostDelay,
    /// Telling the subscribers of a new device state.
    Announce,
    /// Starting the notification reader.
    StartReader,
    /// Asking the sensor for a breath reading.
    RequestBreath,
    /// Stopping the notification reader.
    StopReader,
    /// The pause between two rounds.
    PollDelay,
}

/// The connection manager. It never ends: it searches for the sensor,
/// connects to it, polls it while it is connected, and goes back to searching
/// when anything fails. It does no input or output itself: each call of
/// `step` takes the outcome of the last request and gives the next one.
///
/// One round takes the state one transition further, tells the subscribers if
/// the device state changed, starts or stops the notification reader, asks for
/// a breath reading while connected, and pauses for `POLL_DELAY`.
#[derive(Debug, Clone, Copy, PartialEq, Eq, Structural)]
pub struct ConnectionMachine {
    /// The state at the end of the last transition.
    pub state: ConnectionState,
    /// The request that is under way.
    pub pending: Pending,
    /// The device state that the subscribers were told last.
    pub announced: Option<DeviceState>,
    /// The notification reader was started and not stopped since.
    pub reader_running: bool,
}

impl ConnectionMachine {
    /// The machine before its first step.
    pub open spec fn initial() -> ConnectionMachine {
        ConnectionMachine {
            state: ConnectionState::Scanning {
                retry: false,
                no_permission: false,
                scan_started: false,
            },
            pending: Pending::Start,
            announced: None,
            reader_running: false,
        }
    }

    /// The machine waits for `pending`, having asked for `action`.
    pub open spec fn ask(self, pending: Pending, action: LinkAction) -> (
        ConnectionMachine,
        LinkAction,
    ) {
        (ConnectionMachine { pending, ..self }, action)
    }

    /// A search: start the scan unless the adapters are scanning already,
    /// else list what they see.
    pub open spec fn search(self) -> (ConnectionMachine, LinkAction) {
        if self.state matches ConnectionState::Scanning { scan_started: true, .. } {
            self.ask(Pending::ListPeripherals, LinkAction::ListPeripherals)
        } else {
            self.ask(Pending::StartScan, LinkAction::StartScan { service: MELODY_SMART_SERVICE_ID })
        }
    }

    /// The first request of a round, by the state.
    pub open spec fn begin(self) -> (ConnectionMachine, LinkAction) {
        match self.state {
            ConnectionState::Scanning { retry, .. } => {
                if retry {
                    self.ask(Pending::RetryDelay, LinkAction::Sleep { millis: CONNECT_DELAY })
                } else {
                    self.search()
                }
            },
            ConnectionState::Connecting { peripheral } => self.ask(
                Pending::Connect { peripheral },
                LinkAction::Connect { peripheral },
            ),
            ConnectionState::Connected { peripheral, .. } => self.ask(
                Pending::CheckConnected,
                LinkAction::CheckConnected { peripheral, deadline_millis: IS_CONNECTED_DEADLINE },
            ),
        }
    }

    /// After the transition and the announcement: start the reader and ask
    /// for a breath reading while connected, stop the reader otherwise, then
    /// pause.
    pub open spec fn settle(self) -> (ConnectionMachine, LinkAction) {
        match self.state {
            ConnectionState::Connected { peripheral, data_char } => {
                if self.reader_running {
                    self.ask(
                        Pending::RequestBreath,
                        LinkAction::Write {
                            peripheral,
                            characteristic: data_char,
                            command: DeviceCommand::RequestBreath,
                            deadline_millis: WRITE_DEADLINE,
                        },
                    )
                } else {
                    ConnectionMachine { reader_running: true, ..self }.ask(
                        Pending::StartReader,
                        LinkAction::StartReader { peripheral },
                    )
                }
            },
            _ => {
                if self.reader_running {
                    ConnectionMachine { reader_running: false, ..self }.ask(
                        Pending::StopReader,
                        LinkAction::StopReader,
                    )
                } else {
                    self.ask(Pending::PollDelay, LinkAction::Sleep { millis: POLL_DELAY })
                }
            },
        }
    }

    /// The transition of this round ends in `next`: the subscribers are told
    /// if the device state is not the one they were told last.
    pub open spec fn finish(self, next: ConnectionState) -> (ConnectionMachine, LinkAction) {
        let moved = ConnectionMachine { state: next, ..self };
        if self.announced == Some(next.device_state()) {
            moved.settle()
        } else {
            ConnectionMachine { announced: Some(next.device_state()), ..moved }.ask(
                Pending::Announce,
                LinkAction::Emit { event: DeviceEvent::StateChange(next.device_state()) },
            )
        }
    }

    /// The machine and the request that follow when the request under way ends
    /// with `event`. An event that does not answer the request counts as its
    /// failure; the outcome of a delay, of an announcement, of a write and of
    /// starting or stopping the reader is not looked at.
    pub open spec fn next(self, event: LinkEvent) -> (ConnectionMachine, LinkAction) {
        match self.pending {
            Pending::Start => self.begin(),
            Pending::RetryDelay => self.search(),
            Pending::StartScan => {
                if event is Done {
                    self.ask(Pending::ListPeripherals, LinkAction::ListPeripherals)
                } else {
                    self.finish(
                        ConnectionState::Scanning {
                            retry: true,
                            no_permission: event.permission_denied(),
                            scan_started: false,
                        },
                    )
                }
            },
            Pending::ListPeripherals => {
                match event.found_sensor() {
                    Some(peripheral) => self.finish(ConnectionState::Connecting { peripheral }),
                    None => self.finish(
                        ConnectionState::Scanning {
                            retry: true,
                            no_permission: false,
                            scan_started: true,
                        },
                    ),
                }
            },
            Pending::Connect { peripheral } => {
                match event.found_data_characteristic() {
                    Some(data_char) => self.ask(
                        Pending::Subscribe { peripheral, data_char },
                        LinkAction::Subscribe { peripheral, characteristic: data_char },
                    ),
                    None => self.finish(ConnectionState::rescan()),
                }
            },
            Pending::Subscribe { peripheral, data_char } => {
                if event is Done {
                    self.ask(
                        Pending::LedOn { peripheral, data_char },
                        LinkAction::Write {
                            peripheral,
                            characteristic: data_char,
                            command: DeviceCommand::LedLeftOn,
                            deadline_millis: WRITE_DEADLINE,
                        },
                    )
                } else {
                    self.finish(ConnectionState::rescan())
                }
            },
            Pending::LedOn { peripheral, data_char } => self.finish(
                ConnectionState::Connected { peripheral, data_char },
            ),
            Pending::CheckConnected => {
                if event matches LinkEvent::ConnectionStatus { connected: true } {
                    self.finish(self.state)
                } else {
                    self.ask(Pending::LostDelay, LinkAction::Sleep { millis: CONNECT_DELAY })
                }
            },
            Pending::LostDelay => self.finish(ConnectionState::rescan()),
            Pending::Announce => self.settle(),
            Pending::StartReader => self.settle(),
            Pending::RequestBreath | Pending::StopReader => self.ask(
                Pending::PollDelay,
                LinkAction::Sleep { millis: POLL_DELAY },
            ),
            Pending::PollDelay => self.begin(),
        }
    }

    /// A machine that has not taken a step yet.
    pub fn new() -> (machine: ConnectionMachine)
        ensures
            machine == ConnectionMachine::initial(),
            machine.wf(),
    {
        ConnectionMachine {
            state: ConnectionState::Scanning {
                retry: false,
                no_permission: false,
                scan_started: false,
            },
            pending: Pending::Start,
            announced: None,
            reader_running: false,
        }
    }

    fn ask_for(&mut self, pending: Pending, action: LinkAction) -> (asked: LinkAction)
        ensures
            (*final(self), asked) == old(self).ask(pending, action),
    {
        self.pending = pending;
        action
    }

    fn start_search(&mut self) -> (action: LinkAction)
        ensures
            (*final(self), action) == old(self).search(),
    {
        match self.state {
            ConnectionState::Scanning { scan_started: true, .. } => self.ask_for(
                Pending::ListPeripherals,
                LinkAction::ListPeripherals,
            ),
            _ => self.ask_for(
                Pending::StartScan,
                LinkAction::StartScan { service: MELODY_SMART_SERVICE_ID },
            ),
        }
    }

    fn begin_round(&mut self) -> (action: LinkAction)
        ensures
            (*final(self), action) == old(self).begin(),
    {
        match self.state {
            ConnectionState::Scanning { retry, .. } => {
                if retry {
                    self.ask_for(Pending::RetryDelay, LinkAction::Sleep { millis: CONNECT_DELAY })
                } else {
                    self.start_search()
                }
            },
            ConnectionState::Connecting { peripheral } => self.ask_for(
                Pending::Connect { peripheral },
                LinkAction::Connect { peripheral },
            ),
            ConnectionState::Connected { peripheral, .. } => self.ask_for(
                Pending::CheckConnected,
                LinkAction::CheckConnected { peripheral, deadline_millis: IS_CONNECTED_DEADLINE },
            ),
        }
    }

    fn settle_round(&mut self) -> (action: LinkAction)
        ensures
            (*final(self), action) == old(self).settle(),
    {
        match self.state {
            ConnectionState::Connected { peripheral, data_char } => {
                if self.reader_running {
                    self.ask_for(
                        Pending::RequestBreath,
                        LinkAction::Write {
                            peripheral,
                            characteristic: data_char,
                            command: DeviceCommand::RequestBreath,
                            deadline_millis: WRITE_DEADLINE,
                        },
                    )
                } else {
                    self.reader_running = true;
                    self.ask_for(Pending::StartReader, LinkAction::StartReader { peripheral })
                }
            },
            _ => {
                if self.reader_running {
                    self.reader_running = false;
                    self.ask_for(Pending::StopReader, LinkAction::StopReader)
                } else {
                    self.ask_for(Pending::PollDelay, LinkAction::Sleep { millis: POLL_DELAY })
                }
            },
        }
    }

    fn finish_transition(&mut self, next: ConnectionState) -> (action: LinkAction)
        ensures
            (*final(self), action) == old(self).finish(next),
    {
        let device_state = next.to_device_state();
        let told = match self.announced {
            Some(previous) => previous == device_state,
            None => false,
        };
        self.state = next;
        if told {
            self.settle_round()
        } else {
            self.announced = Some(device_state);
            self.ask_for(
                Pending::Announce,
                LinkAction::Emit { event: DeviceEvent::StateChange(device_state) },
            )
        }
    }

    /// Takes the outcome of the request under way and gives the next request.
    /// The first call, on a new machine, takes any event.
    pub fn step(&mut self, event: &LinkEvent) -> (action: LinkAction)
        ensures
            (*final(self), action) == old(self).next(*event),
            old(self).wf() ==> final(self).wf(),
    {
        proof {
            if self.wf() {
                self.lemma_next_wf(*event);
            }
        }
        match self.pending {
            Pending::Start => self.begin_round(),
            Pending::RetryDelay => self.start_search(),
            Pending::StartScan => {
                match event {
                    LinkEvent::Done => self.ask_for(
                        Pending::ListPeripherals,
                        LinkAction::ListPeripherals,
                    ),
                    LinkEvent::Failed { error } => {
                        let no_permission = error.is_permission_denied();
                        self.finish_transition(
                            ConnectionState::Scanning {
                                retry: true,
                                no_permission,
                                scan_started: false,
                            },
                        )
                    },
                    _ => self.finish_transition(ConnectionState::Scanning {
                        retry: true,
                        no_permission: false,
                        scan_started: false,
                    }),
                }
            },
            Pending::ListPeripherals => {
                let found = match event {
                    LinkEvent::Peripherals { adapters } => find_peripheral(adapters),
                    _ => None,
                };
                match found {
                    Some(peripheral) => self.finish_transition(
                        ConnectionState::Connecting { peripheral },
                    ),
                    None => self.finish_transition(
                        ConnectionState::Scanning {
                            retry: true,
                            no_permission: false,
                            scan_started: true,
                        },
                    ),
                }
            },
            Pending::Connect { peripheral } => {
                let found = match event {
                    LinkEvent::Services { services } => find_data_characteristic(services),
                    _ => Err(DeviceError::MissingCharacteristic),
                };
                match found {
                    Ok(data_char) => self.ask_for(
                        Pending::Subscribe { peripheral, data_char },
                        LinkAction::Subscribe { peripheral, characteristic: data_char },
                    ),
                    Err(_) => self.finish_transition(rescan_state()),
                }
            },
            Pending::Subscribe { peripheral, data_char } => {
                match event {
                    LinkEvent::Done => self.ask_for(
                        Pending::LedOn { peripheral, data_char },
                        LinkAction::Write {
                            peripheral,
                            characteristic: data_char,
                            command: DeviceCommand::LedLeftOn,
                            deadline_millis: WRITE_DEADLINE,
                        },
                    ),
                    _ => self.finish_transition(rescan_state()),
                }
            },
            Pending::LedOn { peripheral, data_char } => self.finish_transition(
                ConnectionState::Connected { peripheral, data_char },
            ),
            Pending::CheckConnected => {
                match event {
                    LinkEvent::ConnectionStatus { connected: true } => {
                        let state = self.state;
                        self.finish_transition(state)
                    },
                    _ => self.ask_for(
                        Pending::LostDelay,
                        LinkAction::Sleep { millis: CONNECT_DELAY },
                    ),
                }
            },
            Pending::LostDelay => self.finish_transition(rescan_state()),
            Pending::Announce => self.settle_round(),
            Pending::StartReader => self.settle_round(),
            Pending::RequestBreath | Pending::StopReader => self.ask_for(
                Pending::PollDelay,
                LinkAction::Sleep { millis: POLL_DELAY },
            ),
            Pending::PollDelay => self.begin_round(),
        }
    }
}

impl LinkAction {
    /// A request that belongs to the search for the sensor: a delay, the
    /// start of the scan, a listing, or the announcement that the machine is
    /// scanning.
    pub open spec fn is_search_request(self) -> bool {
        match self {
            LinkAction::Sleep { .. }
            | LinkAction::StartScan { .. }
            | LinkAction::ListPeripherals => true,
            LinkAction::Emit { event } => event matches DeviceEvent::StateChange(
                DeviceState::Scanning { .. },
            ),
            _ => false,
        }
    }

    /// A request that belongs to an attempt to reach the sensor: the start of
    /// the scan, a listing, connecting, subscribing.
    pub open spec fn is_connect_attempt(self) -> bool {
        self is StartScan || self is ListPeripherals || self is Connect || self is Subscribe
    }
}

impl ConnectionMachine {
    /// What holds of a machine however it got where it is from `initial`:
    /// the subscribers were told the device state of `state` unless nothing
    /// was told yet, the request under way fits the state, and the reader
    /// runs while the state is `Connected`, until it is stopped right after
    /// the state was left.
    pub open spec fn wf(self) -> bool {
        &&& self.announced matches Some(told) ==> told == self.state.device_state()
        &&& self.announced is None ==> self.state == Self::initial().state
        &&& self.state matches ConnectionState::Scanning { retry: false, .. } ==> self.state
            == Self::initial().state && self.announced is None
        &&& match self.pending {
            Pending::Start => self.announced is None && !self.reader_running,
            Pending::RetryDelay => self.state matches ConnectionState::Scanning { retry: true, .. }
                && !self.reader_running,
            Pending::StartScan => self.state matches ConnectionState::Scanning {
                scan_started: false,
                ..
            } && !self.reader_running,
            Pending::ListPeripherals => self.state is Scanning && !self.reader_running,
            Pending::Connect { peripheral } => self.state == (ConnectionState::Connecting {
                peripheral,
            }) && !self.reader_running,
            Pending::Subscribe { peripheral, .. } => self.state == (ConnectionState::Connecting {
                peripheral,
            }) && !self.reader_running,
            Pending::LedOn { peripheral, .. } => self.state == (ConnectionState::Connecting {
                peripheral,
            }) && !self.reader_running,
            Pending::CheckConnected
            | Pending::LostDelay
            | Pending::StartReader
            | Pending::RequestBreath => self.state is Connected && self.reader_running,
            Pending::Announce => self.announced is Some && (self.reader_running
                ==> self.state is Scanning),
            Pending::StopReader => self.state is Scanning && self.announced is Some
                && !self.reader_running,
            Pending::PollDelay => self.announced is Some && (self.reader_running
                <==> self.state is Connected),
        }
    }

    /// The machine after the events, each taken as the outcome of the request
    /// before it.
    pub open spec fn run(self, events: Seq<LinkEvent>) -> ConnectionMachine
        decreases events.len(),
    {
        if events.len() == 0 {
            self
        } else {
            self.run(events.drop_last()).next(events.last()).0
        }
    }

    /// The request with which the machine answers event number `k`.
    pub open spec fn request(self, events: Seq<LinkEvent>, k: int) -> LinkAction {
        self.run(events.take(k)).next(events[k]).1
    }

    /// The device states that the subscribers are told while the machine
    /// takes the events, in their order.
    pub open spec fn announcements(self, events: Seq<LinkEvent>) -> Seq<DeviceState>
        decreases events.len(),
    {
        if events.len() == 0 {
            Seq::empty()
        } else {
            let before = self.announcements(events.drop_last());
            match self.run(events.drop_last()).next(events.last()).1 {
                LinkAction::Emit { event: DeviceEvent::StateChange(state) } => before.push(state),
                _ => before,
            }
        }
    }

    /// A new machine is well formed.
    pub proof fn lemma_initial_wf()
        ensures
            Self::initial().wf(),
    {
    }

    /// A step keeps a machine well formed.
    pub proof fn lemma_next_wf(self, event: LinkEvent)
        requires
            self.wf(),
        ensures
            self.next(event).0.wf(),
    {
    }

    /// Whatever the events, the machine stays well formed.
    pub proof fn lemma_run_wf(self, events: Seq<LinkEvent>)
        requires
            self.wf(),
        ensures
            self.run(events).wf(),
        decreases events.len(),
    {
        if events.len() > 0 {
            self.lemma_run_wf(events.drop_last());
            self.run(events.drop_last()).lemma_next_wf(events.last());
        }
    }

    /// Running over one more event is one more step.
    pub proof fn lemma_run_take(self, events: Seq<LinkEvent>, k: int)
        requires
            0 <= k < events.len(),
        ensures
            self.run(events.take(k + 1)) == self.run(events.take(k)).next(events[k]).0,
    {
        assert(events.take(k + 1).drop_last() == events.take(k));
        assert(events.take(k + 1).last() == events[k]);
    }

    /// The subscribers are told of a device state exactly when it differs
    /// from the one they were told last, and they are told the device state
    /// of the new connection state, which is never `Initial`. So they see
    /// every change once, in order.
    pub proof fn lemma_announces_changes_only(self, event: LinkEvent)
        requires
            self.wf(),
        ensures
            ({
                let (after, action) = self.next(event);
                &&& action matches LinkAction::Emit { event: emitted } ==> {
                    &&& emitted == DeviceEvent::StateChange(after.state.device_state())
                    &&& emitted != DeviceEvent::StateChange(DeviceState::Initial)
                    &&& self.announced != Some(after.state.device_state())
                    &&& after.announced == Some(after.state.device_state())
                }
                &&& !(action is Emit) ==> after.announced == self.announced
            }),
    {
    }

    /// Whatever the events, the subscribers are never told the same device
    /// state twice in a row, the first state they are told differs from the
    /// one they knew before, and the last state they were told is the one
    /// that the machine remembers.
    pub proof fn lemma_announcements_never_repeat(self, events: Seq<LinkEvent>)
        requires
            self.wf(),
        ensures
            ({
                let told = self.announcements(events);
                &&& forall|i: int| 0 < i < told.len() ==> #[trigger] told[i] != told[i - 1]
                &&& told.len() > 0 ==> Some(told[0]) != self.announced && Some(told.last())
                    == self.run(events).announced
                &&& told.len() == 0 ==> self.run(events).announced == self.announced
            }),
        decreases events.len(),
    {
        if events.len() > 0 {
            self.lemma_announcements_never_repeat(events.drop_last());
            self.lemma_run_wf(events.drop_last());
            self.run(events.drop_last()).lemma_announces_changes_only(events.last());
        }
    }

    /// The reader is started only when it does not run, and only once the
    /// state is `Connected`; it is stopped only when it runs. No attempt to
    /// reach the sensor is made while it runs: after a connection was lost
    /// the reader has stopped before the search begins again.
    pub proof fn lemma_reader_bound_to_connection(self, event: LinkEvent)
        requires
            self.wf(),
        ensures
            ({
                let (after, action) = self.next(event);
                &&& action is StartReader ==> !self.reader_running && after.reader_running
                    && after.state is Connected
                &&& action is StopReader ==> self.reader_running && !after.reader_running
                    && !(after.state is Connected)
                &&& !(action is StartReader) && !(action is StopReader) ==> after.reader_running
                    == self.reader_running
                &&& action.is_connect_attempt() ==> !after.reader_running
            }),
    {
    }

    /// Every start of a scan but the very first comes right after the retry
    /// delay, and every listing comes right after the retry delay or the
    /// start of the scan.
    pub proof fn lemma_retry_delay_before_search(self, first: LinkEvent, second: LinkEvent)
        requires
            self.wf(),
        ensures
            ({
                let (between, before) = self.next(first);
                let (_, action) = between.next(second);
                &&& action is StartScan ==> before == (LinkAction::Sleep { millis: CONNECT_DELAY })
                &&& action is ListPeripherals ==> before == (LinkAction::Sleep {
                    millis: CONNECT_DELAY,
                }) || before is StartScan
            }),
    {
        self.lemma_next_wf(first);
    }

    /// While the sensor is not found, a machine that is searching goes on
    /// searching.
    proof fn lemma_search_goes_on(self, event: LinkEvent)
        requires
            self.wf(),
            self.state is Scanning,
            !self.reader_running,
            event.found_sensor() is None,
        ensures
            ({
                let (after, action) = self.next(event);
                &&& after.state is Scanning
                &&& !after.reader_running
                &&& action.is_search_request()
            }),
    {
    }

    /// As long as no listing shows a peripheral that advertises the service
    /// of the sensor, a new machine stays in `Scanning`: it asks for nothing
    /// but delays, scans, listings and the announcement that it is scanning,
    /// and it lets the retry delay pass before each new search.
    pub proof fn lemma_keeps_scanning_without_sensor(events: Seq<LinkEvent>)
        requires
            forall|k: int| 0 <= k < events.len() ==> !(#[trigger] events[k]).shows_sensor(),
        ensures
            Self::initial().run(events).wf(),
            Self::initial().run(events).state is Scanning,
            !Self::initial().run(events).reader_running,
            forall|k: int|
                0 <= k < events.len() ==> (#[trigger] Self::initial().request(
                    events,
                    k,
                )).is_search_request(),
            forall|k: int|
                0 < k < events.len() && (#[trigger] Self::initial().request(events, k)) is StartScan
                    ==> Self::initial().request(events, k - 1) == (LinkAction::Sleep {
                    millis: CONNECT_DELAY,
                }),
            forall|k: int|
                0 < k < events.len() && (#[trigger] Self::initial().request(
                    events,
                    k,
                )) is ListPeripherals ==> Self::initial().request(events, k - 1)
                    == (LinkAction::Sleep { millis: CONNECT_DELAY }) || Self::initial().request(
                    events,
                    k - 1,
                ) is StartScan,
        decreases events.len(),
    {
        let start = Self::initial();
        if events.len() > 0 {
            let shorter = events.drop_last();
            let last = events.len() - 1;
            Self::lemma_keeps_scanning_without_sensor(shorter);
            lemma_found_sensor_iff_shown(events.last());
            start.run(shorter).lemma_search_goes_on(events.last());
            start.run(shorter).lemma_next_wf(events.last());
            assert(events.take(last) == shorter);
            assert forall|k: int| 0 <= k < events.len() implies (#[trigger] start.request(
                events,
                k,
            )).is_search_request() by {
                if k < last {
                    assert(events.take(k) == shorter.take(k));
                    assert(start.request(events, k) == start.request(shorter, k));
                }
            }
            assert forall|k: int| 0 < k < events.len() implies {
                &&& (#[trigger] start.request(events, k)) is StartScan ==> start.request(
                    events,
                    k - 1,
                ) == (LinkAction::Sleep { millis: CONNECT_DELAY })
                &&& start.request(events, k) is ListPeripherals ==> start.request(events, k - 1)
                    == (LinkAction::Sleep { millis: CONNECT_DELAY }) || start.request(
                    events,
                    k - 1,
                ) is StartScan
            } by {
                let before = start.run(events.take(k - 1));
                start.lemma_run_wf(events.take(k - 1));
                start.lemma_run_take(events, k - 1);
                before.lemma_retry_delay_before_search(events[k - 1], events[k]);
            }
        }
    }

    /// When the check of a connected sensor fails, runs past its deadline or
    /// says that the sensor is gone, the machine lets the retry delay pass,
    /// goes back to `Scanning` and says so, stops the reader, pauses, and lets
    /// the retry delay pass once more before it starts a new scan. The
    /// outcomes of those requests make no difference.
    pub proof fn lemma_lost_connection_recovers(
        self,
        lost: LinkEvent,
        e1: LinkEvent,
        e2: LinkEvent,
        e3: LinkEvent,
        e4: LinkEvent,
        e5: LinkEvent,
    )
        requires
            self.wf(),
            self.pending is CheckConnected,
            !(lost matches LinkEvent::ConnectionStatus { connected: true }),
        ensures
            ({
                let (m1, a1) = self.next(lost);
                let (m2, a2) = m1.next(e1);
                let (m3, a3) = m2.next(e2);
                let (m4, a4) = m3.next(e3);
                let (m5, a5) = m4.next(e4);
                let (m6, a6) = m5.next(e5);
                &&& a1 == LinkAction::Sleep { millis: CONNECT_DELAY }
                &&& m1.state == self.state
                &&& a2 == LinkAction::Emit {
                    event: DeviceEvent::StateChange(DeviceState::Scanning { no_permission: false }),
                }
                &&& m2.state == ConnectionState::rescan()
                &&& a3 == LinkAction::StopReader
                &&& !m3.reader_running
                &&& a4 == LinkAction::Sleep { millis: POLL_DELAY }
                &&& a5 == LinkAction::Sleep { millis: CONNECT_DELAY }
                &&& a6 == LinkAction::StartScan { service: MELODY_SMART_SERVICE_ID }
                &&& m6.state == ConnectionState::rescan()
            }),
    {
    }
}

fn rescan_state() -> (state: ConnectionState)
    ensures
        state == ConnectionState::rescan(),
{
    ConnectionState::Scanning { retry: true, no_permission: false, scan_started: false }
}

} // verus!
