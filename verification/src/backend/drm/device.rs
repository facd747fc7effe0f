//! One display device: how it comes up, which connectors it has seen, and
//! what a change of its connectors means for the outputs.
//!
//! The device node itself, the buffer allocator and the reading of the
//! connectors belong to the caller. What is decided here works on what the
//! caller reports: a `StepReport` for each step of the bring-up, a list of
//! `ConnectorReading`s for each scan.
use vstd::prelude::*;
use vstd::string::*;
use std::collections::HashMap;

verus! {

broadcast use vstd::std_specs::hash::group_hash_axioms;

/// Why a device could not be brought up.
pub enum DeviceError {
    /// The session did not open the device node.
    OpenDevFile(String),
    /// The node is no usable DRM device.
    NewDevice(String),
    /// No buffer allocator could be made for the device.
    GbmDevice(String),
}

/// The words that come before the cause in the sentence for an error.
pub open spec fn error_prefix(e: DeviceError) -> Seq<char> {
    match e {
        DeviceError::OpenDevFile(_) => "Failed to open device with session: "@,
        DeviceError::NewDevice(_) => "Unable to add drm device: "@,
        DeviceError::GbmDevice(_) => "Unable to add gbm device: "@,
    }
}

impl DeviceError {
    /// The cause that the platform gave.
    pub open spec fn cause(&self) -> Seq<char> {
        match self {
            DeviceError::OpenDevFile(m) => m@,
            DeviceError::NewDevice(m) => m@,
            DeviceError::GbmDevice(m) => m@,
        }
    }

    /// Describes the error in a sentence: what failed, then the cause.
    pub fn message(&self) -> (text: String)
        ensures
            text@ == error_prefix(*self) + self.cause(),
    {
        match self {
            DeviceError::OpenDevFile(m) => String::from_str(
                "Failed to open device with session: ",
            ).concat(m.as_str()),
            DeviceError::NewDevice(m) => String::from_str("Unable to add drm device: ").concat(
                m.as_str(),
            ),
            DeviceError::GbmDevice(m) => String::from_str("Unable to add gbm device: ").concat(
                m.as_str(),
            ),
        }
    }
}

/// How a device node is opened.
#[derive(Clone, Copy, Debug, PartialEq, Eq, Structural)]
pub struct OpenFlags {
    pub read_write: bool,
    pub close_on_exec: bool,
    pub no_controlling_tty: bool,
    pub non_blocking: bool,
}

/// The flags that every device node is opened with: for reading and
/// writing, closed on exec, never as the controlling terminal, and without
/// blocking.
pub fn device_open_flags() -> (flags: OpenFlags)
    ensures
        flags.read_write && flags.close_on_exec && flags.no_controlling_tty && flags.non_blocking,
{
    OpenFlags { read_write: true, close_on_exec: true, no_controlling_tty: true, non_blocking: true }
}

/// A step of the bring-up of a device. Each step works on what the step
/// before it made.
#[derive(Clone, Copy, Debug, PartialEq, Eq, Structural)]
pub enum SetupStep {
    /// Open the node through the session, with `device_open_flags`.
    OpenNode,
    /// Make the DRM device on the open node.
    MakeDrmDevice,
    /// Make the buffer allocator on the DRM device.
    MakeAllocator,
    /// Make the EGL display on the allocator: the first step of the search
    /// for the node to render through.
    MakeDisplay,
    /// Find the device that the display belongs to.
    FindDisplayDevice,
    /// Ask that device for the node to render through.
    AskRenderNode,
}

/// How a step of the bring-up went.
pub enum StepReport {
    /// The step did what it was for, and has no node to name.
    Done,
    /// The step failed; with the cause.
    Failed(String),
    /// The step named this node.
    Found(u64),
}

/// How the bring-up of a device ended.
pub enum DeviceSetup {
    OpenFailed(String),
    DrmFailed(String),
    GbmFailed(String),
    /// The node is open, and the DRM device and the buffer allocator are
    /// there. `render_node` is the node that the search for the render
    /// node came to, if it came to one.
    Ready { render_node: Option<u64> },
}

/// How a bring-up goes on after a step.
pub enum SetupNext {
    /// Take this step next.
    Take(SetupStep),
    /// The bring-up is over.
    Finished(DeviceSetup),
}

/// How a bring-up goes on after a step that went as reported.
///
/// The node is opened, the DRM device is made and the buffer allocator is
/// made, one after the other, and the first of the three that fails ends
/// the bring-up with its error. Once they are there the device comes up
/// whatever happens: a step of the search for the render node that fails,
/// or finds none, ends the bring-up without one.
pub open spec fn next_after_step(step: SetupStep, report: StepReport) -> SetupNext {
    match (step, report) {
        (SetupStep::OpenNode, StepReport::Failed(cause)) => SetupNext::Finished(
            DeviceSetup::OpenFailed(cause),
        ),
        (SetupStep::OpenNode, _) => SetupNext::Take(SetupStep::MakeDrmDevice),
        (SetupStep::MakeDrmDevice, StepReport::Failed(cause)) => SetupNext::Finished(
            DeviceSetup::DrmFailed(cause),
        ),
        (SetupStep::MakeDrmDevice, _) => SetupNext::Take(SetupStep::MakeAllocator),
        (SetupStep::MakeAllocator, StepReport::Failed(cause)) => SetupNext::Finished(
            DeviceSetup::GbmFailed(cause),
        ),
        (SetupStep::MakeAllocator, _) => SetupNext::Take(SetupStep::MakeDisplay),
        (SetupStep::MakeDisplay, StepReport::Failed(_)) => SetupNext::Finished(
            DeviceSetup::Ready { render_node: None },
        ),
        (SetupStep::MakeDisplay, _) => SetupNext::Take(SetupStep::FindDisplayDevice),
        (SetupStep::FindDisplayDevice, StepReport::Failed(_)) => SetupNext::Finished(
            DeviceSetup::Ready { render_node: None },
        ),
        (SetupStep::FindDisplayDevice, _) => SetupNext::Take(SetupStep::AskRenderNode),
        (SetupStep::AskRenderNode, StepReport::Found(node)) => SetupNext::Finished(
            DeviceSetup::Ready { render_node: Some(node) },
        ),
        (SetupStep::AskRenderNode, _) => SetupNext::Finished(
            DeviceSetup::Ready { render_node: None },
        ),
    }
}

/// The step that every bring-up starts with.
pub fn first_step() -> (step: SetupStep)
    ensures
        step == SetupStep::OpenNode,
{
    SetupStep::OpenNode
}

/// Decides how a bring-up goes on after a step.
pub fn after_step(step: SetupStep, report: StepReport) -> (next: SetupNext)
    ensures
        next == next_after_step(step, report),
{
    match step {
        SetupStep::OpenNode => match report {
            StepReport::Failed(cause) => SetupNext::Finished(DeviceSetup::OpenFailed(cause)),
            _ => SetupNext::Take(SetupStep::MakeDrmDevice),
        },
        SetupStep::MakeDrmDevice => match report {
            StepReport::Failed(cause) => SetupNext::Finished(DeviceSetup::DrmFailed(cause)),
            _ => SetupNext::Take(SetupStep::MakeAllocator),
        },
        SetupStep::MakeAllocator => match report {
            StepReport::Failed(cause) => SetupNext::Finished(DeviceSetup::GbmFailed(cause)),
            _ => SetupNext::Take(SetupStep::MakeDisplay),
        },
        SetupStep::MakeDisplay => match report {
            StepReport::Failed(_) => SetupNext::Finished(DeviceSetup::Ready { render_node: None }),
            _ => SetupNext::Take(SetupStep::FindDisplayDevice),
        },
        SetupStep::FindDisplayDevice => match report {
            StepReport::Failed(_) => SetupNext::Finished(DeviceSetup::Ready { render_node: None }),
            _ => SetupNext::Take(SetupStep::AskRenderNode),
        },
        SetupStep::AskRenderNode => match report {
            StepReport::Found(node) => SetupNext::Finished(
                DeviceSetup::Ready { render_node: Some(node) },
            ),
            _ => SetupNext::Finished(DeviceSetup::Ready { render_node: None }),
        },
    }
}

/// How a bring-up that stands before `step` ends when its steps go as
/// reported, one report for each step that is taken; nothing, if the
/// reports run out before it ends.
pub open spec fn setup_run(step: SetupStep, reports: Seq<StepReport>) -> Option<DeviceSetup>
    decreases reports.len(),
{
    if reports.len() == 0 {
        None
    } else {
        match next_after_step(step, reports[0]) {
            SetupNext::Finished(setup) => Some(setup),
            SetupNext::Take(next) => setup_run(next, reports.drop_first()),
        }
    }
}

/// Where in the order of the steps a step stands.
pub open spec fn step_number(step: SetupStep) -> int {
    match step {
        SetupStep::OpenNode => 0,
        SetupStep::MakeDrmDevice => 1,
        SetupStep::MakeAllocator => 2,
        SetupStep::MakeDisplay => 3,
        SetupStep::FindDisplayDevice => 4,
        SetupStep::AskRenderNode => 5,
    }
}

/// A bring-up is over after six steps at most, and it ends with a device
/// exactly when none of the first three steps failed: the search for the
/// render node can only fall back, never fail the device.
pub proof fn lemma_setup_ends(step: SetupStep, reports: Seq<StepReport>)
    requires
        reports.len() >= 6 - step_number(step),
    ensures
        setup_run(step, reports) matches Some(setup) && (setup is Ready <==> forall|i: int|
            0 <= i < 3 - step_number(step) ==> !(#[trigger] reports[i] is Failed)),
    decreases reports.len(),
{
    match next_after_step(step, reports[0]) {
        SetupNext::Finished(_) => {},
        SetupNext::Take(next) => {
            let rest = reports.drop_first();
            lemma_setup_ends(next, rest);
            if forall|i: int| 0 <= i < 3 - step_number(next) ==> !(#[trigger] rest[i] is Failed) {
                assert forall|i: int| 0 <= i < 3 - step_number(step) implies !(#[trigger] reports[i]
                    is Failed) by {
                    if i > 0 {
                        assert(rest[i - 1] == reports[i]);
                    }
                }
            } else {
                let i = choose|i: int|
                    0 <= i < 3 - step_number(next) && (#[trigger] rest[i] is Failed);
                assert(reports[i + 1] is Failed);
            }
        },
    }
}

/// What is known of one connector.
#[derive(Clone, Copy, Debug, PartialEq, Eq, Structural)]
pub struct ConnectorState {
    pub connected: bool,
    pub bound_crtc: Option<u32>,
}

/// What the hardware says of the plug of a connector.
#[derive(Clone, Copy, Debug, PartialEq, Eq, Structural)]
pub enum Connection {
    Connected,
    Disconnected,
    /// The hardware cannot tell.
    Unknown,
}

/// What the hardware says of one connector at the time of a scan.
#[derive(Clone, Copy, Debug, PartialEq, Eq, Structural)]
pub struct ConnectorReading {
    pub connector: u32,
    pub connection: Connection,
    /// The CRTC that drives the connector, if one does.
    pub crtc: Option<u32>,
}

/// A change that a scan found.
#[derive(Clone, Copy, Debug, PartialEq, Eq, Structural)]
pub enum ScanEvent {
    /// The connector was not known as connected, and now is.
    Connected { connector: u32, crtc: Option<u32> },
    /// The connector was known as connected, and no longer is. `crtc` is the
    /// CRTC that was bound to it.
    Disconnected { connector: u32, crtc: Option<u32> },
}

/// What a scan event asks of the outputs.
#[derive(Clone, Copy, Debug, PartialEq, Eq, Structural)]
pub enum OutputChange {
    /// Make an output for the connector and announce it to the clients.
    Create { connector: u32, crtc: u32 },
    /// Take the connector's output away and withdraw it from the clients.
    Destroy { connector: u32, crtc: u32 },
    /// The connector has no CRTC, so there is nothing to show on it and
    /// nothing to take away: only worth a line in the log.
    Unusable { connector: u32 },
}

/// One display device.
pub struct Device {
    /// The node that the device was opened from.
    pub device_node: u64,
    /// The node that rendering goes through.
    pub render_node: u64,
    /// What the last scans found, by connector.
    pub connectors: HashMap<u32, ConnectorState>,
}

/// A device as mathematical values.
pub struct DeviceView {
    pub device_node: u64,
    pub render_node: u64,
    pub connectors: Map<u32, ConnectorState>,
}

impl View for Device {
    type V = DeviceView;

    open spec fn view(&self) -> DeviceView {
        DeviceView {
            device_node: self.device_node,
            render_node: self.render_node,
            connectors: self.connectors@,
        }
    }
}

/// The error that ends a bring-up, if one does.
pub open spec fn setup_error(setup: DeviceSetup) -> Option<DeviceError> {
    match setup {
        DeviceSetup::OpenFailed(m) => Some(DeviceError::OpenDevFile(m)),
        DeviceSetup::DrmFailed(m) => Some(DeviceError::NewDevice(m)),
        DeviceSetup::GbmFailed(m) => Some(DeviceError::GbmDevice(m)),
        DeviceSetup::Ready { .. } => None,
    }
}

/// The device that a bring-up gives for a node, if it gives one: it
/// renders through the node that was named for rendering, else through its
/// own, and has seen no connector yet.
pub open spec fn new_device(node: u64, setup: DeviceSetup) -> Option<DeviceView> {
    match setup {
        DeviceSetup::Ready { render_node } => Some(
            DeviceView {
                device_node: node,
                render_node: match render_node {
                    Some(found) => found,
                    None => node,
                },
                connectors: Map::empty(),
            },
        ),
        _ => None,
    }
}

/// What a reading says is known of its connector from now on. A
/// connector is known as connected only while the hardware says so: one of
/// which it cannot tell is known as not connected.
pub open spec fn reading_state(reading: ConnectorReading) -> ConnectorState {
    ConnectorState {
        connected: reading.connection == Connection::Connected,
        bound_crtc: reading.crtc,
    }
}

/// Whether a connector is known as connected.
pub open spec fn known_connected(known: Map<u32, ConnectorState>, connector: u32) -> bool {
    known.contains_key(connector) && known[connector].connected
}

/// What is known after a scan: each reading, in turn, replaces what was
/// known of its connector. Connectors without a reading stay as they were.
pub open spec fn known_after(known: Map<u32, ConnectorState>, readings: Seq<ConnectorReading>) -> Map<
    u32,
    ConnectorState,
>
    decreases readings.len(),
{
    if readings.len() == 0 {
        known
    } else {
        known_after(known, readings.drop_last()).insert(
            readings.last().connector,
            reading_state(readings.last()),
        )
    }
}

/// The `Connected` events of a scan, in the order of the readings: one for
/// each reading that is connected while its connector was not known as
/// connected just before.
pub open spec fn plugged(known: Map<u32, ConnectorState>, readings: Seq<ConnectorReading>) -> Seq<
    ScanEvent,
>
    decreases readings.len(),
{
    if readings.len() == 0 {
        Seq::empty()
    } else {
        let before = known_after(known, readings.drop_last());
        let earlier = plugged(known, readings.drop_last());
        let reading = readings.last();
        if reading.connection == Connection::Connected && !known_connected(
            before,
            reading.connector,
        ) {
            earlier.push(ScanEvent::Connected { connector: reading.connector, crtc: reading.crtc })
        } else {
            earlier
        }
    }
}

/// The `Disconnected` events of a scan, in the order of the readings: one
/// for each reading that is disconnected while its connector was known as
/// connected just before, with the CRTC that was bound to it.
pub open spec fn unplugged(known: Map<u32, ConnectorState>, readings: Seq<ConnectorReading>) -> Seq<
    ScanEvent,
>
    decreases readings.len(),
{
    if readings.len() == 0 {
        Seq::empty()
    } else {
        let before = known_after(known, readings.drop_last());
        let earlier = unplugged(known, readings.drop_last());
        let reading = readings.last();
        if reading.connection == Connection::Disconnected && known_connected(
            before,
            reading.connector,
        ) {
            earlier.push(
                ScanEvent::Disconnected {
                    connector: reading.connector,
                    crtc: before[reading.connector].bound_crtc,
                },
            )
        } else {
            earlier
        }
    }
}

/// The events of a scan: what was unplugged first, then what was plugged.
pub open spec fn scan_events(known: Map<u32, ConnectorState>, readings: Seq<ConnectorReading>) -> Seq<
    ScanEvent,
> {
    unplugged(known, readings) + plugged(known, readings)
}

/// What one event asks of the outputs.
pub open spec fn output_change(event: ScanEvent) -> OutputChange {
    match event {
        ScanEvent::Connected { connector, crtc: Some(crtc) } => OutputChange::Create {
            connector,
            crtc,
        },
        ScanEvent::Disconnected { connector, crtc: Some(crtc) } => OutputChange::Destroy {
            connector,
            crtc,
        },
        ScanEvent::Connected { connector, crtc: None } => OutputChange::Unusable { connector },
        ScanEvent::Disconnected { connector, crtc: None } => OutputChange::Unusable { connector },
    }
}

/// What a list of events asks of the outputs, event by event.
pub open spec fn output_changes(events: Seq<ScanEvent>) -> Seq<OutputChange> {
    events.map_values(|event: ScanEvent| output_change(event))
}

/// Decides what one scan event asks of the outputs: a connector that came
/// with a CRTC gets an output, one that went with a CRTC loses it, and an
/// event without a CRTC changes nothing.
pub fn change_for(event: &ScanEvent) -> (change: OutputChange)
    ensures
        change == output_change(*event),
{
    match event {
        ScanEvent::Connected { connector, crtc: Some(crtc) } => OutputChange::Create {
            connector: *connector,
            crtc: *crtc,
        },
        ScanEvent::Disconnected { connector, crtc: Some(crtc) } => OutputChange::Destroy {
            connector: *connector,
            crtc: *crtc,
        },
        ScanEvent::Connected { connector, crtc: None } => OutputChange::Unusable {
            connector: *connector,
        },
        ScanEvent::Disconnected { connector, crtc: None } => OutputChange::Unusable {
            connector: *connector,
        },
    }
}

impl Device {
    /// Makes the record of a device from the outcome of its bring-up.
    ///
    /// A bring-up that failed gives the error of the step that failed, and
    /// no device. One that came through gives the device for the node.
    pub fn new(node: u64, setup: &DeviceSetup) -> (r: Result<Device, DeviceError>)
        ensures
            match r {
                Ok(device) => new_device(node, *setup) == Some(device@),
                Err(e) => setup_error(*setup) == Some(e),
            },
    {
        match setup {
            DeviceSetup::OpenFailed(m) => Err(DeviceError::OpenDevFile(m.clone())),
            DeviceSetup::DrmFailed(m) => Err(DeviceError::NewDevice(m.clone())),
            DeviceSetup::GbmFailed(m) => Err(DeviceError::GbmDevice(m.clone())),
            DeviceSetup::Ready { render_node } => {
                let render_node = match render_node {
                    Some(found) => *found,
                    None => node,
                };
                Ok(Device { device_node: node, render_node, connectors: HashMap::new() })
            },
        }
    }

    /// Takes in a scan of the connectors and says what has changed since
    /// the scan before: first every connector that went, then every
    /// connector that came, each group in the order of the readings.
    ///
    /// A connector of which the hardware cannot tell is known as not
    /// connected from then on, and no event says so: it is reported when it
    /// is next read as connected, and not when it is next read as
    /// disconnected.
    pub fn scan_connectors(&mut self, readings: &Vec<ConnectorReading>) -> (events: Vec<ScanEvent>)
        ensures
            final(self).device_node == old(self).device_node,
            final(self).render_node == old(self).render_node,
            final(self).connectors@ == known_after(old(self).connectors@, readings@),
            events@ == scan_events(old(self).connectors@, readings@),
    {
        let mut removed: Vec<ScanEvent> = Vec::new();
        let mut added: Vec<ScanEvent> = Vec::new();
        let mut i: usize = 0;
        while i < readings.len()
            invariant
                i <= readings.len(),
                self.device_node == old(self).device_node,
                self.render_node == old(self).render_node,
                self.connectors@ == known_after(old(self).connectors@, readings@.take(i as int)),
                removed@ == unplugged(old(self).connectors@, readings@.take(i as int)),
                added@ == plugged(old(self).connectors@, readings@.take(i as int)),
            decreases readings.len() - i,
        {
            let reading = readings[i];
            proof {
                assert(readings@.take(i + 1).drop_last() =~= readings@.take(i as int));
            }
            let was_connected = match self.connectors.get(&reading.connector) {
                Some(state) => state.connected,
                None => false,
            };
            match reading.connection {
                Connection::Connected => {
                    if !was_connected {
                        added.push(
                            ScanEvent::Connected { connector: reading.connector, crtc: reading.crtc },
                        );
                    }
                    self.connectors.insert(
                        reading.connector,
                        ConnectorState { connected: true, bound_crtc: reading.crtc },
                    );
                },
                Connection::Disconnected => {
                    if was_connected {
                        let bound = match self.connectors.get(&reading.connector) {
                            Some(state) => state.bound_crtc,
                            None => None,
                        };
                        removed.push(
                            ScanEvent::Disconnected { connector: reading.connector, crtc: bound },
                        );
                    }
                    self.connectors.insert(
                        reading.connector,
                        ConnectorState { connected: false, bound_crtc: reading.crtc },
                    );
                },
                Connection::Unknown => {
                    self.connectors.insert(
                        reading.connector,
                        ConnectorState { connected: false, bound_crtc: reading.crtc },
                    );
                },
            }
            i += 1;
        }
        proof {
            assert(readings@.take(readings.len() as int) =~= readings@);
        }
        let mut events = removed;
        events.append(&mut added);
        events
    }

    /// Handles a change of the device: scans the connectors and says, event
    /// by event, what has to happen to the outputs.
    pub fn on_device_changed(&mut self, readings: &Vec<ConnectorReading>) -> (changes: Vec<
        OutputChange,
    >)
        ensures
            final(self).device_node == old(self).device_node,
            final(self).render_node == old(self).render_node,
            final(self).connectors@ == known_after(old(self).connectors@, readings@),
            changes@ == output_changes(scan_events(old(self).connectors@, readings@)),
    {
        let events = self.scan_connectors(readings);
        let mut changes: Vec<OutputChange> = Vec::new();
        let mut i: usize = 0;
        while i < events.len()
            invariant
                i <= events.len(),
                changes@ == output_changes(events@.take(i as int)),
            decreases events.len() - i,
        {
            changes.push(change_for(&events[i]));
            i += 1;
        }
        changes
    }
}

/// Whether no connector has two readings.
pub open spec fn one_reading_each(readings: Seq<ConnectorReading>) -> bool {
    forall|i: int, j: int|
        0 <= i < j < readings.len() ==> readings[i].connector != readings[j].connector
}

/// Whether everything that the readings say is known already.
pub open spec fn all_known(known: Map<u32, ConnectorState>, readings: Seq<ConnectorReading>) -> bool {
    forall|i: int|
        0 <= i < readings.len() ==> known.contains_key(
            #[trigger] readings[i].connector,
        ) && known[readings[i].connector] == reading_state(readings[i])
}

/// A scan that reads only what is known already finds no event and leaves
/// what is known as it was.
pub proof fn lemma_known_readings_are_quiet(
    known: Map<u32, ConnectorState>,
    readings: Seq<ConnectorReading>,
)
    requires
        all_known(known, readings),
    ensures
        known_after(known, readings) == known,
        scan_events(known, readings) == Seq::<ScanEvent>::empty(),
    decreases readings.len(),
{
    if readings.len() > 0 {
        lemma_known_readings_are_quiet(known, readings.drop_last());
    }
}

/// After a scan in which no connector has two readings, everything that the
/// readings say is known.
pub proof fn lemma_scan_records_readings(
    known: Map<u32, ConnectorState>,
    readings: Seq<ConnectorReading>,
)
    requires
        one_reading_each(readings),
    ensures
        all_known(known_after(known, readings), readings),
    decreases readings.len(),
{
    if readings.len() > 0 {
        let earlier = readings.drop_last();
        lemma_scan_records_readings(known, earlier);
        assert forall|i: int| 0 <= i < readings.len() - 1 implies earlier[i] == readings[i] by {}
    }
}

/// Scanning is idempotent: when the hardware has not changed between two
/// scans, so that the second reads what the first read, the second finds no
/// event and leaves what is known as it was. This holds of every scan in
/// which each connector is read once, whatever was known before the first.
pub proof fn lemma_second_scan_is_quiet(
    known: Map<u32, ConnectorState>,
    readings: Seq<ConnectorReading>,
)
    requires
        one_reading_each(readings),
    ensures
        scan_events(known_after(known, readings), readings) == Seq::<ScanEvent>::empty(),
        known_after(known_after(known, readings), readings) == known_after(known, readings),
{
    lemma_scan_records_readings(known, readings);
    lemma_known_readings_are_quiet(known_after(known, readings), readings);
}


/// A GPU as the platform lists it.
pub struct GpuCandidate {
    /// The path of its device node.
    pub path: String,
    /// The primary node that the path leads to, if it leads to one.
    pub primary_node: Option<u64>,
}

/// Why there is no primary GPU.
pub enum GpuError {
    /// The platform named no primary GPU and lists no GPU at all.
    NoGpuFound,
    /// The GPU at this path was chosen, and has no primary node.
    NoPrimaryNode(String),
}

/// The GPU that is chosen: the one that the platform names as primary,
/// else the first that it lists, else none. A question that the platform
/// could not answer counts as one that it answered with nothing.
pub open spec fn chosen_gpu(
    hint: Result<Option<GpuCandidate>, String>,
    gpus: Result<Vec<GpuCandidate>, String>,
) -> Option<GpuCandidate> {
    match hint {
        Ok(Some(gpu)) => Some(gpu),
        _ => match gpus {
            Ok(list) => if list@.len() > 0 {
                Some(list@[0])
            } else {
                None
            },
            Err(_) => None,
        },
    }
}

/// The primary node of the chosen GPU, or why there is none.
pub open spec fn primary_gpu(
    hint: Result<Option<GpuCandidate>, String>,
    gpus: Result<Vec<GpuCandidate>, String>,
) -> Result<u64, GpuError> {
    match chosen_gpu(hint, gpus) {
        None => Err(GpuError::NoGpuFound),
        Some(gpu) => match gpu.primary_node {
            Some(node) => Ok(node),
            None => Err(GpuError::NoPrimaryNode(gpu.path)),
        },
    }
}

/// Picks the primary GPU of a seat.
///
/// `hint` is what the platform answered when asked for the primary GPU,
/// `gpus` what it answered when asked for all the GPUs of the seat, in its
/// own order. The GPU of the hint is taken, else the first of the list.
/// Without either there is no GPU; a chosen GPU without a primary node is
/// an error too, and the list is not searched for another.
pub fn find_primary_gpu(
    hint: &Result<Option<GpuCandidate>, String>,
    gpus: &Result<Vec<GpuCandidate>, String>,
) -> (r: Result<u64, GpuError>)
    ensures
        r == primary_gpu(*hint, *gpus),
{
    let chosen = match hint {
        Ok(Some(gpu)) => gpu,
        _ => match gpus {
            Ok(list) => {
                if list.len() == 0 {
                    return Err(GpuError::NoGpuFound);
                }
                &list[0]
            },
            Err(_) => { return Err(GpuError::NoGpuFound); },
        },
    };
    match chosen.primary_node {
        Some(node) => Ok(node),
        None => Err(GpuError::NoPrimaryNode(chosen.path.clone())),
    }
}

} // verus!
