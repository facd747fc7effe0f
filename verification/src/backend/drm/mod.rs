//! The backend that drives display hardware directly.
use vstd::prelude::*;
use std::collections::HashMap;
use crate::state::Backend;

pub mod device;

use self::device::{
    find_primary_gpu, new_device, output_changes, scan_events, setup_error, ConnectorReading,
    Device, DeviceError, DeviceSetup, DeviceView, GpuCandidate, GpuError, OutputChange,
};

verus! {

broadcast use vstd::std_specs::hash::group_hash_axioms;

/// What the direct backend holds in the shared state.
pub struct DrmBackend {
    /// The primary node of the GPU that renders.
    pub primary_gpu: u64,
    /// The devices that are up, by the node they were opened from.
    pub devices: HashMap<u64, Device>,
    /// The name of the session's seat.
    pub seat: String,
}

impl DrmBackend {
    /// Whether the books are in order: every device is filed under the
    /// node that it was opened from.
    pub open spec fn wf(&self) -> bool {
        forall|node: u64| #[trigger]
            self.devices@.contains_key(node) ==> self.devices@[node].device_node == node
    }
}

impl Backend for DrmBackend {
    open spec fn seat_name_spec(&self) -> Seq<char> {
        self.seat@
    }

    fn seat_name(&self) -> (name: String) {
        self.seat.clone()
    }
}

/// What the platform says of one device at startup or when it is plugged.
pub struct DeviceProbe {
    /// The node of the device.
    pub node: u64,
    /// How far its bring-up came.
    pub setup: DeviceSetup,
    /// What its connectors say, if it came up.
    pub connectors: Vec<ConnectorReading>,
}

/// What became of one device.
pub enum DeviceReport {
    /// The device is up. `changes` is what its first scan asks of the
    /// outputs.
    Added { node: u64, changes: Vec<OutputChange> },
    /// The device is left out, for this reason. The others are not
    /// affected.
    Skipped { node: u64, error: DeviceError },
}

/// The devices as mathematical values.
pub open spec fn device_views(devices: Map<u64, Device>) -> Map<u64, DeviceView> {
    devices.map_values(|device: Device| device@)
}

/// The device that a probe gives after its first scan, if it gives one.
pub open spec fn probed_device(probe: DeviceProbe) -> Option<DeviceView> {
    match new_device(probe.node, probe.setup) {
        Some(device) => Some(
            DeviceView {
                connectors: device::known_after(Map::empty(), probe.connectors@),
                ..device
            },
        ),
        None => None,
    }
}

/// The devices after one more was probed: a device that came up is filed
/// under its node, in place of any that was there; one that did not changes
/// nothing.
pub open spec fn devices_with(devices: Map<u64, DeviceView>, probe: DeviceProbe) -> Map<
    u64,
    DeviceView,
> {
    match probed_device(probe) {
        Some(device) => devices.insert(probe.node, device),
        None => devices,
    }
}

/// Whether a report is the one that a probe calls for.
pub open spec fn report_fits(report: DeviceReport, probe: DeviceProbe) -> bool {
    match report {
        DeviceReport::Added { node, changes } => node == probe.node && probe.setup is Ready
            && changes@ == output_changes(scan_events(Map::empty(), probe.connectors@)),
        DeviceReport::Skipped { node, error } => node == probe.node && setup_error(probe.setup)
            == Some(error),
    }
}

impl DrmBackend {
    /// Takes a device in, or leaves it out.
    ///
    /// A device that came up is scanned for the first time, against nothing
    /// known, and filed under its node. One whose bring-up failed is
    /// reported as skipped, with the error, and the devices stay as they
    /// were.
    pub fn add_device(&mut self, probe: &DeviceProbe) -> (report: DeviceReport)
        ensures
            final(self).primary_gpu == old(self).primary_gpu,
            final(self).seat == old(self).seat,
            device_views(final(self).devices@) == devices_with(
                device_views(old(self).devices@),
                *probe,
            ),
            report_fits(report, *probe),
            old(self).wf() ==> final(self).wf(),
    {
        match Device::new(probe.node, &probe.setup) {
            Ok(mut device) => {
                let changes = device.on_device_changed(&probe.connectors);
                self.devices.insert(probe.node, device);
                DeviceReport::Added { node: probe.node, changes }
            },
            Err(error) => DeviceReport::Skipped { node: probe.node, error },
        }
    }
}

/// The devices after one of them was scanned again: what is known of the
/// connectors of the device under `node` takes in the readings, and nothing
/// else changes. Without a device under `node`, nothing changes at all.
pub open spec fn devices_rescanned(
    devices: Map<u64, DeviceView>,
    node: u64,
    readings: Seq<ConnectorReading>,
) -> Map<u64, DeviceView> {
    if devices.contains_key(node) {
        devices.insert(
            node,
            DeviceView {
                connectors: device::known_after(devices[node].connectors, readings),
                ..devices[node]
            },
        )
    } else {
        devices
    }
}

impl DrmBackend {
    /// Handles a change of one device: scans its connectors against what
    /// the scans before found, and says what has to happen to the outputs.
    /// For a node that no device is filed under there is nothing to say.
    pub fn on_device_changed(&mut self, node: u64, readings: &Vec<ConnectorReading>) -> (changes:
        Option<Vec<OutputChange>>)
        ensures
            final(self).primary_gpu == old(self).primary_gpu,
            final(self).seat == old(self).seat,
            device_views(final(self).devices@) == devices_rescanned(
                device_views(old(self).devices@),
                node,
                readings@,
            ),
            match changes {
                Some(changes) => old(self).devices@.contains_key(node) && changes@
                    == output_changes(
                    scan_events(old(self).devices@[node].connectors@, readings@),
                ),
                None => !old(self).devices@.contains_key(node),
            },
            old(self).wf() ==> final(self).wf(),
    {
        match self.devices.remove(&node) {
            Some(mut device) => {
                let changes = device.on_device_changed(readings);
                self.devices.insert(node, device);
                Some(changes)
            },
            None => None,
        }
    }

    /// Takes a device off the books when it went away, and hands its
    /// record to the caller, who lets go of what was bound to the device
    /// before the record is dropped.
    pub fn remove_device(&mut self, node: u64) -> (record: Option<Device>)
        ensures
            final(self).primary_gpu == old(self).primary_gpu,
            final(self).seat == old(self).seat,
            final(self).devices@ == old(self).devices@.remove(node),
            old(self).wf() ==> final(self).wf(),
            match record {
                Some(device) => old(self).devices@.contains_key(node) && device == old(
                    self,
                ).devices@[node],
                None => !old(self).devices@.contains_key(node),
            },
    {
        self.devices.remove(&node)
    }
}

/// What the platform says at startup.
pub struct DrmProbe {
    /// The name of the seat of the session that was opened, or why none
    /// was.
    pub session: Result<String, String>,
    /// The GPU that the platform reports as primary, if it reports one, or
    /// why it could not say.
    pub primary_hint: Result<Option<GpuCandidate>, String>,
    /// All the GPUs of the seat, in the platform's order, or why it could
    /// not say.
    pub gpus: Result<Vec<GpuCandidate>, String>,
    /// The devices of the seat, in the platform's order.
    pub devices: Vec<DeviceProbe>,
}

/// Why the direct backend did not start.
pub enum DrmInitError {
    /// No session could be opened; with the cause.
    OpenSession(String),
    /// There is no primary GPU.
    PrimaryGpu(GpuError),
}

/// The direct backend after startup.
pub struct DrmStartup {
    pub backend: DrmBackend,
    /// What became of each device, in the order of the probes.
    pub reports: Vec<DeviceReport>,
}

/// The devices after all of `probes` were taken in or left out, in turn.
pub open spec fn devices_after(probes: Seq<DeviceProbe>) -> Map<u64, DeviceView>
    decreases probes.len(),
{
    if probes.len() == 0 {
        Map::empty()
    } else {
        devices_with(devices_after(probes.drop_last()), probes.last())
    }
}

/// Whether each report is the one that the probe at its place calls for.
pub open spec fn reports_fit(reports: Seq<DeviceReport>, probes: Seq<DeviceProbe>) -> bool {
    &&& reports.len() == probes.len()
    &&& forall|i: int| 0 <= i < reports.len() ==> report_fits(#[trigger] reports[i], probes[i])
}

/// Why startup fails on what the platform says, if it fails: without a
/// session first, then without a primary GPU.
pub open spec fn init_error(probe: DrmProbe) -> Option<DrmInitError> {
    match probe.session {
        Err(cause) => Some(DrmInitError::OpenSession(cause)),
        Ok(_) => match device::primary_gpu(probe.primary_hint, probe.gpus) {
            Err(e) => Some(DrmInitError::PrimaryGpu(e)),
            Ok(_) => None,
        },
    }
}

/// Starts the direct backend on what the platform says.
///
/// Without a session, or without a primary GPU, there is no backend. With
/// both, every device is taken in or left out on its own: a device whose
/// bring-up failed is reported and skipped, and the backend starts with the
/// others.
pub fn initialize(probe: &DrmProbe) -> (r: Result<DrmStartup, DrmInitError>)
    ensures
        match r {
            Err(e) => init_error(*probe) == Some(e),
            Ok(startup) => {
                &&& init_error(*probe) is None
                &&& probe.session == Ok::<String, String>(startup.backend.seat)
                &&& device::primary_gpu(probe.primary_hint, probe.gpus) == Ok::<u64, GpuError>(
                    startup.backend.primary_gpu,
                )
                &&& device_views(startup.backend.devices@) == devices_after(probe.devices@)
                &&& startup.backend.wf()
                &&& reports_fit(startup.reports@, probe.devices@)
            },
        },
{
    let seat = match &probe.session {
        Ok(seat) => seat.clone(),
        Err(cause) => { return Err(DrmInitError::OpenSession(cause.clone())); },
    };
    let primary_gpu = match find_primary_gpu(&probe.primary_hint, &probe.gpus) {
        Ok(node) => node,
        Err(e) => { return Err(DrmInitError::PrimaryGpu(e)); },
    };
    let mut backend = DrmBackend { primary_gpu, devices: HashMap::new(), seat };
    let mut reports: Vec<DeviceReport> = Vec::new();
    let mut i: usize = 0;
    while i < probe.devices.len()
        invariant
            i <= probe.devices.len(),
            backend.primary_gpu == primary_gpu,
            backend.wf(),
            probe.session == Ok::<String, String>(backend.seat),
            device_views(backend.devices@) == devices_after(probe.devices@.take(i as int)),
            reports_fit(reports@, probe.devices@.take(i as int)),
        decreases probe.devices.len() - i,
    {
        proof {
            assert(probe.devices@.take(i + 1).drop_last() =~= probe.devices@.take(i as int));
        }
        let report = backend.add_device(&probe.devices[i]);
        reports.push(report);
        i += 1;
    }
    proof {
        assert(probe.devices@.take(probe.devices.len() as int) =~= probe.devices@);
    }
    Ok(DrmStartup { backend, reports })
}

/// Whether one of the probes is for this node and came up.
pub open spec fn came_up(probes: Seq<DeviceProbe>, node: u64) -> bool {
    exists|i: int| 0 <= i < probes.len() && #[trigger] probes[i].node == node && probes[i].setup is Ready
}

/// Failures stay with the device that failed: after startup the devices
/// that are up are exactly those for which some probe came up, however many
/// other probes failed and wherever they stand in the list.
pub proof fn lemma_devices_are_those_that_came_up(probes: Seq<DeviceProbe>, node: u64)
    ensures
        devices_after(probes).contains_key(node) <==> came_up(probes, node),
    decreases probes.len(),
{
    if probes.len() > 0 {
        let earlier = probes.drop_last();
        lemma_devices_are_those_that_came_up(earlier, node);
        if came_up(probes, node) {
            let i = choose|i: int|
                0 <= i < probes.len() && #[trigger] probes[i].node == node && probes[i].setup is Ready;
            if i < earlier.len() {
                assert(earlier[i] == probes[i]);
            }
        }
    }
}

/// A probe that did not come up adds nothing: the devices after it are
/// the devices before it.
pub proof fn lemma_failed_probe_adds_nothing(probes: Seq<DeviceProbe>, probe: DeviceProbe)
    requires
        probe.setup !is Ready,
    ensures
        devices_after(probes.push(probe)) == devices_after(probes),
{
    assert(probes.push(probe).drop_last() =~= probes);
}

} // verus!
