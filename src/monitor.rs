use vstd::prelude::*;

verus! {

/// The fixed catalog of VR-related executables that the monitor watches.
#[derive(Clone, Copy, Debug, PartialEq, Eq, Structural)]
pub enum VRProcess {
    OVRServer,
    OculusClient,
    VrServer,
    VrDashboard,
    VrCompositor,
}

impl VRProcess {
    /// Executable name under which the process appears in the process table.
    pub fn image_name(&self) -> (r: &'static str)
        ensures
            r@ == (match *self {
                VRProcess::OVRServer => "OVRServer_x64.exe"@,
                VRProcess::OculusClient => "OculusClient.exe"@,
                VRProcess::VrServer => "vrserver.exe"@,
                VRProcess::VrDashboard => "vrdashboard.exe"@,
                VRProcess::VrCompositor => "vrcompositor.exe"@,
            }),
    {
        match self {
            VRProcess::OVRServer => "OVRServer_x64.exe",
            VRProcess::OculusClient => "OculusClient.exe",
            VRProcess::VrServer => "vrserver.exe",
            VRProcess::VrDashboard => "vrdashboard.exe",
            VRProcess::VrCompositor => "vrcompositor.exe",
        }
    }

    /// A runtime server process (Oculus or SteamVR), whose priority the
    /// apply pipeline raises and which a restart relaunches.
    pub open spec fn is_server(self) -> bool {
        self is OVRServer || self is VrServer
    }

    pub fn is_vr_server(&self) -> (r: bool)
        ensures
            r == self.is_server(),
    {
        match self {
            VRProcess::OVRServer | VRProcess::VrServer => true,
            _ => false,
        }
    }
}

/// The catalog, in polling and display order.
pub open spec fn catalog() -> Seq<VRProcess> {
    seq![
        VRProcess::OVRServer,
        VRProcess::OculusClient,
        VRProcess::VrServer,
        VRProcess::VrDashboard,
        VRProcess::VrCompositor,
    ]
}

pub fn process_catalog() -> (r: Vec<VRProcess>)
    ensures
        r@ == catalog(),
{
    let r = vec![
        VRProcess::OVRServer,
        VRProcess::OculusClient,
        VRProcess::VrServer,
        VRProcess::VrDashboard,
        VRProcess::VrCompositor,
    ];
    assert(r@ =~= catalog());
    r
}

/// Liveness of a watched process. The monitor only ever reports `Running`
/// or `Stopped`; the other two are set by callers.
#[derive(Clone, Copy, Debug, PartialEq, Eq, Structural)]
pub enum ProcessStatus {
    Running,
    Stopped,
    Frozen,
    Restarting,
}

/// What the process table reports of the first process found under a name.
#[derive(Clone, Copy, Debug, PartialEq, Eq, Structural)]
pub struct Observation {
    pub pid: u32,
    /// CPU usage, in hundredths of a percent.
    pub cpu_usage: u32,
    /// Resident memory, in bytes.
    pub memory_bytes: u64,
}

/// One entry of a process snapshot.
#[derive(Clone, Copy, Debug, PartialEq, Eq)]
pub struct ProcessInfo {
    pub process: VRProcess,
    pub status: ProcessStatus,
    pub pid: Option<u32>,
    /// CPU usage, in hundredths of a percent.
    pub cpu_usage: u32,
    /// Resident memory, in whole mebibytes (rounded down).
    pub memory_mb: u64,
}

pub open spec fn bytes_to_mb(bytes: u64) -> u64 {
    (bytes / 1024 / 1024) as u64
}

/// The snapshot entry of `process` given what the process table held.
pub open spec fn entry_for(process: VRProcess, seen: Option<Observation>) -> ProcessInfo {
    match seen {
        Some(o) => ProcessInfo {
            process,
            status: ProcessStatus::Running,
            pid: Some(o.pid),
            cpu_usage: o.cpu_usage,
            memory_mb: bytes_to_mb(o.memory_bytes),
        },
        None => ProcessInfo {
            process,
            status: ProcessStatus::Stopped,
            pid: None,
            cpu_usage: 0,
            memory_mb: 0,
        },
    }
}

/// A process found in the table is `Running` under its pid; one that is
/// absent is `Stopped`, with no pid, no CPU use and no memory.
pub fn process_entry(process: VRProcess, seen: Option<Observation>) -> (r: ProcessInfo)
    ensures
        r == entry_for(process, seen),
{
    match seen {
        Some(o) => ProcessInfo {
            process,
            status: ProcessStatus::Running,
            pid: Some(o.pid),
            cpu_usage: o.cpu_usage,
            memory_mb: o.memory_bytes / 1024 / 1024,
        },
        None => ProcessInfo {
            process,
            status: ProcessStatus::Stopped,
            pid: None,
            cpu_usage: 0,
            memory_mb: 0,
        },
    }
}

/// Rebuilds the snapshot from one lookup per catalog entry, in catalog
/// order: `seen[i]` is what the process table held for `catalog()[i]`.
pub fn build_snapshot(seen: &Vec<Option<Observation>>) -> (r: Vec<ProcessInfo>)
    requires
        seen.len() == catalog().len(),
    ensures
        r.len() == catalog().len(),
        forall|i: int| 0 <= i < r.len() ==> r[i] == entry_for(catalog()[i], seen[i]),
{
    let names = process_catalog();
    let mut r: Vec<ProcessInfo> = Vec::new();
    let mut i: usize = 0;
    while i < names.len()
        invariant
            names@ == catalog(),
            seen.len() == catalog().len(),
            i <= names.len(),
            r.len() == i,
            forall|j: int| 0 <= j < i ==> r[j] == entry_for(catalog()[j], seen[j]),
        decreases names.len() - i,
    {
        r.push(process_entry(names[i], seen[i]));
        i = i + 1;
    }
    r
}

} // verus!
