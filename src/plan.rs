use vstd::prelude::*;

use crate::monitor::VRProcess;
use crate::settings::{GPUPriority, PowerPlan};

verus! {

/// Registry hive that a value lives under.
#[derive(Clone, Copy, Debug, PartialEq, Eq, Structural)]
pub enum Hive {
    CurrentUser,
    LocalMachine,
}

/// The fixed catalog of registry values that the pipeline writes.
#[derive(Clone, Copy, Debug, PartialEq, Eq, Structural)]
pub enum RegValue {
    BitrateMbps,
    EncodeResolutionWidth,
    EncodeResolutionHeight,
    LinkSharpeningEnabled,
    LinkSharpeningStrength,
    ActiveRuntime,
    Asw,
    MirrorWindow,
    GuardianVisibility,
    TelemetryEnabled,
    CoreChannel,
}

impl RegValue {
    pub open spec fn spec_hive(self) -> Hive {
        if self is ActiveRuntime || self is CoreChannel {
            Hive::LocalMachine
        } else {
            Hive::CurrentUser
        }
    }

    pub fn hive(&self) -> (r: Hive)
        ensures
            r == self.spec_hive(),
    {
        match self {
            RegValue::ActiveRuntime | RegValue::CoreChannel => Hive::LocalMachine,
            _ => Hive::CurrentUser,
        }
    }

    /// Path of the key that holds the value, below its hive.
    pub fn subkey(&self) -> (r: &'static str)
        ensures
            r@ == (match *self {
                RegValue::BitrateMbps
                | RegValue::EncodeResolutionWidth
                | RegValue::EncodeResolutionHeight
                | RegValue::LinkSharpeningEnabled
                | RegValue::LinkSharpeningStrength
                | RegValue::MirrorWindow
                | RegValue::GuardianVisibility => "Software\\Oculus\\RemoteHeadset"@,
                RegValue::ActiveRuntime => "SOFTWARE\\Khronos\\OpenXR\\1"@,
                RegValue::Asw => "Software\\Oculus\\Debug"@,
                RegValue::TelemetryEnabled => "Software\\Oculus\\Telemetry"@,
                RegValue::CoreChannel => "SOFTWARE\\WOW6432Node\\Oculus VR, LLC\\Oculus\\Config"@,
            }),
    {
        match self {
            RegValue::BitrateMbps
            | RegValue::EncodeResolutionWidth
            | RegValue::EncodeResolutionHeight
            | RegValue::LinkSharpeningEnabled
            | RegValue::LinkSharpeningStrength
            | RegValue::MirrorWindow
            | RegValue::GuardianVisibility => "Software\\Oculus\\RemoteHeadset",
            RegValue::ActiveRuntime => "SOFTWARE\\Khronos\\OpenXR\\1",
            RegValue::Asw => "Software\\Oculus\\Debug",
            RegValue::TelemetryEnabled => "Software\\Oculus\\Telemetry",
            RegValue::CoreChannel => "SOFTWARE\\WOW6432Node\\Oculus VR, LLC\\Oculus\\Config",
        }
    }

    /// Name of the value inside its key.
    pub fn name(&self) -> (r: &'static str)
        ensures
            r@ == (match *self {
                RegValue::BitrateMbps => "BitrateMbps"@,
                RegValue::EncodeResolutionWidth => "EncodeResolutionWidth"@,
                RegValue::EncodeResolutionHeight => "EncodeResolutionHeight"@,
                RegValue::LinkSharpeningEnabled => "LinkSharpeningEnabled"@,
                RegValue::LinkSharpeningStrength => "LinkSharpeningStrength"@,
                RegValue::ActiveRuntime => "ActiveRuntime"@,
                RegValue::Asw => "ASW"@,
                RegValue::MirrorWindow => "MirrorWindow"@,
                RegValue::GuardianVisibility => "GuardianVisibility"@,
                RegValue::TelemetryEnabled => "Enabled"@,
                RegValue::CoreChannel => "CoreChannel"@,
            }),
    {
        match self {
            RegValue::BitrateMbps => "BitrateMbps",
            RegValue::EncodeResolutionWidth => "EncodeResolutionWidth",
            RegValue::EncodeResolutionHeight => "EncodeResolutionHeight",
            RegValue::LinkSharpeningEnabled => "LinkSharpeningEnabled",
            RegValue::LinkSharpeningStrength => "LinkSharpeningStrength",
            RegValue::ActiveRuntime => "ActiveRuntime",
            RegValue::Asw => "ASW",
            RegValue::MirrorWindow => "MirrorWindow",
            RegValue::GuardianVisibility => "GuardianVisibility",
            RegValue::TelemetryEnabled => "Enabled",
            RegValue::CoreChannel => "CoreChannel",
        }
    }

    /// Whether the key is created when missing. The update-channel key is
    /// only ever opened: a runtime that is not installed is left alone.
    pub fn creates_key(&self) -> (r: bool)
        ensures
            r == !(self is CoreChannel),
    {
        match self {
            RegValue::CoreChannel => false,
            _ => true,
        }
    }
}

/// The text values that the pipeline writes.
#[derive(Clone, Copy, Debug, PartialEq, Eq, Structural)]
pub enum RegText {
    Oculus,
    SteamVR,
    NoUpdates,
}

impl RegText {
    pub fn as_str(&self) -> (r: &'static str)
        ensures
            r@ == (match *self {
                RegText::Oculus => "oculus"@,
                RegText::SteamVR => "steamvr"@,
                RegText::NoUpdates => "NO_UPDATES"@,
            }),
    {
        match self {
            RegText::Oculus => "oculus",
            RegText::SteamVR => "steamvr",
            RegText::NoUpdates => "NO_UPDATES",
        }
    }
}

/// Data written to a registry value.
#[derive(Clone, Copy, Debug, PartialEq, Eq, Structural)]
pub enum RegData {
    Dword(u32),
    Text(RegText),
}

/// The dash executable and its backup copy.
#[derive(Clone, Copy, Debug, PartialEq, Eq, Structural)]
pub enum DashFile {
    Live,
    Backup,
}

impl DashFile {
    pub fn path(&self) -> (r: &'static str)
        ensures
            r@ == (match *self {
                DashFile::Live => "C:\\Program Files\\Oculus\\Support\\oculus-dash\\dash\\bin\\OculusDash.exe"@,
                DashFile::Backup => "C:\\Program Files\\Oculus\\Support\\oculus-dash\\dash\\bin\\OculusDash.exe.bak"@,
            }),
    {
        match self {
            DashFile::Live => "C:\\Program Files\\Oculus\\Support\\oculus-dash\\dash\\bin\\OculusDash.exe",
            DashFile::Backup => "C:\\Program Files\\Oculus\\Support\\oculus-dash\\dash\\bin\\OculusDash.exe.bak",
        }
    }
}

/// Programs that the host starts.
#[derive(Clone, Copy, Debug, PartialEq, Eq, Structural)]
pub enum Program {
    /// The Oculus runtime server.
    OculusRuntime,
    /// The SteamVR server.
    SteamVrServer,
    /// The Oculus debug tool.
    DebugTool,
    /// The SteamVR settings page, opened through its URI handler.
    SteamVrSettings,
}

impl Program {
    /// Executable to spawn.
    pub fn executable(&self) -> (r: &'static str)
        ensures
            r@ == (match *self {
                Program::OculusRuntime => "C:\\Program Files\\Oculus\\Support\\oculus-runtime\\OVRServer_x64.exe"@,
                Program::SteamVrServer => "C:\\Program Files (x86)\\Steam\\steamapps\\common\\SteamVR\\bin\\win64\\vrserver.exe"@,
                Program::DebugTool => "C:\\Program Files\\Oculus\\Support\\oculus-diagnostics\\OculusDebugTool.exe"@,
                Program::SteamVrSettings => "cmd"@,
            }),
    {
        match self {
            Program::OculusRuntime => "C:\\Program Files\\Oculus\\Support\\oculus-runtime\\OVRServer_x64.exe",
            Program::SteamVrServer => "C:\\Program Files (x86)\\Steam\\steamapps\\common\\SteamVR\\bin\\win64\\vrserver.exe",
            Program::DebugTool => "C:\\Program Files\\Oculus\\Support\\oculus-diagnostics\\OculusDebugTool.exe",
            Program::SteamVrSettings => "cmd",
        }
    }

    /// Arguments handed to the executable.
    pub fn arguments(&self) -> (r: Vec<&'static str>)
        ensures
            (*self is SteamVrSettings) ==> r.len() == 3 && r[0]@ == "/c"@ && r[1]@ == "start"@
                && r[2]@ == "steam://open/settings"@,
            !(*self is SteamVrSettings) ==> r.len() == 0,
    {
        match self {
            Program::SteamVrSettings => vec!["/c", "start", "steam://open/settings"],
            _ => Vec::new(),
        }
    }
}

/// One operating-system effect, described for a host to perform. Every
/// effect is best effort: a host logs a failure and goes on with the next.
#[derive(Clone, Copy, Debug, PartialEq, Eq, Structural)]
pub enum Step {
    /// Write `data` to a registry value.
    WriteRegistry { value: RegValue, data: RegData },
    /// Activate the power scheme of a plan.
    SetPowerPlan(PowerPlan),
    /// Overwrite the external upscaling tool's configuration file with
    /// [`tool_config_text`] of the flag.
    WriteToolConfig { upscaling_enabled: bool },
    /// Set the scheduling priority class of a live process.
    SetPriority { pid: u32, priority: GPUPriority },
    /// Run the dash-killer transition towards `enable`.
    ToggleKiller { enable: bool },
    /// Stop the runtime's background service.
    StopService,
    /// Start the runtime's background service.
    StartService,
    /// Wait before the next step.
    Pause { millis: u64 },
    /// Delete a file, if present.
    RemoveFile(DashFile),
    /// Rename a file, replacing the target.
    RenameFile { from: DashFile, to: DashFile },
    /// Force-terminate every process of an executable name.
    Kill(VRProcess),
    /// Spawn a program without waiting for it.
    Launch(Program),
    /// Persist the settings record as it stands.
    SaveSettings,
}

/// Name of the background service that the dash-killer stops and starts.
pub fn service_name() -> (r: &'static str)
    ensures
        r@ == "OVRService"@,
{
    "OVRService"
}

/// Configuration file of the external upscaling tool.
pub fn tool_config_path() -> (r: &'static str)
    ensures
        r@ == "openxr_toolkit.ini"@,
{
    "openxr_toolkit.ini"
}

/// Whole content written to the upscaling tool's configuration file.
pub fn tool_config_text(upscaling_enabled: bool) -> (r: &'static str)
    ensures
        upscaling_enabled ==> r@ == "upscaling_enabled = true"@,
        !upscaling_enabled ==> r@ == "upscaling_enabled = false"@,
{
    if upscaling_enabled {
        "upscaling_enabled = true"
    } else {
        "upscaling_enabled = false"
    }
}

pub open spec fn dword_step(value: RegValue, data: u32) -> Step {
    Step::WriteRegistry { value, data: RegData::Dword(data) }
}

pub open spec fn text_step(value: RegValue, data: RegText) -> Step {
    Step::WriteRegistry { value, data: RegData::Text(data) }
}

} // verus!
