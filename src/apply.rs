//! The apply pipeline: from a settings record and the current process
//! snapshot to the ordered list of effects that puts them into force.
use vstd::prelude::*;

use crate::monitor::ProcessInfo;
use crate::plan::{dword_step, text_step, RegData, RegText, RegValue, Step};
use crate::settings::{ASWMode, GPUPriority, RecoverySettings, RelinkedView, SettingsView, VRSettings};

verus! {

pub open spec fn flag(b: bool) -> u32 {
    if b {
        1
    } else {
        0
    }
}

/// Link encoder settings. Sharpening is enabled exactly when its strength
/// is above zero; the strength is written in hundredths.
pub open spec fn link_steps(s: SettingsView) -> Seq<Step> {
    seq![
        dword_step(RegValue::BitrateMbps, s.visual.encode_bitrate_mbps),
        dword_step(RegValue::EncodeResolutionWidth, s.visual.encode_resolution_width),
        dword_step(RegValue::EncodeResolutionHeight, s.visual.encode_resolution_height),
        dword_step(RegValue::LinkSharpeningEnabled, flag(s.visual.link_sharpening > 0)),
        dword_step(RegValue::LinkSharpeningStrength, s.visual.link_sharpening),
    ]
}

/// OpenXR runtime selection: Oculus wins when both are set, nothing is
/// written when neither is.
pub open spec fn runtime_steps(s: SettingsView) -> Seq<Step> {
    if s.performance.use_openxr {
        seq![text_step(RegValue::ActiveRuntime, RegText::Oculus)]
    } else if s.performance.use_steamvr {
        seq![text_step(RegValue::ActiveRuntime, RegText::SteamVR)]
    } else {
        seq![]
    }
}

/// Priority changes for the live server processes of a snapshot, in
/// snapshot order.
pub open spec fn boost_steps(procs: Seq<ProcessInfo>, priority: GPUPriority) -> Seq<Step>
    decreases procs.len(),
{
    if procs.len() == 0 {
        seq![]
    } else {
        let rest = boost_steps(procs.drop_last(), priority);
        let p = procs.last();
        if p.process.is_server() && p.pid is Some {
            rest.push(Step::SetPriority { pid: p.pid->0, priority })
        } else {
            rest
        }
    }
}

pub open spec fn priority_steps(s: SettingsView, procs: Seq<ProcessInfo>) -> Seq<Step> {
    if s.performance.cpu_priority_boost {
        boost_steps(procs, s.performance.gpu_priority)
    } else {
        seq![]
    }
}

pub open spec fn asw_code(m: ASWMode) -> u32 {
    match m {
        ASWMode::Off => 0,
        ASWMode::Auto => 1,
        ASWMode::Force45FPS => 2,
        ASWMode::Force30FPS => 3,
    }
}

pub open spec fn asw_steps(s: SettingsView) -> Seq<Step> {
    seq![dword_step(RegValue::Asw, asw_code(s.performance.asw_mode))]
}

pub open spec fn additional_steps(s: SettingsView) -> Seq<Step> {
    seq![
        Step::SetPowerPlan(s.performance.power_plan),
        dword_step(RegValue::MirrorWindow, flag(s.visual.mirror_window)),
        dword_step(RegValue::GuardianVisibility, flag(s.visual.guardian_visibility)),
        Step::WriteToolConfig { upscaling_enabled: s.visual.upscaling_enabled },
    ]
}

/// The record after ReLinked mode has had its say: when set, it forces
/// telemetry and login off, the dash-killer on, runtime high priority and
/// other software allowed. Otherwise the record is unchanged.
pub open spec fn relinked_view(s: SettingsView) -> SettingsView {
    if s.relinked.relinked_mode {
        forced_view(s)
    } else {
        s
    }
}

pub open spec fn forced_view(s: SettingsView) -> SettingsView {
    SettingsView {
        recovery: RecoverySettings { oculus_killer_enabled: true, ..s.recovery },
        relinked: RelinkedView {
            disable_telemetry: true,
            disable_login: true,
            enable_runtime_high_priority: true,
            allow_other_software: true,
            ..s.relinked
        },
        ..s
    }
}

/// ReLinked mode re-runs the dash-killer, the telemetry switch, the
/// priority step and the runtime selection on the forced record.
pub open spec fn relinked_steps(s: SettingsView, procs: Seq<ProcessInfo>) -> Seq<Step> {
    if s.relinked.relinked_mode {
        let f = relinked_view(s);
        seq![
            Step::ToggleKiller { enable: f.recovery.oculus_killer_enabled },
            dword_step(RegValue::TelemetryEnabled, 0),
        ] + priority_steps(f, procs) + runtime_steps(f)
    } else {
        seq![]
    }
}

/// Every effect of one apply, in order; the last persists the record.
pub open spec fn apply_steps(s: SettingsView, procs: Seq<ProcessInfo>) -> Seq<Step> {
    link_steps(s) + runtime_steps(s) + priority_steps(s, procs) + asw_steps(s) + additional_steps(s)
        + seq![Step::ToggleKiller { enable: s.recovery.oculus_killer_enabled }] + relinked_steps(s, procs)
        + seq![Step::SaveSettings]
}

fn dword(value: RegValue, data: u32) -> (r: Step)
    ensures
        r == dword_step(value, data),
{
    Step::WriteRegistry { value, data: RegData::Dword(data) }
}

fn bool_flag(b: bool) -> (r: u32)
    ensures
        r == flag(b),
{
    if b {
        1
    } else {
        0
    }
}

pub fn oculus_link_steps(s: &VRSettings) -> (r: Vec<Step>)
    ensures
        r@ == link_steps(s@),
{
    let r = vec![
        dword(RegValue::BitrateMbps, s.visual.encode_bitrate_mbps),
        dword(RegValue::EncodeResolutionWidth, s.visual.encode_resolution_width),
        dword(RegValue::EncodeResolutionHeight, s.visual.encode_resolution_height),
        dword(RegValue::LinkSharpeningEnabled, bool_flag(s.visual.link_sharpening > 0)),
        dword(RegValue::LinkSharpeningStrength, s.visual.link_sharpening),
    ];
    assert(r@ =~= link_steps(s@));
    r
}

pub fn openxr_steps(s: &VRSettings) -> (r: Vec<Step>)
    ensures
        r@ == runtime_steps(s@),
{
    let mut r: Vec<Step> = Vec::new();
    if s.performance.use_openxr {
        r.push(Step::WriteRegistry { value: RegValue::ActiveRuntime, data: RegData::Text(RegText::Oculus) });
    } else if s.performance.use_steamvr {
        r.push(Step::WriteRegistry { value: RegValue::ActiveRuntime, data: RegData::Text(RegText::SteamVR) });
    }
    assert(r@ =~= runtime_steps(s@));
    r
}

pub fn process_priority_steps(s: &VRSettings, processes: &Vec<ProcessInfo>) -> (r: Vec<Step>)
    ensures
        r@ == priority_steps(s@, processes@),
{
    let mut r: Vec<Step> = Vec::new();
    if !s.performance.cpu_priority_boost {
        return r;
    }
    let mut i: usize = 0;
    while i < processes.len()
        invariant
            i <= processes.len(),
            r@ == boost_steps(processes@.subrange(0, i as int), s.performance.gpu_priority),
        decreases processes.len() - i,
    {
        let p = processes[i];
        assert(processes@.subrange(0, i + 1).drop_last() =~= processes@.subrange(0, i as int));
        if p.process.is_vr_server() {
            if let Some(pid) = p.pid {
                r.push(Step::SetPriority { pid, priority: s.performance.gpu_priority });
            }
        }
        i = i + 1;
    }
    assert(processes@.subrange(0, processes.len() as int) =~= processes@);
    r
}

pub fn asw_code_of(mode: ASWMode) -> (r: u32)
    ensures
        r == asw_code(mode),
{
    match mode {
        ASWMode::Off => 0,
        ASWMode::Auto => 1,
        ASWMode::Force45FPS => 2,
        ASWMode::Force30FPS => 3,
    }
}

pub fn asw_settings_steps(s: &VRSettings) -> (r: Vec<Step>)
    ensures
        r@ == asw_steps(s@),
{
    let r = vec![dword(RegValue::Asw, asw_code_of(s.performance.asw_mode))];
    assert(r@ =~= asw_steps(s@));
    r
}

pub fn additional_settings_steps(s: &VRSettings) -> (r: Vec<Step>)
    ensures
        r@ == additional_steps(s@),
{
    let r = vec![
        Step::SetPowerPlan(s.performance.power_plan),
        dword(RegValue::MirrorWindow, bool_flag(s.visual.mirror_window)),
        dword(RegValue::GuardianVisibility, bool_flag(s.visual.guardian_visibility)),
        Step::WriteToolConfig { upscaling_enabled: s.visual.upscaling_enabled },
    ];
    assert(r@ =~= additional_steps(s@));
    r
}

/// Forces the settings that ReLinked mode implies.
fn force_relinked(settings: &mut VRSettings)
    ensures
        final(settings)@ == forced_view(old(settings)@),
{
    let ghost before = settings@;
    settings.relinked.disable_telemetry = true;
    settings.relinked.disable_login = true;
    settings.recovery.oculus_killer_enabled = true;
    settings.relinked.enable_runtime_high_priority = true;
    settings.relinked.allow_other_software = true;
    assert(settings@ =~= forced_view(before));
}

/// ReLinked mode: forces its companion settings on the record and returns
/// the effects that it re-runs.
pub fn relinked_settings_steps(settings: &mut VRSettings, processes: &Vec<ProcessInfo>) -> (r: Vec<
    Step,
>)
    ensures
        final(settings)@ == relinked_view(old(settings)@),
        r@ == relinked_steps(old(settings)@, processes@),
{
    let mut r: Vec<Step> = Vec::new();
    if !settings.relinked.relinked_mode {
        return r;
    }
    force_relinked(settings);
    r.push(Step::ToggleKiller { enable: settings.recovery.oculus_killer_enabled });
    r.push(dword(RegValue::TelemetryEnabled, 0));
    let mut boosts = process_priority_steps(settings, processes);
    r.append(&mut boosts);
    let mut runtime = openxr_steps(settings);
    r.append(&mut runtime);
    assert(r@ =~= relinked_steps(old(settings)@, processes@));
    r
}

/// One apply: every effect in pipeline order, ending with persisting the
/// record, which ReLinked mode may have changed.
pub fn apply_settings(settings: &mut VRSettings, processes: &Vec<ProcessInfo>) -> (r: Vec<Step>)
    ensures
        final(settings)@ == relinked_view(old(settings)@),
        r@ == apply_steps(old(settings)@, processes@),
{
    let mut r = oculus_link_steps(settings);
    let mut more = openxr_steps(settings);
    r.append(&mut more);
    let mut more = process_priority_steps(settings, processes);
    r.append(&mut more);
    let mut more = asw_settings_steps(settings);
    r.append(&mut more);
    let mut more = additional_settings_steps(settings);
    r.append(&mut more);
    r.push(Step::ToggleKiller { enable: settings.recovery.oculus_killer_enabled });
    let mut more = relinked_settings_steps(settings, processes);
    r.append(&mut more);
    r.push(Step::SaveSettings);
    r
}

} // verus!
