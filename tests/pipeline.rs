use vr_performance_suite::apply::{apply_settings, asw_code_of, oculus_link_steps, openxr_steps, process_priority_steps};
use vr_performance_suite::monitor::{build_snapshot, Observation, ProcessInfo, ProcessStatus, VRProcess};
use vr_performance_suite::plan::{RegData, RegText, RegValue, Step};
use vr_performance_suite::settings::{ASWMode, GPUPriority, PowerPlan, VRSettings};

fn no_processes() -> Vec<ProcessInfo> {
    build_snapshot(&vec![None, None, None, None, None])
}

fn writes_to(steps: &[Step], value: RegValue) -> Vec<RegData> {
    steps
        .iter()
        .filter_map(|s| match s {
            Step::WriteRegistry { value: v, data } if *v == value => Some(*data),
            _ => None,
        })
        .collect()
}

#[test]
fn asw_force45_writes_code_two() {
    let mut s = VRSettings::default();
    s.performance.asw_mode = ASWMode::Force45FPS;
    let steps = apply_settings(&mut s, &no_processes());
    assert_eq!(writes_to(&steps, RegValue::Asw), vec![RegData::Dword(2)]);
}

#[test]
fn asw_codes_of_every_mode() {
    assert_eq!(asw_code_of(ASWMode::Off), 0);
    assert_eq!(asw_code_of(ASWMode::Auto), 1);
    assert_eq!(asw_code_of(ASWMode::Force45FPS), 2);
    assert_eq!(asw_code_of(ASWMode::Force30FPS), 3);
}

#[test]
fn zero_sharpening_disables_sharpening() {
    let mut s = VRSettings::default();
    s.visual.link_sharpening = 0;
    s.visual.sharpening_amount = 100;
    let steps = apply_settings(&mut s, &no_processes());
    assert_eq!(writes_to(&steps, RegValue::LinkSharpeningEnabled), vec![RegData::Dword(0)]);
    assert_eq!(writes_to(&steps, RegValue::LinkSharpeningStrength), vec![RegData::Dword(0)]);
}

#[test]
fn half_sharpening_writes_strength_fifty() {
    let s = VRSettings::default();
    let steps = oculus_link_steps(&s);
    assert_eq!(steps[3], Step::WriteRegistry { value: RegValue::LinkSharpeningEnabled, data: RegData::Dword(1) });
    assert_eq!(steps[4], Step::WriteRegistry { value: RegValue::LinkSharpeningStrength, data: RegData::Dword(50) });
}

#[test]
fn relinked_forces_companions_before_save() {
    let mut s = VRSettings::default();
    s.relinked.relinked_mode = true;
    s.relinked.disable_telemetry = false;
    s.relinked.allow_other_software = false;
    let steps = apply_settings(&mut s, &no_processes());
    assert!(s.relinked.disable_telemetry);
    assert!(s.relinked.disable_login);
    assert!(s.recovery.oculus_killer_enabled);
    assert!(s.relinked.allow_other_software);
    assert!(s.relinked.enable_runtime_high_priority);
    assert_eq!(steps.last(), Some(&Step::SaveSettings));
    assert_eq!(writes_to(&steps, RegValue::TelemetryEnabled), vec![RegData::Dword(0)]);
    let toggles: Vec<&Step> = steps.iter().filter(|s| matches!(s, Step::ToggleKiller { .. })).collect();
    assert_eq!(toggles, vec![&Step::ToggleKiller { enable: false }, &Step::ToggleKiller { enable: true }]);
}

#[test]
fn without_relinked_record_is_unchanged() {
    let mut s = VRSettings::default();
    let before = s.clone();
    let steps = apply_settings(&mut s, &no_processes());
    assert_eq!(s, before);
    assert!(writes_to(&steps, RegValue::TelemetryEnabled).is_empty());
}

#[test]
fn encode_values_written_unmodified() {
    let mut s = VRSettings::default();
    s.visual.encode_bitrate_mbps = 300;
    s.visual.encode_resolution_width = 2784;
    s.visual.encode_resolution_height = 1472;
    let steps = apply_settings(&mut s, &no_processes());
    assert_eq!(steps[0], Step::WriteRegistry { value: RegValue::BitrateMbps, data: RegData::Dword(300) });
    assert_eq!(steps[1], Step::WriteRegistry { value: RegValue::EncodeResolutionWidth, data: RegData::Dword(2784) });
    assert_eq!(steps[2], Step::WriteRegistry { value: RegValue::EncodeResolutionHeight, data: RegData::Dword(1472) });
}

#[test]
fn full_pipeline_order_with_defaults() {
    let mut s = VRSettings::default();
    let steps = apply_settings(&mut s, &no_processes());
    assert_eq!(
        steps,
        vec![
            Step::WriteRegistry { value: RegValue::BitrateMbps, data: RegData::Dword(300) },
            Step::WriteRegistry { value: RegValue::EncodeResolutionWidth, data: RegData::Dword(2784) },
            Step::WriteRegistry { value: RegValue::EncodeResolutionHeight, data: RegData::Dword(1472) },
            Step::WriteRegistry { value: RegValue::LinkSharpeningEnabled, data: RegData::Dword(1) },
            Step::WriteRegistry { value: RegValue::LinkSharpeningStrength, data: RegData::Dword(50) },
            Step::WriteRegistry { value: RegValue::ActiveRuntime, data: RegData::Text(RegText::Oculus) },
            Step::WriteRegistry { value: RegValue::Asw, data: RegData::Dword(1) },
            Step::SetPowerPlan(PowerPlan::HighPerformance),
            Step::WriteRegistry { value: RegValue::MirrorWindow, data: RegData::Dword(0) },
            Step::WriteRegistry { value: RegValue::GuardianVisibility, data: RegData::Dword(1) },
            Step::WriteToolConfig { upscaling_enabled: false },
            Step::ToggleKiller { enable: false },
            Step::SaveSettings,
        ]
    );
}

#[test]
fn runtime_selection_cases() {
    let mut s = VRSettings::default();
    s.performance.use_openxr = true;
    s.performance.use_steamvr = true;
    assert_eq!(openxr_steps(&s), vec![Step::WriteRegistry { value: RegValue::ActiveRuntime, data: RegData::Text(RegText::Oculus) }]);
    s.performance.use_openxr = false;
    assert_eq!(openxr_steps(&s), vec![Step::WriteRegistry { value: RegValue::ActiveRuntime, data: RegData::Text(RegText::SteamVR) }]);
    s.performance.use_steamvr = false;
    assert!(openxr_steps(&s).is_empty());
}

#[test]
fn priority_only_for_live_servers() {
    let seen = vec![
        Some(Observation { pid: 11, cpu_usage: 0, memory_bytes: 0 }),
        Some(Observation { pid: 12, cpu_usage: 0, memory_bytes: 0 }),
        None,
        Some(Observation { pid: 14, cpu_usage: 0, memory_bytes: 0 }),
        None,
    ];
    let procs = build_snapshot(&seen);
    let mut s = VRSettings::default();
    s.performance.gpu_priority = GPUPriority::Realtime;
    assert_eq!(process_priority_steps(&s, &procs), vec![Step::SetPriority { pid: 11, priority: GPUPriority::Realtime }]);
    s.performance.cpu_priority_boost = false;
    assert!(process_priority_steps(&s, &procs).is_empty());
    let vr = ProcessInfo { process: VRProcess::VrServer, status: ProcessStatus::Running, pid: Some(7), cpu_usage: 0, memory_mb: 0 };
    s.performance.cpu_priority_boost = true;
    assert_eq!(process_priority_steps(&s, &vec![vr]), vec![Step::SetPriority { pid: 7, priority: GPUPriority::Realtime }]);
}
