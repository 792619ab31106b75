use vr_performance_suite::monitor::{build_snapshot, process_catalog, process_entry, Observation, ProcessStatus, VRProcess};
use vr_performance_suite::settings::{render_resolution, settings_or_default, PowerPlan, VRSettings};

#[test]
fn unreadable_file_gives_defaults() {
    let s = settings_or_default(None);
    assert_eq!(s, VRSettings::default());
    assert_eq!(s.performance.render_scale, 120);
    assert!(s.performance.use_openxr);
    assert_eq!(s.visual.encode_bitrate_mbps, 300);
    assert_eq!(s.visual.link_sharpening, 50);
    assert_eq!(s.performance.power_plan, PowerPlan::HighPerformance);
    assert_eq!(s.recovery.restart_threshold_seconds, 10);
    assert_eq!(s.relinked.custom_fps, 120);
    assert_eq!(s.relinked.custom_startup_program, "");
}

#[test]
fn read_record_is_kept_whole() {
    let mut read = VRSettings::default();
    read.visual.encode_bitrate_mbps = 450;
    read.relinked.custom_startup_program = String::from("tool.exe");
    let s = settings_or_default(Some(read.clone()));
    assert_eq!(s, read);
}

#[test]
fn absent_process_is_stopped() {
    let e = process_entry(VRProcess::VrCompositor, None);
    assert_eq!(e.status, ProcessStatus::Stopped);
    assert_eq!(e.pid, None);
    assert_eq!(e.cpu_usage, 0);
    assert_eq!(e.memory_mb, 0);
}

#[test]
fn present_process_is_running_under_its_pid() {
    let e = process_entry(VRProcess::OVRServer, Some(Observation { pid: 4242, cpu_usage: 1250, memory_bytes: 3 * 1024 * 1024 + 5 }));
    assert_eq!(e.status, ProcessStatus::Running);
    assert_eq!(e.pid, Some(4242));
    assert_eq!(e.cpu_usage, 1250);
    assert_eq!(e.memory_mb, 3);
}

#[test]
fn snapshot_follows_catalog_order() {
    let seen = vec![None, Some(Observation { pid: 9, cpu_usage: 0, memory_bytes: 1024 * 1024 * 1024 }), None, None, None];
    let snap = build_snapshot(&seen);
    let names: Vec<&str> = snap.iter().map(|p| p.process.image_name()).collect();
    assert_eq!(names, vec!["OVRServer_x64.exe", "OculusClient.exe", "vrserver.exe", "vrdashboard.exe", "vrcompositor.exe"]);
    assert_eq!(snap[1].memory_mb, 1024);
    assert_eq!(snap[1].status, ProcessStatus::Running);
    assert_eq!(snap[0].status, ProcessStatus::Stopped);
    assert_eq!(process_catalog().len(), 5);
}

#[test]
fn render_resolution_rounds_down() {
    assert_eq!(render_resolution(120), (2476, 2649));
    assert_eq!(render_resolution(100), (2064, 2208));
    assert_eq!(render_resolution(50), (1032, 1104));
}
