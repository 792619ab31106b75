use vr_performance_suite::actions::{kill_oculus_client, launch_runtime, restart_all, restart_process};
use vr_performance_suite::killer::{killer_finish, killer_shutdown};
use vr_performance_suite::monitor::{build_snapshot, Observation, VRProcess};
use vr_performance_suite::plan::{tool_config_text, DashFile, Program, RegData, RegText, RegValue, Step};

#[derive(Clone, Copy, Debug, PartialEq)]
struct Files {
    live: bool,
    backup: bool,
}

fn has(f: &Files, d: DashFile) -> bool {
    match d {
        DashFile::Live => f.live,
        DashFile::Backup => f.backup,
    }
}

fn set(f: &mut Files, d: DashFile, v: bool) {
    match d {
        DashFile::Live => f.live = v,
        DashFile::Backup => f.backup = v,
    }
}

fn toggle(files: Files, enable: bool) -> (Files, usize) {
    let mut f = files;
    let mut ops = 0;
    let mut steps = killer_shutdown();
    steps.extend(killer_finish(enable, f.backup));
    for s in steps {
        match s {
            Step::RemoveFile(d) => {
                ops += 1;
                set(&mut f, d, false);
            }
            Step::RenameFile { from, to } => {
                ops += 1;
                if has(&f, from) {
                    set(&mut f, from, false);
                    set(&mut f, to, true);
                }
            }
            _ => {}
        }
    }
    (f, ops)
}

#[test]
fn enabling_twice_keeps_one_backup() {
    let start = Files { live: true, backup: false };
    let (once, _) = toggle(start, true);
    let (twice, ops) = toggle(once, true);
    assert_eq!(twice, Files { live: false, backup: true });
    assert_eq!(ops, 0);
}

#[test]
fn disabling_without_backup_is_a_no_op() {
    let start = Files { live: true, backup: false };
    let (after, ops) = toggle(start, false);
    assert_eq!(after, start);
    assert_eq!(ops, 0);
}

#[test]
fn disabling_restores_the_dash() {
    let (after, _) = toggle(Files { live: false, backup: true }, false);
    assert_eq!(after, Files { live: true, backup: false });
}

#[test]
fn killer_step_sequences() {
    assert_eq!(killer_shutdown(), vec![Step::StopService, Step::Pause { millis: 2000 }]);
    assert_eq!(
        killer_finish(true, false),
        vec![
            Step::RenameFile { from: DashFile::Live, to: DashFile::Backup },
            Step::StartService,
            Step::WriteRegistry { value: RegValue::CoreChannel, data: RegData::Text(RegText::NoUpdates) },
        ]
    );
    assert_eq!(
        killer_finish(false, true),
        vec![
            Step::RemoveFile(DashFile::Live),
            Step::RenameFile { from: DashFile::Backup, to: DashFile::Live },
            Step::StartService,
        ]
    );
    assert_eq!(killer_finish(false, false), vec![Step::StartService]);
}

#[test]
fn restart_relaunches_by_family() {
    assert_eq!(
        restart_process(VRProcess::OVRServer),
        vec![Step::Kill(VRProcess::OVRServer), Step::Pause { millis: 500 }, Step::Launch(Program::OculusRuntime)]
    );
    assert_eq!(
        restart_process(VRProcess::VrServer),
        vec![Step::Kill(VRProcess::VrServer), Step::Pause { millis: 500 }, Step::Launch(Program::SteamVrServer)]
    );
    assert_eq!(restart_process(VRProcess::VrDashboard), vec![Step::Kill(VRProcess::VrDashboard), Step::Pause { millis: 500 }]);
}

#[test]
fn restart_all_only_running() {
    let o = Some(Observation { pid: 3, cpu_usage: 0, memory_bytes: 0 });
    let snap = build_snapshot(&vec![None, o, None, None, None]);
    assert_eq!(restart_all(&snap), vec![Step::Kill(VRProcess::OculusClient), Step::Pause { millis: 500 }]);
}

#[test]
fn client_kill_and_runtime_launch() {
    assert_eq!(kill_oculus_client(), vec![Step::Kill(VRProcess::OculusClient)]);
    assert_eq!(launch_runtime(), vec![Step::Launch(Program::OculusRuntime)]);
    assert_eq!(tool_config_text(true), "upscaling_enabled = true");
    assert_eq!(RegValue::Asw.name(), "ASW");
}
