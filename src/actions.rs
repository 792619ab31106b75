//! One-shot process actions that the panel offers beside the apply pipeline.
use vstd::prelude::*;

use crate::monitor::{ProcessInfo, ProcessStatus, VRProcess};
use crate::plan::{Program, Step};

verus! {

/// Delay between terminating a process and relaunching it.
pub const RESTART_DELAY_MILLIS: u64 = 500;

/// The program that brings a process back, if it has one: the Oculus
/// runtime for the Oculus server, the SteamVR server for SteamVR's.
pub open spec fn relaunch_program(p: VRProcess) -> Option<Program> {
    match p {
        VRProcess::OVRServer => Some(Program::OculusRuntime),
        VRProcess::VrServer => Some(Program::SteamVrServer),
        _ => None,
    }
}

pub open spec fn restart_plan(p: VRProcess) -> Seq<Step> {
    let stop = seq![Step::Kill(p), Step::Pause { millis: RESTART_DELAY_MILLIS }];
    match relaunch_program(p) {
        Some(prog) => stop.push(Step::Launch(prog)),
        None => stop,
    }
}

/// Restart: terminate every instance, wait, then relaunch the program of
/// the process's family. Processes of no known family are only terminated.
pub fn restart_process(p: VRProcess) -> (r: Vec<Step>)
    ensures
        r@ == restart_plan(p),
{
    let mut r = vec![Step::Kill(p), Step::Pause { millis: RESTART_DELAY_MILLIS }];
    match p {
        VRProcess::OVRServer => r.push(Step::Launch(Program::OculusRuntime)),
        VRProcess::VrServer => r.push(Step::Launch(Program::SteamVrServer)),
        _ => {},
    }
    assert(r@ =~= restart_plan(p));
    r
}

/// Restarts of every running entry of a snapshot, in snapshot order.
pub open spec fn restart_all_plan(procs: Seq<ProcessInfo>) -> Seq<Step>
    decreases procs.len(),
{
    if procs.len() == 0 {
        seq![]
    } else {
        let rest = restart_all_plan(procs.drop_last());
        if procs.last().status == ProcessStatus::Running {
            rest + restart_plan(procs.last().process)
        } else {
            rest
        }
    }
}

/// Restart every process that the snapshot shows running.
pub fn restart_all(processes: &Vec<ProcessInfo>) -> (r: Vec<Step>)
    ensures
        r@ == restart_all_plan(processes@),
{
    let mut r: Vec<Step> = Vec::new();
    let mut i: usize = 0;
    while i < processes.len()
        invariant
            i <= processes.len(),
            r@ == restart_all_plan(processes@.subrange(0, i as int)),
        decreases processes.len() - i,
    {
        let p = processes[i];
        assert(processes@.subrange(0, i + 1).drop_last() =~= processes@.subrange(0, i as int));
        if p.status == ProcessStatus::Running {
            let mut more = restart_process(p.process);
            r.append(&mut more);
        }
        i = i + 1;
    }
    assert(processes@.subrange(0, processes.len() as int) =~= processes@);
    r
}

/// Terminate the Oculus client unconditionally.
pub fn kill_oculus_client() -> (r: Vec<Step>)
    ensures
        r@ == seq![Step::Kill(VRProcess::OculusClient)],
{
    let r = vec![Step::Kill(VRProcess::OculusClient)];
    assert(r@ =~= seq![Step::Kill(VRProcess::OculusClient)]);
    r
}

/// Start the Oculus runtime. No liveness check is made: a second call
/// launches a second instance.
pub fn launch_runtime() -> (r: Vec<Step>)
    ensures
        r@ == seq![Step::Launch(Program::OculusRuntime)],
{
    let r = vec![Step::Launch(Program::OculusRuntime)];
    assert(r@ =~= seq![Step::Launch(Program::OculusRuntime)]);
    r
}

} // verus!
