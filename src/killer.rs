//! The dash-killer toggle: hiding the dash executable behind a backup name
//! keeps the runtime from launching it, and renaming it back restores it.
//!
//! A transition runs in two parts, so that the host can look at the disk
//! after the service has stopped: [`killer_shutdown`], then, given whether the
//! backup exists at that moment, [`killer_finish`].
use vstd::prelude::*;

use crate::plan::{text_step, DashFile, RegData, RegText, RegValue, Step};

verus! {

/// Grace period for the service to shut down cleanly.
pub const SHUTDOWN_GRACE_MILLIS: u64 = 2000;

pub open spec fn shutdown_steps() -> Seq<Step> {
    seq![Step::StopService, Step::Pause { millis: SHUTDOWN_GRACE_MILLIS }]
}

/// File operations of a transition towards `enable`, given whether the
/// backup exists. Enabling never replaces an existing backup; disabling
/// without a backup touches nothing.
pub open spec fn file_steps(enable: bool, backup_exists: bool) -> Seq<Step> {
    if enable {
        if backup_exists {
            seq![]
        } else {
            seq![Step::RenameFile { from: DashFile::Live, to: DashFile::Backup }]
        }
    } else {
        if backup_exists {
            seq![
                Step::RemoveFile(DashFile::Live),
                Step::RenameFile { from: DashFile::Backup, to: DashFile::Live },
            ]
        } else {
            seq![]
        }
    }
}

pub open spec fn finish_steps(enable: bool, backup_exists: bool) -> Seq<Step> {
    file_steps(enable, backup_exists) + seq![Step::StartService] + if enable {
        seq![text_step(RegValue::CoreChannel, RegText::NoUpdates)]
    } else {
        seq![]
    }
}

/// First part of a transition: stop the service and wait for it.
pub fn killer_shutdown() -> (r: Vec<Step>)
    ensures
        r@ == shutdown_steps(),
{
    let r = vec![Step::StopService, Step::Pause { millis: SHUTDOWN_GRACE_MILLIS }];
    assert(r@ =~= shutdown_steps());
    r
}

/// Second part of a transition: move the files, start the service again,
/// and, when enabling, turn off the runtime's update channel.
pub fn killer_finish(enable: bool, backup_exists: bool) -> (r: Vec<Step>)
    ensures
        r@ == finish_steps(enable, backup_exists),
{
    let mut r: Vec<Step> = Vec::new();
    if enable {
        if !backup_exists {
            r.push(Step::RenameFile { from: DashFile::Live, to: DashFile::Backup });
        }
    } else if backup_exists {
        r.push(Step::RemoveFile(DashFile::Live));
        r.push(Step::RenameFile { from: DashFile::Backup, to: DashFile::Live });
    }
    r.push(Step::StartService);
    if enable {
        r.push(Step::WriteRegistry { value: RegValue::CoreChannel, data: RegData::Text(RegText::NoUpdates) });
    }
    assert(r@ =~= finish_steps(enable, backup_exists));
    r
}

/// Which of the two dash files exist.
pub struct DashFiles {
    pub live: bool,
    pub backup: bool,
}

pub open spec fn has_file(files: DashFiles, f: DashFile) -> bool {
    match f {
        DashFile::Live => files.live,
        DashFile::Backup => files.backup,
    }
}

pub open spec fn with_file(files: DashFiles, f: DashFile, present: bool) -> DashFiles {
    match f {
        DashFile::Live => DashFiles { live: present, ..files },
        DashFile::Backup => DashFiles { backup: present, ..files },
    }
}

/// What one step does to the dash files. A rename of a missing file fails
/// and changes nothing; steps that are no file operation change nothing.
pub open spec fn file_effect(files: DashFiles, step: Step) -> DashFiles {
    match step {
        Step::RemoveFile(f) => with_file(files, f, false),
        Step::RenameFile { from, to } => if has_file(files, from) && from != to {
            with_file(with_file(files, from, false), to, true)
        } else {
            files
        },
        _ => files,
    }
}

pub open spec fn is_file_step(step: Step) -> bool {
    step is RemoveFile || step is RenameFile
}

/// The dash files after running `steps` in order.
pub open spec fn run_steps(files: DashFiles, steps: Seq<Step>) -> DashFiles
    decreases steps.len(),
{
    if steps.len() == 0 {
        files
    } else {
        file_effect(run_steps(files, steps.drop_last()), steps.last())
    }
}

/// The steps of a whole transition towards `enable` from `files`.
pub open spec fn toggle_steps(enable: bool, files: DashFiles) -> Seq<Step> {
    shutdown_steps() + finish_steps(enable, files.backup)
}

pub open spec fn after_toggle(files: DashFiles, enable: bool) -> DashFiles {
    run_steps(files, toggle_steps(enable, files))
}

proof fn lemma_run_concat(files: DashFiles, a: Seq<Step>, b: Seq<Step>)
    ensures
        run_steps(files, a + b) == run_steps(run_steps(files, a), b),
    decreases b.len(),
{
    if b.len() == 0 {
        assert(a + b =~= a);
    } else {
        assert((a + b).drop_last() =~= a + b.drop_last());
        lemma_run_concat(files, a, b.drop_last());
    }
}

proof fn lemma_non_file_steps(files: DashFiles, steps: Seq<Step>)
    requires
        forall|i: int| 0 <= i < steps.len() ==> !is_file_step(#[trigger] steps[i]),
    ensures
        run_steps(files, steps) == files,
    decreases steps.len(),
{
    if steps.len() > 0 {
        lemma_non_file_steps(files, steps.drop_last());
    }
}

proof fn lemma_after_toggle(files: DashFiles, enable: bool)
    ensures
        after_toggle(files, enable) == run_steps(files, file_steps(enable, files.backup)),
{
    let tail = seq![Step::StartService] + if enable {
        seq![text_step(RegValue::CoreChannel, RegText::NoUpdates)]
    } else {
        seq![]
    };
    let fs = file_steps(enable, files.backup);
    assert(toggle_steps(enable, files) =~= shutdown_steps() + fs + tail);
    lemma_run_concat(files, shutdown_steps() + fs, tail);
    lemma_run_concat(files, shutdown_steps(), fs);
    lemma_non_file_steps(files, shutdown_steps());
    lemma_non_file_steps(run_steps(files, shutdown_steps() + fs), tail);
    assert(run_steps(files, fs) == run_steps(run_steps(files, shutdown_steps()), fs));
    if fs.len() == 1 {
        assert(fs.drop_last() =~= Seq::<Step>::empty());
    } else if fs.len() == 2 {
        assert(fs.drop_last().drop_last() =~= Seq::<Step>::empty());
    }
}

proof fn lemma_enable_once(files: DashFiles)
    ensures
        after_toggle(files, true) == (if !files.backup && files.live {
            DashFiles { live: false, backup: true }
        } else {
            files
        }),
{
    lemma_after_toggle(files, true);
    let fs = file_steps(true, files.backup);
    if !files.backup {
        assert(fs.drop_last() =~= Seq::<Step>::empty());
        assert(run_steps(files, fs.drop_last()) == files);
    } else {
        assert(fs =~= Seq::<Step>::empty());
    }
}

/// Enabling the dash-killer twice in a row leaves the dash files as enabling
/// once did: the second transition never replaces the backup.
pub proof fn lemma_enable_idempotent(files: DashFiles)
    ensures
        after_toggle(after_toggle(files, true), true) == after_toggle(files, true),
{
    lemma_enable_once(files);
    lemma_enable_once(after_toggle(files, true));
}

/// Starting from a dash executable that exists either live or as a backup,
/// enabling the dash-killer twice leaves exactly the backup and no live file.
pub proof fn lemma_enable_twice_hides_dash(files: DashFiles)
    requires
        files.live != files.backup,
    ensures
        after_toggle(after_toggle(files, true), true) == (DashFiles { live: false, backup: true }),
{
    lemma_enable_idempotent(files);
    lemma_enable_once(files);
}

/// Disabling the dash-killer when no backup exists performs no file
/// operation and leaves the dash files as they were.
pub proof fn lemma_disable_without_backup(files: DashFiles)
    requires
        !files.backup,
    ensures
        forall|i: int|
            0 <= i < toggle_steps(false, files).len() ==> !is_file_step(
                #[trigger] toggle_steps(false, files)[i],
            ),
        after_toggle(files, false) == files,
{
    lemma_after_toggle(files, false);
    assert(toggle_steps(false, files) =~= seq![
        Step::StopService,
        Step::Pause { millis: SHUTDOWN_GRACE_MILLIS },
        Step::StartService,
    ]);
}

} // verus!
