//! The run as a whole: the order of its stages, and the conditions that
//! end it early.
//!
//! The caller carries out the stage that [`Stage`] names, with the parts of
//! this crate that belong to it, and reports how it went to
//! [`engine_step`], until the stage is [`Stage::Exit`].

use vstd::prelude::*;

verus! {

/// How many program names the run stops before it changes anything.
pub const PROCESS_NAME_COUNT: u8 = 2;

/// The name with the given index under which the application's processes
/// run; `None` for an index that no name has.
pub fn process_name(index: u8) -> (name: Option<&'static str>)
    ensures
        name is Some <==> index < PROCESS_NAME_COUNT,
        index == 0 ==> name == Some("Cursor"),
        index == 1 ==> name == Some("cursor"),
{
    if index == 0 {
        Some("Cursor")
    } else if index == 1 {
        Some("cursor")
    } else {
        None
    }
}

/// The exit code of a run that did its work.
pub const EXIT_SUCCESS: i32 = 0;

/// The exit code of a run that met a fatal condition.
pub const EXIT_FAILURE: i32 = 1;

/// The stages of a run, in their order.
#[derive(Clone, Copy, Debug, PartialEq, Eq, Structural)]
pub enum Stage {
    /// Make sure that the run holds elevated privileges.
    Privilege,
    /// Find out which version of the application is installed.
    Version,
    /// Stop the program of the name with index `stopped`; the names before
    /// it are stopped already.
    Processes { stopped: u8 },
    /// Work out where the configuration and its backups lie.
    Paths,
    /// Make sure that the backup directory exists.
    BackupDir,
    /// Copy the configuration file to its backup.
    ConfigBackup,
    /// Generate the new identity.
    Identity,
    /// Rotate the identity value of the platform.
    Store,
    /// Write the new identity into the configuration.
    Config,
    /// Show what was done.
    Summary,
    /// Wait for the operator and leave with this code.
    Exit { code: i32 },
}

/// How a stage went.
#[derive(Clone, Copy, Debug, PartialEq, Eq, Structural)]
pub enum StageResult {
    /// The stage did its work.
    Succeeded,
    /// The stage failed.
    Failed,
    /// The stage had nothing to do here.
    Skipped,
}

impl Stage {
    /// The stage changes state that the application owns or reads.
    pub open spec fn mutates(self) -> bool {
        self is Store || self is Config
    }

    /// The stage at which a run begins.
    pub fn start() -> (stage: Stage)
        ensures
            stage == Stage::Privilege,
    {
        Stage::Privilege
    }
}

/// The stage that follows `stage` when it went as `result` says.
///
/// Missing privileges, a program that cannot be stopped, paths that cannot
/// be worked out, a backup directory that cannot be made and a
/// configuration that cannot be updated end the run with
/// [`EXIT_FAILURE`]. A version that cannot be found, a backup copy that
/// fails and a rotation that fails are reported and the run goes on.
pub open spec fn next_stage(stage: Stage, result: StageResult) -> Stage {
    let fatal = Stage::Exit { code: EXIT_FAILURE };
    match stage {
        Stage::Privilege => if result is Succeeded {
            Stage::Version
        } else {
            fatal
        },
        Stage::Version => Stage::Processes { stopped: 0 },
        Stage::Processes { stopped } => if !(result is Succeeded) {
            fatal
        } else if stopped + 1 >= PROCESS_NAME_COUNT {
            Stage::Paths
        } else {
            Stage::Processes { stopped: (stopped + 1) as u8 }
        },
        Stage::Paths => if result is Succeeded {
            Stage::BackupDir
        } else {
            fatal
        },
        Stage::BackupDir => if result is Succeeded {
            Stage::ConfigBackup
        } else {
            fatal
        },
        Stage::ConfigBackup => Stage::Identity,
        Stage::Identity => Stage::Store,
        Stage::Store => Stage::Config,
        Stage::Config => if result is Succeeded {
            Stage::Summary
        } else {
            fatal
        },
        Stage::Summary => Stage::Exit { code: EXIT_SUCCESS },
        Stage::Exit { code } => stage,
    }
}

/// One step of a run: takes how the stage went and gives the next stage.
pub fn engine_step(stage: Stage, result: StageResult) -> (next: Stage)
    ensures
        next == next_stage(stage, result),
{
    let succeeded = match result {
        StageResult::Succeeded => true,
        _ => false,
    };
    let fatal = Stage::Exit { code: EXIT_FAILURE };
    match stage {
        Stage::Privilege => if succeeded {
            Stage::Version
        } else {
            fatal
        },
        Stage::Version => Stage::Processes { stopped: 0 },
        Stage::Processes { stopped } => if !succeeded {
            fatal
        } else if stopped >= PROCESS_NAME_COUNT - 1 {
            Stage::Paths
        } else {
            Stage::Processes { stopped: stopped + 1 }
        },
        Stage::Paths => if succeeded {
            Stage::BackupDir
        } else {
            fatal
        },
        Stage::BackupDir => if succeeded {
            Stage::ConfigBackup
        } else {
            fatal
        },
        Stage::ConfigBackup => Stage::Identity,
        Stage::Identity => Stage::Store,
        Stage::Store => Stage::Config,
        Stage::Config => if succeeded {
            Stage::Summary
        } else {
            fatal
        },
        Stage::Summary => Stage::Exit { code: EXIT_SUCCESS },
        Stage::Exit { code } => stage,
    }
}

/// The stage after the results of a run, in order.
pub open spec fn stage_after(stage: Stage, results: Seq<StageResult>) -> Stage
    decreases results.len(),
{
    if results.len() == 0 {
        stage
    } else {
        next_stage(stage_after(stage, results.drop_last()), results.last())
    }
}

impl Stage {
    /// How many stages a run has behind it when it stands at this one.
    /// For [`Stage::Exit`] that depends on where the run ended.
    pub open spec fn stages_before(self) -> nat {
        match self {
            Stage::Privilege => 0,
            Stage::Version => 1,
            Stage::Processes { stopped } => 2 + stopped as nat,
            Stage::Paths => 4,
            Stage::BackupDir => 5,
            Stage::ConfigBackup => 6,
            Stage::Identity => 7,
            Stage::Store => 8,
            Stage::Config => 9,
            Stage::Summary => 10,
            Stage::Exit { code } => 11,
        }
    }

    /// What a run has behind it when it stands at this stage: each stage
    /// before it was carried out once, and those that are fatal when they
    /// fail have succeeded. A run that has left with the failure code may
    /// have ended anywhere.
    pub open spec fn reached_in_order(self, results: Seq<StageResult>) -> bool {
        match self {
            Stage::Exit { code } => code == EXIT_SUCCESS ==> {
                &&& results.len() >= 11
                &&& fatal_stages_succeeded(results, 10)
            },
            Stage::Processes { stopped } => {
                &&& stopped < PROCESS_NAME_COUNT
                &&& results.len() == self.stages_before()
                &&& fatal_stages_succeeded(results, self.stages_before())
            },
            _ => {
                &&& results.len() == self.stages_before()
                &&& fatal_stages_succeeded(results, self.stages_before())
            },
        }
    }
}

/// Of the first `count` stages of a run, those that end the run when they
/// fail have succeeded: the privileges, the two program names, the paths,
/// the backup directory and the configuration.
pub open spec fn fatal_stages_succeeded(results: Seq<StageResult>, count: nat) -> bool {
    &&& count > 0 ==> results[0] is Succeeded
    &&& count > 2 ==> results[2] is Succeeded
    &&& count > 3 ==> results[3] is Succeeded
    &&& count > 4 ==> results[4] is Succeeded
    &&& count > 5 ==> results[5] is Succeeded
    &&& count > 9 ==> results[9] is Succeeded
}

/// Wherever a run stands, it got there in order.
pub proof fn lemma_run_keeps_order(results: Seq<StageResult>)
    ensures
        stage_after(Stage::Privilege, results).reached_in_order(results),
    decreases results.len(),
{
    if results.len() > 0 {
        let before = results.drop_last();
        lemma_run_keeps_order(before);
        assert forall|k: int| 0 <= k < before.len() implies before[k] == results[k] by {}
    }
}

/// Nothing is changed before the program is stopped: a run that stands at
/// a stage which changes state has found its privileges and has stopped the
/// program under each of its names.
pub proof fn lemma_mutation_follows_termination(results: Seq<StageResult>)
    requires
        stage_after(Stage::Privilege, results).mutates(),
    ensures
        results.len() >= 8,
        results[0] is Succeeded,
        results[2] is Succeeded,
        results[3] is Succeeded,
{
    lemma_run_keeps_order(results);
}

/// A run leaves with success only after the configuration was updated.
pub proof fn lemma_success_needs_updated_config(results: Seq<StageResult>)
    requires
        stage_after(Stage::Privilege, results) == (Stage::Exit { code: EXIT_SUCCESS }),
    ensures
        results.len() >= 11,
        results[9] is Succeeded,
{
    lemma_run_keeps_order(results);
}

/// A stage that is fatal when it fails ends the run with the failure code.
pub proof fn lemma_fatal_conditions(stage: Stage)
    requires
        stage is Privilege || stage is Processes || stage is Paths || stage is BackupDir
            || stage is Config,
    ensures
        next_stage(stage, StageResult::Failed) == (Stage::Exit { code: EXIT_FAILURE }),
{
}

/// A failed rotation of the platform's identity value, a failed backup
/// copy and an unknown version do not end the run.
pub proof fn lemma_recoverable_conditions(result: StageResult)
    ensures
        next_stage(Stage::Version, result) == (Stage::Processes { stopped: 0 }),
        next_stage(Stage::ConfigBackup, result) == Stage::Identity,
        next_stage(Stage::Store, result) == Stage::Config,
{
}

} // verus!
