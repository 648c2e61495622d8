//! The order of a pass: list the directory, carry out the tasks, and only
//! when all of them are done, list again and prune.
//!
//! The orchestrator decides and never acts. It hands out one action at a
//! time; the caller performs it and reports back with an event.

use vstd::prelude::*;
use crate::args::Args;
use crate::entry::{listing, DirectoryEntry};
use crate::error::PassError;
use crate::latest::has_source_file;
use crate::pass::{config_for, plan_pass, PassConfig, PassPlan};
use crate::retention::{is_retention_order, keep_latest_n_files, kept_count, Retention};

verus! {

/// Where a pass stands.
#[derive(Clone, Copy, Debug, PartialEq, Eq, Structural)]
pub enum Stage {
    /// The directory is being listed for the tasks.
    Listing,
    /// The tasks are being carried out.
    Working,
    /// All tasks are done; the directory is being listed for the pruner.
    Relisting,
    /// Archive units are being deleted.
    Pruning,
    /// The pass is over.
    Finished,
}

/// How a pass ended.
#[derive(Debug)]
pub struct PassReport {
    /// The error that ended the pass early, if there was one.
    pub fatal: Option<PassError>,
    /// The paths whose task failed. A failed task never stops the others.
    pub failed: Vec<String>,
    /// The archive units that were to be deleted and could not be. A failed
    /// deletion never stops the others.
    pub unpruned: Vec<String>,
}

/// What the caller reports back.
#[derive(Debug)]
pub enum PassEvent {
    /// The directory was listed.
    Listed(Vec<DirectoryEntry>),
    /// The directory could not be listed.
    ListFailed,
    /// Every task has come to its end; these are the paths whose task failed.
    TasksDone(Vec<String>),
    /// Every deletion was tried; these are the paths that are still there.
    PruneDone(Vec<String>),
}

/// What the caller is asked to do.
#[derive(Debug)]
pub enum PassAction {
    /// List the directory.
    List,
    /// Carry out the tasks of the plan on the entries, in any order or at the
    /// same time, and wait for all of them.
    Process { entries: Vec<DirectoryEntry>, plan: PassPlan },
    /// Delete the archive units that the retention names, each on its own.
    Prune { entries: Vec<DirectoryEntry>, retention: Retention },
    /// The pass is over.
    Finish(PassReport),
    /// The event does not belong to this stage; nothing has changed.
    Ignore,
}

/// The state of one pass. Nothing of it outlives the pass.
#[derive(Debug)]
pub struct Pass {
    /// Where the pass stands.
    pub stage: Stage,
    /// The policies of the pass; `None` only where the settings were refused.
    pub config: Option<PassConfig>,
    /// The paths whose task failed, once the tasks are done.
    pub failed: Vec<String>,
}

impl PassReport {
    /// Whether this is the report of a pass that an error ended before any
    /// file was touched.
    pub open spec fn is_fatal(self, e: PassError) -> bool {
        self.fatal == Some(e) && self.failed@.len() == 0 && self.unpruned@.len() == 0
    }
}

impl Pass {
    /// The retention count of the pass, if the pruner is to run.
    pub open spec fn retention(self) -> Option<usize> {
        match self.config {
            Some(config) => config.max_files,
            None => None,
        }
    }

    /// Whether `after` and `action` are the answer to `event` in the state
    /// `self`.
    pub open spec fn answers(self, event: PassEvent, after: Pass, action: PassAction) -> bool {
        match (self.stage, event) {
            (Stage::Listing, PassEvent::Listed(entries)) if self.config is Some => {
                if has_source_file(listing(entries@)) {
                    &&& after.stage == Stage::Working
                    &&& after.config == self.config
                    &&& after.failed == self.failed
                    &&& action matches PassAction::Process { entries: listed, plan }
                    &&& listed == entries
                    &&& plan.is_plan_of(listing(entries@), self.config->0@)
                } else {
                    &&& after.stage == Stage::Finished
                    &&& action matches PassAction::Finish(report)
                    &&& report.is_fatal(PassError::NoFiles)
                }
            },
            (Stage::Listing, PassEvent::ListFailed) => {
                &&& after.stage == Stage::Finished
                &&& action matches PassAction::Finish(report)
                &&& report.is_fatal(PassError::Unlistable)
            },
            (Stage::Working, PassEvent::TasksDone(failed)) => {
                if self.retention() is Some {
                    &&& after.stage == Stage::Relisting
                    &&& after.config == self.config
                    &&& after.failed == failed
                    &&& action == PassAction::List
                } else {
                    &&& after.stage == Stage::Finished
                    &&& action matches PassAction::Finish(report)
                    &&& report.fatal is None
                    &&& report.failed == failed
                    &&& report.unpruned@.len() == 0
                }
            },
            (Stage::Relisting, PassEvent::Listed(entries)) if self.retention() is Some => {
                &&& after.stage == Stage::Pruning
                &&& after.config == self.config
                &&& after.failed == self.failed
                &&& action matches PassAction::Prune { entries: listed, retention }
                &&& listed == entries
                &&& is_retention_order(listing(entries@), retention.keep@ + retention.delete@)
                &&& retention.keep@.len() == kept_count(
                    retention.keep@.len() + retention.delete@.len(),
                    self.retention()->0 as nat,
                )
            },
            (Stage::Relisting, PassEvent::ListFailed) => {
                &&& after.stage == Stage::Finished
                &&& action matches PassAction::Finish(report)
                &&& report.fatal == Some(PassError::Unlistable)
                &&& report.failed == self.failed
                &&& report.unpruned@.len() == 0
            },
            (Stage::Pruning, PassEvent::PruneDone(unpruned)) => {
                &&& after.stage == Stage::Finished
                &&& action matches PassAction::Finish(report)
                &&& report.fatal is None
                &&& report.failed == self.failed
                &&& report.unpruned == unpruned
            },
            _ => after == self && action == PassAction::Ignore,
        }
    }

    /// Begins a pass. The settings are compiled first: where they are
    /// refused, the pass is over before the directory is looked at.
    /// Otherwise the first action is to list the directory.
    pub fn begin(args: &Args) -> (r: (Pass, PassAction))
        ensures
            match config_for(args@) {
                Ok(config) => {
                    &&& r.0.stage == Stage::Listing
                    &&& r.0.config is Some
                    &&& r.0.config->0@ == config
                    &&& r.0.failed@.len() == 0
                    &&& r.1 == PassAction::List
                },
                Err(e) => {
                    &&& r.0.stage == Stage::Finished
                    &&& r.1 matches PassAction::Finish(report)
                    &&& report.is_fatal(e)
                },
            },
    {
        match PassConfig::from_args(args) {
            Ok(config) => (
                Pass { stage: Stage::Listing, config: Some(config), failed: Vec::new() },
                PassAction::List,
            ),
            Err(e) => (
                Pass { stage: Stage::Finished, config: None, failed: Vec::new() },
                PassAction::Finish(
                    PassReport { fatal: Some(e), failed: Vec::new(), unpruned: Vec::new() },
                ),
            ),
        }
    }

    /// Takes the caller's report and gives the next action.
    pub fn step(self, event: PassEvent) -> (r: (Pass, PassAction))
        ensures
            self.answers(event, r.0, r.1),
    {
        match (self.stage, event) {
            (Stage::Listing, PassEvent::Listed(entries)) => {
                let Pass { stage, config, failed } = self;
                match config {
                    Some(config) => match plan_pass(&config, &entries) {
                        Ok(plan) => (
                            Pass { stage: Stage::Working, config: Some(config), failed },
                            PassAction::Process { entries, plan },
                        ),
                        Err(e) => (
                            Pass { stage: Stage::Finished, config: Some(config), failed },
                            PassAction::Finish(
                                PassReport {
                                    fatal: Some(e),
                                    failed: Vec::new(),
                                    unpruned: Vec::new(),
                                },
                            ),
                        ),
                    },
                    None => (Pass { stage, config: None, failed }, PassAction::Ignore),
                }
            },
            (Stage::Listing, PassEvent::ListFailed) => (
                Pass { stage: Stage::Finished, config: self.config, failed: self.failed },
                PassAction::Finish(
                    PassReport {
                        fatal: Some(PassError::Unlistable),
                        failed: Vec::new(),
                        unpruned: Vec::new(),
                    },
                ),
            ),
            (Stage::Working, PassEvent::TasksDone(failed)) => {
                let prunes = match &self.config {
                    Some(config) => config.max_files.is_some(),
                    None => false,
                };
                if prunes {
                    (
                        Pass { stage: Stage::Relisting, config: self.config, failed },
                        PassAction::List,
                    )
                } else {
                    (
                        Pass { stage: Stage::Finished, config: self.config, failed: Vec::new() },
                        PassAction::Finish(
                            PassReport { fatal: None, failed, unpruned: Vec::new() },
                        ),
                    )
                }
            },
            (Stage::Relisting, PassEvent::Listed(entries)) => {
                let n = match &self.config {
                    Some(config) => config.max_files,
                    None => None,
                };
                match n {
                    Some(n) => {
                        let retention = keep_latest_n_files(&entries, n);
                        (
                            Pass {
                                stage: Stage::Pruning,
                                config: self.config,
                                failed: self.failed,
                            },
                            PassAction::Prune { entries, retention },
                        )
                    },
                    None => (self, PassAction::Ignore),
                }
            },
            (Stage::Relisting, PassEvent::ListFailed) => (
                Pass { stage: Stage::Finished, config: self.config, failed: Vec::new() },
                PassAction::Finish(
                    PassReport {
                        fatal: Some(PassError::Unlistable),
                        failed: self.failed,
                        unpruned: Vec::new(),
                    },
                ),
            ),
            (Stage::Pruning, PassEvent::PruneDone(unpruned)) => (
                Pass { stage: Stage::Finished, config: self.config, failed: Vec::new() },
                PassAction::Finish(PassReport { fatal: None, failed: self.failed, unpruned }),
            ),
            _ => (self, PassAction::Ignore),
        }
    }
}

/// Pruning waits for the tasks. Whatever the events, the orchestrator asks
/// for the tasks only from a fresh listing, lists for the pruner only when
/// the tasks are reported done, and asks for deletions only from that second
/// listing. It never goes back to an earlier stage, and an event out of turn
/// changes nothing.
pub proof fn lemma_pruning_waits_for_tasks(
    before: Pass,
    event: PassEvent,
    after: Pass,
    action: PassAction,
)
    requires
        before.answers(event, after, action),
    ensures
        action is Process ==> before.stage == Stage::Listing && event is Listed && after.stage
            == Stage::Working,
        after.stage == Stage::Relisting && before.stage != Stage::Relisting ==> before.stage
            == Stage::Working && event is TasksDone && action == PassAction::List,
        action is Prune ==> before.stage == Stage::Relisting && event is Listed && after.stage
            == Stage::Pruning,
        after.stage == Stage::Pruning && before.stage != Stage::Pruning ==> action is Prune,
        before.stage == Stage::Finished ==> after == before && action == PassAction::Ignore,
        stage_rank(before.stage) <= stage_rank(after.stage),
{
}

/// The order of the stages.
pub open spec fn stage_rank(stage: Stage) -> nat {
    match stage {
        Stage::Listing => 0,
        Stage::Working => 1,
        Stage::Relisting => 2,
        Stage::Pruning => 3,
        Stage::Finished => 4,
    }
}

} // verus!
