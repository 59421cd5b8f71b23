//! Applying the actions to a base directory.

pub mod summary_updater;
pub mod paths;
pub mod protocol;
pub mod safety;
pub mod create;
pub mod delete;
pub mod move_file;
pub mod action_handler;

use vstd::prelude::*;
use crate::core_types::{Action, ActionType, Counter, SpecAction, Summary};
use crate::errors::{AppError, SpecAppError};
use crate::parser::state::actions_view;
use crate::processor::action_handler::{
    outcome_counter, process_single_action, spec_action_start, spec_action_step, ActionOutcome,
    SpecActionOutcome,
    ActionRun, ActionStep, SpecActionRun, SpecActionStep,
};
use crate::processor::protocol::{
    is_mutating, reply_flag, reply_path, reply_unit, take_flag, take_path, take_unit, FsReply, FsRequest,
    SpecReply, SpecRequest,
};
use crate::processor::summary_updater::{
    lemma_bumped_total, update_summary_create, update_summary_delete, update_summary_error,
    update_summary_move,
};

verus! {

/// `s` with counter `c` raised by one.
pub open spec fn bump(s: Summary, c: Counter) -> Summary {
    Summary {
        created: if c == Counter::Created { (s.created + 1) as u32 } else { s.created },
        overwritten: if c == Counter::Overwritten { (s.overwritten + 1) as u32 } else { s.overwritten },
        deleted: if c == Counter::Deleted { (s.deleted + 1) as u32 } else { s.deleted },
        moved: if c == Counter::Moved { (s.moved + 1) as u32 } else { s.moved },
        moved_overwritten: if c == Counter::MovedOverwritten { (s.moved_overwritten + 1) as u32 } else { s.moved_overwritten },
        skipped_exists: if c == Counter::SkippedExists { (s.skipped_exists + 1) as u32 } else { s.skipped_exists },
        skipped_not_found: if c == Counter::SkippedNotFound { (s.skipped_not_found + 1) as u32 } else { s.skipped_not_found },
        skipped_isdir_delete: if c == Counter::SkippedIsdirDelete { (s.skipped_isdir_delete + 1) as u32 } else { s.skipped_isdir_delete },
        skipped_other_type: if c == Counter::SkippedOtherType { (s.skipped_other_type + 1) as u32 } else { s.skipped_other_type },
        skipped_move_src_not_found: if c == Counter::SkippedMoveSrcNotFound { (s.skipped_move_src_not_found + 1) as u32 } else { s.skipped_move_src_not_found },
        skipped_move_src_is_dir: if c == Counter::SkippedMoveSrcIsDir { (s.skipped_move_src_is_dir + 1) as u32 } else { s.skipped_move_src_is_dir },
        skipped_move_dst_exists: if c == Counter::SkippedMoveDstExists { (s.skipped_move_dst_exists + 1) as u32 } else { s.skipped_move_dst_exists },
        skipped_move_dst_isdir: if c == Counter::SkippedMoveDstIsdir { (s.skipped_move_dst_isdir + 1) as u32 } else { s.skipped_move_dst_isdir },
        failed_io: if c == Counter::FailedIo { (s.failed_io + 1) as u32 } else { s.failed_io },
        failed_isdir_create: if c == Counter::FailedIsdirCreate { (s.failed_isdir_create + 1) as u32 } else { s.failed_isdir_create },
        failed_parent_isdir: if c == Counter::FailedParentIsdir { (s.failed_parent_isdir + 1) as u32 } else { s.failed_parent_isdir },
        failed_unsafe: if c == Counter::FailedUnsafe { (s.failed_unsafe + 1) as u32 } else { s.failed_unsafe },
        error_other: if c == Counter::ErrorOther { (s.error_other + 1) as u32 } else { s.error_other },
    }
}

/// A raised counter is what `bump` computes.
pub proof fn lemma_bumped_is_bump(before: Summary, after: Summary, c: Counter)
    requires
        before.bumped(after, c),
    ensures
        after == bump(before, c),
{
    assert(after.count(Counter::Created) == before.count(Counter::Created) + if Counter::Created == c { 1int } else { 0int });
    assert(after.count(Counter::Overwritten) == before.count(Counter::Overwritten) + if Counter::Overwritten == c { 1int } else { 0int });
    assert(after.count(Counter::Deleted) == before.count(Counter::Deleted) + if Counter::Deleted == c { 1int } else { 0int });
    assert(after.count(Counter::Moved) == before.count(Counter::Moved) + if Counter::Moved == c { 1int } else { 0int });
    assert(after.count(Counter::MovedOverwritten) == before.count(Counter::MovedOverwritten) + if Counter::MovedOverwritten == c { 1int } else { 0int });
    assert(after.count(Counter::SkippedExists) == before.count(Counter::SkippedExists) + if Counter::SkippedExists == c { 1int } else { 0int });
    assert(after.count(Counter::SkippedNotFound) == before.count(Counter::SkippedNotFound) + if Counter::SkippedNotFound == c { 1int } else { 0int });
    assert(after.count(Counter::SkippedIsdirDelete) == before.count(Counter::SkippedIsdirDelete) + if Counter::SkippedIsdirDelete == c { 1int } else { 0int });
    assert(after.count(Counter::SkippedOtherType) == before.count(Counter::SkippedOtherType) + if Counter::SkippedOtherType == c { 1int } else { 0int });
    assert(after.count(Counter::SkippedMoveSrcNotFound) == before.count(Counter::SkippedMoveSrcNotFound) + if Counter::SkippedMoveSrcNotFound == c { 1int } else { 0int });
    assert(after.count(Counter::SkippedMoveSrcIsDir) == before.count(Counter::SkippedMoveSrcIsDir) + if Counter::SkippedMoveSrcIsDir == c { 1int } else { 0int });
    assert(after.count(Counter::SkippedMoveDstExists) == before.count(Counter::SkippedMoveDstExists) + if Counter::SkippedMoveDstExists == c { 1int } else { 0int });
    assert(after.count(Counter::SkippedMoveDstIsdir) == before.count(Counter::SkippedMoveDstIsdir) + if Counter::SkippedMoveDstIsdir == c { 1int } else { 0int });
    assert(after.count(Counter::FailedIo) == before.count(Counter::FailedIo) + if Counter::FailedIo == c { 1int } else { 0int });
    assert(after.count(Counter::FailedIsdirCreate) == before.count(Counter::FailedIsdirCreate) + if Counter::FailedIsdirCreate == c { 1int } else { 0int });
    assert(after.count(Counter::FailedParentIsdir) == before.count(Counter::FailedParentIsdir) + if Counter::FailedParentIsdir == c { 1int } else { 0int });
    assert(after.count(Counter::FailedUnsafe) == before.count(Counter::FailedUnsafe) + if Counter::FailedUnsafe == c { 1int } else { 0int });
    assert(after.count(Counter::ErrorOther) == before.count(Counter::ErrorOther) + if Counter::ErrorOther == c { 1int } else { 0int });
}

/// Counts how an action ended.
pub fn count_outcome(summary: &mut Summary, outcome: ActionOutcome)
    requires
        old(summary).total() < u32::MAX,
    ensures
        *final(summary) == bump(*old(summary), outcome_counter(outcome@)),
        old(summary).bumped(*final(summary), outcome_counter(outcome@)),
        final(summary).total() == old(summary).total() + 1,
{
    let ghost c = outcome_counter(outcome@);
    match outcome {
        ActionOutcome::Create(s) => update_summary_create(summary, s),
        ActionOutcome::Delete(s) => update_summary_delete(summary, s),
        ActionOutcome::Move(s) => update_summary_move(summary, s),
        ActionOutcome::Failed(e) => update_summary_error(summary, e),
    }
    proof {
        lemma_bumped_is_bump(*old(summary), *summary, c);
        lemma_bumped_total(*old(summary), *summary, c);
    }
}

/// Where processing stands: setting up the base directory, or running the
/// action at `index`.
#[derive(Debug)]
pub enum RunStage {
    /// Waiting for whether the base directory exists.
    BaseExists,
    /// Waiting for whether the existing base is a directory.
    BaseIsDir,
    /// Waiting for the base directory's creation.
    CreateBase,
    /// Waiting for the canonical form of the base directory.
    CanonBase,
    Acting { index: usize, run: ActionRun },
}

pub enum SpecRunStage {
    BaseExists,
    BaseIsDir,
    CreateBase,
    CanonBase,
    Acting { index: int, run: SpecActionRun },
}

impl View for RunStage {
    type V = SpecRunStage;

    open spec fn view(&self) -> SpecRunStage {
        match self {
            RunStage::BaseExists => SpecRunStage::BaseExists,
            RunStage::BaseIsDir => SpecRunStage::BaseIsDir,
            RunStage::CreateBase => SpecRunStage::CreateBase,
            RunStage::CanonBase => SpecRunStage::CanonBase,
            RunStage::Acting { index, run } => SpecRunStage::Acting { index: *index as int, run: run@ },
        }
    }
}

/// Processing of a list of actions against a base directory, one
/// file-system request at a time.
#[derive(Debug)]
pub struct Processor {
    base_dir: String,
    actions: Vec<Action>,
    overwrite: bool,
    summary: Summary,
    resolved_base: String,
    stage: RunStage,
    outcomes: Vec<ActionOutcome>,
}

pub struct SpecProcessor {
    pub base_dir: Seq<char>,
    pub actions: Seq<SpecAction>,
    pub overwrite: bool,
    pub summary: Summary,
    pub resolved_base: Seq<char>,
    pub stage: SpecRunStage,
    /// The outcomes of the actions finished so far, in order.
    pub outcomes: Seq<SpecActionOutcome>,
}

/// The views of a list of outcomes.
pub open spec fn outcomes_view(v: Seq<ActionOutcome>) -> Seq<SpecActionOutcome> {
    v.map_values(|o: ActionOutcome| o@)
}

/// The summary with every counter at zero.
pub open spec fn zero_summary() -> Summary {
    Summary {
        created: 0,
        overwritten: 0,
        deleted: 0,
        moved: 0,
        moved_overwritten: 0,
        skipped_exists: 0,
        skipped_not_found: 0,
        skipped_isdir_delete: 0,
        skipped_other_type: 0,
        skipped_move_src_not_found: 0,
        skipped_move_src_is_dir: 0,
        skipped_move_dst_exists: 0,
        skipped_move_dst_isdir: 0,
        failed_io: 0,
        failed_isdir_create: 0,
        failed_parent_isdir: 0,
        failed_unsafe: 0,
        error_other: 0,
    }
}

/// The summary that counts each of `os`: the zero summary with the counter
/// of each outcome raised by one.
pub open spec fn tally(os: Seq<SpecActionOutcome>) -> Summary
    decreases os.len(),
{
    if os.len() == 0 {
        zero_summary()
    } else {
        bump(tally(os.drop_last()), outcome_counter(os.last()))
    }
}

/// Counting one more outcome.
pub proof fn lemma_tally_push(os: Seq<SpecActionOutcome>, o: SpecActionOutcome)
    ensures
        tally(os.push(o)) == bump(tally(os), outcome_counter(o)),
{
    assert(os.push(o).drop_last() =~= os);
}

/// The invariant of processing: a countable number of actions, a
/// destination for every move, one recorded outcome per finished action,
/// and a summary that counts exactly those outcomes.
pub open spec fn processor_ok(p: SpecProcessor) -> bool {
    &&& p.actions.len() < u32::MAX
    &&& p.summary == tally(p.outcomes)
    &&& forall|i: int|
        0 <= i < p.actions.len() ==> ((#[trigger] p.actions[i]).action_type == ActionType::Move
            ==> p.actions[i].dest_path is Some)
    &&& match p.stage {
        SpecRunStage::Acting { index, run } => 0 <= index < p.actions.len() && p.summary.total()
            == index && p.outcomes.len() == index && crate::processor::action_handler::stage_ok(run),
        _ => p.summary.total() == 0 && p.outcomes.len() == 0,
    }
}

impl Processor {
    pub closed spec fn spec_state(&self) -> SpecProcessor {
        SpecProcessor {
            base_dir: self.base_dir@,
            actions: actions_view(self.actions@),
            overwrite: self.overwrite,
            summary: self.summary,
            resolved_base: self.resolved_base@,
            stage: self.stage@,
            outcomes: outcomes_view(self.outcomes@),
        }
    }

    #[verifier::type_invariant]
    closed spec fn well_formed(self) -> bool {
        processor_ok(self.spec_state())
    }
}

impl View for Processor {
    type V = SpecProcessor;

    open spec fn view(&self) -> SpecProcessor {
        self.spec_state()
    }
}

/// The next request of processing (with the processor to resume), or its
/// result together with the outcomes of the actions that finished.
#[derive(Debug)]
pub enum ProcessorStep {
    Ask(Processor, FsRequest),
    Finished(Result<Summary, AppError>, Vec<ActionOutcome>),
}

pub enum SpecProcessorStep {
    Ask(SpecProcessor, SpecRequest),
    Finished(Result<Summary, SpecAppError>, Seq<SpecActionOutcome>),
}

impl View for ProcessorStep {
    type V = SpecProcessorStep;

    open spec fn view(&self) -> SpecProcessorStep {
        match self {
            ProcessorStep::Ask(p, req) => SpecProcessorStep::Ask(p@, req@),
            ProcessorStep::Finished(Ok(s), os) => SpecProcessorStep::Finished(
                Ok(*s),
                outcomes_view(os@),
            ),
            ProcessorStep::Finished(Err(e), os) => SpecProcessorStep::Finished(
                Err(e@),
                outcomes_view(os@),
            ),
        }
    }
}

pub open spec fn with_run_stage(p: SpecProcessor, stage: SpecRunStage) -> SpecProcessor {
    SpecProcessor {
        base_dir: p.base_dir,
        actions: p.actions,
        overwrite: p.overwrite,
        summary: p.summary,
        resolved_base: p.resolved_base,
        stage,
        outcomes: p.outcomes,
    }
}

/// Runs the actions from index `i` on, each until it asks the file system
/// something; an action that ends without asking is counted at once.
pub open spec fn spec_start_from(p: SpecProcessor, i: int) -> SpecProcessorStep
    decreases p.actions.len() - i,
{
    if i < 0 || i >= p.actions.len() {
        SpecProcessorStep::Finished(Ok(p.summary), p.outcomes)
    } else {
        match spec_action_start(p.actions[i], p.resolved_base, p.overwrite) {
            SpecActionStep::Ask(run, req) => SpecProcessorStep::Ask(
                with_run_stage(p, SpecRunStage::Acting { index: i, run }),
                req,
            ),
            SpecActionStep::Done(o) => spec_start_from(
                SpecProcessor {
                    base_dir: p.base_dir,
                    actions: p.actions,
                    overwrite: p.overwrite,
                    summary: bump(p.summary, outcome_counter(o)),
                    resolved_base: p.resolved_base,
                    stage: p.stage,
                    outcomes: p.outcomes.push(o),
                },
                i + 1,
            ),
        }
    }
}

/// One step of processing.
pub open spec fn spec_processor_step(p: SpecProcessor, r: SpecReply) -> SpecProcessorStep {
    match p.stage {
        SpecRunStage::BaseExists => if reply_flag(r) {
            SpecProcessorStep::Ask(
                with_run_stage(p, SpecRunStage::BaseIsDir),
                SpecRequest::IsDir { path: p.base_dir },
            )
        } else {
            SpecProcessorStep::Ask(
                with_run_stage(p, SpecRunStage::CreateBase),
                SpecRequest::CreateDirAll { path: p.base_dir },
            )
        },
        SpecRunStage::BaseIsDir => if reply_flag(r) {
            SpecProcessorStep::Ask(
                with_run_stage(p, SpecRunStage::CanonBase),
                SpecRequest::Canonicalize { path: p.base_dir },
            )
        } else {
            SpecProcessorStep::Finished(
                Err(SpecAppError::Argument("Base path is not a directory"@)),
                p.outcomes,
            )
        },
        SpecRunStage::CreateBase => match reply_unit(r) {
            Ok(()) => SpecProcessorStep::Ask(
                with_run_stage(p, SpecRunStage::CanonBase),
                SpecRequest::Canonicalize { path: p.base_dir },
            ),
            Err(e) => SpecProcessorStep::Finished(Err(SpecAppError::Io(e)), p.outcomes),
        },
        SpecRunStage::CanonBase => match reply_path(r) {
            Ok(rb) => spec_start_from(
                SpecProcessor {
                    base_dir: p.base_dir,
                    actions: p.actions,
                    overwrite: p.overwrite,
                    summary: p.summary,
                    resolved_base: rb,
                    stage: p.stage,
                    outcomes: p.outcomes,
                },
                0,
            ),
            Err(e) => SpecProcessorStep::Finished(Err(SpecAppError::Io(e)), p.outcomes),
        },
        SpecRunStage::Acting { index, run } => match spec_action_step(run, r) {
            SpecActionStep::Ask(run2, req) => SpecProcessorStep::Ask(
                with_run_stage(p, SpecRunStage::Acting { index, run: run2 }),
                req,
            ),
            SpecActionStep::Done(o) => spec_start_from(
                SpecProcessor {
                    base_dir: p.base_dir,
                    actions: p.actions,
                    overwrite: p.overwrite,
                    summary: bump(p.summary, outcome_counter(o)),
                    resolved_base: p.resolved_base,
                    stage: p.stage,
                    outcomes: p.outcomes.push(o),
                },
                index + 1,
            ),
        },
    }
}

/// Runs actions from `i` on (the parts of a processor are passed apart).
fn start_from(
    base_dir: String,
    actions: Vec<Action>,
    overwrite: bool,
    summary: Summary,
    resolved_base: String,
    i: usize,
    outcomes: Vec<ActionOutcome>,
    Ghost(stage): Ghost<SpecRunStage>,
) -> (r: ProcessorStep)
    requires
        i <= actions.len() < u32::MAX,
        summary.total() == i,
        outcomes.len() == i,
        summary == tally(outcomes_view(outcomes@)),
        forall|k: int|
            0 <= k < actions.len() ==> ((#[trigger] actions@[k]).action_type == ActionType::Move
                ==> actions@[k].dest_path is Some),
    ensures
        r@ == spec_start_from(
            SpecProcessor {
                base_dir: base_dir@,
                actions: actions_view(actions@),
                overwrite,
                summary,
                resolved_base: resolved_base@,
                stage,
                outcomes: outcomes_view(outcomes@),
            },
            i as int,
        ),
    decreases actions.len() - i,
{
    if i >= actions.len() {
        return ProcessorStep::Finished(Ok(summary), outcomes);
    }
    assert(actions_view(actions@)[i as int] == actions@[i as int]@);
    proof {
        crate::processor::action_handler::lemma_action_start_ok(
            actions@[i as int]@,
            resolved_base@,
            overwrite,
        );
    }
    match process_single_action(&actions[i], resolved_base.as_str(), overwrite) {
        ActionStep::Ask(run, req) => {
            let p = Processor {
                base_dir,
                actions,
                overwrite,
                summary,
                resolved_base,
                stage: RunStage::Acting { index: i, run },
                outcomes,
            };
            ProcessorStep::Ask(p, req)
        },
        ActionStep::Done(outcome) => {
            let mut summary = summary;
            let mut outcomes = outcomes;
            let ghost before = summary;
            let ghost before_os = outcomes@;
            count_outcome(&mut summary, outcome.duplicate());
            outcomes.push(outcome);
            proof {
                lemma_bumped_total(before, summary, outcome_counter(outcome@));
                lemma_tally_push(outcomes_view(before_os), outcome@);
                assert(outcomes_view(outcomes@) =~= outcomes_view(before_os).push(outcome@));
            }
            start_from(
                base_dir,
                actions,
                overwrite,
                summary,
                resolved_base,
                i + 1,
                outcomes,
                Ghost(stage),
            )
        },
    }
}

impl Processor {
    /// Starts processing `actions` against `base_dir`, overwriting existing
    /// files when `overwrite` holds: first, whether the base exists.
    pub fn new(base_dir: &str, actions: Vec<Action>, overwrite: bool) -> (r: (Processor, FsRequest))
        requires
            actions.len() < u32::MAX,
            forall|k: int|
                0 <= k < actions.len() ==> ((#[trigger] actions@[k]).action_type == ActionType::Move
                    ==> actions@[k].dest_path is Some),
        ensures
            r.0@.base_dir == base_dir@,
            r.0@.actions == actions_view(actions@),
            r.0@.overwrite == overwrite,
            r.0@.summary.is_zero(),
            r.0@.outcomes == Seq::<SpecActionOutcome>::empty(),
            r.0@.resolved_base == Seq::<char>::empty(),
            r.0@.stage == SpecRunStage::BaseExists,
            r.1@ == (SpecRequest::Exists { path: base_dir@ }),
    {
        let p = Processor {
            base_dir: base_dir.to_owned(),
            actions,
            overwrite,
            summary: Summary::default(),
            resolved_base: String::new(),
            stage: RunStage::BaseExists,
            outcomes: Vec::new(),
        };
        (p, FsRequest::Exists { path: base_dir.to_owned() })
    }

    /// The outcomes of the actions finished so far, in the order of the
    /// actions.
    pub fn outcomes(&self) -> (r: &Vec<ActionOutcome>)
        ensures
            outcomes_view(r@) == self@.outcomes,
    {
        &self.outcomes
    }

    /// Resumes processing with the reply to its last request.
    pub fn step(self, reply: FsReply) -> (r: ProcessorStep)
        ensures
            r@ == spec_processor_step(self@, reply@),
    {
        proof {
            use_type_invariant(&self);
        }
        let Processor { base_dir, actions, overwrite, summary, resolved_base, stage, outcomes } = self;
        proof {
            assert forall|k: int|
                0 <= k < actions.len() && (#[trigger] actions@[k]).action_type == ActionType::Move implies actions@[k].dest_path is Some by {
                assert(actions_view(actions@)[k] == actions@[k]@);
            }
        }
        match stage {
            RunStage::BaseExists => {
                if take_flag(reply) {
                    let req = FsRequest::IsDir { path: base_dir.clone() };
                    let p = Processor { base_dir, actions, overwrite, summary, resolved_base, stage: RunStage::BaseIsDir, outcomes };
                    ProcessorStep::Ask(p, req)
                } else {
                    let req = FsRequest::CreateDirAll { path: base_dir.clone() };
                    let p = Processor { base_dir, actions, overwrite, summary, resolved_base, stage: RunStage::CreateBase, outcomes };
                    ProcessorStep::Ask(p, req)
                }
            },
            RunStage::BaseIsDir => {
                if take_flag(reply) {
                    let req = FsRequest::Canonicalize { path: base_dir.clone() };
                    let p = Processor { base_dir, actions, overwrite, summary, resolved_base, stage: RunStage::CanonBase, outcomes };
                    ProcessorStep::Ask(p, req)
                } else {
                    ProcessorStep::Finished(
                        Err(AppError::Argument("Base path is not a directory".to_owned())),
                        outcomes,
                    )
                }
            },
            RunStage::CreateBase => match take_unit(reply) {
                Ok(()) => {
                    let req = FsRequest::Canonicalize { path: base_dir.clone() };
                    let p = Processor { base_dir, actions, overwrite, summary, resolved_base, stage: RunStage::CanonBase, outcomes };
                    ProcessorStep::Ask(p, req)
                },
                Err(e) => ProcessorStep::Finished(Err(AppError::Io(e)), outcomes),
            },
            RunStage::CanonBase => match take_path(reply) {
                Ok(rb) => start_from(
                    base_dir,
                    actions,
                    overwrite,
                    summary,
                    rb,
                    0,
                    outcomes,
                    Ghost(SpecRunStage::CanonBase),
                ),
                Err(e) => ProcessorStep::Finished(Err(AppError::Io(e)), outcomes),
            },
            RunStage::Acting { index, run } => {
                let ghost run_before = run@;
                proof {
                    crate::processor::action_handler::lemma_mutation_only_when_dispatched(
                        run@,
                        reply@,
                    );
                }
                match run.step(reply) {
                    ActionStep::Ask(run2, req) => {
                        let p = Processor {
                            base_dir,
                            actions,
                            overwrite,
                            summary,
                            resolved_base,
                            stage: RunStage::Acting { index, run: run2 },
                            outcomes,
                        };
                        ProcessorStep::Ask(p, req)
                    },
                    ActionStep::Done(outcome) => {
                        let mut summary = summary;
                        let mut outcomes = outcomes;
                        let ghost before = summary;
                        let ghost before_os = outcomes@;
                        count_outcome(&mut summary, outcome.duplicate());
                        outcomes.push(outcome);
                        proof {
                            lemma_bumped_total(before, summary, outcome_counter(outcome@));
                            lemma_tally_push(outcomes_view(before_os), outcome@);
                            assert(outcomes_view(outcomes@) =~= outcomes_view(before_os).push(
                                outcome@,
                            ));
                        }
                        start_from(
                            base_dir,
                            actions,
                            overwrite,
                            summary,
                            resolved_base,
                            index + 1,
                            outcomes,
                            Ghost(SpecRunStage::Acting { index: index as int, run: run_before }),
                        )
                    },
                }
            },
        }
    }
}

} // verus!

verus! {

/// Raising a counter below the limit raises the total by one.
pub proof fn lemma_bump_total(s: Summary, c: Counter)
    requires
        s.total() < u32::MAX,
    ensures
        bump(s, c).total() == s.total() + 1,
        s.bumped(bump(s, c), c),
{
    assert(s.count(c) <= s.total());
    assert forall|d: Counter| #[trigger] bump(s, c).count(d) == s.count(d) + if d == c {
        1int
    } else {
        0int
    } by {}
    crate::processor::summary_updater::lemma_bumped_total(s, bump(s, c), c);
}

/// Running the actions from `i` on, with `i` of them counted: processing
/// either waits on the action it stopped at, with as many outcomes counted
/// as actions before it, or finishes with every action counted.
pub proof fn lemma_start_from(p: SpecProcessor, i: int)
    requires
        p.actions.len() < u32::MAX,
        0 <= i <= p.actions.len(),
        p.summary.total() == i,
        p.outcomes.len() == i,
        p.summary == tally(p.outcomes),
    ensures
        spec_start_from(p, i) matches SpecProcessorStep::Finished(res, os) ==> (res matches Ok(s)
            && s.total() == p.actions.len() && os.len() == p.actions.len() && s == tally(os)),
        spec_start_from(p, i) matches SpecProcessorStep::Ask(p2, _) ==> (p2.stage matches SpecRunStage::Acting { index, run } && i <= index < p.actions.len()
            && p2.summary.total() == index && p2.outcomes.len() == index && p2.summary == tally(
            p2.outcomes,
        ) && crate::processor::action_handler::stage_ok(run))
            && p2.actions == p.actions && p2.base_dir
            == p.base_dir && p2.overwrite == p.overwrite && p2.resolved_base == p.resolved_base,
    decreases p.actions.len() - i,
{
    if i < p.actions.len() {
        crate::processor::action_handler::lemma_action_start_ok(
            p.actions[i],
            p.resolved_base,
            p.overwrite,
        );
        match spec_action_start(p.actions[i], p.resolved_base, p.overwrite) {
            SpecActionStep::Ask(run, req) => {},
            SpecActionStep::Done(o) => {
                lemma_bump_total(p.summary, outcome_counter(o));
                lemma_tally_push(p.outcomes, o);
                let q = SpecProcessor {
                    base_dir: p.base_dir,
                    actions: p.actions,
                    overwrite: p.overwrite,
                    summary: bump(p.summary, outcome_counter(o)),
                    resolved_base: p.resolved_base,
                    stage: p.stage,
                    outcomes: p.outcomes.push(o),
                };
                lemma_start_from(q, i + 1);
            },
        }
    }
}

/// Processing keeps its invariant, never changes what it was given, and
/// when it finishes successfully it has recorded exactly one outcome per
/// action, and its summary counts exactly those outcomes.
pub proof fn lemma_processing_counts_every_action(p: SpecProcessor, r: SpecReply)
    requires
        processor_ok(p),
    ensures
        spec_processor_step(p, r) matches SpecProcessorStep::Ask(p2, _) ==> processor_ok(p2)
            && p2.actions == p.actions && p2.base_dir == p.base_dir && p2.overwrite == p.overwrite,
        spec_processor_step(p, r) matches SpecProcessorStep::Finished(res, os) ==> (res matches Ok(
            s,
        ) ==> s.total() == p.actions.len() && os.len() == p.actions.len() && s == tally(os)),
{
    match p.stage {
        SpecRunStage::CanonBase => {
            if let Ok(rb) = reply_path(r) {
                let q = SpecProcessor {
                    base_dir: p.base_dir,
                    actions: p.actions,
                    overwrite: p.overwrite,
                    summary: p.summary,
                    resolved_base: rb,
                    stage: p.stage,
                    outcomes: p.outcomes,
                };
                lemma_start_from(q, 0);
            }
        },
        SpecRunStage::Acting { index, run } => {
            crate::processor::action_handler::lemma_mutation_only_when_dispatched(run, r);
            if let SpecActionStep::Done(o) = spec_action_step(run, r) {
                lemma_bump_total(p.summary, outcome_counter(o));
                lemma_tally_push(p.outcomes, o);
                let q = SpecProcessor {
                    base_dir: p.base_dir,
                    actions: p.actions,
                    overwrite: p.overwrite,
                    summary: bump(p.summary, outcome_counter(o)),
                    resolved_base: p.resolved_base,
                    stage: p.stage,
                    outcomes: p.outcomes.push(o),
                };
                lemma_start_from(q, index + 1);
            }
        },
        _ => {},
    }
}

/// Starting actions never changes the file system: every action begins
/// with its safety checks.
pub proof fn lemma_start_from_does_not_mutate(p: SpecProcessor, i: int)
    ensures
        spec_start_from(p, i) matches SpecProcessorStep::Ask(_, req) ==> !is_mutating(req),
    decreases p.actions.len() - i,
{
    if 0 <= i < p.actions.len() {
        crate::processor::action_handler::lemma_action_starts_with_safety(
            p.actions[i],
            p.resolved_base,
            p.overwrite,
        );
        if let SpecActionStep::Done(o) = spec_action_start(p.actions[i], p.resolved_base, p.overwrite) {
            let q = SpecProcessor {
                base_dir: p.base_dir,
                actions: p.actions,
                overwrite: p.overwrite,
                summary: bump(p.summary, outcome_counter(o)),
                resolved_base: p.resolved_base,
                stage: p.stage,
                outcomes: p.outcomes.push(o),
            };
            lemma_start_from_does_not_mutate(q, i + 1);
        }
    }
}

/// Processing changes the file system in two ways only: it creates the
/// base directory when that does not exist yet, and an action that has
/// passed its safety checks changes its own paths (its target, a move's
/// destination, or the parent of one).
pub proof fn lemma_processing_mutates_only_checked_paths(p: SpecProcessor, r: SpecReply)
    requires
        processor_ok(p),
    ensures
        spec_processor_step(p, r) matches SpecProcessorStep::Ask(_, req) ==> (is_mutating(req) ==> (
        p.stage == SpecRunStage::BaseExists && req == (SpecRequest::CreateDirAll {
            path: p.base_dir,
        })) || (p.stage matches SpecRunStage::Acting { index, run }
            && crate::processor::action_handler::is_dispatched(run.stage)
            && crate::processor::action_handler::mutated_paths(req).subset_of(
            crate::processor::action_handler::allowed_paths(run),
        ))),
{
    match p.stage {
        SpecRunStage::CanonBase => {
            if let Ok(rb) = reply_path(r) {
                let q = SpecProcessor {
                    base_dir: p.base_dir,
                    actions: p.actions,
                    overwrite: p.overwrite,
                    summary: p.summary,
                    resolved_base: rb,
                    stage: p.stage,
                    outcomes: p.outcomes,
                };
                lemma_start_from_does_not_mutate(q, 0);
            }
        },
        SpecRunStage::Acting { index, run } => {
            crate::processor::action_handler::lemma_mutation_only_when_dispatched(run, r);
            if let SpecActionStep::Done(o) = spec_action_step(run, r) {
                let q = SpecProcessor {
                    base_dir: p.base_dir,
                    actions: p.actions,
                    overwrite: p.overwrite,
                    summary: bump(p.summary, outcome_counter(o)),
                    resolved_base: p.resolved_base,
                    stage: p.stage,
                    outcomes: p.outcomes.push(o),
                };
                lemma_start_from_does_not_mutate(q, index + 1);
            }
        },
        _ => {},
    }
}

/// Where an action stands after it was started and fed `replies` in
/// order; once it has ended, further replies change nothing.
pub open spec fn spec_run_action(
    item: SpecAction,
    base: Seq<char>,
    overwrite: bool,
    replies: Seq<SpecReply>,
) -> SpecActionStep
    decreases replies.len(),
{
    if replies.len() == 0 {
        spec_action_start(item, base, overwrite)
    } else {
        match spec_run_action(item, base, overwrite, replies.drop_last()) {
            SpecActionStep::Ask(run, _) => spec_action_step(run, replies.last()),
            SpecActionStep::Done(o) => SpecActionStep::Done(o),
        }
    }
}

/// Whatever the file system answers, an action that ends has one outcome
/// (an invalid or unsafe path, a skip, a success or an I/O failure), and
/// counting it raises exactly one counter of the summary by one, so the
/// total grows by exactly one. Once ended, the outcome stays the same.
pub proof fn lemma_action_counted_once(
    item: SpecAction,
    base: Seq<char>,
    overwrite: bool,
    replies: Seq<SpecReply>,
    more: Seq<SpecReply>,
    s: Summary,
)
    requires
        s.total() < u32::MAX,
    ensures
        spec_run_action(item, base, overwrite, replies) matches SpecActionStep::Done(o) ==> (
        bump(s, outcome_counter(o)).total() == s.total() + 1 && s.bumped(
            bump(s, outcome_counter(o)),
            outcome_counter(o),
        ) && spec_run_action(item, base, overwrite, replies + more) == SpecActionStep::Done(o)),
    decreases more.len(),
{
    if let SpecActionStep::Done(o) = spec_run_action(item, base, overwrite, replies) {
        lemma_bump_total(s, outcome_counter(o));
        if more.len() > 0 {
            lemma_action_counted_once(item, base, overwrite, replies, more.drop_last(), s);
            assert((replies + more).drop_last() =~= replies + more.drop_last());
        } else {
            assert(replies + more =~= replies);
        }
    }
}

/// Every outcome of an action, counted in a summary below the counters'
/// limit, raises its total by exactly one.
pub proof fn lemma_every_outcome_counted_once()
    ensures
        forall|o: SpecActionOutcome| #[trigger] crate::processor::action_handler::counted_once(o),
{
    assert forall|o: SpecActionOutcome| #[trigger] crate::processor::action_handler::counted_once(o) by {
        assert forall|s: Summary| s.total() < u32::MAX implies #[trigger] bump(
            s,
            outcome_counter(o),
        ).total() == s.total() + 1 by {
            lemma_bump_total(s, outcome_counter(o));
        }
    }
}

} // verus!
