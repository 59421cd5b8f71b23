//! One action, from the check of its paths to its outcome.
//!
//! The paths are first checked for format; then each path the action
//! touches is checked to lie inside the base directory; only then does the
//! action itself run.

use vstd::prelude::*;
use crate::core_types::{Action, ActionType, CreateStatus, DeleteStatus, MoveStatus, Counter, SpecAction, Summary};
use crate::errors::{ProcessError, SpecProcessError};
use crate::processor::create::{
    process_create, process_create_step, spec_create_start, spec_create_step, CreateNext,
    CreateStage, SpecCreateNext, SpecCreateStage,
};
use crate::processor::delete::{
    process_delete, process_delete_step, spec_delete_step, DeleteNext, DeleteStage,
    SpecDeleteNext,
};
use crate::processor::move_file::{
    process_move, process_move_step, spec_move_start, spec_move_step, MoveNext, MoveStage,
    SpecMoveNext, SpecMoveStage,
};
use crate::processor::paths::{components_of, join_path, path_components, path_join};
use crate::processor::protocol::{FsReply, FsRequest, SpecReply, SpecRequest};
use crate::processor::safety::{
    ensure_path_safe, lemma_safe_verdict_contained, safe_verdict_grounds, safety_inv,
    safety_start, spec_safety_step, SafetyNext, SafetyStage, SpecSafetyNext, SpecSafetyStage,
};
use crate::processor::summary_updater::{create_counter, delete_counter, move_counter};
use crate::text::{chars_of, contains, contains_exec, ends_with_char, ends_with_char_exec, trim, trim_chars};

verus! {

/// A relative path is fit for processing: no doubled separator, no
/// trailing separator (unless it is a lone one), not blank, and no empty
/// component.
pub open spec fn path_fit(p: Seq<char>) -> bool {
    &&& !contains(p, seq!['/', '/'])
    &&& !contains(p, seq!['\\', '\\'])
    &&& !((ends_with_char(p, '/') || ends_with_char(p, '\\')) && p.len() > 1)
    &&& trim(p).len() != 0
    &&& forall|i: int| 0 <= i < path_components(p).len() ==> (#[trigger] path_components(p)[i]).len() != 0
}

/// Checks the format of a relative path before it is joined to the base.
pub fn validate_and_prepare_path(relative_path_str: &str, resolved_base: &str) -> (r: Result<
    (),
    ProcessError,
>)
    ensures
        r is Ok <==> path_fit(relative_path_str@),
        r matches Err(e) ==> e@ == (SpecProcessError::InvalidPathFormat {
            path: relative_path_str@,
        }),
{
    let p = chars_of(relative_path_str);
    let slashes = vec!['/', '/'];
    let backslashes = vec!['\\', '\\'];
    assert(slashes@ =~= seq!['/', '/']);
    assert(backslashes@ =~= seq!['\\', '\\']);
    let invalid = ProcessError::InvalidPathFormat { path: relative_path_str.to_owned() };
    if contains_exec(&p, &slashes) || contains_exec(&p, &backslashes) {
        return Err(invalid);
    }
    if (ends_with_char_exec(&p, '/') || ends_with_char_exec(&p, '\\')) && p.len() > 1 {
        return Err(invalid);
    }
    if trim_chars(&p).len() == 0 {
        return Err(invalid);
    }
    let comps = components_of(relative_path_str);
    let mut i: usize = 0;
    while i < comps.len()
        invariant
            i <= comps.len(),
            comps@.len() == path_components(relative_path_str@).len(),
            forall|k: int| 0 <= k < comps@.len() ==> #[trigger] comps@[k]@ == path_components(relative_path_str@)[k],
            forall|k: int| 0 <= k < i ==> (#[trigger] path_components(relative_path_str@)[k]).len() != 0,
            invalid@ == (SpecProcessError::InvalidPathFormat { path: relative_path_str@ }),
        decreases comps.len() - i,
    {
        if comps[i].as_str().unicode_len() == 0 {
            assert(comps@[i as int]@ == path_components(relative_path_str@)[i as int]);
            return Err(invalid);
        }
        i = i + 1;
    }
    Ok(())
}

/// Where an action stands: checking its first path, checking its second
/// path (a move's destination), or running.
#[derive(Debug)]
pub enum ActionStage {
    SafetyPrimary(SafetyStage),
    SafetySecondary(SafetyStage),
    Create(CreateStage),
    Delete(DeleteStage),
    Move(MoveStage),
}

pub enum SpecActionStage {
    SafetyPrimary(SpecSafetyStage),
    SafetySecondary(SpecSafetyStage),
    Create(SpecCreateStage),
    Delete(DeleteStage),
    Move(SpecMoveStage),
}

impl View for ActionStage {
    type V = SpecActionStage;

    open spec fn view(&self) -> SpecActionStage {
        match self {
            ActionStage::SafetyPrimary(s) => SpecActionStage::SafetyPrimary(s@),
            ActionStage::SafetySecondary(s) => SpecActionStage::SafetySecondary(s@),
            ActionStage::Create(s) => SpecActionStage::Create(s@),
            ActionStage::Delete(s) => SpecActionStage::Delete(*s),
            ActionStage::Move(s) => SpecActionStage::Move(s@),
        }
    }
}

/// How an action ended.
#[derive(Debug)]
pub enum ActionOutcome {
    Create(CreateStatus),
    Delete(DeleteStatus),
    Move(MoveStatus),
    Failed(ProcessError),
}

pub enum SpecActionOutcome {
    Create(CreateStatus),
    Delete(DeleteStatus),
    Move(MoveStatus),
    Failed(SpecProcessError),
}

impl View for ActionOutcome {
    type V = SpecActionOutcome;

    open spec fn view(&self) -> SpecActionOutcome {
        match self {
            ActionOutcome::Create(s) => SpecActionOutcome::Create(*s),
            ActionOutcome::Delete(s) => SpecActionOutcome::Delete(*s),
            ActionOutcome::Move(s) => SpecActionOutcome::Move(*s),
            ActionOutcome::Failed(e) => SpecActionOutcome::Failed(e@),
        }
    }
}

impl ActionOutcome {
    /// A copy of the outcome.
    pub fn duplicate(&self) -> (r: ActionOutcome)
        ensures
            r@ == self@,
    {
        match self {
            ActionOutcome::Create(s) => ActionOutcome::Create(*s),
            ActionOutcome::Delete(s) => ActionOutcome::Delete(*s),
            ActionOutcome::Move(s) => ActionOutcome::Move(*s),
            ActionOutcome::Failed(e) => ActionOutcome::Failed(e.duplicate()),
        }
    }
}

/// An action under way: its kind, the resolved base, its target (the
/// source of a move), a move's destination, a create's content, whether
/// existing files are overwritten, and where it stands.
#[derive(Debug)]
pub struct ActionRun {
    pub action_type: ActionType,
    pub resolved_base: String,
    pub primary: String,
    pub secondary: Option<String>,
    pub content: Option<String>,
    pub overwrite: bool,
    pub stage: ActionStage,
}

pub struct SpecActionRun {
    pub action_type: ActionType,
    pub resolved_base: Seq<char>,
    pub primary: Seq<char>,
    pub secondary: Option<Seq<char>>,
    pub content: Option<Seq<char>>,
    pub overwrite: bool,
    pub stage: SpecActionStage,
}

pub open spec fn opt_view(o: Option<String>) -> Option<Seq<char>> {
    match o {
        Some(s) => Some(s@),
        None => None,
    }
}

impl View for ActionRun {
    type V = SpecActionRun;

    open spec fn view(&self) -> SpecActionRun {
        SpecActionRun {
            action_type: self.action_type,
            resolved_base: self.resolved_base@,
            primary: self.primary@,
            secondary: opt_view(self.secondary),
            content: opt_view(self.content),
            overwrite: self.overwrite,
            stage: self.stage@,
        }
    }
}

/// The next request of an action (with the action to resume), or how it
/// ended.
#[derive(Debug)]
pub enum ActionStep {
    Ask(ActionRun, FsRequest),
    Done(ActionOutcome),
}

pub enum SpecActionStep {
    Ask(SpecActionRun, SpecRequest),
    Done(SpecActionOutcome),
}

impl View for ActionStep {
    type V = SpecActionStep;

    open spec fn view(&self) -> SpecActionStep {
        match self {
            ActionStep::Ask(run, req) => SpecActionStep::Ask(run@, req@),
            ActionStep::Done(o) => SpecActionStep::Done(o@),
        }
    }
}

/// The counter that an outcome raises.
pub open spec fn outcome_counter(o: SpecActionOutcome) -> Counter {
    match o {
        SpecActionOutcome::Create(s) => create_counter(s),
        SpecActionOutcome::Delete(s) => delete_counter(s),
        SpecActionOutcome::Move(s) => move_counter(s),
        SpecActionOutcome::Failed(e) => crate::processor::summary_updater::error_counter_view(e),
    }
}

pub open spec fn with_stage(run: SpecActionRun, stage: SpecActionStage) -> SpecActionRun {
    SpecActionRun {
        action_type: run.action_type,
        resolved_base: run.resolved_base,
        primary: run.primary,
        secondary: run.secondary,
        content: run.content,
        overwrite: run.overwrite,
        stage,
    }
}

pub open spec fn or_empty(o: Option<Seq<char>>) -> Seq<char> {
    match o {
        Some(s) => s,
        None => Seq::empty(),
    }
}

pub open spec fn lift_create(run: SpecActionRun, n: SpecCreateNext) -> SpecActionStep {
    match n {
        SpecCreateNext::Ask(st, req) => SpecActionStep::Ask(with_stage(run, SpecActionStage::Create(st)), req),
        SpecCreateNext::Done(Ok(s)) => SpecActionStep::Done(SpecActionOutcome::Create(s)),
        SpecCreateNext::Done(Err(e)) => SpecActionStep::Done(SpecActionOutcome::Failed(e)),
    }
}

pub open spec fn lift_delete(run: SpecActionRun, n: SpecDeleteNext) -> SpecActionStep {
    match n {
        SpecDeleteNext::Ask(st, req) => SpecActionStep::Ask(with_stage(run, SpecActionStage::Delete(st)), req),
        SpecDeleteNext::Done(Ok(s)) => SpecActionStep::Done(SpecActionOutcome::Delete(s)),
        SpecDeleteNext::Done(Err(e)) => SpecActionStep::Done(SpecActionOutcome::Failed(e)),
    }
}

pub open spec fn lift_move(run: SpecActionRun, n: SpecMoveNext) -> SpecActionStep {
    match n {
        SpecMoveNext::Ask(st, req) => SpecActionStep::Ask(with_stage(run, SpecActionStage::Move(st)), req),
        SpecMoveNext::Done(Ok(s)) => SpecActionStep::Done(SpecActionOutcome::Move(s)),
        SpecMoveNext::Done(Err(e)) => SpecActionStep::Done(SpecActionOutcome::Failed(e)),
    }
}

/// The action itself starts, once its paths are known to be safe.
pub open spec fn spec_dispatch(run: SpecActionRun) -> SpecActionStep {
    match run.action_type {
        ActionType::Create => lift_create(
            run,
            spec_create_start(run.primary, run.resolved_base, run.content),
        ),
        ActionType::Delete => lift_delete(
            run,
            SpecDeleteNext::Ask(DeleteStage::Exists, SpecRequest::Exists { path: run.primary }),
        ),
        ActionType::Move => lift_move(run, spec_move_start(run.primary, or_empty(run.secondary))),
    }
}

/// How an action starts: a path of the wrong format ends it at once;
/// otherwise the check of its first path begins.
pub open spec fn spec_action_start(item: SpecAction, base: Seq<char>, overwrite: bool) -> SpecActionStep {
    let dest = or_empty(item.dest_path);
    if !path_fit(item.path) {
        SpecActionStep::Done(
            SpecActionOutcome::Failed(SpecProcessError::InvalidPathFormat { path: item.path }),
        )
    } else if item.action_type == ActionType::Move && !path_fit(dest) {
        SpecActionStep::Done(
            SpecActionOutcome::Failed(SpecProcessError::InvalidPathFormat { path: dest }),
        )
    } else {
        SpecActionStep::Ask(
            SpecActionRun {
                action_type: item.action_type,
                resolved_base: base,
                primary: path_join(base, item.path),
                secondary: if item.action_type == ActionType::Move {
                    Some(path_join(base, dest))
                } else {
                    None
                },
                content: item.content,
                overwrite,
                stage: SpecActionStage::SafetyPrimary(SpecSafetyStage::CanonBase),
            },
            SpecRequest::Canonicalize { path: base },
        )
    }
}

/// One step of an action.
pub open spec fn spec_action_step(run: SpecActionRun, r: SpecReply) -> SpecActionStep {
    match run.stage {
        SpecActionStage::SafetyPrimary(ss) => match spec_safety_step(
            run.resolved_base,
            run.primary,
            ss,
            r,
        ) {
            SpecSafetyNext::Ask(ss2, req) => SpecActionStep::Ask(
                with_stage(run, SpecActionStage::SafetyPrimary(ss2)),
                req,
            ),
            SpecSafetyNext::Done(Err(e)) => SpecActionStep::Done(SpecActionOutcome::Failed(e)),
            SpecSafetyNext::Done(Ok(())) => match run.secondary {
                Some(_) => SpecActionStep::Ask(
                    with_stage(run, SpecActionStage::SafetySecondary(SpecSafetyStage::CanonBase)),
                    SpecRequest::Canonicalize { path: run.resolved_base },
                ),
                None => spec_dispatch(run),
            },
        },
        SpecActionStage::SafetySecondary(ss) => match spec_safety_step(
            run.resolved_base,
            or_empty(run.secondary),
            ss,
            r,
        ) {
            SpecSafetyNext::Ask(ss2, req) => SpecActionStep::Ask(
                with_stage(run, SpecActionStage::SafetySecondary(ss2)),
                req,
            ),
            SpecSafetyNext::Done(Err(e)) => SpecActionStep::Done(SpecActionOutcome::Failed(e)),
            SpecSafetyNext::Done(Ok(())) => spec_dispatch(run),
        },
        SpecActionStage::Create(cs) => lift_create(
            run,
            spec_create_step(run.primary, or_empty(run.content), run.overwrite, cs, r),
        ),
        SpecActionStage::Delete(ds) => lift_delete(
            run,
            crate::processor::delete::spec_delete_step(run.primary, ds, r),
        ),
        SpecActionStage::Move(ms) => lift_move(
            run,
            spec_move_step(
                run.primary,
                or_empty(run.secondary),
                run.resolved_base,
                run.overwrite,
                ms,
                r,
            ),
        ),
    }
}

fn opt_string(o: &Option<String>) -> (r: Option<String>)
    ensures
        opt_view(r) == opt_view(*o),
{
    match o {
        Some(s) => Some(s.clone()),
        None => None,
    }
}

fn str_or_empty(o: &Option<String>) -> (r: &str)
    ensures
        r@ == or_empty(opt_view(*o)),
{
    match o {
        Some(s) => s.as_str(),
        None => {
            proof {
                reveal_strlit("");
            }
            ""
        },
    }
}

fn lift_create_exec(run: ActionRun, n: CreateNext) -> (r: ActionStep)
    ensures
        r@ == lift_create(run@, n@),
{
    match n {
        CreateNext::Ask(st, req) => {
            let mut run = run;
            run.stage = ActionStage::Create(st);
            ActionStep::Ask(run, req)
        },
        CreateNext::Done(Ok(s)) => ActionStep::Done(ActionOutcome::Create(s)),
        CreateNext::Done(Err(e)) => ActionStep::Done(ActionOutcome::Failed(e)),
    }
}

fn lift_delete_exec(run: ActionRun, n: DeleteNext) -> (r: ActionStep)
    ensures
        r@ == lift_delete(run@, n@),
{
    match n {
        DeleteNext::Ask(st, req) => {
            let mut run = run;
            run.stage = ActionStage::Delete(st);
            ActionStep::Ask(run, req)
        },
        DeleteNext::Done(Ok(s)) => ActionStep::Done(ActionOutcome::Delete(s)),
        DeleteNext::Done(Err(e)) => ActionStep::Done(ActionOutcome::Failed(e)),
    }
}

fn lift_move_exec(run: ActionRun, n: MoveNext) -> (r: ActionStep)
    ensures
        r@ == lift_move(run@, n@),
{
    match n {
        MoveNext::Ask(st, req) => {
            let mut run = run;
            run.stage = ActionStage::Move(st);
            ActionStep::Ask(run, req)
        },
        MoveNext::Done(Ok(s)) => ActionStep::Done(ActionOutcome::Move(s)),
        MoveNext::Done(Err(e)) => ActionStep::Done(ActionOutcome::Failed(e)),
    }
}

fn dispatch(run: ActionRun) -> (r: ActionStep)
    ensures
        r@ == spec_dispatch(run@),
{
    match run.action_type {
        ActionType::Create => {
            let next = process_create(&run.content, run.primary.as_str(), run.resolved_base.as_str());
            lift_create_exec(run, next)
        },
        ActionType::Delete => {
            let next = process_delete(run.primary.as_str());
            lift_delete_exec(run, next)
        },
        ActionType::Move => {
            let next = process_move(run.primary.as_str(), str_or_empty(&run.secondary));
            lift_move_exec(run, next)
        },
    }
}

/// Counting the outcome `o` in any summary below the counters' limit
/// raises its total by exactly one.
pub open spec fn counted_once(o: SpecActionOutcome) -> bool {
    forall|s: Summary|
        s.total() < u32::MAX ==> #[trigger] crate::processor::bump(s, outcome_counter(o)).total()
            == s.total() + 1
}

/// Starts an action against the resolved base: checks the format of its
/// path(s), then asks for the first step of the safety check of its target.
pub fn process_single_action(item: &Action, resolved_base: &str, overwrite: bool) -> (r: ActionStep)
    requires
        item.action_type == ActionType::Move ==> item.dest_path is Some,
    ensures
        r@ == spec_action_start(item@, resolved_base@, overwrite),
        r@ matches SpecActionStep::Done(o) ==> counted_once(o),
{
    proof {
        crate::processor::lemma_every_outcome_counted_once();
    }
    match validate_and_prepare_path(item.path.as_str(), resolved_base) {
        Err(e) => {
            return ActionStep::Done(ActionOutcome::Failed(e));
        },
        Ok(()) => {},
    }
    let dest = str_or_empty(&item.dest_path);
    let is_move = item.action_type == ActionType::Move;
    if is_move {
        match validate_and_prepare_path(dest, resolved_base) {
            Err(e) => {
                return ActionStep::Done(ActionOutcome::Failed(e));
            },
            Ok(()) => {},
        }
    }
    let primary = join_path(resolved_base, item.path.as_str());
    let secondary = if is_move {
        Some(join_path(resolved_base, dest))
    } else {
        None
    };
    let (stage, req) = safety_start(resolved_base);
    let run = ActionRun {
        action_type: item.action_type,
        resolved_base: resolved_base.to_owned(),
        primary,
        secondary,
        content: opt_string(&item.content),
        overwrite,
        stage: ActionStage::SafetyPrimary(stage),
    };
    ActionStep::Ask(run, req)
}

impl ActionRun {
    /// Resumes the action with the reply to its last request.
    pub fn step(self, reply: FsReply) -> (r: ActionStep)
        ensures
            r@ == spec_action_step(self@, reply@),
            r@ matches SpecActionStep::Done(o) ==> counted_once(o),
    {
        proof {
            crate::processor::lemma_every_outcome_counted_once();
        }
        let run = self;
        match run.stage {
            ActionStage::SafetyPrimary(ss) => {
                let next = ensure_path_safe(run.resolved_base.as_str(), run.primary.as_str(), ss, reply);
                let rest = ActionRun { stage: ActionStage::SafetyPrimary(SafetyStage::CanonBase), ..run };
                match next {
                    SafetyNext::Ask(ss2, req) => {
                        let mut rest = rest;
                        rest.stage = ActionStage::SafetyPrimary(ss2);
                        ActionStep::Ask(rest, req)
                    },
                    SafetyNext::Done(Err(e)) => ActionStep::Done(ActionOutcome::Failed(e)),
                    SafetyNext::Done(Ok(())) => {
                        if rest.secondary.is_some() {
                            let (st, req) = safety_start(rest.resolved_base.as_str());
                            let mut rest = rest;
                            rest.stage = ActionStage::SafetySecondary(st);
                            ActionStep::Ask(rest, req)
                        } else {
                            dispatch(rest)
                        }
                    },
                }
            },
            ActionStage::SafetySecondary(ss) => {
                let next = ensure_path_safe(
                    run.resolved_base.as_str(),
                    str_or_empty(&run.secondary),
                    ss,
                    reply,
                );
                let rest = ActionRun { stage: ActionStage::SafetyPrimary(SafetyStage::CanonBase), ..run };
                match next {
                    SafetyNext::Ask(ss2, req) => {
                        let mut rest = rest;
                        rest.stage = ActionStage::SafetySecondary(ss2);
                        ActionStep::Ask(rest, req)
                    },
                    SafetyNext::Done(Err(e)) => ActionStep::Done(ActionOutcome::Failed(e)),
                    SafetyNext::Done(Ok(())) => dispatch(rest),
                }
            },
            ActionStage::Create(cs) => {
                let next = process_create_step(
                    run.primary.as_str(),
                    str_or_empty(&run.content),
                    run.overwrite,
                    cs,
                    reply,
                );
                let rest = ActionRun { stage: ActionStage::SafetyPrimary(SafetyStage::CanonBase), ..run };
                lift_create_exec(rest, next)
            },
            ActionStage::Delete(ds) => {
                let next = process_delete_step(run.primary.as_str(), ds, reply);
                let rest = ActionRun { stage: ActionStage::SafetyPrimary(SafetyStage::CanonBase), ..run };
                lift_delete_exec(rest, next)
            },
            ActionStage::Move(ms) => {
                let next = process_move_step(
                    run.primary.as_str(),
                    str_or_empty(&run.secondary),
                    run.resolved_base.as_str(),
                    run.overwrite,
                    ms,
                    reply,
                );
                let rest = ActionRun { stage: ActionStage::SafetyPrimary(SafetyStage::CanonBase), ..run };
                lift_move_exec(rest, next)
            },
        }
    }
}

} // verus!

verus! {

/// The action is running (its safety checks are behind it).
pub open spec fn is_dispatched(stage: SpecActionStage) -> bool {
    stage is Create || stage is Delete || stage is Move
}

/// The path that a request changes, when it changes one (a rename changes
/// two; this is its destination).
pub open spec fn mutated_paths(r: SpecRequest) -> Set<Seq<char>> {
    match r {
        SpecRequest::CreateDirAll { path } => set![path],
        SpecRequest::WriteFile { path, .. } => set![path],
        SpecRequest::RemoveFile { path } => set![path],
        SpecRequest::Rename { from, to } => set![from, to],
        _ => Set::empty(),
    }
}

/// The paths an action may change: its target, a move's destination, and
/// the parents of these.
pub open spec fn allowed_paths(run: SpecActionRun) -> Set<Seq<char>> {
    let t = run.primary;
    let d = or_empty(run.secondary);
    let base = set![t, d];
    let with_t = match crate::processor::paths::path_parent(t) {
        Some(p) => base.insert(p),
        None => base,
    };
    match crate::processor::paths::path_parent(d) {
        Some(p) => with_t.insert(p),
        None => with_t,
    }
}

/// An action starts with the safety check of its target, and only when its
/// path (and a move's destination) has the right format.
pub proof fn lemma_action_starts_with_safety(item: SpecAction, base: Seq<char>, overwrite: bool)
    ensures
        spec_action_start(item, base, overwrite) matches SpecActionStep::Ask(run, req) ==> run.stage
            == SpecActionStage::SafetyPrimary(SpecSafetyStage::CanonBase) && path_fit(item.path)
            && (item.action_type == ActionType::Move ==> path_fit(or_empty(item.dest_path)))
            && run.primary == path_join(base, item.path) && !is_mutating_view(req),
{
}

pub open spec fn is_mutating_view(r: SpecRequest) -> bool {
    crate::processor::protocol::is_mutating(r)
}

/// An action leaves its safety checks for its own steps only when the last
/// check found its path safe, on the grounds of `safe_verdict_grounds`:
/// the target's check when there is no second path, the destination's
/// check otherwise; it reaches the destination's check only after the same
/// verdict on its target. Once running, it never goes back to a check.
pub proof fn lemma_dispatch_only_after_safe_verdict(run: SpecActionRun, r: SpecReply)
    requires
        stage_ok(run),
    ensures
        spec_action_step(run, r) matches SpecActionStep::Ask(run2, _) ==> (is_dispatched(run2.stage)
            && !is_dispatched(run.stage) ==> match run.stage {
            SpecActionStage::SafetyPrimary(ss) => spec_safety_step(
                run.resolved_base,
                run.primary,
                ss,
                r,
            ) == SpecSafetyNext::Done(Ok(())) && safe_verdict_grounds(run.primary, ss, r)
                && run.secondary is None,
            SpecActionStage::SafetySecondary(ss) => spec_safety_step(
                run.resolved_base,
                or_empty(run.secondary),
                ss,
                r,
            ) == SpecSafetyNext::Done(Ok(())) && safe_verdict_grounds(or_empty(run.secondary), ss, r),
            _ => false,
        }),
        spec_action_step(run, r) matches SpecActionStep::Ask(run2, _) ==> (run2.stage is SafetySecondary
            ==> (run.stage matches SpecActionStage::SafetyPrimary(ss) ==> safe_verdict_grounds(
            run.primary,
            ss,
            r,
        ))),
        spec_action_step(run, r) matches SpecActionStep::Ask(run2, _) ==> (is_dispatched(run.stage)
            ==> is_dispatched(run2.stage)),
        spec_action_step(run, r) matches SpecActionStep::Ask(run2, _) ==> run2.primary
            == run.primary && run2.secondary == run.secondary && run2.resolved_base
            == run.resolved_base && run2.overwrite == run.overwrite,
{
    match run.stage {
        SpecActionStage::SafetyPrimary(ss) => {
            lemma_safe_verdict_contained(run.resolved_base, run.primary, ss, r);
        },
        SpecActionStage::SafetySecondary(ss) => {
            lemma_safe_verdict_contained(run.resolved_base, or_empty(run.secondary), ss, r);
        },
        _ => {},
    }
}

/// What a check has established holds of the path it checks, and the
/// parent directory that a running action checks or creates is the parent
/// of the path it is for.
pub open spec fn stage_ok(run: SpecActionRun) -> bool {
    match run.stage {
        SpecActionStage::SafetyPrimary(ss) => safety_inv(run.primary, ss),
        SpecActionStage::SafetySecondary(ss) => safety_inv(or_empty(run.secondary), ss),
        SpecActionStage::Create(SpecCreateStage::Parent(ps)) => crate::processor::paths::path_parent(
            run.primary,
        ) == Some(parent_of_stage(ps)),
        SpecActionStage::Move(SpecMoveStage::Parent(ps)) => crate::processor::paths::path_parent(
            or_empty(run.secondary),
        ) == Some(parent_of_stage(ps)),
        _ => true,
    }
}

pub open spec fn parent_of_stage(ps: crate::processor::create::SpecParentStage) -> Seq<char> {
    match ps {
        crate::processor::create::SpecParentStage::Inspect { parent } => parent,
        crate::processor::create::SpecParentStage::Create { parent } => parent,
    }
}

/// Actions start in a consistent state.
pub proof fn lemma_action_start_ok(item: SpecAction, base: Seq<char>, overwrite: bool)
    ensures
        spec_action_start(item, base, overwrite) matches SpecActionStep::Ask(run, _) ==> stage_ok(
            run,
        ),
{
}

/// Only a running action changes the file system, and only at its own
/// paths: the target, a move's destination, or the parent of one. Steps
/// keep the action consistent.
pub proof fn lemma_mutation_only_when_dispatched(run: SpecActionRun, r: SpecReply)
    requires
        stage_ok(run),
    ensures
        spec_action_step(run, r) matches SpecActionStep::Ask(run2, req) ==> stage_ok(run2) && (
        is_mutating_view(req) ==> is_dispatched(run.stage) && mutated_paths(req).subset_of(
            allowed_paths(run),
        )),
{
    let t = run.primary;
    let d = or_empty(run.secondary);
    match run.stage {
        SpecActionStage::SafetyPrimary(ss) => {
            lemma_safe_verdict_contained(run.resolved_base, t, ss, r);
        },
        SpecActionStage::SafetySecondary(ss) => {
            lemma_safe_verdict_contained(run.resolved_base, d, ss, r);
        },
        SpecActionStage::Create(cs) => {},
        SpecActionStage::Delete(ds) => {},
        SpecActionStage::Move(ms) => {},
    }
    if let SpecActionStep::Ask(run2, req) = spec_action_step(run, r) {
        if is_mutating_view(req) {
            assert forall|x: Seq<char>| mutated_paths(req).contains(x) implies allowed_paths(
                run,
            ).contains(x) by {
                if let Some(p) = crate::processor::paths::path_parent(t) {
                    assert(allowed_paths(run).contains(p));
                }
                if let Some(p) = crate::processor::paths::path_parent(d) {
                    assert(allowed_paths(run).contains(p));
                }
                assert(allowed_paths(run).contains(t));
                assert(allowed_paths(run).contains(d));
            }
        }
    }
}

} // verus!
