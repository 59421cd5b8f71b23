//! Whether a path lies inside the base directory, decided step by step as
//! the file system answers.
//!
//! An existing target is safe when its canonical form starts with the
//! canonical base. A target that does not exist is judged by its nearest
//! ancestor that does: it must be the base itself, or a directory inside it,
//! and the components of the target below that ancestor must not climb
//! above it through `..` (once the missing directories exist, such a `..`
//! would lead out of the ancestor).

use vstd::prelude::*;
use crate::errors::{IoError, IoErrorKind, ProcessError, SpecIoError, SpecProcessError};
use crate::processor::paths::{
    components_of, parent_path, path_components, path_parent, path_starts_with, paths_equal,
    same_path, starts_with_path,
};
use crate::parser::header_utils::chars_equal;
use crate::text::chars_of;
use crate::processor::protocol::{
    reply_kind, reply_path, take_kind, take_path, FileKind, FsReply, FsRequest, SpecReply,
    SpecRequest,
};

verus! {

/// Where a safety check stands. `canonical_base` is the canonical base once
/// known; `path` is the path whose nearest existing ancestor is sought,
/// `parent` its parent and `canonical_parent` the canonical form of that
/// parent.
#[derive(Debug)]
pub enum SafetyStage {
    CanonBase,
    MetaTarget { canonical_base: String },
    CanonTarget { canonical_base: String },
    CanonPath { canonical_base: String, path: String },
    CanonParent { canonical_base: String, path: String, parent: String },
    MetaParent { canonical_base: String, path: String, parent: String, canonical_parent: String },
}

pub enum SpecSafetyStage {
    CanonBase,
    MetaTarget { canonical_base: Seq<char> },
    CanonTarget { canonical_base: Seq<char> },
    CanonPath { canonical_base: Seq<char>, path: Seq<char> },
    CanonParent { canonical_base: Seq<char>, path: Seq<char>, parent: Seq<char> },
    MetaParent {
        canonical_base: Seq<char>,
        path: Seq<char>,
        parent: Seq<char>,
        canonical_parent: Seq<char>,
    },
}

impl View for SafetyStage {
    type V = SpecSafetyStage;

    open spec fn view(&self) -> SpecSafetyStage {
        match self {
            SafetyStage::CanonBase => SpecSafetyStage::CanonBase,
            SafetyStage::MetaTarget { canonical_base } => SpecSafetyStage::MetaTarget {
                canonical_base: canonical_base@,
            },
            SafetyStage::CanonTarget { canonical_base } => SpecSafetyStage::CanonTarget {
                canonical_base: canonical_base@,
            },
            SafetyStage::CanonPath { canonical_base, path } => SpecSafetyStage::CanonPath {
                canonical_base: canonical_base@,
                path: path@,
            },
            SafetyStage::CanonParent { canonical_base, path, parent } =>
                SpecSafetyStage::CanonParent {
                canonical_base: canonical_base@,
                path: path@,
                parent: parent@,
            },
            SafetyStage::MetaParent { canonical_base, path, parent, canonical_parent } =>
                SpecSafetyStage::MetaParent {
                canonical_base: canonical_base@,
                path: path@,
                parent: parent@,
                canonical_parent: canonical_parent@,
            },
        }
    }
}

/// The next request of a safety check, or its verdict.
#[derive(Debug)]
pub enum SafetyNext {
    Ask(SafetyStage, FsRequest),
    Done(Result<(), ProcessError>),
}

pub enum SpecSafetyNext {
    Ask(SpecSafetyStage, SpecRequest),
    Done(Result<(), SpecProcessError>),
}

impl View for SafetyNext {
    type V = SpecSafetyNext;

    open spec fn view(&self) -> SpecSafetyNext {
        match self {
            SafetyNext::Ask(st, req) => SpecSafetyNext::Ask(st@, req@),
            SafetyNext::Done(Ok(())) => SpecSafetyNext::Done(Ok(())),
            SafetyNext::Done(Err(e)) => SpecSafetyNext::Done(Err(e@)),
        }
    }
}

/// The parent of `p`, or `p` itself when it has none.
pub open spec fn parent_or_self(p: Seq<char>) -> Seq<char> {
    match path_parent(p) {
        Some(q) => q,
        None => p,
    }
}

pub fn parent_or_self_exec(p: &str) -> (r: String)
    ensures
        r@ == parent_or_self(p@),
{
    match parent_path(p) {
        Some(q) => q,
        None => p.to_owned(),
    }
}

pub open spec fn not_a_dir_error(path: Seq<char>, parent: Seq<char>) -> SpecProcessError {
    SpecProcessError::ParentIsNotDirectory { path, parent_path: parent }
}

pub open spec fn existing_target_detail(message: Seq<char>) -> Seq<char> {
    "Failed to canonicalize existing target path: "@ + message
}

pub open spec fn nonexistent_path_detail(message: Seq<char>) -> Seq<char> {
    "Failed to canonicalize path during safety check: "@ + message
}

pub open spec fn parent_detail(message: Seq<char>) -> Seq<char> {
    "Failed to canonicalize parent directory: "@ + message
}

pub open spec fn root_detail() -> Seq<char> {
    "Cannot determine parent directory for safety check (potentially root path)."@
}

/// `prefix` followed by `message`.
pub fn detail(prefix: &str, message: &str) -> (r: String)
    ensures
        r@ == prefix@ + message@,
{
    let mut r = prefix.to_owned();
    r.append(message);
    r
}

/// The component `..`.
pub open spec fn parent_ref() -> Seq<char> {
    seq!['.', '.']
}

/// The component `.`.
pub open spec fn cur_ref() -> Seq<char> {
    seq!['.']
}

/// Whether the components `t[i..]`, taken one by one from `depth`
/// directories below a starting directory, climb above it: a `..` met at
/// depth 0. A `..` goes one level up, `.` stays, any other component goes
/// one level down.
pub open spec fn climbs_above(t: Seq<Seq<char>>, i: int, depth: int) -> bool
    decreases t.len() - i,
{
    if i < 0 || i >= t.len() {
        false
    } else if t[i] == parent_ref() {
        depth <= 0 || climbs_above(t, i + 1, depth - 1)
    } else if t[i] == cur_ref() {
        climbs_above(t, i + 1, depth)
    } else {
        climbs_above(t, i + 1, depth + 1)
    }
}

/// `target` stays below `anc`: the components of `anc` begin those of
/// `target`, and the further components of `target` never climb above
/// `anc`.
pub open spec fn stays_below(target: Seq<char>, anc: Seq<char>) -> bool {
    let t = path_components(target);
    let a = path_components(anc);
    &&& a.len() <= t.len()
    &&& forall|i: int| 0 <= i < a.len() ==> #[trigger] t[i] == a[i]
    &&& !climbs_above(t, a.len() as int, 0)
}

/// Whether `target` stays below `anc`.
pub fn stays_below_exec(target: &str, anc: &str) -> (b: bool)
    ensures
        b == stays_below(target@, anc@),
{
    let t = components_of(target);
    let a = components_of(anc);
    if a.len() > t.len() {
        return false;
    }
    let dots: Vec<char> = vec!['.', '.'];
    let dot: Vec<char> = vec!['.'];
    assert(dots@ =~= parent_ref());
    assert(dot@ =~= cur_ref());
    let ghost tc = path_components(target@);
    let ghost ac = path_components(anc@);
    let mut i: usize = 0;
    while i < a.len()
        invariant
            tc == path_components(target@),
            ac == path_components(anc@),
            a.len() <= t.len(),
            t@.len() == tc.len(),
            a@.len() == ac.len(),
            forall|k: int| 0 <= k < t@.len() ==> #[trigger] t@[k]@ == tc[k],
            forall|k: int| 0 <= k < a@.len() ==> #[trigger] a@[k]@ == ac[k],
            i <= a.len(),
            forall|k: int| 0 <= k < i ==> #[trigger] tc[k] == ac[k],
        decreases a.len() - i,
    {
        let c = chars_of(t[i].as_str());
        let d = chars_of(a[i].as_str());
        assert(c@ == tc[i as int]);
        assert(d@ == ac[i as int]);
        if !chars_equal(&c, &d) {
            assert(tc[i as int] != ac[i as int]);
            return false;
        }
        i = i + 1;
    }
    let mut depth: usize = 0;
    while i < t.len()
        invariant
            tc == path_components(target@),
            ac == path_components(anc@),
            a.len() <= i <= t.len(),
            t@.len() == tc.len(),
            forall|k: int| 0 <= k < t@.len() ==> #[trigger] t@[k]@ == tc[k],
            dots@ == parent_ref(),
            dot@ == cur_ref(),
            depth <= i,
            climbs_above(tc, ac.len() as int, 0) == climbs_above(tc, i as int, depth as int),
        decreases t.len() - i,
    {
        let c = chars_of(t[i].as_str());
        assert(c@ == tc[i as int]);
        if chars_equal(&c, &dots) {
            if depth == 0 {
                return false;
            }
            depth = depth - 1;
        } else if !chars_equal(&c, &dot) {
            depth = depth + 1;
        }
        i = i + 1;
    }
    true
}

/// The verdict on a target whose nearest existing ancestor `anc` was found
/// inside the canonical base `cb`: safe unless the components of the
/// target below `anc` climb above it.
pub open spec fn ancestor_verdict(target: Seq<char>, anc: Seq<char>, cb: Seq<char>) -> Result<(), SpecProcessError> {
    if stays_below(target, anc) {
        Ok(())
    } else {
        Err(SpecProcessError::PathNotSafe { resolved_path: target, base_path: cb })
    }
}

/// The step of the search for the nearest existing ancestor of a target
/// that does not exist.
pub open spec fn spec_nonexistent_step(
    target: Seq<char>,
    st: SpecSafetyStage,
    r: SpecReply,
) -> SpecSafetyNext {
    match st {
        SpecSafetyStage::CanonPath { canonical_base: cb, path: p } => {
            let verdict: Option<Result<(), SpecProcessError>> = match reply_path(r) {
                Ok(c) => if paths_equal(c, cb) {
                    Some(ancestor_verdict(target, p, cb))
                } else {
                    None
                },
                Err(e) => if e.kind == IoErrorKind::NotFound {
                    None
                } else if e.kind == IoErrorKind::NotADirectory {
                    Some(Err(not_a_dir_error(p, parent_or_self(p))))
                } else {
                    Some(
                        Err(
                            SpecProcessError::PathResolution {
                                path: p,
                                details: nonexistent_path_detail(e.message),
                            },
                        ),
                    )
                },
            };
            match verdict {
                Some(v) => SpecSafetyNext::Done(v),
                None => match path_parent(p) {
                    Some(par) => SpecSafetyNext::Ask(
                        SpecSafetyStage::CanonParent { canonical_base: cb, path: p, parent: par },
                        SpecRequest::Canonicalize { path: par },
                    ),
                    None => SpecSafetyNext::Done(
                        Err(SpecProcessError::PathResolution { path: p, details: root_detail() }),
                    ),
                },
            }
        },
        SpecSafetyStage::CanonParent { canonical_base: cb, path: p, parent: par } => match reply_path(
            r,
        ) {
            Ok(cp) => if paths_equal(cp, cb) {
                SpecSafetyNext::Done(ancestor_verdict(target, par, cb))
            } else if !path_starts_with(cp, cb) {
                SpecSafetyNext::Done(
                    Err(SpecProcessError::PathNotSafe { resolved_path: cp, base_path: cb }),
                )
            } else if !stays_below(target, par) {
                SpecSafetyNext::Done(ancestor_verdict(target, par, cb))
            } else {
                SpecSafetyNext::Ask(
                    SpecSafetyStage::MetaParent {
                        canonical_base: cb,
                        path: p,
                        parent: par,
                        canonical_parent: cp,
                    },
                    SpecRequest::Metadata { path: cp },
                )
            },
            Err(e) => if e.kind == IoErrorKind::NotFound {
                SpecSafetyNext::Ask(
                    SpecSafetyStage::CanonPath { canonical_base: cb, path: par },
                    SpecRequest::Canonicalize { path: par },
                )
            } else if e.kind == IoErrorKind::NotADirectory {
                SpecSafetyNext::Done(Err(not_a_dir_error(p, par)))
            } else {
                SpecSafetyNext::Done(
                    Err(
                        SpecProcessError::PathResolution {
                            path: par,
                            details: parent_detail(e.message),
                        },
                    ),
                )
            },
        },
        SpecSafetyStage::MetaParent { canonical_base: cb, path: p, parent: par, .. } => match reply_kind(
            r,
        ) {
            Ok(FileKind::Dir) => SpecSafetyNext::Done(Ok(())),
            Ok(_) => SpecSafetyNext::Done(Err(not_a_dir_error(p, par))),
            Err(e) => SpecSafetyNext::Done(Err(SpecProcessError::Io { source: e })),
        },
        _ => SpecSafetyNext::Done(Err(SpecProcessError::UnknownAction)),
    }
}

/// One step of the safety check of `target` against the base `base`.
pub open spec fn spec_safety_step(
    base: Seq<char>,
    target: Seq<char>,
    st: SpecSafetyStage,
    r: SpecReply,
) -> SpecSafetyNext {
    match st {
        SpecSafetyStage::CanonBase => match reply_path(r) {
            Ok(cb) => SpecSafetyNext::Ask(
                SpecSafetyStage::MetaTarget { canonical_base: cb },
                SpecRequest::Metadata { path: target },
            ),
            Err(e) => if e.kind == IoErrorKind::NotADirectory {
                SpecSafetyNext::Done(Err(not_a_dir_error(base, parent_or_self(base))))
            } else {
                SpecSafetyNext::Done(Err(SpecProcessError::Io { source: e }))
            },
        },
        SpecSafetyStage::MetaTarget { canonical_base: cb } => match reply_kind(r) {
            Ok(_) => SpecSafetyNext::Ask(
                SpecSafetyStage::CanonTarget { canonical_base: cb },
                SpecRequest::Canonicalize { path: target },
            ),
            Err(e) => if e.kind == IoErrorKind::NotFound {
                SpecSafetyNext::Ask(
                    SpecSafetyStage::CanonPath { canonical_base: cb, path: target },
                    SpecRequest::Canonicalize { path: target },
                )
            } else if e.kind == IoErrorKind::NotADirectory {
                SpecSafetyNext::Done(Err(not_a_dir_error(target, parent_or_self(target))))
            } else {
                SpecSafetyNext::Done(Err(SpecProcessError::Io { source: e }))
            },
        },
        SpecSafetyStage::CanonTarget { canonical_base: cb } => match reply_path(r) {
            Ok(ct) => if path_starts_with(ct, cb) {
                SpecSafetyNext::Done(Ok(()))
            } else {
                SpecSafetyNext::Done(
                    Err(SpecProcessError::PathNotSafe { resolved_path: ct, base_path: cb }),
                )
            },
            Err(e) => if e.kind == IoErrorKind::NotADirectory {
                SpecSafetyNext::Done(Err(not_a_dir_error(target, parent_or_self(target))))
            } else {
                SpecSafetyNext::Done(
                    Err(
                        SpecProcessError::PathResolution {
                            path: target,
                            details: existing_target_detail(e.message),
                        },
                    ),
                )
            },
        },
        _ => spec_nonexistent_step(target, st, r),
    }
}

/// The first request of a safety check against `base`.
pub fn safety_start(base: &str) -> (r: (SafetyStage, FsRequest))
    ensures
        r.0@ == SpecSafetyStage::CanonBase,
        r.1@ == (SpecRequest::Canonicalize { path: base@ }),
{
    (SafetyStage::CanonBase, FsRequest::Canonicalize { path: base.to_owned() })
}

/// The verdict on `target` whose nearest existing ancestor `anc` lies
/// inside `canonical_base`.
pub fn ancestor_verdict_exec(target: &str, anc: &str, canonical_base: String) -> (r: Result<(), ProcessError>)
    ensures
        match r {
            Ok(()) => ancestor_verdict(target@, anc@, canonical_base@) is Ok,
            Err(e) => ancestor_verdict(target@, anc@, canonical_base@) == Err::<(), SpecProcessError>(e@),
        },
{
    if stays_below_exec(target, anc) {
        Ok(())
    } else {
        Err(ProcessError::PathNotSafe { resolved_path: target.to_owned(), base_path: canonical_base })
    }
}

/// The search for the nearest existing ancestor of a target that does not
/// exist: it is safe when that ancestor is the canonical base, or a
/// directory inside it, and the components of `target` below it do not
/// climb above it.
pub fn check_nonexistent_path_safety(target: &str, stage: SafetyStage, reply: FsReply) -> (next: SafetyNext)
    requires
        stage is CanonPath || stage is CanonParent || stage is MetaParent,
    ensures
        next@ == spec_nonexistent_step(target@, stage@, reply@),
{
    match stage {
        SafetyStage::CanonPath { canonical_base, path } => {
            let go_up = match take_path(reply) {
                Ok(c) => {
                    if same_path(c.as_str(), canonical_base.as_str()) {
                        return SafetyNext::Done(ancestor_verdict_exec(target, path.as_str(), canonical_base));
                    }
                    true
                },
                Err(e) => {
                    if e.kind == IoErrorKind::NotFound {
                        true
                    } else if e.kind == IoErrorKind::NotADirectory {
                        let parent = parent_or_self_exec(path.as_str());
                        return SafetyNext::Done(
                            Err(ProcessError::ParentIsNotDirectory { path, parent_path: parent }),
                        );
                    } else {
                        let details = detail(
                            "Failed to canonicalize path during safety check: ",
                            e.message.as_str(),
                        );
                        return SafetyNext::Done(Err(ProcessError::PathResolution { path, details }));
                    }
                },
            };
            assert(go_up);
            match parent_path(path.as_str()) {
                Some(parent) => {
                    let req = FsRequest::Canonicalize { path: parent.clone() };
                    SafetyNext::Ask(SafetyStage::CanonParent { canonical_base, path, parent }, req)
                },
                None => {
                    let details =
                        "Cannot determine parent directory for safety check (potentially root path).".to_owned();
                    SafetyNext::Done(Err(ProcessError::PathResolution { path, details }))
                },
            }
        },
        SafetyStage::CanonParent { canonical_base, path, parent } => match take_path(reply) {
            Ok(cp) => {
                if same_path(cp.as_str(), canonical_base.as_str()) {
                    SafetyNext::Done(ancestor_verdict_exec(target, parent.as_str(), canonical_base))
                } else if !starts_with_path(cp.as_str(), canonical_base.as_str()) {
                    SafetyNext::Done(
                        Err(ProcessError::PathNotSafe { resolved_path: cp, base_path: canonical_base }),
                    )
                } else if !stays_below_exec(target, parent.as_str()) {
                    SafetyNext::Done(ancestor_verdict_exec(target, parent.as_str(), canonical_base))
                } else {
                    let req = FsRequest::Metadata { path: cp.clone() };
                    SafetyNext::Ask(
                        SafetyStage::MetaParent { canonical_base, path, parent, canonical_parent: cp },
                        req,
                    )
                }
            },
            Err(e) => {
                if e.kind == IoErrorKind::NotFound {
                    let req = FsRequest::Canonicalize { path: parent.clone() };
                    SafetyNext::Ask(SafetyStage::CanonPath { canonical_base, path: parent }, req)
                } else if e.kind == IoErrorKind::NotADirectory {
                    SafetyNext::Done(Err(ProcessError::ParentIsNotDirectory { path, parent_path: parent }))
                } else {
                    let details = detail(
                        "Failed to canonicalize parent directory: ",
                        e.message.as_str(),
                    );
                    SafetyNext::Done(Err(ProcessError::PathResolution { path: parent, details }))
                }
            },
        },
        SafetyStage::MetaParent { path, parent, .. } => match take_kind(reply) {
            Ok(FileKind::Dir) => SafetyNext::Done(Ok(())),
            Ok(_) => SafetyNext::Done(Err(ProcessError::ParentIsNotDirectory { path, parent_path: parent })),
            Err(e) => SafetyNext::Done(Err(ProcessError::Io { source: e })),
        },
        _ => SafetyNext::Done(Err(ProcessError::UnknownAction)),
    }
}

/// One step of the check that `target_path` lies inside `base_dir`: the
/// reply answers the request that `stage` was waiting for.
pub fn ensure_path_safe(
    base_dir: &str,
    target_path: &str,
    stage: SafetyStage,
    reply: FsReply,
) -> (next: SafetyNext)
    ensures
        next@ == spec_safety_step(base_dir@, target_path@, stage@, reply@),
{
    match stage {
        SafetyStage::CanonBase => match take_path(reply) {
            Ok(cb) => SafetyNext::Ask(
                SafetyStage::MetaTarget { canonical_base: cb },
                FsRequest::Metadata { path: target_path.to_owned() },
            ),
            Err(e) => {
                if e.kind == IoErrorKind::NotADirectory {
                    SafetyNext::Done(
                        Err(
                            ProcessError::ParentIsNotDirectory {
                                path: base_dir.to_owned(),
                                parent_path: parent_or_self_exec(base_dir),
                            },
                        ),
                    )
                } else {
                    SafetyNext::Done(Err(ProcessError::Io { source: e }))
                }
            },
        },
        SafetyStage::MetaTarget { canonical_base } => match take_kind(reply) {
            Ok(_) => SafetyNext::Ask(
                SafetyStage::CanonTarget { canonical_base },
                FsRequest::Canonicalize { path: target_path.to_owned() },
            ),
            Err(e) => {
                if e.kind == IoErrorKind::NotFound {
                    SafetyNext::Ask(
                        SafetyStage::CanonPath { canonical_base, path: target_path.to_owned() },
                        FsRequest::Canonicalize { path: target_path.to_owned() },
                    )
                } else if e.kind == IoErrorKind::NotADirectory {
                    SafetyNext::Done(
                        Err(
                            ProcessError::ParentIsNotDirectory {
                                path: target_path.to_owned(),
                                parent_path: parent_or_self_exec(target_path),
                            },
                        ),
                    )
                } else {
                    SafetyNext::Done(Err(ProcessError::Io { source: e }))
                }
            },
        },
        SafetyStage::CanonTarget { canonical_base } => match take_path(reply) {
            Ok(ct) => {
                if starts_with_path(ct.as_str(), canonical_base.as_str()) {
                    SafetyNext::Done(Ok(()))
                } else {
                    SafetyNext::Done(
                        Err(ProcessError::PathNotSafe { resolved_path: ct, base_path: canonical_base }),
                    )
                }
            },
            Err(e) => {
                if e.kind == IoErrorKind::NotADirectory {
                    SafetyNext::Done(
                        Err(
                            ProcessError::ParentIsNotDirectory {
                                path: target_path.to_owned(),
                                parent_path: parent_or_self_exec(target_path),
                            },
                        ),
                    )
                } else {
                    let details = detail(
                        "Failed to canonicalize existing target path: ",
                        e.message.as_str(),
                    );
                    SafetyNext::Done(
                        Err(ProcessError::PathResolution { path: target_path.to_owned(), details }),
                    )
                }
            },
        },
        _ => check_nonexistent_path_safety(target_path, stage, reply),
    }
}

} // verus!

verus! {

/// What a stage of the check of `target` has established so far: when it
/// waits on the kind of an ancestor, the ancestor was reached from the
/// target, the rest of the target stays below it, and its canonical form
/// starts with the canonical base.
pub open spec fn safety_inv(target: Seq<char>, st: SpecSafetyStage) -> bool {
    match st {
        SpecSafetyStage::MetaParent { canonical_base, parent, canonical_parent, .. } =>
            stays_below(target, parent) && path_starts_with(canonical_parent, canonical_base),
        _ => true,
    }
}

/// Why a step of the check of `target` may answer "safe": the canonical
/// target starts with the canonical base; or the nearest existing ancestor
/// of the target (whose further components do not climb above it) is
/// the canonical base itself, or a directory whose canonical form starts
/// with the canonical base.
pub open spec fn safe_verdict_grounds(target: Seq<char>, st: SpecSafetyStage, r: SpecReply) -> bool {
    match st {
        SpecSafetyStage::CanonTarget { canonical_base } => reply_path(r) matches Ok(ct)
            && path_starts_with(ct, canonical_base),
        SpecSafetyStage::CanonPath { canonical_base, path } => reply_path(r) matches Ok(c)
            && paths_equal(c, canonical_base) && stays_below(target, path),
        SpecSafetyStage::CanonParent { canonical_base, parent, .. } => reply_path(r) matches Ok(cp)
            && paths_equal(cp, canonical_base) && stays_below(target, parent),
        SpecSafetyStage::MetaParent { canonical_base, parent, canonical_parent, .. } =>
            reply_kind(r) == Ok::<FileKind, SpecIoError>(FileKind::Dir) && path_starts_with(
            canonical_parent,
            canonical_base,
        ) && stays_below(target, parent),
        _ => false,
    }
}

/// The check keeps what it has established, and it answers "safe" only
/// on the grounds above: an existing target must resolve inside the base,
/// and a missing one must hang below an existing ancestor inside the base
/// whose missing components never climb above that ancestor.
pub proof fn lemma_safe_verdict_contained(
    base: Seq<char>,
    target: Seq<char>,
    st: SpecSafetyStage,
    r: SpecReply,
)
    requires
        safety_inv(target, st),
    ensures
        spec_safety_step(base, target, st, r) == SpecSafetyNext::Done(Ok(())) ==> safe_verdict_grounds(
            target,
            st,
            r,
        ),
        spec_safety_step(base, target, st, r) matches SpecSafetyNext::Ask(st2, _) ==> safety_inv(
            target,
            st2,
        ),
{
}

} // verus!
