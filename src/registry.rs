//! The package registry: the sequences that keep the catalog and the
//! artifact store coherent, written as a state machine. The caller performs
//! each action on the two stores and hands back its outcome; the machine
//! decides what comes next, including the cleanup of an orphaned artifact.
use vstd::prelude::*;

use crate::error::{ErrType, Error};
use crate::model::{is_valid_name, valid_name, Pkg, PkgMeta};
use crate::text::join_text;

verus! {

/// The operation a transaction carries out.
#[derive(Debug, Clone, Copy, PartialEq, Eq, Structural)]
pub enum Operation {
    /// Save new bytes where no file is yet, then add their record.
    Publish,
    /// Save new bytes, switch the record to them, then remove the old bytes.
    Replace,
    /// Remove the record, then its bytes.
    Delete,
}

/// Where a transaction stands.
#[derive(Debug, Clone, Copy, PartialEq, Eq, Structural)]
pub enum Stage {
    /// Nothing done yet.
    Start,
    /// The record was refused before anything was written.
    Refused,
    /// Waiting for the new bytes to be saved.
    Saving,
    /// Waiting for the catalog to take the record.
    Committing,
    /// Waiting for the orphaned new bytes to be removed.
    Compensating,
    /// Waiting for the replaced bytes to be removed.
    RemovingOld,
    /// Waiting for the record to be removed.
    RemovingMeta,
    /// Waiting for the bytes of a removed record to be removed.
    RemovingArtifact,
    /// Finished.
    Done,
}

/// What the caller is to do next.
#[derive(Debug)]
pub enum Action {
    /// Save the package's bytes at its address, which must not hold a file
    /// yet: where one is there, fail with `Conflict` and leave it untouched.
    CreateArtifact,
    /// Save the package's bytes at its new address, replacing what is there.
    SaveArtifact,
    /// Add the record to the catalog.
    AddMeta,
    /// Switch the catalog's record to the new address.
    UpdateMeta,
    /// Remove the record from the catalog.
    RemoveMeta,
    /// Remove the bytes at the transaction's address.
    RemoveArtifact,
    /// Remove the bytes at the address that was replaced.
    RemoveOldArtifact,
    /// Stop: the transaction's result.
    Finish(Result<(), Error>),
}

/// The shape of an action: which one, and for a result its error's kind.
#[derive(Debug, Clone, Copy, PartialEq, Eq, Structural)]
pub enum Move {
    CreateArtifact,
    SaveArtifact,
    AddMeta,
    UpdateMeta,
    RemoveMeta,
    RemoveArtifact,
    RemoveOldArtifact,
    Succeed,
    Fail(ErrType),
}

pub open spec fn move_of(a: Action) -> Move {
    match a {
        Action::CreateArtifact => Move::CreateArtifact,
        Action::SaveArtifact => Move::SaveArtifact,
        Action::AddMeta => Move::AddMeta,
        Action::UpdateMeta => Move::UpdateMeta,
        Action::RemoveMeta => Move::RemoveMeta,
        Action::RemoveArtifact => Move::RemoveArtifact,
        Action::RemoveOldArtifact => Move::RemoveOldArtifact,
        Action::Finish(Ok(())) => Move::Succeed,
        Action::Finish(Err(e)) => Move::Fail(e.kind),
    }
}

/// The kind of a failed outcome.
pub open spec fn failure_of(last: Result<(), Error>) -> Option<ErrType> {
    match last {
        Ok(()) => None,
        Err(e) => Some(e.kind),
    }
}

/// The stage that follows `stage` of `op` on an outcome that succeeded or
/// not; `moves` says whether a replace puts the bytes at a new address.
pub open spec fn next_stage(op: Operation, stage: Stage, ok: bool, moves: bool) -> Stage {
    match stage {
        Stage::Start => match op {
            Operation::Delete => Stage::RemovingMeta,
            _ => Stage::Saving,
        },
        Stage::Saving => if ok {
            Stage::Committing
        } else {
            Stage::Done
        },
        Stage::Committing => if !ok {
            Stage::Compensating
        } else if op == Operation::Replace && moves {
            Stage::RemovingOld
        } else {
            Stage::Done
        },
        Stage::RemovingMeta => if ok {
            Stage::RemovingArtifact
        } else {
            Stage::Done
        },
        _ => Stage::Done,
    }
}

/// The move that follows `stage` of `op`, given the kind of the outcome's
/// failure, if any, and the kind of the failure that started a cleanup.
pub open spec fn next_move(
    op: Operation,
    stage: Stage,
    failure: Option<ErrType>,
    primary: Option<ErrType>,
    moves: bool,
) -> Move {
    match stage {
        Stage::Start => match op {
            Operation::Delete => Move::RemoveMeta,
            Operation::Publish => Move::CreateArtifact,
            Operation::Replace => Move::SaveArtifact,
        },
        Stage::Refused => Move::Fail(ErrType::Usage),
        Stage::Saving => match failure {
            None => if op == Operation::Replace {
                Move::UpdateMeta
            } else {
                Move::AddMeta
            },
            Some(k) => Move::Fail(k),
        },
        Stage::Committing => match failure {
            None => if op == Operation::Replace && moves {
                Move::RemoveOldArtifact
            } else {
                Move::Succeed
            },
            Some(k) => Move::RemoveArtifact,
        },
        Stage::Compensating => match primary {
            Some(k) => Move::Fail(k),
            None => Move::Fail(ErrType::Inconsistent),
        },
        Stage::RemovingOld => match failure {
            None => Move::Succeed,
            Some(k) => Move::Fail(ErrType::PartialDelete),
        },
        Stage::RemovingMeta => match failure {
            None => Move::RemoveArtifact,
            Some(k) => Move::Fail(k),
        },
        Stage::RemovingArtifact => match failure {
            None => Move::Succeed,
            Some(k) => Move::Fail(ErrType::PartialDelete),
        },
        Stage::Done => Move::Fail(ErrType::Usage),
    }
}

/// A publish, replace or delete in progress.
#[derive(Debug)]
pub struct Transaction {
    pub op: Operation,
    pub stage: Stage,
    /// The failure that started a cleanup, reported once the cleanup ends.
    pub primary: Option<Error>,
    /// Whether a replace puts the bytes at an address other than the old one,
    /// which must then be cleared.
    pub moves: bool,
}

pub open spec fn kind_of(e: Option<Error>) -> Option<ErrType> {
    match e {
        Some(e) => Some(e.kind),
        None => None,
    }
}

/// The description of a failure, where it has one.
fn describe(e: &Error) -> (r: Option<String>)
    ensures
        r == e.message,
{
    e.message.clone()
}

/// The text of an optional description; empty where there is none.
pub open spec fn text_of(s: Option<String>) -> Seq<char> {
    match s {
        Some(t) => t@,
        None => Seq::empty(),
    }
}

/// What separates a failure's cause from the failure of its cleanup.
pub const CLEANUP_FAILED: &'static str = "; cleanup failed: ";

/// The cause of a failure after its cleanup ended with `cleanup`: kept as it
/// was where the cleanup succeeded, else followed by the cleanup's failure.
pub open spec fn cause_after_cleanup(cause: Option<String>, cleanup: Result<(), Error>) -> Option<
    Seq<char>,
> {
    match cleanup {
        Ok(()) => match cause {
            Some(t) => Some(t@),
            None => None,
        },
        Err(c) => Some(text_of(cause) + CLEANUP_FAILED@ + text_of(c.message)),
    }
}

/// The view of an optional text.
pub open spec fn opt_view(s: Option<String>) -> Option<Seq<char>> {
    match s {
        Some(t) => Some(t@),
        None => None,
    }
}

/// The cause of a failure with the failure of its cleanup reported beside it.
pub fn with_cleanup(cause: &Option<String>, cleanup: &Result<(), Error>) -> (r: Option<String>)
    ensures
        opt_view(r) == cause_after_cleanup(*cause, *cleanup),
{
    match cleanup {
        Ok(()) => cause.clone(),
        Err(c) => {
            let first = match cause {
                Some(t) => t.clone(),
                None => String::new(),
            };
            let then = match &c.message {
                Some(t) => t.clone(),
                None => String::new(),
            };
            let joined = join_text(first.as_str(), CLEANUP_FAILED);
            Some(join_text(joined.as_str(), then.as_str()))
        },
    }
}

impl Transaction {
    /// A publish of `meta`; a name that breaks the grammar is refused before
    /// any bytes are written.
    pub fn publish(meta: &PkgMeta) -> (r: Transaction)
        ensures
            r.op == Operation::Publish,
            r.stage == (if valid_name(meta.name@) {
                Stage::Start
            } else {
                Stage::Refused
            }),
            r.primary is None,
    {
        let stage = if is_valid_name(meta.name.as_str()) {
            Stage::Start
        } else {
            Stage::Refused
        };
        Transaction { op: Operation::Publish, stage, primary: None, moves: false }
    }

    /// A replace of the bytes of `meta`, kept so far at `old_address`, by bytes
    /// at `new_address`; a name that breaks the grammar is refused before any
    /// bytes are written.
    pub fn replace(meta: &PkgMeta, old_address: &str, new_address: &str) -> (r: Transaction)
        ensures
            r.op == Operation::Replace,
            r.moves == (old_address@ != new_address@),
            r.stage == (if valid_name(meta.name@) {
                Stage::Start
            } else {
                Stage::Refused
            }),
            r.primary is None,
    {
        let stage = if is_valid_name(meta.name.as_str()) {
            Stage::Start
        } else {
            Stage::Refused
        };
        let moves = !crate::model::string_eq(old_address, new_address);
        Transaction { op: Operation::Replace, stage, primary: None, moves }
    }

    /// A delete.
    pub fn delete() -> (r: Transaction)
        ensures
            r.op == Operation::Delete,
            r.stage == Stage::Start,
            r.primary is None,
    {
        Transaction { op: Operation::Delete, stage: Stage::Start, primary: None, moves: false }
    }

    /// The next action, given the outcome of the last one (`Ok` for the
    /// first call). A failure of the catalog after the bytes were saved
    /// starts the removal of those bytes, and that failure is the one
    /// reported when the removal ends, however the removal went.
    pub fn step(&mut self, last: Result<(), Error>) -> (r: Action)
        ensures
            final(self).op == old(self).op,
            final(self).moves == old(self).moves,
            final(self).stage == (if old(self).stage == Stage::Refused {
                Stage::Done
            } else {
                next_stage(old(self).op, old(self).stage, last is Ok, old(self).moves)
            }),
            move_of(r) == next_move(
                old(self).op,
                old(self).stage,
                failure_of(last),
                kind_of(old(self).primary),
                old(self).moves,
            ),
            final(self).stage == Stage::Compensating ==> kind_of(final(self).primary)
                == failure_of(last),
            old(self).stage == Stage::Compensating && old(self).primary is Some ==> (r matches Action::Finish(
                Err(e),
            ) && e.kind == old(self).primary->Some_0.kind && e.message == old(
                self,
            ).primary->Some_0.message && opt_view(e.source) == cause_after_cleanup(
                old(self).primary->Some_0.source,
                last,
            )),
    {
        let op = self.op;
        match self.stage {
            Stage::Start => {
                if op == Operation::Delete {
                    self.stage = Stage::RemovingMeta;
                    Action::RemoveMeta
                } else if op == Operation::Publish {
                    self.stage = Stage::Saving;
                    Action::CreateArtifact
                } else {
                    self.stage = Stage::Saving;
                    Action::SaveArtifact
                }
            },
            Stage::Refused => {
                self.stage = Stage::Done;
                Action::Finish(
                    Err(Error::new(ErrType::Usage, "package name does not follow the name grammar")),
                )
            },
            Stage::Saving => match last {
                Ok(()) => {
                    self.stage = Stage::Committing;
                    if op == Operation::Replace {
                        Action::UpdateMeta
                    } else {
                        Action::AddMeta
                    }
                },
                Err(e) => {
                    self.stage = Stage::Done;
                    Action::Finish(Err(e))
                },
            },
            Stage::Committing => match last {
                Ok(()) => {
                    if op == Operation::Replace && self.moves {
                        self.stage = Stage::RemovingOld;
                        Action::RemoveOldArtifact
                    } else {
                        self.stage = Stage::Done;
                        Action::Finish(Ok(()))
                    }
                },
                Err(e) => {
                    self.stage = Stage::Compensating;
                    self.primary = Some(e);
                    Action::RemoveArtifact
                },
            },
            Stage::Compensating => {
                self.stage = Stage::Done;
                match self.primary.take() {
                    Some(p) => {
                        let source = with_cleanup(&p.source, &last);
                        Action::Finish(Err(Error { kind: p.kind, source, message: p.message }))
                    },
                    None => Action::Finish(
                        Err(Error::new(ErrType::Inconsistent, "cleanup without a cause")),
                    ),
                }
            },
            Stage::RemovingOld => {
                self.stage = Stage::Done;
                match last {
                    Ok(()) => Action::Finish(Ok(())),
                    Err(e) => Action::Finish(
                        Err(
                            Error {
                                kind: ErrType::PartialDelete,
                                source: describe(&e),
                                message: Some(
                                    "the record was switched but the old artifact remains".to_string(),
                                ),
                            },
                        ),
                    ),
                }
            },
            Stage::RemovingMeta => match last {
                Ok(()) => {
                    self.stage = Stage::RemovingArtifact;
                    Action::RemoveArtifact
                },
                Err(e) => {
                    self.stage = Stage::Done;
                    Action::Finish(Err(e))
                },
            },
            Stage::RemovingArtifact => {
                self.stage = Stage::Done;
                match last {
                    Ok(()) => Action::Finish(Ok(())),
                    Err(e) => Action::Finish(
                        Err(
                            Error {
                                kind: ErrType::PartialDelete,
                                source: describe(&e),
                                message: Some(
                                    "the record was removed but its artifact remains".to_string(),
                                ),
                            },
                        ),
                    ),
                }
            },
            Stage::Done => Action::Finish(
                Err(Error::new(ErrType::Usage, "the transaction has already finished")),
            ),
        }
    }
}

/// A package from its record and the outcome of loading its bytes: bytes
/// that are missing while the record exists mean the stores disagree.
pub fn package_from_parts(meta: PkgMeta, loaded: Result<Vec<u8>, Error>) -> (r: Result<Pkg, Error>)
    ensures
        loaded is Ok <==> r is Ok,
        r matches Ok(p) ==> p.meta == meta && p.bytes == loaded->Ok_0,
        loaded matches Err(e) ==> r->Err_0.kind == (if e.kind == ErrType::NotFound {
            ErrType::Inconsistent
        } else {
            e.kind
        }),
{
    match loaded {
        Ok(bytes) => Ok(Pkg { meta, bytes }),
        Err(e) => if e.kind == ErrType::NotFound {
            Err(
                Error {
                    kind: ErrType::Inconsistent,
                    source: e.message,
                    message: Some("the record exists but its artifact is missing".to_string()),
                },
            )
        } else {
            Err(e)
        },
    }
}

/// Publishing: the bytes are only ever written where no file is yet, and a
/// refusal there ends the publish with nothing removed. When the catalog
/// refuses the record after the bytes were saved, the bytes are removed and
/// the catalog's failure is what the caller sees, whether or not the removal
/// succeeded.
pub proof fn law_publish_cleanup(
    save_failure: ErrType,
    commit_failure: ErrType,
    cleanup: Option<ErrType>,
)
    ensures
        next_move(Operation::Publish, Stage::Start, None, None, false) == Move::CreateArtifact,
        next_move(Operation::Publish, Stage::Saving, Some(save_failure), None, false) == Move::Fail(
            save_failure,
        ),
        next_stage(Operation::Publish, Stage::Saving, false, false) == Stage::Done,
        next_stage(Operation::Publish, Stage::Committing, false, false) == Stage::Compensating,
        next_move(Operation::Publish, Stage::Committing, Some(commit_failure), None, false)
            == Move::RemoveArtifact,
        next_move(Operation::Publish, Stage::Compensating, cleanup, Some(commit_failure), false)
            == Move::Fail(commit_failure),
{
}

/// Replacing: the old bytes are removed only after the catalog took the new
/// address, and never when the new bytes took the old address's place.
pub proof fn law_replace_keeps_old_until_switch(failure: Option<ErrType>, moves: bool)
    ensures
        next_move(Operation::Replace, Stage::Saving, failure, None, moves) != Move::RemoveOldArtifact,
        next_move(Operation::Replace, Stage::Committing, failure, None, moves)
            == Move::RemoveOldArtifact <==> (failure is None && moves),
{
}

/// Deleting: once the record is gone, a failure to remove the bytes is
/// reported as `PartialDelete`, never as success or as the plain failure.
pub proof fn law_delete_partial(k: ErrType)
    ensures
        next_stage(Operation::Delete, Stage::RemovingMeta, true, false) == Stage::RemovingArtifact,
        next_move(Operation::Delete, Stage::RemovingArtifact, Some(k), None, false) == Move::Fail(
            ErrType::PartialDelete,
        ),
{
}

} // verus!
