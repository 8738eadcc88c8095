//! The failures that the store reports, and how an answer of the storage
//! engine is sorted into them.

use vstd::prelude::*;

verus! {

/// The primary result code with which the engine reports a violated
/// constraint.
pub const CONSTRAINT_CODE: i32 = 19;

/// The classes of failure that a caller can tell apart.
#[derive(Clone, Copy, Debug, PartialEq, Eq, Structural)]
pub enum ErrorKind {
    /// The schema text could not be read.
    SchemaLoad,
    /// A statement of the schema batch failed; earlier ones stay applied.
    SchemaApply,
    /// The database file could not be opened.
    Connection,
    /// A lookup by id or by key matched no row.
    NotFound,
    /// A write violated a uniqueness or other constraint.
    Constraint,
    /// Any other failure of the storage engine.
    Query,
}

/// What the storage engine answered when a call failed, as plain values.
#[derive(Clone, Copy, Debug, PartialEq, Eq, Structural)]
pub enum FailureKind {
    /// A query that was to give a row gave none.
    NoRows,
    /// The engine refused the call; `code` is its extended result code.
    Engine { code: i32 },
    /// The driver failed in any other way.
    Other,
}

/// The step of the store's work during which a failure came up.
#[derive(Clone, Copy, Debug, PartialEq, Eq, Structural)]
pub enum Stage {
    /// Opening the database file.
    Open,
    /// Applying the schema batch.
    Schema,
    /// Looking one record up by id or by key.
    Lookup,
    /// Inserting, updating, deleting or compacting.
    Write,
    /// Any other read: listing and existence probes.
    Read,
}

/// A failed call of the storage engine: what kind, and the engine's words.
#[derive(Debug)]
pub struct EngineFailure {
    pub kind: FailureKind,
    pub message: String,
}

/// An error of the store: its class, the words that go with it, and, where
/// it stands for a failure of the engine, what the engine said.
#[derive(Debug)]
pub struct StoreError {
    pub kind: ErrorKind,
    pub message: String,
    pub cause: Option<FailureKind>,
}

/// The primary result code: the low eight bits of an extended code.
pub open spec fn primary_code(code: i32) -> i32 {
    code & 0xff
}

/// Whether an extended result code stands for a violated constraint.
pub open spec fn is_constraint_code(code: i32) -> bool {
    primary_code(code) == CONSTRAINT_CODE
}

/// The class of error for a failure that came up at a given stage.
pub open spec fn error_kind(stage: Stage, failure: FailureKind) -> ErrorKind {
    match stage {
        Stage::Open => ErrorKind::Connection,
        Stage::Schema => ErrorKind::SchemaApply,
        Stage::Lookup => if failure is NoRows {
            ErrorKind::NotFound
        } else {
            ErrorKind::Query
        },
        Stage::Write => match failure {
            FailureKind::Engine { code } => if is_constraint_code(code) {
                ErrorKind::Constraint
            } else {
                ErrorKind::Query
            },
            _ => ErrorKind::Query,
        },
        Stage::Read => ErrorKind::Query,
    }
}

/// Whether an error of class `kind` can come out of a failure at `stage`.
pub open spec fn may_report(stage: Stage, kind: ErrorKind) -> bool {
    match stage {
        Stage::Open => kind == ErrorKind::Connection,
        Stage::Schema => kind == ErrorKind::SchemaApply,
        Stage::Lookup => kind == ErrorKind::NotFound || kind == ErrorKind::Query,
        Stage::Write => kind == ErrorKind::Constraint || kind == ErrorKind::Query,
        Stage::Read => kind == ErrorKind::Query,
    }
}

/// Sorts a failure of the engine into the store's classes of error.
pub fn classify(stage: Stage, failure: FailureKind) -> (kind: ErrorKind)
    ensures
        kind == error_kind(stage, failure),
{
    match stage {
        Stage::Open => ErrorKind::Connection,
        Stage::Schema => ErrorKind::SchemaApply,
        Stage::Lookup => match failure {
            FailureKind::NoRows => ErrorKind::NotFound,
            _ => ErrorKind::Query,
        },
        Stage::Write => match failure {
            FailureKind::Engine { code } => {
                if code & 0xff == CONSTRAINT_CODE {
                    ErrorKind::Constraint
                } else {
                    ErrorKind::Query
                }
            },
            _ => ErrorKind::Query,
        },
        Stage::Read => ErrorKind::Query,
    }
}

impl StoreError {
    /// Whether the error stands for a failure of the engine at `stage`: it
    /// holds what the engine said, and its class is the one into which that
    /// is sorted at this stage.
    pub open spec fn reports(self, stage: Stage) -> bool {
        match self.cause {
            Some(failure) => self.kind == error_kind(stage, failure),
            None => false,
        }
    }

    /// The error that stands for a failure of the engine at a given stage:
    /// its class is `error_kind`, its message the engine's own.
    pub fn from_failure(stage: Stage, failure: EngineFailure) -> (e: StoreError)
        ensures
            e.kind == error_kind(stage, failure.kind),
            e.message@ == failure.message@,
            e.cause == Some(failure.kind),
    {
        StoreError {
            kind: classify(stage, failure.kind),
            message: failure.message,
            cause: Some(failure.kind),
        }
    }

    /// The error for a schema text that could not be read, with the reason
    /// that the reader gave. The engine had no part in it.
    pub fn schema_load(reason: String) -> (e: StoreError)
        ensures
            e.kind == ErrorKind::SchemaLoad,
            e.message@ == reason@,
            e.cause is None,
    {
        StoreError { kind: ErrorKind::SchemaLoad, message: reason, cause: None }
    }

    /// The error's message, as a string of its own.
    pub fn to_string(&self) -> (s: String)
        ensures
            s@ == self.message@,
    {
        self.message.clone()
    }
}

/// Takes the error out of an optional error and puts it on the heap.
pub fn box_error<T>(err: Option<T>) -> (boxed: Box<T>)
    requires
        err is Some,
    ensures
        *boxed == err->0,
{
    Box::new(err.unwrap())
}

/// Turns the outcome of an engine call into the store's result: a value
/// passes through unchanged, a failure becomes the error of its class.
pub fn report<T>(stage: Stage, outcome: Result<T, EngineFailure>) -> (res: Result<
    T,
    Box<StoreError>,
>)
    ensures
        outcome matches Ok(v) ==> res == Ok::<T, Box<StoreError>>(v),
        outcome matches Err(f) ==> (res matches Err(e) && e.kind == error_kind(stage, f.kind)
            && e.cause == Some(f.kind) && e.message@ == f.message@),
{
    match outcome {
        Ok(v) => Ok(v),
        Err(f) => Err(box_error(Some(StoreError::from_failure(stage, f)))),
    }
}

/// An error is of class `NotFound` exactly when a lookup got no row: no
/// other stage and no other failure is reported so.
pub proof fn lemma_not_found_is_a_lookup_without_row(stage: Stage, failure: FailureKind)
    ensures
        error_kind(stage, failure) == ErrorKind::NotFound <==> (stage == Stage::Lookup
            && failure is NoRows),
{
}

/// An error is of class `Constraint` exactly when the engine refused a
/// write with a result code whose primary code is that of a constraint.
pub proof fn lemma_constraint_is_a_refused_write(stage: Stage, failure: FailureKind)
    ensures
        error_kind(stage, failure) == ErrorKind::Constraint <==> (stage == Stage::Write
            && failure is Engine && is_constraint_code(failure->code)),
{
}

/// The class of a failure while opening or while applying the schema does
/// not depend on what the engine said.
pub proof fn lemma_open_and_schema_have_one_class(failure: FailureKind)
    ensures
        error_kind(Stage::Open, failure) == ErrorKind::Connection,
        error_kind(Stage::Schema, failure) == ErrorKind::SchemaApply,
{
}

/// An extended result code is a primary code below 256 with an extension
/// in the bits above; the primary code of the two put together is the
/// primary code again, whatever the extension.
pub proof fn lemma_primary_code_ignores_extension(primary: i32, extension: i32)
    requires
        0 <= primary < 256,
        0 <= extension < 0x80_0000,
    ensures
        primary_code(primary | (extension << 8)) == primary,
        is_constraint_code(primary | (extension << 8)) <==> primary == CONSTRAINT_CODE,
{
    assert((primary | (extension << 8)) & 0xff == primary) by (bit_vector)
        requires
            0 <= primary < 256,
            0 <= extension < 0x80_0000,
    ;
}

/// A stage reports exactly the classes into which some failure at that
/// stage is sorted: none is left out, and none is named that cannot come.
pub proof fn lemma_stage_reports_exactly(stage: Stage, kind: ErrorKind)
    ensures
        may_report(stage, kind) <==> exists|failure: FailureKind| #[trigger]
            error_kind(stage, failure) == kind,
{
    if may_report(stage, kind) {
        assert(is_constraint_code(CONSTRAINT_CODE)) by {
            assert(19i32 & 0xff == 19i32) by (bit_vector);
        }
        let refused = FailureKind::Engine { code: CONSTRAINT_CODE };
        assert(error_kind(stage, FailureKind::NoRows) == kind || error_kind(stage, refused) == kind
            || error_kind(stage, FailureKind::Other) == kind);
    }
}

/// An error that stands for a failure of the engine at a stage is of a
/// class that the stage reports. It is `NotFound` exactly when it came from
/// a lookup to which the engine gave no row, and `Constraint` exactly when
/// it came from a write that the engine refused with a constraint's code.
pub proof fn lemma_reported_class(e: StoreError, stage: Stage)
    requires
        e.reports(stage),
    ensures
        may_report(stage, e.kind),
        e.kind == ErrorKind::NotFound <==> (stage == Stage::Lookup && e.cause == Some(
            FailureKind::NoRows,
        )),
        e.kind == ErrorKind::Constraint <==> (stage == Stage::Write && e.cause->0 is Engine
            && is_constraint_code(e.cause->0->code)),
        e.kind != ErrorKind::SchemaLoad,
{
}

} // verus!
