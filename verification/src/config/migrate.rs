//! Schema migration decisions.
//!
//! Migrations run on the raw document before it is deserialised, because the
//! current schema cannot represent fields that only existed in an older
//! version. The document itself, and the steps that rewrite it, are the
//! caller's; the decisions are here: which version a document is at, whether
//! it may be migrated at all, and which step runs next.

use vstd::prelude::*;
use crate::error::{decimal_of, push_decimal};

verus! {

/// What migrating did to the document.
#[derive(Debug, Clone, Copy, PartialEq, Eq, Structural)]
pub enum MigrationOutcome {
    /// The document was already current; nothing changed.
    AlreadyCurrent,
    /// The document was upgraded from the given version.
    Upgraded {
        /// Version the document was written at.
        from: u32,
    },
}

/// Reasons a document could not be brought to the current schema.
#[derive(Debug, Clone, PartialEq, Eq)]
pub enum MigrationError {
    /// The document was written by a newer build. Deliberately fatal: parsing
    /// it with an older schema would drop every field this build does not
    /// know, and the next save would make that loss permanent.
    FromFuture {
        /// Version found in the file.
        found: u32,
        /// Highest version this build supports.
        supported: u32,
    },
    /// The `version` key was present but not a usable integer.
    BadVersionField,
    /// A step could not transform the document.
    StepFailed {
        /// Version the failing step started from.
        from: u32,
        /// What went wrong.
        reason: String,
    },
}

/// The message a migration error displays.
pub open spec fn migration_message(e: MigrationError) -> Seq<char> {
    match e {
        MigrationError::FromFuture { found, supported } => "configuration is version "@
            + decimal_of(found as nat) + ", but this build understands at most version "@
            + decimal_of(supported as nat) + "; update MouseBridge or move the file aside"@,
        MigrationError::BadVersionField => "configuration `version` must be a positive integer"@,
        MigrationError::StepFailed { from, reason } => "migration from version "@ + decimal_of(
            from as nat,
        ) + " failed: "@ + reason@,
    }
}

impl MigrationError {
    /// The message shown for this error.
    pub fn to_string(&self) -> (s: String)
        ensures
            s@ == migration_message(*self),
    {
        match self {
            MigrationError::FromFuture { found, supported } => {
                let mut s = String::from_str("configuration is version ");
                push_decimal(&mut s, *found as u64);
                s.append(", but this build understands at most version ");
                push_decimal(&mut s, *supported as u64);
                s.append("; update MouseBridge or move the file aside");
                s
            },
            MigrationError::BadVersionField => String::from_str(
                "configuration `version` must be a positive integer",
            ),
            MigrationError::StepFailed { from, reason } => {
                let mut s = String::from_str("migration from version ");
                push_decimal(&mut s, *from as u64);
                s.append(" failed: ");
                s.append(reason.as_str());
                s
            },
        }
    }
}

/// The `version` key of a raw document, as found.
#[derive(Debug, Clone, Copy, PartialEq, Eq, Structural)]
pub enum VersionField {
    /// No `version` key: a file predating it, which is version 1.
    Missing,
    /// An integer value.
    Integer(i64),
    /// A value of any other type.
    NotInteger,
}

/// The version a document is at, or why it has none: a version is a positive
/// integer, and version 1 is the first schema.
pub open spec fn version_of(field: VersionField) -> Option<u32> {
    match field {
        VersionField::Missing => Some(1u32),
        VersionField::Integer(n) => if 1 <= n <= u32::MAX {
            Some(n as u32)
        } else {
            None
        },
        VersionField::NotInteger => None,
    }
}

/// The version a document is at.
pub fn found_version(field: VersionField) -> (r: Result<u32, MigrationError>)
    ensures
        match version_of(field) {
            Some(v) => r == Ok::<u32, MigrationError>(v),
            None => r matches Err(MigrationError::BadVersionField),
        },
{
    match field {
        VersionField::Missing => Ok(1),
        VersionField::Integer(n) => {
            if 1 <= n && n <= u32::MAX as i64 {
                Ok(n as u32)
            } else {
                Err(MigrationError::BadVersionField)
            }
        },
        VersionField::NotInteger => Err(MigrationError::BadVersionField),
    }
}

/// Decides whether a document may be migrated towards `target`, before any
/// step runs.
///
/// A document from a newer build is refused rather than downgraded; one at
/// the target is left alone; an older one is upgraded from its own version.
pub fn plan_migration(field: VersionField, target: u32) -> (r: Result<
    MigrationOutcome,
    MigrationError,
>)
    ensures
        match version_of(field) {
            None => r matches Err(MigrationError::BadVersionField),
            Some(found) => if found > target {
                r == Err::<MigrationOutcome, MigrationError>(
                    MigrationError::FromFuture { found, supported: target },
                )
            } else if found == target {
                r == Ok::<MigrationOutcome, MigrationError>(MigrationOutcome::AlreadyCurrent)
            } else {
                r == Ok::<MigrationOutcome, MigrationError>(
                    MigrationOutcome::Upgraded { from: found },
                )
            },
        },
{
    let found = found_version(field)?;
    if found > target {
        return Err(MigrationError::FromFuture { found, supported: target });
    }
    if found == target {
        return Ok(MigrationOutcome::AlreadyCurrent);
    }
    Ok(MigrationOutcome::Upgraded { from: found })
}

/// What to do next while migrating a document.
#[derive(Debug, Clone, PartialEq, Eq)]
pub enum MigrationAction {
    /// The document is at the target version.
    Finished,
    /// Run the step at `index`, then stamp the document with `next_version`.
    Run {
        /// Position of the step in the ordered list.
        index: usize,
        /// Version the document is at once the step has run.
        next_version: u32,
    },
    /// No step is registered for the current version: fail with this error
    /// rather than skip it silently.
    Missing(MigrationError),
}

/// The step after a document has reached `version`, heading for `target`,
/// with `steps_registered` steps known. Step `n` upgrades version `n + 1` to
/// version `n + 2`.
pub fn next_migration_action(version: u32, target: u32, steps_registered: usize) -> (a:
    MigrationAction)
    ensures
        version >= target ==> a == MigrationAction::Finished,
        version < target && 1 <= version && version - 1 < steps_registered ==> a
            == (MigrationAction::Run { index: (version - 1) as usize, next_version: (version + 1) as u32 }),
        version < target && !(1 <= version && version - 1 < steps_registered) ==> (a matches MigrationAction::Missing(
            MigrationError::StepFailed { from, reason },
        ) && from == version && reason@ == "no migration step registered for version "@
            + decimal_of(version as nat)),
{
    if version >= target {
        return MigrationAction::Finished;
    }
    if 1 <= version && ((version - 1) as u64) < (steps_registered as u64) {
        return MigrationAction::Run { index: (version - 1) as usize, next_version: version + 1 };
    }
    let mut reason = String::from_str("no migration step registered for version ");
    push_decimal(&mut reason, version as u64);
    MigrationAction::Missing(MigrationError::StepFailed { from: version, reason })
}

} // verus!
