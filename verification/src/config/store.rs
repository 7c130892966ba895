//! What loading the configuration file decides.
//!
//! Reading, writing and moving files is the caller's. The decisions are
//! here, and they carry the two promises the loader makes: a corrupt file
//! never blocks startup (it is preserved and defaults are used), and a file
//! from a newer build is never reset, because that would silently destroy
//! settings the user still depends on.

use vstd::prelude::*;
use crate::config::migrate::{version_of, VersionField};
use crate::status::StartupNotice;

verus! {

/// `s` is a proper prefix of `path`.
pub open spec fn proper_prefix(s: Seq<char>, path: Seq<char>) -> bool {
    s.len() < path.len() && path.subrange(0, s.len() as int) == s
}

/// True when `c` is a plain file name: non-empty, starting with an ASCII
/// letter, digit, `_` or `-`, and otherwise made of those and `.`. Such a name
/// is one ordinary path component on every platform.
pub open spec fn plain_name(c: Seq<char>) -> bool {
    &&& c.len() > 0
    &&& c[0] != '.'
    &&& forall|i: int|
        0 <= i < c.len() ==> ('a' <= #[trigger] c[i] <= 'z' || 'A' <= c[i] <= 'Z' || '0' <= c[i]
            <= '9' || c[i] == '_' || c[i] == '-' || c[i] == '.')
}

/// True when `p` is a directory path that every platform reads alike and that
/// `parent` hands back unchanged: non-empty, with no `:` or `\`, not starting
/// with `//`, and not ending in `/` or `/.`.
pub open spec fn simple_dir(p: Seq<char>) -> bool {
    &&& p.len() > 0
    &&& forall|i: int| 0 <= i < p.len() ==> #[trigger] p[i] != ':' && p[i] != '\\'
    &&& !(p.len() >= 2 && p[0] == '/' && p[1] == '/')
    &&& p[p.len() - 1] != '/'
    &&& !(p.len() >= 2 && p[p.len() - 2] == '/' && p[p.len() - 1] == '.')
}

/// `path` is `dir`, a `/`, then a plain file name.
pub open spec fn splits_at(path: Seq<char>, n: int) -> bool {
    &&& 0 <= n < path.len()
    &&& path[n] == '/'
    &&& plain_name(path.skip(n + 1))
}

/// Where `path` is a simple directory, a `/` and a plain name, `parent` is
/// that directory.
pub open spec fn parent_of_simple_split(path: Seq<char>, parent: Option<Seq<char>>) -> bool {
    forall|n: int|
        #![trigger path.take(n)]
        splits_at(path, n) && simple_dir(path.take(n)) ==> parent == Some(path.take(n))
}

/// The text an optional path holds.
pub open spec fn text_of(path: Option<String>) -> Option<Seq<char>> {
    match path {
        Some(p) => Some(p@),
        None => None,
    }
}

/// `std::path::Path::parent`, on a path held as UTF-8 text.
///
/// Claims that a parent, when there is one, is a proper prefix of the path,
/// and fixes it in the cases every platform agrees on: `/` has none; a plain
/// file name has the empty path; `/` followed by a plain name has `/`; and a
/// simple directory, a `/` and a plain name has that directory. Other paths
/// (drive and UNC prefixes, `\` separators, trailing `.` components) are
/// left to the platform.
#[verifier::external_body]
fn parent_of(path: &str) -> (parent: Option<String>)
    ensures
        parent matches Some(p) ==> proper_prefix(p@, path@),
        path@ == "/"@ ==> parent is None,
        plain_name(path@) ==> text_of(parent) == Some(Seq::<char>::empty()),
        splits_at(path@, 0) ==> text_of(parent) == Some("/"@),
        parent_of_simple_split(path@, text_of(parent)),
{
    std::path::Path::new(path).parent().map(|p| p.to_string_lossy().into_owned())
}

/// The location of the configuration file.
#[derive(Debug, Clone)]
pub struct ConfigStore {
    path: String,
}

impl View for ConfigStore {
    type V = Seq<char>;

    closed spec fn view(&self) -> Seq<char> {
        self.path@
    }
}

impl ConfigStore {
    /// Uses an explicit path.
    pub fn with_path(path: String) -> (s: ConfigStore)
        ensures
            s@ == path@,
    {
        ConfigStore { path }
    }

    /// Path of the configuration file.
    pub fn path(&self) -> (p: &str)
        ensures
            p@ == self@,
    {
        self.path.as_str()
    }

    /// Directory containing the configuration file: its parent, or `.` where
    /// the path has none (`/`, the empty path). A bare file name's parent is
    /// the empty path.
    pub fn directory(&self) -> (d: String)
        ensures
            d@ == "."@ || proper_prefix(d@, self@),
            self@ == "/"@ ==> d@ == "."@,
            plain_name(self@) ==> d@ == Seq::<char>::empty(),
            splits_at(self@, 0) ==> d@ == "/"@,
            forall|n: int|
                #![trigger self@.take(n)]
                splits_at(self@, n) && simple_dir(self@.take(n)) ==> d@ == self@.take(n),
    {
        match parent_of(self.path.as_str()) {
            Some(parent) => parent,
            None => String::from_str("."),
        }
    }
}

/// What happened while loading, with the configuration obtained.
#[derive(Debug)]
pub enum LoadOutcome<C> {
    /// An existing file was read successfully.
    Loaded(C),
    /// No file existed, so a first-run configuration was created and saved.
    Created(C),
    /// The file was upgraded from an older schema version and saved back.
    Migrated {
        /// The upgraded configuration.
        config: C,
        /// Version the file was written at.
        from_version: u32,
    },
    /// The file was unreadable: it has been preserved and defaults are in
    /// use. The interface must say so, or the loss of paired devices and
    /// layout would look like unexplained amnesia.
    Recovered {
        /// The freshly bootstrapped configuration now in use.
        config: C,
        /// Where the damaged file was moved to.
        backup: String,
        /// Why the damaged file could not be used.
        reason: String,
    },
}

/// The configuration an outcome carries.
pub open spec fn outcome_config<C>(o: LoadOutcome<C>) -> C {
    match o {
        LoadOutcome::Loaded(c) => c,
        LoadOutcome::Created(c) => c,
        LoadOutcome::Migrated { config, .. } => config,
        LoadOutcome::Recovered { config, .. } => config,
    }
}

impl<C> LoadOutcome<C> {
    /// Borrows the configuration, whichever way it was obtained.
    pub fn config(&self) -> (c: &C)
        ensures
            *c == outcome_config(*self),
    {
        match self {
            LoadOutcome::Loaded(c) => c,
            LoadOutcome::Created(c) => c,
            LoadOutcome::Migrated { config, .. } => config,
            LoadOutcome::Recovered { config, .. } => config,
        }
    }

    /// Consumes the outcome and returns the configuration.
    pub fn into_config(self) -> (c: C)
        ensures
            c == outcome_config(self),
    {
        match self {
            LoadOutcome::Loaded(c) => c,
            LoadOutcome::Created(c) => c,
            LoadOutcome::Migrated { config, .. } => config,
            LoadOutcome::Recovered { config, .. } => config,
        }
    }
}

impl StartupNotice {
    /// The notice a configuration load calls for, if one is worth showing:
    /// none for an ordinary load.
    pub fn from_outcome<C>(outcome: &LoadOutcome<C>) -> (n: Option<StartupNotice>)
        ensures
            match *outcome {
                LoadOutcome::Loaded(_) => n is None,
                LoadOutcome::Created(_) => n == Some(StartupNotice::FirstRun),
                LoadOutcome::Migrated { from_version, .. } => n == Some(
                    StartupNotice::Migrated { from_version },
                ),
                LoadOutcome::Recovered { backup, reason, .. } => n matches Some(
                    StartupNotice::Recovered { backup_path, reason: r },
                ) && backup_path@ == backup@ && r@ == reason@,
            },
    {
        match outcome {
            LoadOutcome::Loaded(_) => None,
            LoadOutcome::Created(_) => Some(StartupNotice::FirstRun),
            LoadOutcome::Migrated { from_version, .. } => Some(
                StartupNotice::Migrated { from_version: *from_version },
            ),
            LoadOutcome::Recovered { backup, reason, .. } => Some(
                StartupNotice::Recovered { backup_path: backup.clone(), reason: reason.clone() },
            ),
        }
    }
}

/// What parsing an existing file's text came to.
#[derive(Debug, Clone, Copy, PartialEq, Eq, Structural)]
pub enum ParseVerdict {
    /// A valid document at the current version.
    Current,
    /// A valid document, migrated from an older version.
    Upgraded {
        /// Version the file was written at.
        from: u32,
    },
    /// A document written by a newer build.
    FromFuture {
        /// Version found in the file.
        found: u32,
        /// Highest version this build supports.
        supported: u32,
    },
    /// Anything else: malformed text, an unknown key, a value out of range,
    /// a failed migration step.
    Unusable,
}

/// The top-level key that holds a configuration file's schema version.
pub const VERSION_KEY: &'static str = "version";

/// What the top-level `key` of a TOML document's text holds, as far as a
/// version is concerned: `None` when the text is not a TOML document.
pub uninterp spec fn toml_field(text: Seq<char>, key: Seq<char>) -> Option<VersionField>;

/// Parses `text` as a `toml::Table` (`toml::from_str` through `str::parse`)
/// and reads its top-level `key`.
///
/// Claims only that the outcome is a function of the text and the key,
/// named `toml_field`: TOML's grammar is the crate's.
#[verifier::external_body]
fn toml_field_of(text: &str, key: &str) -> (f: Option<VersionField>)
    ensures
        f == toml_field(text@, key@),
{
    match text.parse::<toml::Table>() {
        Err(_) => None,
        Ok(doc) => Some(
            match doc.get(key) {
                None => VersionField::Missing,
                Some(toml::Value::Integer(n)) => VersionField::Integer(*n),
                Some(_) => VersionField::NotInteger,
            },
        ),
    }
}

/// What a file's `version` key alone says, given the version this build
/// writes: text that is no TOML document, or whose version is no positive
/// integer, is unusable; a newer version is from the future; the target is
/// current; anything older is upgraded from its own version.
pub open spec fn version_verdict_of(field: Option<VersionField>, target: u32) -> ParseVerdict {
    match field {
        None => ParseVerdict::Unusable,
        Some(f) => match version_of(f) {
            None => ParseVerdict::Unusable,
            Some(found) => if found > target {
                ParseVerdict::FromFuture { found, supported: target }
            } else if found == target {
                ParseVerdict::Current
            } else {
                ParseVerdict::Upgraded { from: found }
            },
        },
    }
}

/// Decides what a configuration file's version makes of it, from the file's
/// text. The rest of the document is the schema's to judge: see
/// [`settle_verdict`].
pub fn version_verdict(text: &str, target: u32) -> (v: ParseVerdict)
    ensures
        v == version_verdict_of(toml_field(text@, VERSION_KEY@), target),
{
    match toml_field_of(text, VERSION_KEY) {
        None => ParseVerdict::Unusable,
        Some(field) => match crate::config::migrate::plan_migration(field, target) {
            Ok(crate::config::migrate::MigrationOutcome::AlreadyCurrent) => ParseVerdict::Current,
            Ok(crate::config::migrate::MigrationOutcome::Upgraded { from }) => ParseVerdict::Upgraded {
                from,
            },
            Err(crate::config::migrate::MigrationError::FromFuture { found, supported }) => {
                ParseVerdict::FromFuture { found, supported }
            },
            Err(_) => ParseVerdict::Unusable,
        },
    }
}

/// The verdict on a whole file: what its version says, unless the version
/// allows reading it and the document then fails the schema (an unknown key,
/// a wrong type, a value out of range, a failed migration step).
pub open spec fn settled(by_version: ParseVerdict, schema_ok: bool) -> ParseVerdict {
    if !schema_ok && (by_version is Current || by_version is Upgraded) {
        ParseVerdict::Unusable
    } else {
        by_version
    }
}

/// Combines what the version says with whether the document then read
/// cleanly into the schema.
pub fn settle_verdict(by_version: ParseVerdict, schema_ok: bool) -> (v: ParseVerdict)
    ensures
        v == settled(by_version, schema_ok),
{
    match by_version {
        ParseVerdict::Current | ParseVerdict::Upgraded { .. } => if schema_ok {
            by_version
        } else {
            ParseVerdict::Unusable
        },
        _ => by_version,
    }
}

/// What the loader does with an existing file.
#[derive(Debug, Clone, Copy, PartialEq, Eq, Structural)]
pub enum LoadAction {
    /// Use the configuration as read.
    UseLoaded,
    /// Save the upgraded configuration back, then use it.
    SaveMigrated {
        /// Version the file was written at.
        from: u32,
    },
    /// Refuse to start: the file comes from a newer build.
    Refuse {
        /// Version found in the file.
        found: u32,
        /// Highest version this build supports.
        supported: u32,
    },
    /// Move the file aside, build and save defaults, and report a recovery.
    PreserveAndReset,
}

/// What the loader does with an existing file, given what parsing it came
/// to.
pub open spec fn action_for(verdict: ParseVerdict) -> LoadAction {
    match verdict {
        ParseVerdict::Current => LoadAction::UseLoaded,
        ParseVerdict::Upgraded { from } => LoadAction::SaveMigrated { from },
        ParseVerdict::FromFuture { found, supported } => LoadAction::Refuse { found, supported },
        ParseVerdict::Unusable => LoadAction::PreserveAndReset,
    }
}

/// Decides what to do with an existing configuration file, given what
/// parsing it came to.
pub fn load_action(verdict: ParseVerdict) -> (a: LoadAction)
    ensures
        a == action_for(verdict),
{
    match verdict {
        ParseVerdict::Current => LoadAction::UseLoaded,
        ParseVerdict::Upgraded { from } => LoadAction::SaveMigrated { from },
        ParseVerdict::FromFuture { found, supported } => LoadAction::Refuse { found, supported },
        ParseVerdict::Unusable => LoadAction::PreserveAndReset,
    }
}

/// The loader refuses to start only for a file from a newer build; every
/// other unreadable file is preserved and replaced by defaults, so a corrupt
/// file never blocks startup.
pub proof fn law_only_a_newer_file_blocks_startup(verdict: ParseVerdict)
    ensures
        action_for(verdict) is Refuse <==> verdict is FromFuture,
        verdict is Unusable ==> action_for(verdict) is PreserveAndReset,
{
}

/// A file from a newer build is never reset to defaults, which would drop
/// every field this build does not know.
pub proof fn law_a_newer_file_is_never_reset(found: u32, supported: u32)
    ensures
        !(action_for(ParseVerdict::FromFuture { found, supported }) is PreserveAndReset),
{
}

/// A file whose text declares a version newer than this build's is refused,
/// never reset, whatever the rest of it holds: the promise holds from the
/// file's text, not only from a verdict.
pub proof fn law_a_newer_file_text_is_refused(text: Seq<char>, target: u32, schema_ok: bool)
    requires
        toml_field(text, VERSION_KEY@) matches Some(f) && version_of(f) matches Some(found) && found
            > target,
    ensures
        action_for(settled(version_verdict_of(toml_field(text, VERSION_KEY@), target), schema_ok))
            is Refuse,
{
}

} // verus!
