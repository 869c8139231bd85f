//! Bootstrapping decisions of the sync engine: the configuration it accepts,
//! the write strategy it picks for the target, how a stored checkpoint is
//! taken up, and what follows a flush.

use vstd::prelude::*;
use crate::key::FieldPosition;
use crate::version::{is_version_8_or_higher, major_version};
use crate::write::{advances, checkpoint_advances, WriteReport, WriteStrategy, DEFAULT_CONCURRENCY};

verus! {

/// Default number of documents per batch.
pub const DEFAULT_BATCH_LIMIT: usize = 100;

/// Options of a sync run.
pub struct Cli {
    pub source_uri: String,
    pub source_db: String,
    pub source_collection: String,
    pub target_uri: String,
    pub target_db: String,
    pub target_collection: String,
    /// Follow the live change feed.
    pub use_change_stream: bool,
    /// Poll in the order of this field.
    pub sync_field: Option<String>,
    /// Resume token or last synced field value (overrides the resume file).
    pub resume_value: Option<String>,
    /// Type of `resume_value`: string, int, objectid or date.
    pub resume_type: Option<String>,
    /// Where the checkpoint is kept.
    pub resume_file: Option<String>,
    /// Overwrite the resume file after each successful flush.
    pub store_resume: bool,
    /// Documents per batch.
    pub limit: Option<usize>,
    /// Concurrent writes of the per-document strategy.
    pub concurrency: Option<usize>,
    /// Where the time of the last successful flush is written.
    pub health_file: Option<String>,
    /// Start from scratch when the stored checkpoint cannot be read.
    pub ignore_corrupt_resume: bool,
}

/// Errors that stop a run before or at its start.
#[derive(PartialEq, Eq, Structural, Clone, Copy, Debug)]
pub enum SyncError {
    /// Neither the change feed nor a polling field was asked for.
    MissingMode,
    /// Both the change feed and a polling field were asked for.
    ConflictingModes,
    /// A batch limit of zero.
    ZeroBatchLimit,
    /// A concurrency limit of zero.
    ZeroConcurrency,
    /// The target did not report its version.
    UnknownTargetVersion,
    /// The stored checkpoint could not be read.
    CorruptCheckpoint,
}

impl SyncError {
    /// A message for the error.
    pub fn message(&self) -> String {
        match self {
            SyncError::MissingMode => "either --use-change-stream or --sync-field must be provided".to_string(),
            SyncError::ConflictingModes => "--use-change-stream and --sync-field cannot be used together".to_string(),
            SyncError::ZeroBatchLimit => "the batch limit must be at least 1".to_string(),
            SyncError::ZeroConcurrency => "the concurrency limit must be at least 1".to_string(),
            SyncError::UnknownTargetVersion => "could not determine the target's server version".to_string(),
            SyncError::CorruptCheckpoint => "the stored checkpoint cannot be read".to_string(),
        }
    }
}

/// Where changed documents come from.
pub enum SyncMode {
    /// The live change feed.
    Feed,
    /// Polling in the order of this field.
    Field(String),
}

/// The settings of a run, once the options are checked.
pub struct SyncSettings {
    pub mode: SyncMode,
    pub batch_limit: usize,
    pub concurrency: usize,
    pub store_resume: bool,
    pub resume_file: Option<String>,
    pub health_file: Option<String>,
    pub ignore_corrupt_resume: bool,
}

/// The error that a set of options gives, if any.
pub open spec fn config_error(cli: Cli) -> Option<SyncError> {
    if cli.use_change_stream && cli.sync_field.is_some() {
        Some(SyncError::ConflictingModes)
    } else if !cli.use_change_stream && cli.sync_field.is_none() {
        Some(SyncError::MissingMode)
    } else if cli.limit == Some(0usize) {
        Some(SyncError::ZeroBatchLimit)
    } else if cli.concurrency == Some(0usize) {
        Some(SyncError::ZeroConcurrency)
    } else {
        None
    }
}

pub open spec fn or_default(v: Option<usize>, d: usize) -> usize {
    match v {
        Some(x) => x,
        None => d,
    }
}

fn copy_opt(s: &Option<String>) -> (r: Option<String>)
    ensures
        r == *s,
{
    match s {
        Some(x) => Some(x.clone()),
        None => None,
    }
}

/// Checks the options of a run: exactly one of the change feed and a polling
/// field, and limits of at least one. Unset limits take their defaults.
pub fn settings_from(cli: &Cli) -> (r: Result<SyncSettings, SyncError>)
    ensures
        match config_error(*cli) {
            Some(e) => r == Err::<SyncSettings, SyncError>(e),
            None => r is Ok && ({
                let s = r->Ok_0;
                &&& match s.mode {
                    SyncMode::Feed => cli.use_change_stream,
                    SyncMode::Field(f) => cli.sync_field == Some(f),
                }
                &&& s.batch_limit == or_default(cli.limit, DEFAULT_BATCH_LIMIT)
                &&& s.concurrency == or_default(cli.concurrency, DEFAULT_CONCURRENCY)
                &&& s.batch_limit > 0 && s.concurrency > 0
                &&& s.store_resume == cli.store_resume
                &&& s.resume_file == cli.resume_file
                &&& s.health_file == cli.health_file
                &&& s.ignore_corrupt_resume == cli.ignore_corrupt_resume
            }),
        },
{
    if cli.use_change_stream && cli.sync_field.is_some() {
        return Err(SyncError::ConflictingModes);
    }
    let mode = match &cli.sync_field {
        Some(f) => SyncMode::Field(f.clone()),
        None => {
            if !cli.use_change_stream {
                return Err(SyncError::MissingMode);
            }
            SyncMode::Feed
        },
    };
    let batch_limit = match cli.limit {
        Some(n) => n,
        None => DEFAULT_BATCH_LIMIT,
    };
    if batch_limit == 0 {
        return Err(SyncError::ZeroBatchLimit);
    }
    let concurrency = match cli.concurrency {
        Some(n) => n,
        None => DEFAULT_CONCURRENCY,
    };
    if concurrency == 0 {
        return Err(SyncError::ZeroConcurrency);
    }
    Ok(SyncSettings {
        mode,
        batch_limit,
        concurrency,
        store_resume: cli.store_resume,
        resume_file: copy_opt(&cli.resume_file),
        health_file: copy_opt(&cli.health_file),
        ignore_corrupt_resume: cli.ignore_corrupt_resume,
    })
}

/// Picks the write strategy from the version the target reports: atomic
/// bulk writes from version 8 on, bounded per-document writes before.
pub fn classify_target(version: Option<String>, concurrency: usize) -> (r: Result<
    WriteStrategy,
    SyncError,
>)
    ensures
        match version {
            None => r == Err::<WriteStrategy, SyncError>(SyncError::UnknownTargetVersion),
            Some(v) => r == Ok::<WriteStrategy, SyncError>(
                if major_version(v@) matches Some(m) && m >= 8 {
                    WriteStrategy::Atomic
                } else {
                    WriteStrategy::Fallback(concurrency)
                },
            ),
        },
{
    match version {
        None => Err(SyncError::UnknownTargetVersion),
        Some(v) => {
            if is_version_8_or_higher(v.as_str()) {
                Ok(WriteStrategy::Atomic)
            } else {
                Ok(WriteStrategy::Fallback(concurrency))
            }
        },
    }
}

/// What was found where the checkpoint is kept.
pub enum Stored<P> {
    /// No checkpoint: a cold start.
    Absent,
    /// A checkpoint that was read.
    Parsed(P),
    /// A checkpoint that could not be read.
    Corrupt,
}

/// Takes up a stored checkpoint. A corrupt one stops the run unless the
/// operator asked to start from scratch instead.
pub fn resolve_checkpoint<P>(stored: Stored<P>, ignore_corrupt: bool) -> (r: Result<
    Option<P>,
    SyncError,
>)
    ensures
        match stored {
            Stored::Absent => r == Ok::<Option<P>, SyncError>(None),
            Stored::Parsed(p) => r == Ok::<Option<P>, SyncError>(Some(p)),
            Stored::Corrupt => r == if ignore_corrupt {
                Ok::<Option<P>, SyncError>(None)
            } else {
                Err(SyncError::CorruptCheckpoint)
            },
        },
{
    match stored {
        Stored::Absent => Ok(None),
        Stored::Parsed(p) => Ok(Some(p)),
        Stored::Corrupt => {
            if ignore_corrupt {
                Ok(None)
            } else {
                Err(SyncError::CorruptCheckpoint)
            }
        },
    }
}

/// The position that polling resumes at from a stored checkpoint. When the
/// polling field is the identity, the stored value stands for both.
pub fn start_position(checkpoint: Option<FieldPosition>, by_id: bool) -> (r: Option<FieldPosition>)
    ensures
        match checkpoint {
            None => r is None,
            Some(c) => r is Some && (if by_id {
                r->0.value@ == c.value@ && r->0.id@ == c.value@
            } else {
                r->0@ == c@
            }),
        },
{
    match checkpoint {
        None => None,
        Some(c) => {
            if by_id {
                let id = c.value.duplicate();
                Some(FieldPosition { value: c.value, id })
            } else {
                Some(c)
            }
        },
    }
}

/// What follows a flush.
#[derive(PartialEq, Eq, Structural, Clone, Copy, Debug)]
pub struct FlushEffects {
    /// The position moves past the batch.
    pub advance: bool,
    /// The checkpoint is written to the resume file.
    pub save_checkpoint: bool,
    /// The health file is touched.
    pub touch_health: bool,
}

/// Decides what follows a flush: the position advances as the write report
/// allows, and only then is the checkpoint persisted (when asked for and a
/// resume file is set) and the health file touched (when one is set).
pub fn after_flush(report: &WriteReport, settings: &SyncSettings) -> (r: FlushEffects)
    ensures
        r.advance == advances(*report),
        r.save_checkpoint == (advances(*report) && settings.store_resume
            && settings.resume_file.is_some()),
        r.touch_health == (advances(*report) && settings.health_file.is_some()),
{
    let advance = checkpoint_advances(report);
    FlushEffects {
        advance,
        save_checkpoint: advance && settings.store_resume && settings.resume_file.is_some(),
        touch_health: advance && settings.health_file.is_some(),
    }
}

} // verus!
