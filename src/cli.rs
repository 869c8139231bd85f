//! Options of the CSV import.

use vstd::prelude::*;

verus! {

/// Options of a CSV import run.
pub struct Cli {
    /// Path of the CSV file.
    pub input: String,
    /// Path of the field mapping.
    pub mapping: String,
    pub mongo_uri: String,
    pub db: String,
    pub collection: String,
    /// Name of the operation template to render for each record.
    pub operation: Option<String>,
    /// Directory of the operation templates.
    pub template_dir: Option<String>,
    pub no_header: bool,
    pub dry_run: bool,
    pub debug: bool,
    pub validate_only: bool,
    pub raw_insert: bool,
    pub batch_size: Option<usize>,
    pub extended_json: bool,
}

} // verus!
