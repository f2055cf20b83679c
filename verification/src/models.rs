//! Data types for metadata operations.

use vstd::prelude::*;

verus! {

/// A request to embed descriptive metadata into one file. Each of
/// the three fields may be absent; a request with all three absent
/// is valid and denotes a no-op.
#[derive(Debug, Clone)]
pub struct EmbedMetadataRequest {
    pub file_path: String,
    pub title: Option<String>,
    pub description: Option<String>,
    pub keywords: Option<String>,
}

/// The outcome of an embed operation. Expected error conditions
/// (missing file, tool not found, tool failure) are reported here
/// with `success == false`, never as a propagated error.
#[derive(Debug, Clone)]
pub struct EmbedMetadataResult {
    pub success: bool,
    pub message: String,
    pub file_path: String,
}

/// The canonical, namespace-reconciled view of a file's descriptive
/// metadata, produced by a read operation.
#[derive(Debug, Clone)]
pub struct ExifData {
    pub file_path: String,
    pub title: Option<String>,
    pub description: Option<String>,
    pub keywords: Option<String>,
}

/// One value of the tool's raw JSON read output, reduced to what the
/// normalizer inspects: a text value, a list whose text entries
/// matter, or anything else.
#[derive(Debug, Clone)]
pub enum RawValue {
    Text(String),
    List(Vec<RawItem>),
    Other,
}

/// One entry of a raw list value: a text entry or anything else.
#[derive(Debug, Clone)]
pub enum RawItem {
    Text(String),
    Other,
}

/// One record of the tool's raw JSON read output: the namespaced
/// key-to-value entries for one input file, in output order.
#[derive(Debug, Clone)]
pub struct RawRecord {
    pub entries: Vec<(String, RawValue)>,
}

/// What the caller observed when it ran the external tool: the
/// process completed, the executable was not found, or the spawn
/// failed for another reason. Error texts are the OS error's
/// rendering, captured by the caller.
#[derive(Debug, Clone)]
pub enum SpawnOutcome {
    Completed { exit_ok: bool, exit_code: Option<i32>, stdout: String, stderr: String },
    NotFound { error_text: String },
    Failed { error_text: String },
}

/// The decision taken before any process is spawned: either the
/// operation is already settled (validation failed, or there was no
/// metadata to embed), or the tool is to be run with these arguments.
#[derive(Debug, Clone)]
pub enum EmbedPlan {
    Done(EmbedMetadataResult),
    Run(Vec<String>),
}

} // verus!
