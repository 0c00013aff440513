//! Records the backup tool emits and the classification of an invocation.
//!
//! On a clean exit the last stdout line should be a `Summary` record; on a
//! non-zero exit the last stderr line should be an `Error` record. The
//! classifier maps the raw invocation result onto one of six outcome
//! categories; which record a decoded document yields is pinned down by
//! `summary_matches` and `error_matches` over the JSON model. Parse failures
//! never abort a job: on the clean-exit path a sentinel summary is
//! substituted, on either path the raw line is kept.

use vstd::prelude::*;
use vstd::string::*;

use crate::json;
use crate::json::JsonDoc;
use crate::json::json_value_of;
use crate::lines;
use crate::time;
use crate::time::rfc3339_utc;

verus! {

/// The terminal record of a successful run: counts and timing.
///
/// Timestamps are carried as their RFC 3339 rendering in UTC, and
/// `total_duration` as the JSON number's rendering, so that every field is a
/// plain value.
pub struct Summary {
    pub message_type: String,
    pub dry_run: Option<bool>,
    pub files_new: u64,
    pub files_changed: u64,
    pub files_unmodified: u64,
    pub dirs_new: u64,
    pub dirs_changed: u64,
    pub dirs_unmodified: u64,
    pub data_blobs: i64,
    pub tree_blobs: i64,
    pub data_added: u64,
    pub data_added_packed: u64,
    pub total_files_processed: u64,
    pub total_bytes_processed: u64,
    pub backup_start: String,
    pub backup_end: String,
    pub total_duration: String,
    pub snapshot_id: Option<String>,
}

/// The terminal record of a failed run.
pub struct Error {
    pub message_type: String,
    pub error: ErrorMessage,
    pub during: Option<String>,
    pub item: Option<String>,
}

/// The nested message of an `Error` record.
pub struct ErrorMessage {
    pub message: Option<String>,
}

/// What invoking the backup tool produced, before interpretation.
pub enum InvocationResult {
    /// The process ran to completion; `exit_zero` says whether it exited 0,
    /// and `status` carries the exit status rendered for logging.
    Exited { exit_zero: bool, status: String, stdout: Vec<u8>, stderr: Vec<u8> },
    /// The process could not be spawned at all.
    LaunchFailed { message: String },
}

/// One of the six outcome categories of an invocation.
#[allow(inconsistent_fields)]
pub enum Outcome {
    /// Exit 0 and the last stdout line is a well-typed summary record.
    Success { summary: Summary },
    /// Exit 0 but the record's `message_type` is not `"summary"`; the whole
    /// last line is kept for inspection.
    UnexpectedOutput { line: Vec<u8> },
    /// Exit 0 but the last stdout line does not decode as a summary record;
    /// the line is kept and the sentinel summary is substituted.
    Unparsable { error: String, line: Vec<u8>, summary: Summary },
    /// Non-zero exit and the last stderr line is a well-typed error record;
    /// `status` is the rendered exit status.
    ToolFailure { status: String, error: Error },
    /// Non-zero exit and the last stderr line does not decode.
    ToolFailureUnparsable { error: String, line: Vec<u8> },
    /// The process could not be spawned.
    LaunchFailure { message: String },
}

/// Outcomes routed to the `success` hook branch: the process itself exited 0,
/// whatever its last line looked like.
pub open spec fn success_shaped(o: Outcome) -> bool {
    o is Success || o is UnexpectedOutput || o is Unparsable
}

/// Decides the hook branch of an outcome.
pub fn outcome_success_shaped(o: &Outcome) -> (r: bool)
    ensures
        r == success_shaped(*o),
{
    match o {
        Outcome::Success { .. } => true,
        Outcome::UnexpectedOutput { .. } => true,
        Outcome::Unparsable { .. } => true,
        Outcome::ToolFailure { .. } => false,
        Outcome::ToolFailureUnparsable { .. } => false,
        Outcome::LaunchFailure { .. } => false,
    }
}

/// The sentinel summary: `"invalid"` message type, every count zero, empty
/// timestamps, zero duration, no snapshot.
pub open spec fn is_sentinel(s: Summary) -> bool {
    &&& s.message_type@ == "invalid"@
    &&& s.dry_run is None
    &&& s.files_new == 0
    &&& s.files_changed == 0
    &&& s.files_unmodified == 0
    &&& s.dirs_new == 0
    &&& s.dirs_changed == 0
    &&& s.dirs_unmodified == 0
    &&& s.data_blobs == 0
    &&& s.tree_blobs == 0
    &&& s.data_added == 0
    &&& s.data_added_packed == 0
    &&& s.total_files_processed == 0
    &&& s.total_bytes_processed == 0
    &&& s.backup_start@ == Seq::<char>::empty()
    &&& s.backup_end@ == Seq::<char>::empty()
    &&& s.total_duration@ == "0"@
    &&& s.snapshot_id is None
}

/// Builds the sentinel summary substituted when a clean exit's last line does
/// not decode.
pub fn sentinel_summary() -> (r: Summary)
    ensures
        is_sentinel(r),
{
    Summary {
        message_type: String::from_str("invalid"),
        dry_run: None,
        files_new: 0,
        files_changed: 0,
        files_unmodified: 0,
        dirs_new: 0,
        dirs_changed: 0,
        dirs_unmodified: 0,
        data_blobs: 0,
        tree_blobs: 0,
        data_added: 0,
        data_added_packed: 0,
        total_files_processed: 0,
        total_bytes_processed: 0,
        backup_start: String::new(),
        backup_end: String::new(),
        total_duration: String::from_str("0"),
        snapshot_id: None,
    }
}

/// Whether a decoded document has the summary record's shape: an object with
/// every required field present and well-typed, timestamps valid RFC 3339.
pub open spec fn summary_shape_ok(d: JsonDoc) -> bool {
    match d {
        JsonDoc::Obj(fs0) => {
            let fs = fs0@;
            &&& json::spec_string_field(fs, "message_type"@) is Some
            &&& json::spec_opt_bool_field(fs, "dry_run"@) is Ok
            &&& json::spec_u64_field(fs, "files_new"@) is Some
            &&& json::spec_u64_field(fs, "files_changed"@) is Some
            &&& json::spec_u64_field(fs, "files_unmodified"@) is Some
            &&& json::spec_u64_field(fs, "dirs_new"@) is Some
            &&& json::spec_u64_field(fs, "dirs_changed"@) is Some
            &&& json::spec_u64_field(fs, "dirs_unmodified"@) is Some
            &&& json::spec_i64_field(fs, "data_blobs"@) is Some
            &&& json::spec_i64_field(fs, "tree_blobs"@) is Some
            &&& json::spec_u64_field(fs, "data_added"@) is Some
            &&& json::spec_u64_field(fs, "data_added_packed"@) is Some
            &&& json::spec_u64_field(fs, "total_files_processed"@) is Some
            &&& json::spec_u64_field(fs, "total_bytes_processed"@) is Some
            &&& (json::spec_string_field(fs, "backup_start"@) matches Some(t) && rfc3339_utc(t@)
                is Some)
            &&& (json::spec_string_field(fs, "backup_end"@) matches Some(t) && rfc3339_utc(t@)
                is Some)
            &&& json::spec_number_text_field(fs, "total_duration"@) is Some
            &&& json::spec_opt_string_field(fs, "snapshot_id"@) is Ok
        },
        _ => false,
    }
}

/// Whether a `Summary` is exactly what the decoded document holds, field by
/// field, timestamps rendered in UTC.
pub open spec fn summary_matches(s: Summary, d: JsonDoc) -> bool {
    match d {
        JsonDoc::Obj(fs0) => {
            let fs = fs0@;
            &&& Some(s.message_type) == json::spec_string_field(fs, "message_type"@)
            &&& json::spec_opt_bool_field(fs, "dry_run"@) == Ok::<Option<bool>, ()>(s.dry_run)
            &&& Some(s.files_new) == json::spec_u64_field(fs, "files_new"@)
            &&& Some(s.files_changed) == json::spec_u64_field(fs, "files_changed"@)
            &&& Some(s.files_unmodified) == json::spec_u64_field(fs, "files_unmodified"@)
            &&& Some(s.dirs_new) == json::spec_u64_field(fs, "dirs_new"@)
            &&& Some(s.dirs_changed) == json::spec_u64_field(fs, "dirs_changed"@)
            &&& Some(s.dirs_unmodified) == json::spec_u64_field(fs, "dirs_unmodified"@)
            &&& Some(s.data_blobs) == json::spec_i64_field(fs, "data_blobs"@)
            &&& Some(s.tree_blobs) == json::spec_i64_field(fs, "tree_blobs"@)
            &&& Some(s.data_added) == json::spec_u64_field(fs, "data_added"@)
            &&& Some(s.data_added_packed) == json::spec_u64_field(fs, "data_added_packed"@)
            &&& Some(s.total_files_processed) == json::spec_u64_field(
                fs,
                "total_files_processed"@,
            )
            &&& Some(s.total_bytes_processed) == json::spec_u64_field(
                fs,
                "total_bytes_processed"@,
            )
            &&& (json::spec_string_field(fs, "backup_start"@) matches Some(t) && rfc3339_utc(t@)
                == Some(s.backup_start@))
            &&& (json::spec_string_field(fs, "backup_end"@) matches Some(t) && rfc3339_utc(t@)
                == Some(s.backup_end@))
            &&& Some(s.total_duration) == json::spec_number_text_field(fs, "total_duration"@)
            &&& json::spec_opt_string_field(fs, "snapshot_id"@) == Ok::<Option<String>, ()>(s.snapshot_id)
        },
        _ => false,
    }
}

/// The decoded record's tag: its `message_type` string, empty when absent.
pub open spec fn summary_tag(d: JsonDoc) -> Seq<char> {
    match d {
        JsonDoc::Obj(fs0) => match json::spec_string_field(fs0@, "message_type"@) {
            Some(s) => s@,
            None => Seq::empty(),
        },
        _ => Seq::empty(),
    }
}

/// Whether a decoded document has the error record's shape.
pub open spec fn error_shape_ok(d: JsonDoc) -> bool {
    match d {
        JsonDoc::Obj(fs0) => {
            let fs = fs0@;
            &&& json::spec_string_field(fs, "message_type"@) is Some
            &&& (json::lookup(fs, "error"@) matches Some(JsonDoc::Obj(efs))
                && json::spec_opt_string_field(efs@, "message"@) is Ok)
            &&& json::spec_opt_string_field(fs, "during"@) is Ok
            &&& json::spec_opt_string_field(fs, "item"@) is Ok
        },
        _ => false,
    }
}

/// Whether an `Error` is exactly what the decoded document holds.
pub open spec fn error_matches(e: Error, d: JsonDoc) -> bool {
    match d {
        JsonDoc::Obj(fs0) => {
            let fs = fs0@;
            &&& Some(e.message_type) == json::spec_string_field(fs, "message_type"@)
            &&& (json::lookup(fs, "error"@) matches Some(JsonDoc::Obj(efs))
                && json::spec_opt_string_field(efs@, "message"@) == Ok::<Option<String>, ()>(e.error.message))
            &&& json::spec_opt_string_field(fs, "during"@) == Ok::<Option<String>, ()>(e.during)
            &&& json::spec_opt_string_field(fs, "item"@) == Ok::<Option<String>, ()>(e.item)
        },
        _ => false,
    }
}

/// Builds a `Summary` from a decoded document: exactly the document's fields
/// whenever it has the summary shape, `None` otherwise.
fn summary_from_document(d: &JsonDoc) -> (r: Option<Summary>)
    ensures
        r is Some <==> summary_shape_ok(*d),
        r matches Some(s) ==> summary_matches(s, *d),
{
    let fs = match d {
        JsonDoc::Obj(fs) => fs,
        _ => { return None },
    };
    let message_type = match json::string_field(fs, "message_type") {
        Some(x) => x,
        None => { return None },
    };
    let dry_run = match json::opt_bool_field(fs, "dry_run") {
        Ok(x) => x,
        Err(()) => { return None },
    };
    let files_new = match json::u64_field(fs, "files_new") {
        Some(x) => x,
        None => { return None },
    };
    let files_changed = match json::u64_field(fs, "files_changed") {
        Some(x) => x,
        None => { return None },
    };
    let files_unmodified = match json::u64_field(fs, "files_unmodified") {
        Some(x) => x,
        None => { return None },
    };
    let dirs_new = match json::u64_field(fs, "dirs_new") {
        Some(x) => x,
        None => { return None },
    };
    let dirs_changed = match json::u64_field(fs, "dirs_changed") {
        Some(x) => x,
        None => { return None },
    };
    let dirs_unmodified = match json::u64_field(fs, "dirs_unmodified") {
        Some(x) => x,
        None => { return None },
    };
    let data_blobs = match json::i64_field(fs, "data_blobs") {
        Some(x) => x,
        None => { return None },
    };
    let tree_blobs = match json::i64_field(fs, "tree_blobs") {
        Some(x) => x,
        None => { return None },
    };
    let data_added = match json::u64_field(fs, "data_added") {
        Some(x) => x,
        None => { return None },
    };
    let data_added_packed = match json::u64_field(fs, "data_added_packed") {
        Some(x) => x,
        None => { return None },
    };
    let total_files_processed = match json::u64_field(fs, "total_files_processed") {
        Some(x) => x,
        None => { return None },
    };
    let total_bytes_processed = match json::u64_field(fs, "total_bytes_processed") {
        Some(x) => x,
        None => { return None },
    };
    let backup_start = match json::string_field(fs, "backup_start") {
        Some(t) => match time::normalize_rfc3339(t.as_str()) {
            Some(x) => x,
            None => { return None },
        },
        None => { return None },
    };
    let backup_end = match json::string_field(fs, "backup_end") {
        Some(t) => match time::normalize_rfc3339(t.as_str()) {
            Some(x) => x,
            None => { return None },
        },
        None => { return None },
    };
    let total_duration = match json::number_text_field(fs, "total_duration") {
        Some(x) => x,
        None => { return None },
    };
    let snapshot_id = match json::opt_string_field(fs, "snapshot_id") {
        Ok(x) => x,
        Err(()) => { return None },
    };
    Some(
        Summary {
            message_type,
            dry_run,
            files_new,
            files_changed,
            files_unmodified,
            dirs_new,
            dirs_changed,
            dirs_unmodified,
            data_blobs,
            tree_blobs,
            data_added,
            data_added_packed,
            total_files_processed,
            total_bytes_processed,
            backup_start,
            backup_end,
            total_duration,
            snapshot_id,
        },
    )
}

/// Builds an `Error` from a decoded document: exactly the document's fields
/// whenever it has the error shape, `None` otherwise.
fn error_from_document(d: &JsonDoc) -> (r: Option<Error>)
    ensures
        r is Some <==> error_shape_ok(*d),
        r matches Some(e) ==> error_matches(e, *d),
{
    let fs = match d {
        JsonDoc::Obj(fs) => fs,
        _ => { return None },
    };
    let message_type = match json::string_field(fs, "message_type") {
        Some(x) => x,
        None => { return None },
    };
    let nested = match json::doc_get(fs, "error") {
        Some(f) => f,
        None => { return None },
    };
    let efs = match nested {
        JsonDoc::Obj(efs) => efs,
        _ => { return None },
    };
    let message = match json::opt_string_field(efs, "message") {
        Ok(x) => x,
        Err(()) => { return None },
    };
    let during = match json::opt_string_field(fs, "during") {
        Ok(x) => x,
        Err(()) => { return None },
    };
    let item = match json::opt_string_field(fs, "item") {
        Ok(x) => x,
        Err(()) => { return None },
    };
    Some(Error { message_type, error: ErrorMessage { message }, during, item })
}

/// Decodes a clean exit's last stdout line as a summary record: `Ok` exactly
/// when the line is well-formed JSON of the summary shape, and then exactly
/// the document's record; the error text names what went wrong.
pub fn parse_summary_line(line: &[u8]) -> (r: Result<Summary, String>)
    ensures
        r is Ok <==> (json_value_of(line@) matches Some(d) && summary_shape_ok(d)),
        r matches Ok(s) ==> summary_matches(s, json_value_of(line@).unwrap()),
{
    match json::parse_json_document(line) {
        Err(e) => Err(e),
        Ok(d) => match summary_from_document(&d) {
            Some(s) => Ok(s),
            None => Err(String::from_str("summary record has missing or ill-typed fields")),
        },
    }
}

/// Decodes a failed exit's last stderr line as an error record: `Ok` exactly
/// when the line is well-formed JSON of the error shape, and then exactly
/// the document's record.
pub fn parse_error_line(line: &[u8]) -> (r: Result<Error, String>)
    ensures
        r is Ok <==> (json_value_of(line@) matches Some(d) && error_shape_ok(d)),
        r matches Ok(e) ==> error_matches(e, json_value_of(line@).unwrap()),
{
    match json::parse_json_document(line) {
        Err(e) => Err(e),
        Ok(d) => match error_from_document(&d) {
            Some(s) => Ok(s),
            None => Err(String::from_str("error record has missing or ill-typed fields")),
        },
    }
}

/// Routes a decoded (or undecodable) summary line on the clean-exit path.
///
/// The decision is exact in the decoding result: a well-typed record tagged
/// `"summary"` is a success, any other tag keeps the raw line for
/// inspection, and a decoding failure keeps the line and substitutes the
/// sentinel summary. Every result is routed to the `success` hook branch.
pub fn route_exit_zero(parsed: Result<Summary, String>, line: Vec<u8>) -> (r: Outcome)
    ensures
        success_shaped(r),
        parsed matches Err(e) ==> (r matches Outcome::Unparsable { error, line: l, summary }
            && error == e && l == line && is_sentinel(summary)),
        parsed matches Ok(s) ==> ((s.message_type@ == "summary"@ ==> (r
            matches Outcome::Success { summary } && summary == s)) && (s.message_type@
            != "summary"@ ==> (r matches Outcome::UnexpectedOutput { line: l } && l == line))),
{
    match parsed {
        Err(e) => Outcome::Unparsable { error: e, line, summary: sentinel_summary() },
        Ok(s) => {
            let tag = String::from_str("summary");
            if s.message_type == tag {
                Outcome::Success { summary: s }
            } else {
                Outcome::UnexpectedOutput { line }
            }
        },
    }
}

/// Routes a decoded (or undecodable) error line on the non-zero-exit path.
/// Every result is routed to the `failure` hook branch.
pub fn route_exit_nonzero(parsed: Result<Error, String>, line: Vec<u8>, status: String) -> (r:
    Outcome)
    ensures
        !success_shaped(r),
        parsed matches Err(e) ==> (r matches Outcome::ToolFailureUnparsable { error, line: l }
            && error == e && l == line),
        parsed matches Ok(s) ==> (r matches Outcome::ToolFailure { status: st, error } && error
            == s && st == status),
{
    match parsed {
        Err(e) => Outcome::ToolFailureUnparsable { error: e, line },
        Ok(s) => Outcome::ToolFailure { status, error: s },
    }
}

/// What the clean-exit path must yield for the given captured stdout: the
/// last line's decoded record, tag `"summary"`, gives a success with exactly
/// that record; another tag keeps the line; no line, ill-formed JSON or a
/// wrong shape keeps the line and substitutes the sentinel.
pub open spec fn classifies_exit_zero(r: Outcome, stdout: Seq<u8>) -> bool {
    let ll = lines::spec_lines(stdout);
    if ll.len() == 0 {
        (r matches Outcome::Unparsable { line, .. } && line@ == Seq::<u8>::empty())
    } else {
        match json_value_of(ll.last()) {
            None => (r matches Outcome::Unparsable { line, .. } && line@ == ll.last()),
            Some(d) => if !summary_shape_ok(d) {
                (r matches Outcome::Unparsable { line, .. } && line@ == ll.last())
            } else if summary_tag(d) == "summary"@ {
                (r matches Outcome::Success { summary } && summary_matches(summary, d))
            } else {
                (r matches Outcome::UnexpectedOutput { line } && line@ == ll.last())
            },
        }
    }
}

/// What the failure path must yield for the given captured stderr and
/// rendered exit status.
pub open spec fn classifies_exit_nonzero(r: Outcome, stderr: Seq<u8>, status: String) -> bool {
    let ll = lines::spec_lines(stderr);
    if ll.len() == 0 {
        (r matches Outcome::ToolFailureUnparsable { line, .. } && line@ == Seq::<u8>::empty())
    } else {
        match json_value_of(ll.last()) {
            None => (r matches Outcome::ToolFailureUnparsable { line, .. } && line@ == ll.last()),
            Some(d) => if error_shape_ok(d) {
                (r matches Outcome::ToolFailure { status: st, error } && st == status
                    && error_matches(error, d))
            } else {
                (r matches Outcome::ToolFailureUnparsable { line, .. } && line@ == ll.last())
            },
        }
    }
}

/// Classifies a whole invocation result.
///
/// An outcome is routed to the `success` hook branch exactly when the process
/// ran and exited 0; the launch-failure and non-zero-exit paths are routed to
/// the `failure` branch. On each path the decoded record, or the kept line
/// and sentinel, is exactly what `classifies_exit_zero` /
/// `classifies_exit_nonzero` say of the captured output.
pub fn classify(result: InvocationResult) -> (r: Outcome)
    ensures
        success_shaped(r) <==> result matches InvocationResult::Exited { exit_zero: true, .. },
        result matches InvocationResult::LaunchFailed { message } ==> (r
            matches Outcome::LaunchFailure { message: m } && m == message),
        result matches InvocationResult::Exited { exit_zero: true, stdout, .. }
            ==> classifies_exit_zero(r, stdout@),
        result matches InvocationResult::Exited { exit_zero: false, status, stderr, .. }
            ==> classifies_exit_nonzero(r, stderr@, status),
        r matches Outcome::Unparsable { summary, .. } ==> is_sentinel(summary),
{
    match result {
        InvocationResult::LaunchFailed { message } => Outcome::LaunchFailure { message },
        InvocationResult::Exited { exit_zero, status, stdout, stderr } => {
            if exit_zero {
                match lines::last_line(stdout.as_slice()) {
                    None => route_exit_zero(
                        Err(String::from_str("no output to parse")),
                        Vec::new(),
                    ),
                    Some(l) => {
                        let parsed = parse_summary_line(l.as_slice());
                        route_exit_zero(parsed, l)
                    },
                }
            } else {
                match lines::last_line(stderr.as_slice()) {
                    None => route_exit_nonzero(
                        Err(String::from_str("no output to parse")),
                        Vec::new(),
                        status,
                    ),
                    Some(l) => {
                        let parsed = parse_error_line(l.as_slice());
                        route_exit_nonzero(parsed, l, status)
                    },
                }
            }
        },
    }
}

/// Renders an optional text for logging, with `"N/A"` standing for absent.
pub fn text_or_na(v: &Option<String>) -> (r: String)
    ensures
        match v {
            Some(s) => r == s,
            None => r@ == "N/A"@,
        },
{
    match v {
        Some(s) => s.clone(),
        None => String::from_str("N/A"),
    }
}

/// The `dry_run` flag of a summary, defaulting to false when absent.
pub fn dry_run_or_false(v: &Option<bool>) -> (r: bool)
    ensures
        r == (v matches Some(true)),
{
    match v {
        Some(b) => *b,
        None => false,
    }
}

} // verus!
