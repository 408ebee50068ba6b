//! The outcome of the GPU capability probe.

use vstd::prelude::*;
use vstd::string::*;
use crate::json::{json_document, parse_json, Json};

verus! {

/// What a result document reports: its `success` flag, where the document
/// is an object with the strings `error` and `errorCause` and the boolean
/// `success`; nothing otherwise.
pub open spec fn reported_success(doc: Option<Json>) -> Option<bool> {
    match doc {
        Some(d) => if d.text_field("error"@).is_some() && d.text_field("errorCause"@).is_some() {
            d.bool_field("success"@)
        } else {
            None
        },
        None => None,
    }
}

/// The outcome of the probe: the reported flag where the runtime exited with
/// code zero and left a result file that can be read; nothing otherwise.
pub open spec fn probe_outcome(code: Option<i32>, result_file: Option<Seq<char>>) -> Option<bool> {
    if code == Some(0i32) && result_file.is_some() {
        reported_success(json_document(result_file.unwrap()))
    } else {
        None
    }
}

/// Whether the result file is to be read at all: only after exit code zero.
pub fn reads_result_file(code: Option<i32>) -> (r: bool)
    ensures
        r == (code == Some(0i32)),
{
    match code {
        Some(c) => c == 0,
        None => false,
    }
}

/// Reads the success flag from a parsed result document.
pub fn gpu_test_report(doc: Option<&Json>) -> (r: Option<bool>)
    ensures
        r == reported_success(
            match doc {
                Some(d) => Some(*d),
                None => None,
            },
        ),
{
    match doc {
        Some(d) => {
            if d.get_text("error").is_some() && d.get_text("errorCause").is_some() {
                d.get_bool("success")
            } else {
                None
            }
        },
        None => None,
    }
}

/// The outcome of the probe from the exit code and the contents of the
/// result file (`None` where it is missing or unreadable). `Some(false)` is
/// a reported failure; `None` says that nothing is known.
pub fn gpu_test_outcome(code: Option<i32>, result_file: Option<&str>) -> (r: Option<bool>)
    ensures
        r == probe_outcome(
            code,
            match result_file {
                Some(text) => Some(text@),
                None => None,
            },
        ),
{
    if !reads_result_file(code) {
        return None;
    }
    match result_file {
        Some(text) => {
            let doc = parse_json(text);
            gpu_test_report(doc.as_ref())
        },
        None => None,
    }
}

} // verus!
