//! The uniform result of a pipeline step and the hard failures of an operation.

use vstd::prelude::*;
use vstd::string::*;

verus! {

/// What every install step reports: success, or failure with a message.
#[derive(Debug)]
pub struct InstallStepOutput {
    pub success: bool,
    pub msg: Option<String>,
}

impl InstallStepOutput {
    /// A successful step carries no message, a failed one always does.
    pub open spec fn well_formed(&self) -> bool {
        self.success <==> self.msg.is_none()
    }

    /// The message as a sequence of characters, if there is one.
    pub open spec fn text(&self) -> Option<Seq<char>> {
        match self.msg {
            Some(m) => Some(m@),
            None => None,
        }
    }

    /// The result of a step that succeeded.
    pub fn succeeded() -> (r: Self)
        ensures
            r.success,
            r.msg.is_none(),
            r.well_formed(),
    {
        InstallStepOutput { success: true, msg: None }
    }

    /// The result of a step that failed with `msg`.
    pub fn failed(msg: String) -> (r: Self)
        ensures
            !r.success,
            r.msg == Some(msg),
            r.well_formed(),
    {
        InstallStepOutput { success: false, msg: Some(msg) }
    }
}

/// A hard failure of an operation: nothing was run, or running could not go on.
#[derive(Debug)]
pub enum CommandError {
    /// A precondition or a layout expectation of running a binary is not met.
    BinaryExecution(String),
    /// Provisioning of files failed.
    Installation(String),
}

impl CommandError {
    /// The human-readable text of the failure.
    pub open spec fn text(&self) -> Seq<char> {
        match self {
            CommandError::BinaryExecution(m) => m@,
            CommandError::Installation(m) => m@,
        }
    }

    pub open spec fn is_binary_execution(&self) -> bool {
        self is BinaryExecution
    }

    pub open spec fn is_installation(&self) -> bool {
        self is Installation
    }

    /// The human-readable text of the failure.
    pub fn message(&self) -> (r: String)
        ensures
            r@ == self.text(),
    {
        match self {
            CommandError::BinaryExecution(m) => m.clone(),
            CommandError::Installation(m) => m.clone(),
        }
    }

    /// Whether the failure concerns provisioning rather than running a binary.
    pub fn is_installation_error(&self) -> (r: bool)
        ensures
            r == self.is_installation(),
            !r == self.is_binary_execution(),
    {
        match self {
            CommandError::BinaryExecution(_) => false,
            CommandError::Installation(_) => true,
        }
    }
}

/// The texts of a list of strings, in order.
pub open spec fn texts(v: Seq<String>) -> Seq<Seq<char>> {
    Seq::new(v.len(), |i: int| v[i]@)
}

/// `a` followed by `b`, as a new string.
pub fn joined(a: &str, b: &str) -> (r: String)
    ensures
        r@ == a@ + b@,
{
    a.to_owned().concat(b)
}

/// `open`, then `inner`, then `close`, as a new string.
pub fn enclosed(open: &str, inner: &str, close: &str) -> (r: String)
    ensures
        r@ == open@ + inner@ + close@,
{
    a_then(a_then(open.to_owned(), inner), close)
}

fn a_then(a: String, b: &str) -> (r: String)
    ensures
        r@ == a@ + b@,
{
    a.concat(b)
}

/// Whether two strings hold the same characters.
pub fn same_text(a: &str, b: &str) -> (r: bool)
    ensures
        r == (a@ == b@),
{
    let x = a.to_owned();
    let y = b.to_owned();
    x == y
}

} // verus!
