//! The command runner boundary.
//!
//! Running the wrapped command is the surrounding program's job; the library
//! only sees its outcome: the captured standard output as UTF-8 text, or a
//! structured failure with the two kinds the protocol distinguishes.

use vstd::prelude::*;
use vstd::string::StringExecFns;

verus! {

/// A structured failure of the wrapped command: it could not be started or
/// run, or its captured output was not valid UTF-8.  Each variant carries
/// the underlying failure's description.
pub enum CommandError {
    ExecError(String),
    OutputError(String),
}

impl CommandError {
    /// The diagnostic line for this failure, as the tool reports it.
    pub fn message(&self) -> (r: String)
        ensures
            self matches CommandError::ExecError(d)
                ==> r@ == "Error executing command: "@ + d@,
            self matches CommandError::OutputError(d)
                ==> r@ == "Error parsing command output: "@ + d@,
    {
        match self {
            CommandError::ExecError(d) => {
                "Error executing command: ".to_owned().concat(d.as_str())
            }
            CommandError::OutputError(d) => {
                "Error parsing command output: ".to_owned().concat(d.as_str())
            }
        }
    }
}

} // verus!
