//! The pipeline's fatal errors and their user-facing text.

use vstd::prelude::*;
use vstd::string::StringExecFns;
use crate::text::{join_with, join_strings};

verus! {

/// A fatal error raised before or instead of a successful resolution.
#[derive(Debug)]
pub enum CompileError {
    /// Extras were requested but no supplied source can declare extras.
    ExtrasWithoutSource,
    /// Every source was statically readable and these requested extras were
    /// never declared; sorted and free of repeats.
    UnusedExtras(Vec<String>),
    /// Interpreter discovery failed, with the discovery error's text.
    InterpreterNotFound(String),
    /// Any other error, surfaced unmodified.
    FatalError(String),
}

/// The user-facing text of an error.
pub open spec fn error_text(e: CompileError) -> Seq<char> {
    match e {
        CompileError::ExtrasWithoutSource => "Requesting extras requires a `pyproject.toml`, `setup.cfg`, or `setup.py` file."@,
        CompileError::UnusedExtras(names) => if names@.len() == 1 {
            "Requested extra not found: "@ + join_with(names.deep_view(), ", "@)
        } else {
            "Requested extras not found: "@ + join_with(names.deep_view(), ", "@)
        },
        CompileError::InterpreterNotFound(m) => m@,
        CompileError::FatalError(m) => m@,
    }
}

impl CompileError {
    /// Render the error for the user.
    pub fn describe(&self) -> (r: String)
        ensures
            r@ == error_text(*self),
    {
        match self {
            CompileError::ExtrasWithoutSource => String::from_str(
                "Requesting extras requires a `pyproject.toml`, `setup.cfg`, or `setup.py` file.",
            ),
            CompileError::UnusedExtras(names) => {
                let mut r = if names.len() == 1 {
                    String::from_str("Requested extra not found: ")
                } else {
                    String::from_str("Requested extras not found: ")
                };
                let joined = join_strings(names, ", ");
                r.append(joined.as_str());
                r
            },
            CompileError::InterpreterNotFound(m) => m.clone(),
            CompileError::FatalError(m) => m.clone(),
        }
    }
}

} // verus!
