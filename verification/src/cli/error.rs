//! Errors of the command line.
use vstd::prelude::*;
use vstd::string::*;

verus! {

/// The I/O error type of the standard library, carried through unchanged.
#[verifier::external_type_specification]
#[verifier::external_body]
pub struct ExIoError(std::io::Error);

/// The text of an I/O error, as its `Display` writes it. Trusted with no claim about
/// the text.
#[verifier::external_body]
pub(crate) fn io_error_text(e: &std::io::Error) -> String {
    e.to_string()
}

/// What went wrong in a command.
#[derive(Debug)]
pub enum CliError {
    IoError(std::io::Error),
    Other(String),
    ProjectCreationError(String),
}

impl CliError {
    /// The message shown to the user; for an I/O error, `IO Error: ` before the error's text.
    pub fn message(&self) -> (s: String)
        ensures
            match self {
                CliError::IoError(_) => s@.len() >= 10 && s@.subrange(0, 10) == "IO Error: "@,
                CliError::Other(m) => s@ == m@,
                CliError::ProjectCreationError(m) => s@ == "Project Creation Error: "@ + m@,
            },
    {
        match self {
            CliError::IoError(e) => {
                let t = io_error_text(e);
                let s = String::from_str("IO Error: ").concat(t.as_str());
                proof {
                    reveal_strlit("IO Error: ");
                    assert(s@.subrange(0, 10) =~= "IO Error: "@);
                }
                s
            },
            CliError::Other(m) => m.clone(),
            CliError::ProjectCreationError(m) => String::from_str("Project Creation Error: ").concat(m.as_str()),
        }
    }
}

impl From<std::io::Error> for CliError {
    fn from(error: std::io::Error) -> Self {
        CliError::IoError(error)
    }
}

impl vstd::std_specs::convert::FromSpecImpl<std::io::Error> for CliError {
    open spec fn obeys_from_spec() -> bool {
        true
    }

    open spec fn from_spec(v: std::io::Error) -> CliError {
        CliError::IoError(v)
    }
}

impl From<String> for CliError {
    fn from(error: String) -> Self {
        CliError::Other(error)
    }
}

impl vstd::std_specs::convert::FromSpecImpl<String> for CliError {
    open spec fn obeys_from_spec() -> bool {
        true
    }

    open spec fn from_spec(v: String) -> CliError {
        CliError::Other(v)
    }
}

} // verus!
