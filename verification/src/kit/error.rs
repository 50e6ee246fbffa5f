//! Errors of the standalone tool.
use vstd::prelude::*;
use vstd::string::*;
use crate::cli::error::io_error_text;

verus! {

/// What went wrong in a command.
pub enum CliError {
    IoError(std::io::Error),
    DatabaseError(String),
    MigrationError(String),
    ProjectCreationError(String),
    FileNotFoundError(String),
}

impl CliError {
    /// The message shown to the user: a label for the kind of error, then its text.
    pub fn message(&self) -> (s: String)
        ensures
            match self {
                CliError::IoError(_) => s@.len() >= 10 && s@.subrange(0, 10) == "IO Error: "@,
                CliError::DatabaseError(m) => s@ == "Database Error: "@ + m@,
                CliError::MigrationError(m) => s@ == "Migration Error: "@ + m@,
                CliError::ProjectCreationError(m) => s@ == "Project Creation Error: "@ + m@,
                CliError::FileNotFoundError(m) => s@ == "File Not Found: "@ + m@,
            },
    {
        match self {
            CliError::IoError(e) => {
                let t = io_error_text(e);
                let s = String::from_str("IO Error: ").concat(t.as_str());
                proof {
                    reveal_strlit("IO Error: ");
                    assert(s@.subrange(0, 10) =~= "IO Error: "@);
                }
                s
            },
            CliError::DatabaseError(m) => String::from_str("Database Error: ").concat(m.as_str()),
            CliError::MigrationError(m) => String::from_str("Migration Error: ").concat(m.as_str()),
            CliError::ProjectCreationError(m) => String::from_str("Project Creation Error: ").concat(m.as_str()),
            CliError::FileNotFoundError(m) => String::from_str("File Not Found: ").concat(m.as_str()),
        }
    }
}

impl From<std::io::Error> for CliError {
    fn from(error: std::io::Error) -> Self {
        CliError::IoError(error)
    }
}

impl vstd::std_specs::convert::FromSpecImpl<std::io::Error> for CliError {
    open spec fn obeys_from_spec() -> bool {
        true
    }

    open spec fn from_spec(v: std::io::Error) -> CliError {
        CliError::IoError(v)
    }
}

} // verus!
