//! The commands of the standalone tool.
use vstd::prelude::*;

verus! {

/// The command line: the cargo subcommand name, then a command.
pub struct Cli {
    /// The name cargo passes first (`kit`).
    pub kit: Option<String>,
    pub command: Commands,
}

/// The commands.
pub enum Commands {
    /// Create a new project.
    New { name: String },
    /// Generate entities from the database schema.
    EntityGenerate,
    /// Start the development server.
    Dev,
    /// Start the production server.
    Serve,
    /// Create a model.
    MakeModel { name: String },
    /// Create a controller.
    MakeController { name: String },
    /// Create a DTO.
    MakeDto { name: String },
    /// Create a model, a DTO and a controller.
    MakeAll { name: String },
    /// Create an Inertia page with its controller and props type.
    InertiaPage { name: String },
    /// Create an Inertia props type.
    InertiaProp { name: String },
}

} // verus!
