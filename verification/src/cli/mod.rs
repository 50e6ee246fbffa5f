//! The `cargo kit` command line: its commands, what each one does, and the files
//! the generators write.
use vstd::prelude::*;
use vstd::string::*;

pub mod commands;
pub mod error;
pub mod make;
pub mod project;

use commands::{Commands, ResourceType};

verus! {

/// One thing a command does.
pub enum Step {
    /// Run the scheduler.
    RunSchedule,
    /// Generate a new project from the template repository.
    CreateNewProject(String),
    /// Start the server, in development mode or not.
    StartServer { dev: bool },
    /// Generate a resource from its template.
    Make(String, ResourceType),
    /// Write the props type of an Inertia page.
    MakePageDto(String),
    /// Write the controller of an Inertia page.
    MakePageController(String),
    /// Write the React component of an Inertia page.
    MakePageComponent(String),
}

/// The steps a command runs, in order.
pub open spec fn command_steps(command: Option<Commands>) -> Seq<Step> {
    match command {
        None => Seq::empty(),
        Some(Commands::Schedule(_)) => seq![Step::RunSchedule],
        Some(Commands::New { name }) => seq![Step::CreateNewProject(name)],
        Some(Commands::Dev) => seq![Step::StartServer { dev: true }],
        Some(Commands::Serve) => seq![Step::StartServer { dev: false }],
        Some(Commands::MakeController { name }) => seq![Step::Make(name, ResourceType::Controller)],
        Some(Commands::InertiaPage { name }) => seq![
            Step::MakePageDto(name),
            Step::MakePageController(name),
            Step::MakePageComponent(name),
        ],
        Some(Commands::InertiaProp { name }) => seq![Step::MakePageDto(name)],
        Some(Commands::Make { name, resource_type }) => seq![Step::Make(name, resource_type)],
    }
}

/// What running `command` does; the caller performs the steps in order and stops at
/// the first that fails.
pub fn plan_command(command: Option<Commands>) -> (steps: Vec<Step>)
    ensures
        steps@ == command_steps(command),
{
    let ghost c = command;
    let mut steps: Vec<Step> = Vec::new();
    match command {
        None => {},
        Some(Commands::Schedule(_)) => steps.push(Step::RunSchedule),
        Some(Commands::New { name }) => steps.push(Step::CreateNewProject(name)),
        Some(Commands::Dev) => steps.push(Step::StartServer { dev: true }),
        Some(Commands::Serve) => steps.push(Step::StartServer { dev: false }),
        Some(Commands::MakeController { name }) => steps.push(Step::Make(name, ResourceType::Controller)),
        Some(Commands::InertiaPage { name }) => {
            steps.push(Step::MakePageDto(name.clone()));
            steps.push(Step::MakePageController(name.clone()));
            steps.push(Step::MakePageComponent(name));
        },
        Some(Commands::InertiaProp { name }) => steps.push(Step::MakePageDto(name)),
        Some(Commands::Make { name, resource_type }) => steps.push(Step::Make(name, resource_type)),
    }
    assert(steps@ =~= command_steps(c));
    steps
}

/// Generating a resource generates exactly the one asked for, under the name given,
/// and `make:controller` is the same as generating a controller.
pub proof fn make_generates_what_was_asked(name: String, resource_type: ResourceType)
    ensures
        command_steps(Some(Commands::Make { name, resource_type })) == seq![Step::Make(name, resource_type)],
        command_steps(Some(Commands::MakeController { name }))
            == command_steps(Some(Commands::Make { name, resource_type: ResourceType::Controller })),
{
}

} // verus!
