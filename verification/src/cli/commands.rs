//! The commands of `cargo kit` and the kinds of resource it generates.
use vstd::prelude::*;
use vstd::string::*;

verus! {

/// Options of the `schedule` command.
#[derive(Debug, Clone, Copy)]
pub struct ScheduleCommand {
    pub daemon: bool,
}

/// The command line: an optional command.
pub struct Cli {
    pub command: Option<Commands>,
}

/// The commands.
pub enum Commands {
    New { name: String },
    Dev,
    Serve,
    MakeController { name: String },
    InertiaPage { name: String },
    InertiaProp { name: String },
    Make { name: String, resource_type: ResourceType },
    Schedule(ScheduleCommand),
}

/// The kinds of resource `make` generates.
#[derive(Debug, Clone, Copy, PartialEq, Eq)]
pub enum ResourceType {
    Controller,
    Model,
    Migration,
    Seeder,
    Factory,
    Test,
    Command,
    Event,
    Job,
    Mail,
    Notification,
    Policy,
    Provider,
    Request,
    Resource,
    Rule,
    Scope,
    Service,
    Middleware,
}

/// The lower-case name of a kind of resource.
pub open spec fn resource_name(r: ResourceType) -> Seq<char> {
    match r {
        ResourceType::Controller => "controller"@,
        ResourceType::Model => "model"@,
        ResourceType::Migration => "migration"@,
        ResourceType::Seeder => "seeder"@,
        ResourceType::Factory => "factory"@,
        ResourceType::Test => "test"@,
        ResourceType::Command => "command"@,
        ResourceType::Event => "event"@,
        ResourceType::Job => "job"@,
        ResourceType::Mail => "mail"@,
        ResourceType::Notification => "notification"@,
        ResourceType::Policy => "policy"@,
        ResourceType::Provider => "provider"@,
        ResourceType::Request => "request"@,
        ResourceType::Resource => "resource"@,
        ResourceType::Rule => "rule"@,
        ResourceType::Scope => "scope"@,
        ResourceType::Service => "service"@,
        ResourceType::Middleware => "middleware"@,
    }
}

impl ResourceType {
    /// The lower-case name, as the command line writes it.
    pub fn name(&self) -> (s: &'static str)
        ensures
            s@ == resource_name(*self),
    {
        match self {
            ResourceType::Controller => "controller",
            ResourceType::Model => "model",
            ResourceType::Migration => "migration",
            ResourceType::Seeder => "seeder",
            ResourceType::Factory => "factory",
            ResourceType::Test => "test",
            ResourceType::Command => "command",
            ResourceType::Event => "event",
            ResourceType::Job => "job",
            ResourceType::Mail => "mail",
            ResourceType::Notification => "notification",
            ResourceType::Policy => "policy",
            ResourceType::Provider => "provider",
            ResourceType::Request => "request",
            ResourceType::Resource => "resource",
            ResourceType::Rule => "rule",
            ResourceType::Scope => "scope",
            ResourceType::Service => "service",
            ResourceType::Middleware => "middleware",
        }
    }

    /// The lower-case name, as an owned string.
    pub fn to_string(&self) -> (s: String)
        ensures
            s@ == resource_name(*self),
    {
        String::from_str(self.name())
    }
}

} // verus!
