pub mod schema_builder;
pub mod query_builder;
pub mod config;
pub mod model;
pub mod migration;
pub mod connection;
pub mod seeder;
pub mod factory;
