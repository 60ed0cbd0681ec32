pub mod argvalidator;
pub mod cli;
pub mod commands;
pub mod envs;
pub mod errors;
pub mod projects;
pub mod utils;
