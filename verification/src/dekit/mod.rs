pub mod cli;
pub mod cli_laws;
pub mod connection;
pub mod daemon;
pub mod daemon_laws;
pub mod handler;
pub mod laws;
pub mod report;
pub mod report_laws;
pub mod run_laws;
pub mod script;
