//! Decisions and text handling of a tool that watches Docker containers:
//! what to ask the container runtime, how to read what it answers, and how
//! to label the log lines it streams.

pub mod clock;
pub mod commands;
pub mod formatter;
pub mod output;
pub mod printer;
pub mod pump;
pub mod records;
pub mod text;
pub mod update;
pub mod uptime;
