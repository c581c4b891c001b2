//! Logging: a writer that holds what is logged until the log file is open.

pub mod delay_writer;
