pub mod cli;
pub mod config;
pub mod desktop;
pub mod escalation;
pub mod event;
pub mod gate;
pub mod log_buffer;
pub mod reader;
pub mod sanitize;
pub mod sink;
pub mod supervisor;
pub mod termination;
pub mod text;
pub mod tokenize;
pub mod undo;
