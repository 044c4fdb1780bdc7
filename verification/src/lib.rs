//! Command logic of the Echo Discord bot: argument handling, replies and
//! the decisions each command takes, as plain values.

pub mod args;
pub mod choice;
pub mod help;
pub mod music;
pub mod ping;
pub mod reply;
pub mod text;
pub mod virustotal;
