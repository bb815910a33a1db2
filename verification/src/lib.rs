//! Flint-X command logic: what each subcommand of the tool says and does,
//! as plain data that a thin program around this library prints and performs.

pub mod action;
pub mod cli;
pub mod commands;
pub mod render;
pub mod text;
