//! Core of a modal, keyboard-driven text editor: a gap-buffer text store,
//! a cursor motion engine, and a key-event resolver that turns keystrokes
//! into editing commands.

pub mod app;
pub mod cli;
pub mod command_line;
pub mod commands;
pub mod editor;
pub mod gap_buffer;
pub mod highlighting;
pub mod input_handling;
pub mod motions;
pub mod strutil;
