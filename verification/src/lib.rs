//! Backend logic of a terminal emulator: the table of live shell sessions,
//! the rules by which a session is launched and its operations are answered,
//! and the user configuration document with its defaults.
//!
//! Everything here works on plain values. The host around this library opens
//! pseudo-terminals, spawns processes and touches files, and hands the outcome
//! of each such step to the functions below.

pub mod text;
pub mod config;
pub mod loading;
pub mod notification;
pub mod failure;
pub mod session;
pub mod launch;
pub mod command;
pub mod locking;
pub mod platform;
pub mod startup;
pub mod keymap;
pub mod window_config;
pub mod session_table;
pub mod string_map;
