//! Decision logic of the Mio Wayland compositor: screen geometry, pointer
//! chords, shell policies, the IPC protocol, command-line options and the
//! KDL configuration language.

pub mod geometry;
pub mod text;
pub mod config_error;
pub mod mouse;
pub mod pointer;
pub mod shell;
pub mod render;
pub mod focus;
pub mod backend;
pub mod keys;
pub mod effects;
pub mod direction;
pub mod words;
pub mod ipc;
pub mod cli;
pub mod config_doc;
pub mod config;
pub mod bindings;
pub mod config_sections;
pub mod config_rules;
pub mod config_locate;
pub mod config_read;
pub mod config_check;
pub mod kdl_source;
pub mod rules;
pub mod gestures;
pub mod config_manager;
pub mod button_events;
pub mod shortcuts;
pub mod ipc_json;
pub mod button_step;
pub mod capture;

use vstd::prelude::*;

verus! {

} // verus!
