//! Verified logic of the Alembic launcher: settings management, the scanners'
//! parsers, the backend's event handling and the widgets' state.
use vstd::prelude::*;

pub mod args;
pub mod backend;
pub mod commands;
pub mod dll;
pub mod env;
pub mod format;
pub mod launch;
pub mod laws;
pub mod ring;
pub mod scanner;
pub mod settings;
pub mod text;
pub mod widgets;

verus! {
} // verus!
