//! Verified core of a desktop front end for the zapret DPI-bypass engine:
//! the built-in strategy table, the seven list files and their store, the
//! paths under the engine's resource directory, and the command line that
//! starts `winws.exe`.
use vstd::prelude::*;

pub mod lists;
pub mod paths;
pub mod process;
pub mod strategy;
pub mod text;
pub mod winws;

verus! {
} // verus!
