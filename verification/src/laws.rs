//! What holds of the operations as a whole, said of what goes in and what comes
//! out.
use vstd::prelude::*;

pub mod backup;
pub mod catalogue;
pub mod detail;
pub mod labels;
pub mod library;
pub mod names;
pub mod project;
pub mod providers;
pub mod restore;
pub mod screens;
pub mod state;
pub mod status;
pub mod text;
pub mod time;
pub mod window;

verus! {

} // verus!
