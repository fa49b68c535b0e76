//! Decisions of the Auru PM desktop application.
use vstd::prelude::*;

pub mod appearance;
pub mod assets;
pub mod automatic_backup;
pub mod backup;
pub mod badge_input;
pub mod catalog;
pub mod detail;
pub mod filters;
pub mod format;
pub mod input_submit;
pub mod inspection;
pub mod json;
pub mod labels;
pub mod laws;
pub mod library;
pub mod manager;
pub mod moment;
pub mod names;
pub mod navigation;
pub mod notice;
pub mod options;
pub mod order;
pub mod panels;
pub mod path;
pub mod project;
pub mod publish;
pub mod recovery;
pub mod remote;
pub mod restore;
pub mod restore_run;
pub mod retention;
pub mod screens;
pub mod session;
pub mod sizes;
pub mod state;
pub mod status;
pub mod text;
pub mod transfers;
pub mod tree;
pub mod text_map;

verus! {

} // verus!
