//! The editing and presenting logic of OpenPresenter: slides, layers, songs,
//! Bible passages, service plans, outputs and their settings, kept apart from
//! the widgets that show them.
use vstd::prelude::*;

pub mod bible;
pub mod colors;
pub mod domain;
pub mod editor;
pub mod history;
pub mod ids;
pub mod layers;
pub mod library;
pub mod lists;
pub mod messages;
pub mod navbar;
pub mod numbers;
pub mod output;
pub mod playlist;
pub mod props;
pub mod session;
pub mod shortcuts;
pub mod songs;
pub mod text;
pub mod themes;
pub mod triggers;
pub mod windows;

verus! {
} // verus!
