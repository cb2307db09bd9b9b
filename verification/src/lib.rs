//! Decisions of the desktop settings pages for the panel and for sound.

pub mod panel;
pub mod panel_config;
pub mod panel_laws;
pub mod sound;
pub mod sound_laws;

use vstd::prelude::*;

verus! {

} // verus!
