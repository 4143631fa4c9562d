use vstd::prelude::*;

pub mod text;
pub mod hotkey;
pub mod hotkey_laws;
pub mod input;
pub mod keyboard;
pub mod platform;
pub mod gpu;
pub mod transcript;
pub mod models;
pub mod assistant;
pub mod records;
pub mod stats;
pub mod driver;
pub mod json;
pub mod replies;
pub mod streaming;
pub mod scan;
pub mod recognizer;
pub mod typing;
pub mod hotkey_display;

verus! {

} // verus!
