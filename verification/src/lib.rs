//! The Spotify Connect device picker: which devices and network receivers it
//! offers, in which order, and how each entry is labelled.

pub mod icons;
pub mod laws;
pub mod list;
pub mod model;
pub mod picker;
pub mod rows;
pub mod text;
