//! Musical note names: their grammar, their enharmonic normalization, and
//! the round trip between reading a note name and rendering a note, all
//! stated and proved over sequences of characters.

pub mod argparser;
pub mod grammar;
pub mod laws;
pub mod notes;
