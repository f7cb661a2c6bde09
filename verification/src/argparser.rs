//! The options of the scale tool, once their note names have been read.

use crate::notes::Note;
use vstd::prelude::*;

verus! {

/// What the scale tool was asked to do.
#[derive(Debug)]
pub struct Opt {
    /// The scale to convert.
    pub scale: Note,
    /// The key to transpose the scale to, if any.
    pub key: Option<Note>,
}

} // verus!
