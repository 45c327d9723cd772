//! The sink for the end of edits in a document. Nothing is done with them.

use vstd::prelude::*;

verus! {

/// Takes the host's notice that an edit has ended.
#[derive(Clone, Copy, Debug, PartialEq, Eq, Structural)]
pub struct TextEditSink;

impl TextEditSink {
    pub fn new() -> (sink: TextEditSink)
        ensures
            sink == TextEditSink,
    {
        TextEditSink
    }
}

} // verus!
