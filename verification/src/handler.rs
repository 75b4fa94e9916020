//! The handler of the chat gateway's events.

use vstd::prelude::*;

verus! {

/// The bot's handler of gateway events.
#[derive(Debug)]
pub struct Handler {}

impl Handler {
    /// A handler.
    pub fn new() -> (h: Handler)
        ensures
            h == (Handler {}),
    {
        Handler {}
    }
}

} // verus!
