//! The choices a player makes on the command line. The surrounding
//! program parses its arguments into this record; the library only
//! defines its shape.

use vstd::prelude::*;

verus! {

/// What to do on startup: which scenario to play, or which of the two
/// informational listings to print instead.
pub struct Options {
    pub level_name: String,
    pub show_description: bool,
    pub show_level_list: bool,
}

} // verus!
