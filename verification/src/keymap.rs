//! The key bindings as a list of commands, for display.

use crate::config::{key_map_to_vector, lists_bindings, KeyCommandMap};
use crate::string_map::StringMap;
use vstd::prelude::*;

verus! {

/// The commands that have a keystroke, one item for each.
#[derive(Debug)]
pub struct Mappings {
    pub mapped_commands: Vec<KeyCommandMap>,
}

impl Mappings {
    /// The bindings of `h_map` as a list, one item for each bound name.
    pub fn from(h_map: StringMap) -> (mappings: Self)
        ensures
            lists_bindings(mappings.mapped_commands@, h_map),
            h_map.keys_match_view(),
    {
        Mappings { mapped_commands: key_map_to_vector(h_map) }
    }
}

} // verus!
