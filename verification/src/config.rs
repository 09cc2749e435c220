//! Configuration of the music module.

use vstd::prelude::*;

verus! {

/// Configuration of the music module: an optional override of the list of
/// players the module is allowed to track. An empty list means no override.
#[derive(Clone, Debug)]
pub struct MusicConfig {
    pub enabled_player_override: Vec<String>,
}

impl Default for MusicConfig {
    /// The default configuration overrides nothing.
    fn default() -> (r: Self)
        ensures
            r.enabled_player_override@ == Seq::<String>::empty(),
    {
        MusicConfig { enabled_player_override: Vec::new() }
    }
}

} // verus!
