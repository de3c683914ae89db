use vstd::prelude::*;

verus! {

/// The data of a game; it holds nothing yet.
pub struct GameData {}

impl GameData {
    /// Sets up the data of a game; there is nothing to set up yet.
    pub fn new() {
    }

    /// Runs the game on its data; there is nothing to run yet.
    pub fn run() {
    }
}

} // verus!
