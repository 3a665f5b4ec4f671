//! The embedder-facing state of the game runner.
//!
//! The runner itself enters foreign code and stays outside the library;
//! what is held here is the damage callback the embedder registers before
//! the run, generic over whatever callable the embedder supplies.

use vstd::prelude::*;

verus! {

/// The game runner's configuration: an optional damage callback of the
/// embedder's choosing, handed over to the runner when the game starts.
pub struct Doom<F> {
    damage_callback: Option<F>,
}

impl<F> Doom<F> {
    /// The callback registered so far.
    pub closed spec fn spec_callback(&self) -> Option<F> {
        self.damage_callback
    }

    /// A runner configuration with no callback registered.
    pub fn new() -> (d: Doom<F>)
        ensures
            d.spec_callback() is None,
    {
        Doom { damage_callback: None }
    }

    /// Registers the damage callback, replacing any earlier one.
    pub fn set_damage_callback(&mut self, cb: F)
        ensures
            final(self).spec_callback() == Some(cb),
    {
        self.damage_callback = Some(cb);
    }

    /// Hands the registered callback to the runner.
    pub fn into_damage_callback(self) -> (r: Option<F>)
        ensures
            r == self.spec_callback(),
    {
        self.damage_callback
    }
}

} // verus!
