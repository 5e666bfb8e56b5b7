//! The parsed system as the coordinator sees it.

use vstd::prelude::*;
use crate::diagram::names;

verus! {

/// A validated model of a hardware description together with the names of
/// the attributes it exposes for configuration. `model` is whatever the
/// parser produced and is never looked into here. A parsed system is never
/// changed, only replaced as a whole.
#[derive(Debug)]
pub struct ParsedSystem<S> {
    pub model: S,
    pub configurable: Vec<String>,
}

impl<S> ParsedSystem<S> {
    /// The attributes a configuration may name.
    pub open spec fn exposed(self) -> Set<Seq<char>> {
        names(self.configurable@).to_set()
    }

    /// The system `model`, which exposes the attributes named in `configurable`.
    pub fn new(model: S, configurable: Vec<String>) -> (system: ParsedSystem<S>)
        ensures
            system.model == model,
            system.configurable == configurable,
    {
        ParsedSystem { model, configurable }
    }
}

} // verus!
