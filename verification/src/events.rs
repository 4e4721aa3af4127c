//! Musical events, and the interface of anything that produces a sequence of
//! them.

use vstd::prelude::*;
use crate::theory::{Duration, Dynamic, Note};

verus! {

/// One step of a melody.
#[derive(Debug, Clone, PartialEq)]
pub enum Event {
    /// A note with its duration and its dynamic.
    Note(Note, Duration, Dynamic),
    /// A silence with its duration.
    Rest(Duration),
}

/// Something that produces a sequence of musical events.
pub trait Generator {
    /// The events, in the order in which they are to be played.
    fn generate(&self) -> Vec<Event>;
}

} // verus!
