//! Events on the single ordered channel between the sampler and the main
//! loop.  A key press and a timer tick travel as one tagged union so that
//! their relative order is preserved exactly as produced.

use vstd::prelude::*;

verus! {

/// A key as the dashboard understands it.  Every key the terminal can
/// report is one of these; keys the dashboard does not react to arrive as
/// `Other` and are absorbed by the transition function.
#[derive(Clone, Copy, Debug, PartialEq, Eq, Structural)]
pub enum Key {
    /// A printable character key.
    Char(char),
    /// The up arrow.
    Up,
    /// The down arrow.
    Down,
    /// Any other key.
    Other,
}

/// One message on the channel: either a key press or a timer tick.
/// Produced by the sampler, consumed exactly once by the main loop.
#[derive(Clone, Copy, Debug, PartialEq, Eq, Structural)]
pub enum Event {
    /// The user pressed a key.
    Input(Key),
    /// The tick interval elapsed with no input; forces a redraw.
    Tick,
}

} // verus!
