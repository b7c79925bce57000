//! Audio cues that a tick asks the presentation layer to play.
use vstd::prelude::*;

verus! {

#[derive(Clone, Copy, Debug, PartialEq, Eq, Structural)]
pub enum Sound {
    /// A bullet was fired.
    Shot,
    /// An obstacle hit the aircraft.
    Injured,
    /// A bullet destroyed an obstacle.
    Explosion,
}

} // verus!
