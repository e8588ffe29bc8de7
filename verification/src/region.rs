use vstd::prelude::*;

verus! {

/// Data rate index within a regional channel plan.
pub type DR = usize;

/// Regional channel-plan parameters.  Channel selection mechanics are outside
/// this library; the state logic carries the configuration opaquely on behalf
/// of the radio layer.
#[derive(Clone, Copy)]
pub struct Configuration {}

impl Configuration {
    pub fn new() -> (r: Configuration)
    {
        Configuration {}
    }
}

} // verus!
