use vstd::prelude::*;

verus! {

/// Transport failure reported by the radio driver.
#[derive(Clone, Copy, Debug, PartialEq, Eq, Structural)]
pub enum Error {
    Transmit,
    Receive,
}

/// The physical radio.  The state machine hands it fully framed bytes to put
/// on air; received frames reach the state machine as events, so the trait
/// only covers transmission.  Implementations are supplied by the user of the
/// library and nothing is assumed of their results.
pub trait PhyRxTx {
    fn transmit(&mut self, buffer: &[u8]) -> Result<(), Error>;
}

} // verus!
