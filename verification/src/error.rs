//! The ways in which one entry of the host's configuration is in error.
use vstd::prelude::*;

verus! {

/// What is wrong with one bridge, one pot, or one run of the jail-listing
/// tool. An error concerns its entry alone; the other entries are read on.
#[derive(Clone, Copy, Debug, PartialEq, Eq, Structural)]
pub enum PotError {
    /// A bridge definition lacks a field, holds a network or a gateway that
    /// cannot be read, or has its gateway outside its network.
    BridgeConfError,
    /// The jail-listing tool could not be run.
    JlsError,
    /// A pot's configuration gives a key that holds an address a value that
    /// is no address.
    PotConfError,
}

} // verus!
