//! Identities of the parties that interact with the engine.

use vstd::prelude::*;

verus! {

/// An identity taking part in the protocol: a custodian, an agent, a payer
/// or a recipient.
///
/// The environment authenticates callers; the engine only consumes the
/// asserted identity and compares identities for equality. An identity is
/// therefore modelled as an opaque key value.
#[derive(Clone, Copy, Debug, PartialEq, Eq, Structural)]
pub struct Identity {
    pub key: u64,
}

impl Identity {
    /// Builds the identity with the given key value.
    pub fn new(key: u64) -> (r: Identity)
        ensures
            r == (Identity { key }),
    {
        Identity { key }
    }
}

} // verus!
