//! What devices prove to each other that they were told.
use vstd::prelude::*;

use crate::crypto::copy_bytes;

verus! {

pub type ByteChallenge = Vec<u8>;

/// Whoever knows it may take over the identity of the node.
#[derive(Debug, PartialEq, Eq, Hash)]
pub struct SelfContactInviteChallenge(pub ByteChallenge);

impl View for SelfContactInviteChallenge {
    type V = Seq<u8>;

    open spec fn view(&self) -> Seq<u8> {
        self.0@
    }
}

impl Clone for SelfContactInviteChallenge {
    fn clone(&self) -> (r: Self)
        ensures
            r@ == self@,
    {
        SelfContactInviteChallenge(copy_bytes(&self.0))
    }
}

impl From<ByteChallenge> for SelfContactInviteChallenge {
    fn from(value: ByteChallenge) -> (r: Self) {
        SelfContactInviteChallenge(value)
    }
}

impl vstd::std_specs::convert::FromSpecImpl<ByteChallenge> for SelfContactInviteChallenge {
    open spec fn obeys_from_spec() -> bool {
        true
    }

    open spec fn from_spec(value: ByteChallenge) -> Self {
        SelfContactInviteChallenge(value)
    }
}

/// Whoever knows it may learn the contact of the node.
#[derive(Debug, PartialEq, Eq, Hash)]
pub struct ContactShareChallenge(pub ByteChallenge);

impl View for ContactShareChallenge {
    type V = Seq<u8>;

    open spec fn view(&self) -> Seq<u8> {
        self.0@
    }
}

impl Clone for ContactShareChallenge {
    fn clone(&self) -> (r: Self)
        ensures
            r@ == self@,
    {
        ContactShareChallenge(copy_bytes(&self.0))
    }
}

impl From<ByteChallenge> for ContactShareChallenge {
    fn from(value: ByteChallenge) -> (r: Self) {
        ContactShareChallenge(value)
    }
}

impl vstd::std_specs::convert::FromSpecImpl<ByteChallenge> for ContactShareChallenge {
    open spec fn obeys_from_spec() -> bool {
        true
    }

    open spec fn from_spec(value: ByteChallenge) -> Self {
        ContactShareChallenge(value)
    }
}

} // verus!
