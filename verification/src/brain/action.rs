//! What the service is to react to.
use vstd::prelude::*;

use crate::brain::action_client::ClientAction;
use crate::brain::action_p2p::NetworkNodeAction;

verus! {

#[derive(Debug)]
pub enum BrainAction {
    Client(ClientAction),
    NetworkNode(NetworkNodeAction),
}

} // verus!
