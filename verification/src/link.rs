//! What the host tells the bridge: its own identity, and the links that are
//! put to it.
use vstd::prelude::*;

verus! {

/// The part of the host's start-up data that the bridge reads.
#[derive(Debug, PartialEq, Eq)]
pub struct HostData {
    /// The public key under which the host knows this bridge.
    pub provider_key: String,
}

/// A configured relationship between the bridge and one actor.
#[derive(Debug, PartialEq, Eq, Hash)]
pub struct LinkDefinition {
    /// The actor at the far end of the link.
    pub actor_id: String,
    /// The bridge's own identifier.
    pub provider_id: String,
    pub link_name: String,
    pub contract_id: String,
}

/// Mathematical value of a [`LinkDefinition`].
pub struct LinkDefinitionView {
    pub actor_id: Seq<char>,
    pub provider_id: Seq<char>,
    pub link_name: Seq<char>,
    pub contract_id: Seq<char>,
}

impl View for LinkDefinition {
    type V = LinkDefinitionView;

    open spec fn view(&self) -> LinkDefinitionView {
        LinkDefinitionView {
            actor_id: self.actor_id@,
            provider_id: self.provider_id@,
            link_name: self.link_name@,
            contract_id: self.contract_id@,
        }
    }
}

impl Clone for LinkDefinition {
    fn clone(&self) -> (copy: Self)
        ensures
            copy@ == self@,
    {
        LinkDefinition {
            actor_id: self.actor_id.clone(),
            provider_id: self.provider_id.clone(),
            link_name: self.link_name.clone(),
            contract_id: self.contract_id.clone(),
        }
    }
}

} // verus!
