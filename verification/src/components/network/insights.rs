//! Networking debug insights.
//!
//! The `insights` module exposes some internals of the networking component, mainly for inspection
//! through the diagnostics console. It should specifically not be used for any business logic and
//! affordances made in other corners of the `network` module to allow collecting these
//! insights should neither be abused just because they are available.

use crate::components::block_synchronizer::peer_list::NodeId;
use crate::identity::PublicKey;
use crate::primitives::EraId;
use vstd::prelude::*;

verus! {

/// What is read of the networking component.
#[derive(Clone, Debug, PartialEq, Eq)]
pub struct Network {
    pub our_id: NodeId,
    /// The certificate authority of the network, where the network is private.
    pub network_ca: Option<Vec<u8>>,
    pub public_addr: Option<String>,
    /// The public key of the node's key pair, where it has one.
    pub node_public_key: Option<PublicKey>,
    pub active_era: EraId,
}

/// A collection of insights into the active networking component.
#[derive(Clone, Debug, PartialEq, Eq)]
pub struct NetworkInsights {
    /// The nodes current ID.
    pub our_id: NodeId,
    /// Whether or not a network CA was present (is a private network).
    pub network_ca: bool,
    /// The public address of the node.
    pub public_addr: Option<String>,
    /// The fingerprint of a consensus key installed.
    pub consensus_public_key: Option<PublicKey>,
    /// The active era as seen by the networking component.
    pub net_active_era: EraId,
}

impl NetworkInsights {
    /// Collect networking insights from a given networking component.
    pub fn collect_from_component(net: &Network) -> (insights: NetworkInsights)
        ensures
            insights.our_id == net.our_id,
            insights.network_ca == (net.network_ca is Some),
            insights.public_addr == net.public_addr,
            insights.consensus_public_key == net.node_public_key,
            insights.net_active_era == net.active_era,
    {
        NetworkInsights {
            our_id: net.our_id,
            network_ca: net.network_ca.is_some(),
            public_addr: net.public_addr.clone(),
            consensus_public_key: net.node_public_key,
            net_active_era: net.active_era,
        }
    }
}

} // verus!
