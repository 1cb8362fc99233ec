//! The notice that a subgraph is about to be upgraded.

use vstd::prelude::*;

verus! {

/// Tells indexers that a subgraph will move to a new deployment.
#[derive(Debug, Clone, PartialEq, Eq)]
pub struct UpgradeIntentMessage {
    /// subgraph id shared by both versions of the subgraph deployment
    pub subgraph_id: String,
    /// new version of the subgraph has a new deployment hash
    pub new_hash: String,
    /// nonce cached to check against the next incoming message
    pub nonce: i64,
    /// Graph account sender - expect the sender to be subgraph owner
    pub graph_account: String,
}

/// An [`UpgradeIntentMessage`] with its texts as sequences of characters.
pub struct UpgradeIntentMessageView {
    pub subgraph_id: Seq<char>,
    pub new_hash: Seq<char>,
    pub nonce: i64,
    pub graph_account: Seq<char>,
}

impl View for UpgradeIntentMessage {
    type V = UpgradeIntentMessageView;

    open spec fn view(&self) -> UpgradeIntentMessageView {
        UpgradeIntentMessageView {
            subgraph_id: self.subgraph_id@,
            new_hash: self.new_hash@,
            nonce: self.nonce,
            graph_account: self.graph_account@,
        }
    }
}

impl UpgradeIntentMessage {
    /// A message with exactly the given fields.
    pub fn new(subgraph_id: String, new_hash: String, nonce: i64, graph_account: String) -> (m:
        Self)
        ensures
            m == (UpgradeIntentMessage { subgraph_id, new_hash, nonce, graph_account }),
    {
        UpgradeIntentMessage { subgraph_id, new_hash, nonce, graph_account }
    }

    /// A message issued at `timestamp`, which becomes its nonce.
    pub fn build(subgraph_id: String, new_hash: String, timestamp: i64, graph_account: String) -> (m:
        Self)
        ensures
            m == (UpgradeIntentMessage {
                subgraph_id,
                new_hash,
                nonce: timestamp,
                graph_account,
            }),
    {
        UpgradeIntentMessage::new(subgraph_id, new_hash, timestamp, graph_account)
    }
}

} // verus!
