//! A deliberately simple leader election: the node with identifier 1 leads.
use vstd::prelude::*;

verus! {

/// Leadership state of this node among a fixed set of peers.
pub struct SimpleConsensus {
    node_id: usize,
    nodes: Vec<String>,
    is_leader: bool,
    term: u64,
}

impl SimpleConsensus {
    /// This node's identifier.
    pub closed spec fn node(&self) -> usize {
        self.node_id
    }

    /// The addresses of the nodes taking part.
    pub closed spec fn members(&self) -> Seq<String> {
        self.nodes@
    }

    /// Whether this node currently considers itself the leader.
    pub closed spec fn leader(&self) -> bool {
        self.is_leader
    }

    /// The election term.
    pub closed spec fn current_term(&self) -> u64 {
        self.term
    }

    /// A node in its first term; node 1 starts as leader, every other node
    /// does not.
    pub fn new(node_id: usize, nodes: Vec<String>) -> (c: Self)
        ensures
            c.node() == node_id,
            c.members() == nodes@,
            c.leader() == (node_id == 1),
            c.current_term() == 1,
    {
        let is_leader = node_id == 1;
        SimpleConsensus { node_id, nodes, is_leader, term: 1 }
    }

    /// Proposes `node_id` as leader; this node leads afterwards exactly when
    /// the proposal names it. Answers whether this node now leads; never
    /// fails.
    pub fn propose_leader(&mut self, node_id: usize) -> (r: Result<bool, String>)
        ensures
            final(self).leader() == (old(self).node() == node_id),
            r == Ok::<bool, String>(final(self).leader()),
            final(self).node() == old(self).node(),
            final(self).members() == old(self).members(),
            final(self).current_term() == old(self).current_term(),
    {
        self.is_leader = self.node_id == node_id;
        Ok(self.is_leader)
    }

    /// Whether this node currently considers itself the leader.
    pub fn is_leader(&self) -> (r: bool)
        ensures
            r == self.leader(),
    {
        self.is_leader
    }

    /// The leader's periodic heartbeat: changes nothing and never fails.
    pub fn heartbeat(&mut self) -> (r: Result<(), String>)
        ensures
            r is Ok,
            final(self).node() == old(self).node(),
            final(self).members() == old(self).members(),
            final(self).leader() == old(self).leader(),
            final(self).current_term() == old(self).current_term(),
    {
        Ok(())
    }
}

} // verus!
