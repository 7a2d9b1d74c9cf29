//! Graph identity: opaque node and bus identifiers, and the "is a graph
//! node" capability shared by groups and synths.
//!
//! Groups and synths draw from one node-id namespace; audio buses live in a
//! separate namespace and are not nodes.

use vstd::prelude::*;

verus! {

/// An identifier in the node namespace.
#[derive(Debug, Clone, Copy, PartialEq, Eq, Structural)]
pub struct NodeId(pub i32);

/// Something that exposes a node identifier.
pub trait Node {
    /// The identifier this node carries, as contracts see it.
    spec fn spec_id(&self) -> i32;

    /// The identifier this node carries.
    fn node_id(&self) -> (r: NodeId)
        ensures
            r.0 == self.spec_id(),
    ;
}

/// A container node with ordered children in the engine's graph.
#[derive(Debug, Clone, Copy, PartialEq, Eq, Structural)]
pub struct Group(pub i32);

impl Group {
    /// Wrap a raw node id known to denote a group.
    pub fn from_i32(id: i32) -> (r: Self)
        ensures
            r.0 == id,
    {
        Group(id)
    }
}

impl Node for Group {
    open spec fn spec_id(&self) -> i32 {
        self.0
    }

    fn node_id(&self) -> (r: NodeId) {
        NodeId(self.0)
    }
}

/// A leaf signal-processing node with indexed controls and indexed ports.
#[derive(Debug, Clone, Copy, PartialEq, Eq, Structural)]
pub struct Synth(pub i32);

impl Synth {
    /// Wrap a raw node id known to denote a synth.
    pub fn from_i32(id: i32) -> (r: Self)
        ensures
            r.0 == id,
    {
        Synth(id)
    }
}

impl Node for Synth {
    open spec fn spec_id(&self) -> i32 {
        self.0
    }

    fn node_id(&self) -> (r: NodeId) {
        NodeId(self.0)
    }
}

/// An identifier in the audio-bus namespace, used to route signals between
/// synth ports. Not a node.
#[derive(Debug, Clone, Copy, PartialEq, Eq, Structural)]
pub struct AudioBus(pub i32);

impl AudioBus {
    /// Wrap a raw bus id.
    pub fn from_i32(id: i32) -> (r: Self)
        ensures
            r.0 == id,
    {
        AudioBus(id)
    }

    /// The raw bus id.
    pub fn bus_id(&self) -> (r: i32)
        ensures
            r == self.0,
    {
        self.0
    }
}

} // verus!
