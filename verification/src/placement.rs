//! Placement: where a new node is inserted relative to an existing group or
//! node. Head and tail target a group; before and after target any node, and
//! the two must encode distinct relations on the wire.

use vstd::prelude::*;

use crate::graph::{Group, Node, NodeId};

verus! {

/// The relation half of a placement.
#[derive(Debug, Clone, Copy, PartialEq, Eq, Structural)]
pub enum Relation {
    /// Insert as the first child of the target group.
    HeadOfGroup,
    /// Insert as the last child of the target group.
    TailOfGroup,
    /// Insert immediately before the target node.
    BeforeNode,
    /// Insert immediately after the target node.
    AfterNode,
}

impl Relation {
    /// The integer this relation is written as in a wire message.
    pub open spec fn spec_code(self) -> i32 {
        match self {
            Relation::HeadOfGroup => 0,
            Relation::TailOfGroup => 1,
            Relation::BeforeNode => 2,
            Relation::AfterNode => 3,
        }
    }

    /// The integer this relation is written as in a wire message.
    pub fn code(&self) -> (r: i32)
        ensures
            r == self.spec_code(),
    {
        match self {
            Relation::HeadOfGroup => 0,
            Relation::TailOfGroup => 1,
            Relation::BeforeNode => 2,
            Relation::AfterNode => 3,
        }
    }
}

/// Target identifier plus relation: where a new node goes.
#[derive(Debug, Clone, Copy, PartialEq, Eq, Structural)]
pub struct NodePlacement {
    /// The existing node the relation is anchored to.
    pub target: NodeId,
    /// How the new node stands to the target.
    pub placement: Relation,
}

impl NodePlacement {
    /// First child of `group`.
    pub fn head(group: &Group) -> (r: Self)
        ensures
            r.target.0 == group.0,
            r.placement == Relation::HeadOfGroup,
    {
        NodePlacement { target: group.node_id(), placement: Relation::HeadOfGroup }
    }

    /// Last child of `group`.
    pub fn tail(group: &Group) -> (r: Self)
        ensures
            r.target.0 == group.0,
            r.placement == Relation::TailOfGroup,
    {
        NodePlacement { target: group.node_id(), placement: Relation::TailOfGroup }
    }

    /// Immediately before `node`.
    pub fn before<N: Node>(node: &N) -> (r: Self)
        ensures
            r.target.0 == node.spec_id(),
            r.placement == Relation::BeforeNode,
    {
        NodePlacement { target: node.node_id(), placement: Relation::BeforeNode }
    }

    /// Immediately after `node`. Distinct from [`Self::before`]: the two
    /// relations must never collapse into one wire value.
    pub fn after<N: Node>(node: &N) -> (r: Self)
        ensures
            r.target.0 == node.spec_id(),
            r.placement == Relation::AfterNode,
    {
        NodePlacement { target: node.node_id(), placement: Relation::AfterNode }
    }
}

/// For one anchor node, `before` and `after` yield placements whose relations
/// differ, and whose wire codes differ with them.
pub proof fn lemma_before_after_distinct()
    ensures
        Relation::BeforeNode != Relation::AfterNode,
        Relation::BeforeNode.spec_code() != Relation::AfterNode.spec_code(),
{
}

} // verus!
