//! The bundle model: an ordered sequence of wire messages sharing one
//! execution timestamp. Each message is an address plus arguments; the order
//! messages were appended in is the order the engine applies them, so it is
//! load-bearing and never reordered.
//!
//! Arguments carry only plain values. A 32-bit float argument travels as its
//! IEEE 754 bit pattern, converted to and from a float only at the boundary
//! where the bundle is encoded.

use vstd::prelude::*;

use crate::time::Time;

verus! {

/// A wire-message address of this protocol.
#[derive(Debug, Clone, Copy, PartialEq, Eq, Structural)]
pub enum Address {
    /// Create a group: `{id, target, relation}`.
    GroupNew,
    /// Recursively free a group's children: `{id}`.
    GroupFreeAll,
    /// Create a synth: `{name, id, target, relation, controls...}`.
    SynthNew,
    /// Let a created synth start producing audio: `{id}`.
    SynthActivate,
    /// Map a synth input port to a bus: `{synthId, index, busId, flags}`.
    SynthMapInput,
    /// Map a synth output port to a bus: `{synthId, index, busId, flags}`.
    SynthMapOutput,
    /// Set an indexed parameter of a node: `{id, index, value}`.
    NodeSet,
    /// Free a node: `{id}`.
    NodeFree,
    /// Arm an auto-action for a synth's completion: `{id, flags}`.
    SynthDoneFlagsSet,
}

impl Address {
    /// The address string written on the wire.
    pub open spec fn spec_str(self) -> Seq<char> {
        match self {
            Address::GroupNew => "/group/new"@,
            Address::GroupFreeAll => "/group/freeAll"@,
            Address::SynthNew => "/synth/new"@,
            Address::SynthActivate => "/synth/activate"@,
            Address::SynthMapInput => "/synth/map/input"@,
            Address::SynthMapOutput => "/synth/map/output"@,
            Address::NodeSet => "/node/set"@,
            Address::NodeFree => "/node/free"@,
            Address::SynthDoneFlagsSet => "/synth/property/doneFlags/set"@,
        }
    }

    /// The address string written on the wire.
    pub fn as_str(&self) -> (r: &'static str)
        ensures
            r@ == self.spec_str(),
    {
        match self {
            Address::GroupNew => "/group/new",
            Address::GroupFreeAll => "/group/freeAll",
            Address::SynthNew => "/synth/new",
            Address::SynthActivate => "/synth/activate",
            Address::SynthMapInput => "/synth/map/input",
            Address::SynthMapOutput => "/synth/map/output",
            Address::NodeSet => "/node/set",
            Address::NodeFree => "/node/free",
            Address::SynthDoneFlagsSet => "/synth/property/doneFlags/set",
        }
    }
}

/// One message argument.
#[derive(Debug, Clone, PartialEq, Eq)]
pub enum Arg {
    /// A signed 32-bit integer.
    Int(i32),
    /// A 32-bit float, carried as its IEEE 754 bit pattern.
    Float(u32),
    /// A string.
    Str(String),
}

/// The mathematical shape of an [`Arg`]: the string is a character sequence.
pub enum ArgV {
    /// A signed 32-bit integer.
    Int(i32),
    /// A 32-bit float's IEEE 754 bit pattern.
    Float(u32),
    /// A string.
    Str(Seq<char>),
}

impl View for Arg {
    type V = ArgV;

    open spec fn view(&self) -> ArgV {
        match self {
            Arg::Int(i) => ArgV::Int(*i),
            Arg::Float(b) => ArgV::Float(*b),
            Arg::Str(s) => ArgV::Str(s@),
        }
    }
}

/// One wire message: an address and its arguments.
#[derive(Debug, Clone, PartialEq, Eq)]
pub struct Message {
    /// Where the message is routed.
    pub addr: Address,
    /// The message's arguments, in wire order.
    pub args: Vec<Arg>,
}

/// The mathematical shape of a [`Message`].
pub struct MessageV {
    /// Where the message is routed.
    pub addr: Address,
    /// The message's arguments, in wire order.
    pub args: Seq<ArgV>,
}

impl View for Message {
    type V = MessageV;

    open spec fn view(&self) -> MessageV {
        MessageV { addr: self.addr, args: self.args@.map_values(|a: Arg| a@) }
    }
}

/// An ordered sequence of wire messages plus one timestamp.
#[derive(Debug, Clone, PartialEq, Eq)]
pub struct Bundle {
    /// When the engine applies every message of this bundle.
    pub time: Time,
    /// The messages, in the order they are to be executed.
    pub content: Vec<Message>,
}

/// The mathematical shape of a [`Bundle`].
pub struct BundleV {
    /// When the engine applies every message of this bundle.
    pub time: Time,
    /// The messages, in execution order.
    pub content: Seq<MessageV>,
}

impl View for Bundle {
    type V = BundleV;

    open spec fn view(&self) -> BundleV {
        BundleV { time: self.time, content: self.content@.map_values(|m: Message| m@) }
    }
}

/// Appending never disturbs order: every message already in a bundle keeps
/// its position, and the appended one comes last.
pub proof fn lemma_append_keeps_order(content: Seq<MessageV>, m: MessageV)
    ensures
        content.push(m).len() == content.len() + 1,
        forall|i: int| 0 <= i < content.len() ==> content.push(m)[i] == content[i],
        content.push(m)[content.len() as int] == m,
{
}

} // verus!
