//! The bundle builder: accumulates time-tagged graph-mutation commands,
//! driving the two identifier pools and appending one wire message per
//! operation, in call order.
//!
//! A builder holds both of the engine's allocators for its whole
//! construction window, so no second builder can race it on the same ids.
//!
//! One hazard is deliberate and documented rather than fixed: `free` reclaims
//! an id on the control side as soon as the free message is appended, while
//! the engine retires the node only when the bundle reaches it. A caller must
//! not reuse an id for a new node until one full bundle round-trip after
//! freeing it.

use vstd::prelude::*;

use crate::allocator::{is_full, is_lowest_free, Allocator};
use crate::bundle::{Address, Arg, ArgV, Bundle, Message, MessageV};
use crate::error::Error;
use crate::graph::{Group, Node, Synth, AudioBus};
use crate::placement::NodePlacement;
use crate::time::Time;

verus! {

/// The create-group message `{id, target, relation}`.
pub open spec fn group_new_msg(id: i32, target: i32, relation: i32) -> MessageV {
    MessageV {
        addr: Address::GroupNew,
        args: seq![ArgV::Int(id), ArgV::Int(target), ArgV::Int(relation)],
    }
}

/// The recursive-free message `{groupId}`.
pub open spec fn group_free_all_msg(id: i32) -> MessageV {
    MessageV { addr: Address::GroupFreeAll, args: seq![ArgV::Int(id)] }
}

/// The create-synth message `{name, id, target, relation, controls...}`,
/// each control a 32-bit float given by its bit pattern.
pub open spec fn synth_new_msg(
    name: Seq<char>,
    id: i32,
    target: i32,
    relation: i32,
    controls: Seq<u32>,
) -> MessageV {
    MessageV {
        addr: Address::SynthNew,
        args: seq![ArgV::Str(name), ArgV::Int(id), ArgV::Int(target), ArgV::Int(relation)]
            + controls.map_values(|c: u32| ArgV::Float(c)),
    }
}

/// The activate message `{id}`.
pub open spec fn synth_activate_msg(id: i32) -> MessageV {
    MessageV { addr: Address::SynthActivate, args: seq![ArgV::Int(id)] }
}

/// A port-mapping message `{synthId, portIndex, busId, flags}` on the given
/// address (input or output side).
pub open spec fn map_msg(
    addr: Address,
    synth_id: i32,
    index: i32,
    bus_id: i32,
    flags: i32,
) -> MessageV {
    MessageV {
        addr,
        args: seq![ArgV::Int(synth_id), ArgV::Int(index), ArgV::Int(bus_id), ArgV::Int(flags)],
    }
}

/// The parameter-set message `{nodeId, index, floatValue}`, the value a
/// 32-bit float given by its bit pattern.
pub open spec fn node_set_msg(id: i32, index: i32, value: u32) -> MessageV {
    MessageV { addr: Address::NodeSet, args: seq![ArgV::Int(id), ArgV::Int(index), ArgV::Float(value)] }
}

/// The free message `{nodeId}`.
pub open spec fn node_free_msg(id: i32) -> MessageV {
    MessageV { addr: Address::NodeFree, args: seq![ArgV::Int(id)] }
}

/// The auto-action arming message `{id, flags}`.
pub open spec fn done_flags_msg(id: i32, flags: i32) -> MessageV {
    MessageV { addr: Address::SynthDoneFlagsSet, args: seq![ArgV::Int(id), ArgV::Int(flags)] }
}

/// A bundle under construction, holding both identifier pools exclusively
/// for its construction window.
pub struct Request {
    /// The node-id pool, shared by groups and synths.
    pub node_id_allocator: Allocator,
    /// The audio-bus-id pool.
    pub audio_bus_id_allocator: Allocator,
    /// The time-tagged bundle accumulated so far.
    pub bundle: Bundle,
}

/// The mathematical shape of a [`Request`]: both pools' bits, the timestamp,
/// and the messages accumulated so far.
pub struct RequestV {
    /// The node-id pool: `true` exactly at allocated ids.
    pub node_bits: Seq<bool>,
    /// The audio-bus-id pool: `true` exactly at allocated ids.
    pub bus_bits: Seq<bool>,
    /// The bundle's timestamp.
    pub time: Time,
    /// The messages accumulated so far, in call order.
    pub content: Seq<MessageV>,
}

impl View for Request {
    type V = RequestV;

    open spec fn view(&self) -> RequestV {
        RequestV {
            node_bits: self.node_id_allocator@,
            bus_bits: self.audio_bus_id_allocator@,
            time: self.bundle.time,
            content: self.bundle@.content,
        }
    }
}

impl Request {
    /// Both pools can still hand out ids that fit the wire's signed 32 bits.
    pub open spec fn wf(&self) -> bool {
        self.node_id_allocator.wf() && self.audio_bus_id_allocator.wf()
    }

    /// Open an empty bundle tagged with `time`, taking exclusive hold of the
    /// two identifier pools for the construction window.
    pub fn at(time: Time, node_id_allocator: Allocator, audio_bus_id_allocator: Allocator) -> (r:
        Request)
        ensures
            r@.node_bits == node_id_allocator@,
            r@.bus_bits == audio_bus_id_allocator@,
            r@.time == time,
            r@.content == Seq::<MessageV>::empty(),
    {
        let r = Request {
            node_id_allocator,
            audio_bus_id_allocator,
            bundle: Bundle { time, content: Vec::new() },
        };
        proof {
            assert(r@.content =~= Seq::<MessageV>::empty());
        }
        r
    }

    /// Close the construction window: hand back the finished bundle and the
    /// two pools.
    pub fn into_parts(self) -> (r: (Bundle, Allocator, Allocator))
        ensures
            r.0@.time == self@.time,
            r.0@.content == self@.content,
            r.1@ == self@.node_bits,
            r.2@ == self@.bus_bits,
    {
        (self.bundle, self.node_id_allocator, self.audio_bus_id_allocator)
    }

    /// Append one message at the end of the bundle; nothing else moves.
    fn add_msg(&mut self, message: Message)
        ensures
            final(self).node_id_allocator == old(self).node_id_allocator,
            final(self).audio_bus_id_allocator == old(self).audio_bus_id_allocator,
            final(self).bundle.time == old(self).bundle.time,
            final(self)@.content == old(self)@.content.push(message@),
    {
        let ghost pre = self.bundle.content@;
        self.bundle.content.push(message);
        proof {
            assert(self@.content =~= pre.map_values(|m: Message| m@).push(message@));
        }
    }

    /// Allocate a node id and append the create-group message. When the node
    /// pool is exhausted, fail with [`Error::ResourceExhausted`] and change
    /// nothing.
    pub fn group(&mut self, node_placement: &NodePlacement) -> (r: Result<Group, Error>)
        requires
            old(self).wf(),
        ensures
            final(self).wf(),
            final(self)@.bus_bits == old(self)@.bus_bits,
            final(self)@.time == old(self)@.time,
            final(self)@.node_bits.len() == old(self)@.node_bits.len(),
            r is Err <==> is_full(old(self)@.node_bits),
            match r {
                Ok(g) => {
                    &&& is_lowest_free(old(self)@.node_bits, g.0 as int)
                    &&& final(self)@.node_bits == old(self)@.node_bits.update(g.0 as int, true)
                    &&& final(self)@.content == old(self)@.content.push(
                        group_new_msg(
                            g.0,
                            node_placement.target.0,
                            node_placement.placement.spec_code(),
                        ),
                    )
                },
                Err(e) => {
                    &&& e == Error::ResourceExhausted
                    &&& final(self)@.node_bits == old(self)@.node_bits
                    &&& final(self)@.content == old(self)@.content
                },
            },
    {
        let id = match self.node_id_allocator.allocate() {
            Ok(id) => id,
            Err(e) => {
                return Err(e);
            },
        };
        let mut args: Vec<Arg> = Vec::new();
        args.push(Arg::Int(id));
        args.push(Arg::Int(node_placement.target.0));
        args.push(Arg::Int(node_placement.placement.code()));
        let message = Message { addr: Address::GroupNew, args };
        proof {
            assert(message@.args =~= group_new_msg(
                id,
                node_placement.target.0,
                node_placement.placement.spec_code(),
            ).args);
        }
        self.add_msg(message);
        Ok(Group::from_i32(id))
    }

    /// Append the recursive-free message for `group`. The children's ids are
    /// not known to this side, so none is reclaimed locally: a caller that
    /// wants them back must track and free each child itself.
    pub fn free_all(&mut self, group: &Group)
        ensures
            final(self)@.node_bits == old(self)@.node_bits,
            final(self)@.bus_bits == old(self)@.bus_bits,
            final(self)@.time == old(self)@.time,
            final(self)@.content == old(self)@.content.push(group_free_all_msg(group.0)),
    {
        let mut args: Vec<Arg> = Vec::new();
        args.push(Arg::Int(group.node_id().0));
        let message = Message { addr: Address::GroupFreeAll, args };
        proof {
            assert(message@.args =~= group_free_all_msg(group.0).args);
        }
        self.add_msg(message);
    }

    /// Allocate a node id and append the create-synth message carrying
    /// `synthdef`, the placement, and the controls (32-bit floats given by
    /// their bit patterns).
    ///
    /// Array-valued options are not serializable by the wire encoder, so a
    /// `Some` is rejected explicitly with [`Error::Unsupported`] rather than
    /// silently dropped; when the node pool is exhausted the call fails with
    /// [`Error::ResourceExhausted`]. Either failure changes nothing.
    pub fn synth(
        &mut self,
        synthdef: &str,
        node_placement: &NodePlacement,
        controls: &Vec<u32>,
        options: Option<Vec<Arg>>,
    ) -> (r: Result<Synth, Error>)
        requires
            old(self).wf(),
        ensures
            final(self).wf(),
            final(self)@.bus_bits == old(self)@.bus_bits,
            final(self)@.time == old(self)@.time,
            final(self)@.node_bits.len() == old(self)@.node_bits.len(),
            r is Ok <==> (options is None && !is_full(old(self)@.node_bits)),
            match r {
                Ok(s) => {
                    &&& is_lowest_free(old(self)@.node_bits, s.0 as int)
                    &&& final(self)@.node_bits == old(self)@.node_bits.update(s.0 as int, true)
                    &&& final(self)@.content == old(self)@.content.push(
                        synth_new_msg(
                            synthdef@,
                            s.0,
                            node_placement.target.0,
                            node_placement.placement.spec_code(),
                            controls@,
                        ),
                    )
                },
                Err(e) => {
                    &&& final(self)@.node_bits == old(self)@.node_bits
                    &&& final(self)@.content == old(self)@.content
                    &&& (options is Some ==> e == Error::Unsupported)
                    &&& (options is None ==> e == Error::ResourceExhausted && is_full(
                        old(self)@.node_bits,
                    ))
                },
            },
    {
        match options {
            Some(_) => {
                return Err(Error::Unsupported);
            },
            None => {},
        }
        let id = match self.node_id_allocator.allocate() {
            Ok(id) => id,
            Err(e) => {
                return Err(e);
            },
        };
        let mut args: Vec<Arg> = Vec::new();
        args.push(Arg::Str(String::from_str(synthdef)));
        args.push(Arg::Int(id));
        args.push(Arg::Int(node_placement.target.0));
        args.push(Arg::Int(node_placement.placement.code()));
        let ghost head = seq![
            ArgV::Str(synthdef@),
            ArgV::Int(id),
            ArgV::Int(node_placement.target.0),
            ArgV::Int(node_placement.placement.spec_code()),
        ];
        proof {
            assert(args@.map_values(|a: Arg| a@) =~= head);
        }
        let mut k: usize = 0;
        while k < controls.len()
            invariant
                k <= controls.len(),
                args@.map_values(|a: Arg| a@) == head + controls@.subrange(
                    0,
                    k as int,
                ).map_values(|c: u32| ArgV::Float(c)),
            decreases controls.len() - k,
        {
            let ghost pre = args@;
            args.push(Arg::Float(controls[k]));
            proof {
                assert(controls@.subrange(0, k + 1 as int) =~= controls@.subrange(
                    0,
                    k as int,
                ).push(controls@[k as int]));
                assert(args@.map_values(|a: Arg| a@) =~= pre.map_values(|a: Arg| a@).push(
                    ArgV::Float(controls@[k as int]),
                ));
                assert(controls@.subrange(0, k + 1 as int).map_values(|c: u32| ArgV::Float(c))
                    =~= controls@.subrange(0, k as int).map_values(|c: u32| ArgV::Float(c)).push(
                    ArgV::Float(controls@[k as int]),
                ));
                assert(args@.map_values(|a: Arg| a@) =~= head + controls@.subrange(
                    0,
                    k + 1 as int,
                ).map_values(|c: u32| ArgV::Float(c)));
            }
            k += 1;
        }
        let message = Message { addr: Address::SynthNew, args };
        proof {
            assert(controls@.subrange(0, controls@.len() as int) =~= controls@);
            assert(message@.args =~= synth_new_msg(
                synthdef@,
                id,
                node_placement.target.0,
                node_placement.placement.spec_code(),
                controls@,
            ).args);
        }
        self.add_msg(message);
        Ok(Synth::from_i32(id))
    }

    /// Append the activate message for `synth`; synths are created inactive
    /// so that batched creation and wiring completes before audio flows.
    pub fn activate(&mut self, synth: &Synth)
        ensures
            final(self)@.node_bits == old(self)@.node_bits,
            final(self)@.bus_bits == old(self)@.bus_bits,
            final(self)@.time == old(self)@.time,
            final(self)@.content == old(self)@.content.push(synth_activate_msg(synth.0)),
    {
        let mut args: Vec<Arg> = Vec::new();
        args.push(Arg::Int(synth.node_id().0));
        let message = Message { addr: Address::SynthActivate, args };
        proof {
            assert(message@.args =~= synth_activate_msg(synth.0).args);
        }
        self.add_msg(message);
    }

    /// Append the message mapping the synth's input port `index` to `bus`;
    /// `flags` controls replace-versus-accumulate semantics.
    pub fn map_input(&mut self, synth: &Synth, index: usize, bus: &AudioBus, flags: u32)
        requires
            index <= 0x7FFF_FFFF,
            flags <= 0x7FFF_FFFF,
        ensures
            final(self)@.node_bits == old(self)@.node_bits,
            final(self)@.bus_bits == old(self)@.bus_bits,
            final(self)@.time == old(self)@.time,
            final(self)@.content == old(self)@.content.push(
                map_msg(Address::SynthMapInput, synth.0, index as i32, bus.0, flags as i32),
            ),
    {
        let mut args: Vec<Arg> = Vec::new();
        args.push(Arg::Int(synth.node_id().0));
        args.push(Arg::Int(index as i32));
        args.push(Arg::Int(bus.bus_id()));
        args.push(Arg::Int(flags as i32));
        let message = Message { addr: Address::SynthMapInput, args };
        proof {
            assert(message@.args =~= map_msg(
                Address::SynthMapInput,
                synth.0,
                index as i32,
                bus.0,
                flags as i32,
            ).args);
        }
        self.add_msg(message);
    }

    /// Append the message mapping the synth's output port `index` to `bus`;
    /// `flags` controls replace-versus-accumulate semantics.
    pub fn map_output(&mut self, synth: &Synth, index: usize, bus: &AudioBus, flags: u32)
        requires
            index <= 0x7FFF_FFFF,
            flags <= 0x7FFF_FFFF,
        ensures
            final(self)@.node_bits == old(self)@.node_bits,
            final(self)@.bus_bits == old(self)@.bus_bits,
            final(self)@.time == old(self)@.time,
            final(self)@.content == old(self)@.content.push(
                map_msg(Address::SynthMapOutput, synth.0, index as i32, bus.0, flags as i32),
            ),
    {
        let mut args: Vec<Arg> = Vec::new();
        args.push(Arg::Int(synth.node_id().0));
        args.push(Arg::Int(index as i32));
        args.push(Arg::Int(bus.bus_id()));
        args.push(Arg::Int(flags as i32));
        let message = Message { addr: Address::SynthMapOutput, args };
        proof {
            assert(message@.args =~= map_msg(
                Address::SynthMapOutput,
                synth.0,
                index as i32,
                bus.0,
                flags as i32,
            ).args);
        }
        self.add_msg(message);
    }

    /// Append the parameter-set message writing `value` (a 32-bit float
    /// given by its bit pattern) to the node's control `index`.
    pub fn set<N: Node>(&mut self, node: &N, index: usize, value: u32)
        requires
            index <= 0x7FFF_FFFF,
        ensures
            final(self)@.node_bits == old(self)@.node_bits,
            final(self)@.bus_bits == old(self)@.bus_bits,
            final(self)@.time == old(self)@.time,
            final(self)@.content == old(self)@.content.push(
                node_set_msg(node.spec_id(), index as i32, value),
            ),
    {
        let mut args: Vec<Arg> = Vec::new();
        args.push(Arg::Int(node.node_id().0));
        args.push(Arg::Int(index as i32));
        args.push(Arg::Float(value));
        let message = Message { addr: Address::NodeSet, args };
        proof {
            assert(message@.args =~= node_set_msg(node.spec_id(), index as i32, value).args);
        }
        self.add_msg(message);
    }

    /// Append the free message for `node` and immediately release its id in
    /// the local pool. The engine retires the node only when the bundle
    /// reaches it, so the id must not be re-bundled for a new node until one
    /// full round-trip later.
    pub fn free<N: Node>(&mut self, node: &N)
        ensures
            final(self)@.bus_bits == old(self)@.bus_bits,
            final(self)@.time == old(self)@.time,
            final(self)@.node_bits.len() == old(self)@.node_bits.len(),
            0 <= node.spec_id() < old(self)@.node_bits.len() ==> final(self)@.node_bits == old(
                self,
            )@.node_bits.update(node.spec_id() as int, false),
            !(0 <= node.spec_id() < old(self)@.node_bits.len()) ==> final(self)@.node_bits == old(
                self,
            )@.node_bits,
            final(self)@.content == old(self)@.content.push(node_free_msg(node.spec_id())),
    {
        let id = node.node_id().0;
        let mut args: Vec<Arg> = Vec::new();
        args.push(Arg::Int(id));
        let message = Message { addr: Address::NodeFree, args };
        proof {
            assert(message@.args =~= node_free_msg(node.spec_id()).args);
        }
        self.add_msg(message);
        self.node_id_allocator.free(id);
    }

    /// Append the message arming an auto-action (`flags`) for when `synth`
    /// signals logical completion.
    pub fn when_done(&mut self, synth: Synth, flags: u32)
        requires
            flags <= 0x7FFF_FFFF,
        ensures
            final(self)@.node_bits == old(self)@.node_bits,
            final(self)@.bus_bits == old(self)@.bus_bits,
            final(self)@.time == old(self)@.time,
            final(self)@.content == old(self)@.content.push(
                done_flags_msg(synth.0, flags as i32),
            ),
    {
        let mut args: Vec<Arg> = Vec::new();
        args.push(Arg::Int(synth.node_id().0));
        args.push(Arg::Int(flags as i32));
        let message = Message { addr: Address::SynthDoneFlagsSet, args };
        proof {
            assert(message@.args =~= done_flags_msg(synth.0, flags as i32).args);
        }
        self.add_msg(message);
    }
}

} // verus!
