//! Engine configuration: the immutable record an engine is opened with, and
//! the identifier pools sized from it.
//!
//! The two pools' capacities are derived from the configured maximum node
//! and bus counts, never from a fixed constant.

use vstd::prelude::*;

use crate::allocator::Allocator;

verus! {

/// Configuration for opening an engine; immutable once the engine is built.
#[derive(Debug, Clone, PartialEq, Eq)]
pub struct Options {
    /// Samples per second.
    pub sample_rate: usize,
    /// Frames per processing block.
    pub block_size: usize,
    /// Real-time memory budget, in bytes.
    pub realtime_memory_size: usize,
    /// Most nodes the engine may hold at once; sizes the node-id pool.
    pub max_num_nodes: usize,
    /// Most audio buses the engine may hold at once; sizes the bus-id pool.
    pub max_num_audio_buses: usize,
    /// Hardware input channel count.
    pub num_hardware_inputs: usize,
    /// Hardware output channel count.
    pub num_hardware_outputs: usize,
    /// Directories searched for plugins.
    pub plugin_directories: Vec<String>,
}

impl Options {
    /// The configured capacities can be served by pools of 32-bit ids.
    pub open spec fn wf(&self) -> bool {
        self.max_num_nodes <= 0x7FFF_FFFF && self.max_num_audio_buses <= 0x7FFF_FFFF
    }

    /// A fresh node-id pool with one free slot per configured node.
    pub fn node_id_allocator(&self) -> (r: Allocator)
        requires
            self.wf(),
        ensures
            r.wf(),
            r@.len() == self.max_num_nodes,
            forall|j: int| 0 <= j < self.max_num_nodes ==> !r@[j],
    {
        Allocator::with_capacity(self.max_num_nodes)
    }

    /// A fresh bus-id pool with one free slot per configured bus.
    pub fn audio_bus_id_allocator(&self) -> (r: Allocator)
        requires
            self.wf(),
        ensures
            r.wf(),
            r@.len() == self.max_num_audio_buses,
            forall|j: int| 0 <= j < self.max_num_audio_buses ==> !r@[j],
    {
        Allocator::with_capacity(self.max_num_audio_buses)
    }
}

impl Default for Options {
    /// CD-quality defaults with modest graph capacities and no plugin paths.
    fn default() -> (r: Self)
        ensures
            r.sample_rate == 44100,
            r.block_size == 512,
            r.realtime_memory_size == 1024 * 1024,
            r.max_num_nodes == 1024,
            r.max_num_audio_buses == 1024,
            r.num_hardware_inputs == 2,
            r.num_hardware_outputs == 2,
            r.plugin_directories@ == Seq::<String>::empty(),
            r.wf(),
    {
        Options {
            sample_rate: 44100,
            block_size: 512,
            realtime_memory_size: 1024 * 1024,
            max_num_nodes: 1024,
            max_num_audio_buses: 1024,
            num_hardware_inputs: 2,
            num_hardware_outputs: 2,
            plugin_directories: Vec::new(),
        }
    }
}

} // verus!
