//! Client-side command layer for a real-time sound-synthesis engine.
//!
//! The library allocates stable integer identifiers for graph nodes and audio
//! buses, and builds ordered, time-tagged bundles of graph-mutation commands
//! that a caller encodes and forwards to the engine's message intake.

pub mod allocator;
pub mod bundle;
pub mod config;
pub mod error;
pub mod graph;
pub mod placement;
pub mod request;
pub mod time;

pub use allocator::Allocator;
pub use bundle::{Address, Arg, Bundle, Message};
pub use config::Options;
pub use error::Error;
pub use graph::{AudioBus, Group, Node, NodeId, Synth};
pub use placement::{NodePlacement, Relation};
pub use request::Request;
pub use time::Time;
