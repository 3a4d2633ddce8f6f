//! Byte-pipe plumbing for talking to a peer over Unix named pipes: the
//! decisions behind the retrying reader and writer, a channel that wakes a
//! `mio` poll, and the ready-event queue of a small run loop.

pub mod errors;
pub mod write;
pub mod read;
pub mod open;
pub mod token_heap;
pub mod runloop;
pub mod mio_chan;
pub mod rpc;
