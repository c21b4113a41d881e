//! Multiplexed consumption of kernel ring-buffer channels.
//!
//! The library keeps the bookkeeping of a ring-buffer multiplexer: the
//! registration of channels and their handlers, the order of the foreign
//! operations that assemble the merged polling object, the ownership of the
//! handler cells, the conversion of poll timeouts and the mapping of
//! foreign return codes. The foreign calls themselves are made by the caller,
//! which reports their outcome back.

pub mod error;
pub mod laws;
pub mod map;
pub mod ringbuf;

pub use error::{parse_ret, Error, EINTR};
pub use map::{BpfMap, MapType};
pub use ringbuf::{
    poll_timeout_ms, BuildAction, BuildEvent, RingBuffer, RingBufferBuild, RingBufferBuilder,
    RingBufferCallback, MAX_SUBSEC_NANOS,
};
