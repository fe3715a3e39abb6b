//! A double-buffered grid simulation driven on a GPU: a model of bindable
//! resources and binding sets, the ping-pong state machine that picks source
//! and destination buffers by step parity, and the centred resize copy that
//! carries grid content across a change of dimensions.
//!
//! The library records the GPU work it decides on as operations; the host
//! program performs them on a device.
use vstd::prelude::*;

pub mod dimensions;
pub mod directions;
pub mod bindable;
pub mod gpu;
pub mod buffer_copy;
pub mod grid;
pub mod debug_buffer;
pub mod random;
pub mod life;
