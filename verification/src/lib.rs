//! Control-side and render-side halves of a real-time audio stream.
//!
//! A control thread builds an audio processor and hands it, exactly once and
//! without blocking, to a render host that is driven by the platform's audio
//! callback. The two sides share a liveness flag and a fixed pool of
//! interleaved sample buffers.

use vstd::prelude::*;

pub mod backend;
pub mod bootstrap;
pub mod buffers;
pub mod handoff;
pub mod liveness;
pub mod render;

pub use backend::{
    ContextRequest, DeviceInfo, SampleRate, StreamInfo, TeardownPlan, WebAudioBackend,
    WebAudioConfig, WebAudioStartError, WebAudioStreamError,
};
pub use bootstrap::{Bootstrap, BootstrapPhase, BootstrapStep};
pub use buffers::BufferPool;
pub use handoff::{handoff, HandoffReceiver, HandoffSender, ReceiverGone};
pub use liveness::{LivenessFlag, LivenessObserver};
pub use render::RenderHost;

verus! {

/// Frames in one render block. The control side and the render side agree on
/// this value at compile time.
pub const BLOCK_FRAMES: usize = 128;

/// Input channels of a stream.
pub const INPUT_CHANNELS: usize = 0;

/// Output channels of a stream.
pub const OUTPUT_CHANNELS: usize = 2;

} // verus!
