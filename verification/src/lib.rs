//! A verified core for a texture-transcoding engine.
//!
//! The engine converts supercompressed texture bitstreams into GPU-native
//! block-compressed pixel formats. The byte-for-byte codec math lives in an
//! opaque compiled module owned by the host; this crate holds everything the
//! host-side shell must get right around that module: the engine lifecycle
//! (initialize exactly once, reject every other call until ready), the
//! container object with its explicit release discipline, the format catalog
//! with exact destination-size arithmetic, and the parameter validation for
//! direct slice transcoding.
//!
//! The sharing discipline is the per-execution-context instance: each
//! context owns its own [`engine::Engine`] value and initializes it once,
//! and nothing here is ever shared across contexts. An engine is only
//! borrowed, never passed by value, and containers are owned by the caller
//! that created them, each accessed by its single owner at a time.

pub mod container;
pub mod engine;
pub mod format;
pub mod slice;

use vstd::prelude::*;

verus! {

/// Errors reported by the engine and by container operations.
///
/// Every failure is an explicit result value; no operation panics.
#[derive(Clone, Copy, Debug, PartialEq, Eq, Structural)]
pub enum TranscodeError {
    /// An operation other than initialization was invoked before the engine
    /// reached the ready state.
    EngineNotReady,
    /// The underlying module rejected the initialization payload; the engine
    /// stays uninitialized and a retry with a corrected payload is permitted.
    EngineInitError,
    /// A second initialization attempt after the engine became ready. The
    /// policy here is a hard, explicit error: the live handle is never
    /// replaced.
    AlreadyInitialized,
    /// The container or decode-state setup was given a corrupt or unsupported
    /// bitstream; the caller discards the container.
    BitstreamRejected,
    /// An invalid combination of indices, formats, buffer sizes or other
    /// parameters for a transcode, or a transcode the module reported failed.
    TranscodeFailed,
    /// A per-image query or transcode was requested before the container's
    /// decode state was prepared successfully; a usage error, not a codec
    /// error.
    TranscodingNotStarted,
    /// Any call on a container after its release; detected and reported, never
    /// silently ignored.
    UseAfterRelease,
}

} // verus!
