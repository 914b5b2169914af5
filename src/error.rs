//! The typed failures of decode and encode sessions.

use vstd::prelude::*;

verus! {

/// Why a decode failed.
#[derive(Clone, Copy, Debug, PartialEq, Eq, Structural)]
pub enum DecodeError {
    /// The stream has no JPEG XL signature, is truncated, or the engine
    /// could not parse it.
    InvalidInput,
    /// The requested channel count does not fit the source's channels.
    UnsupportedChannelCombination,
    /// A buffer is smaller than the size the layout calls for.
    BufferSizeMismatch,
    /// The engine failed with the given status code.
    EngineError(u32),
}

/// Why an encode, or a step of an encode session, failed.
#[derive(Clone, Copy, Debug, PartialEq, Eq, Structural)]
pub enum EncodeError {
    /// The frame's channel count does not fit the encoder's color and alpha
    /// settings.
    UnsupportedChannelCombination,
    /// A frame's sample buffer is smaller than its width, height and layout
    /// call for.
    BufferSizeMismatch,
    /// `encode` was called on a session with no frames.
    EmptyMultiFrameSession,
    /// Metadata of a kind already attached was added without overwrite.
    MetadataConflict,
    /// The engine failed with the given status code.
    EngineError(u32),
}

} // verus!
