use vstd::prelude::*;

verus! {

/// Every failure that the session, routing and track-control layers report.
#[derive(Clone, Copy, Debug, PartialEq, Eq, Structural)]
pub enum VoiceError {
    /// A shard count of zero (or one that does not fit the gateway's range).
    ConfigurationError,
    /// No shard endpoint is registered for the computed shard index.
    RoutingError,
    /// The outbound signaling channel is closed.
    BridgeUnavailable,
    /// A handshake message carried the identifier of another guild.
    ProtocolMismatch,
    /// The handshake did not complete before its deadline.
    HandshakeTimeout,
    /// A play/pause request on a track that already reached a terminal mode.
    InvalidTransition,
    /// A volume above the hard ceiling.
    OutOfRange,
    /// A seek on a source that cannot seek.
    SeekUnsupported,
    /// A seek beyond the known duration of the source.
    InvalidPosition,
    /// An in-flight wait was ended by an explicit disconnect.
    Cancelled,
    /// An identifier that is not a non-zero decimal 64-bit integer.
    InvalidId,
}

} // verus!
