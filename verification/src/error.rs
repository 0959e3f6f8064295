use vstd::prelude::*;

verus! {

/// The error taxonomy of the session manager.
///
/// "Queue empty" is deliberately absent: an empty channel is a normal,
/// frequent condition under a ~1 ms polling cadence. It is folded into a
/// heartbeat refresh and a "no update" result, never an error.
#[derive(Debug)]
pub enum LGError {
    /// A queue-primitive failure other than "queue empty", carrying a
    /// description of the underlying failure. These propagate unchanged to
    /// the immediate caller; this crate performs no retries.
    LGMPCommunicationError(String),
    /// The named shared-memory region could not be opened.
    SHMDeviceError(String),
    /// A participant failed while holding the shared queue-client lock.
    /// Losing this lock is unrecoverable for the connection, so it is a
    /// distinct kind rather than a generic fault.
    LGMPClientLockPoisonError,
    /// The host's registration metadata had the wrong size, the wrong magic,
    /// or spoke a different protocol version. Carries the version this
    /// client expects.
    KVMFRVersionMismatch(u32),
    /// A frame-channel message was shorter than the fixed frame structure.
    FrameChannelMessageTooSmall,
    /// A cursor-channel message was shorter than the fixed cursor structure.
    CursorChannelMessageTooSmall,
}

} // verus!
