use vstd::prelude::*;

use crate::error::LGError;
use crate::kvmfr::{validate_registration, header_valid, KVMFRFrameHandle, KVMFRCursorHandle, KVMFR_VERSION};

verus! {

/// Configuration handed in by the caller: the name of the shared-memory
/// object and the host-side liveness timeout, in milliseconds.
#[derive(Clone)]
pub struct LGMPOpts {
    pub shm_path: String,
    pub timeout_ms: u64,
}

/// Selector for the two channels a client subscribes to.
#[derive(Clone, Copy, Debug)]
pub enum KVMFRChans {
    Frame,
    Cursor,
}

/// The outcome of one call into the queue primitive, handed to this crate
/// by the surrounding driver. The primitive signals "queue empty" separately
/// from every other failure, and this type keeps that distinction.
pub enum ChannelResponse<T> {
    /// The call succeeded; for a pop, carries the popped message.
    Message(T),
    /// The primitive reported the queue empty. Never an error: it refreshes
    /// the channel's heartbeat.
    Empty,
    /// Any other failure of the primitive, described.
    Failure(String),
}

/// The fast-forward heuristic: a channel is due for a fast-forward when, by
/// the time the next tick is expected (`now + tick_period`), the projected
/// host-side deadline (`last_heartbeat + timeout`) would already have
/// passed. Firing before the deadline is missed means a single missed tick
/// does not by itself cause a host-side disconnect.
pub open spec fn should_fast_forward(
    now_ms: int,
    tick_period_ms: int,
    last_heartbeat_ms: int,
    timeout_ms: int,
) -> bool {
    now_ms + tick_period_ms > last_heartbeat_ms + timeout_ms
}

/// Executable form of the fast-forward decision.
pub fn tick_due(now_ms: u64, tick_period_ms: u64, last_heartbeat_ms: i128, timeout_ms: u64) -> (due:
    bool)
    requires
        -0x1_0000_0000_0000_0000 <= last_heartbeat_ms < 0x1_0000_0000_0000_0000,
    ensures
        due == should_fast_forward(
            now_ms as int,
            tick_period_ms as int,
            last_heartbeat_ms as int,
            timeout_ms as int,
        ),
{
    (now_ms as i128) + (tick_period_ms as i128) > last_heartbeat_ms + (timeout_ms as i128)
}

/// Per-channel subscription state of an initialised session: for each
/// channel, the time (in milliseconds on the driver's monotonic clock) at
/// which that channel was last observed empty or caught up — the heartbeat.
/// The channel subscription handles themselves are held by the surrounding
/// driver, which reports their outcomes as [`ChannelResponse`] events.
#[derive(Clone, Copy, Debug)]
pub struct LGMPSession {
    pub last_frame_heartbeat_ms: i128,
    pub last_cursor_heartbeat_ms: i128,
}

impl LGMPSession {
    /// Heartbeats stay in range: each is either `now - timeout` at session
    /// creation or a later `now`, with both operands 64-bit values.
    pub open spec fn wf(&self) -> bool {
        &&& -0x1_0000_0000_0000_0000 <= self.last_frame_heartbeat_ms < 0x1_0000_0000_0000_0000
        &&& -0x1_0000_0000_0000_0000 <= self.last_cursor_heartbeat_ms < 0x1_0000_0000_0000_0000
    }

    /// The heartbeat of the selected channel.
    pub open spec fn heartbeat_ms(&self, channel: KVMFRChans) -> int {
        match channel {
            KVMFRChans::Frame => self.last_frame_heartbeat_ms as int,
            KVMFRChans::Cursor => self.last_cursor_heartbeat_ms as int,
        }
    }

    /// Relates two session states where the selected channel's heartbeat was
    /// set to `t` and the other channel was left untouched.
    pub open spec fn heartbeat_refreshed(
        pre: LGMPSession,
        post: LGMPSession,
        channel: KVMFRChans,
        t: int,
    ) -> bool {
        match channel {
            KVMFRChans::Frame => post.last_frame_heartbeat_ms == t
                && post.last_cursor_heartbeat_ms == pre.last_cursor_heartbeat_ms,
            KVMFRChans::Cursor => post.last_cursor_heartbeat_ms == t
                && post.last_frame_heartbeat_ms == pre.last_frame_heartbeat_ms,
        }
    }

    /// A fresh session has both heartbeats at `now - timeout`: already
    /// overdue, so the very first tick is due for a fast-forward.
    pub fn new(now_ms: u64, timeout_ms: u64) -> (s: LGMPSession)
        ensures
            s.wf(),
            s.last_frame_heartbeat_ms == now_ms - timeout_ms,
            s.last_cursor_heartbeat_ms == now_ms - timeout_ms,
    {
        let hb: i128 = (now_ms as i128) - (timeout_ms as i128);
        LGMPSession { last_frame_heartbeat_ms: hb, last_cursor_heartbeat_ms: hb }
    }

    /// Applies the outcome of popping the next unread message on `channel`.
    /// A popped message passes through untouched; "queue empty" is not an
    /// error — it records `now_ms` as the channel's heartbeat and yields "no
    /// message"; any other failure propagates as a communication error.
    pub fn pop_ref<T>(&mut self, channel: KVMFRChans, now_ms: u64, resp: ChannelResponse<T>) -> (r:
        Result<Option<T>, LGError>)
        requires
            old(self).wf(),
        ensures
            final(self).wf(),
            match resp {
                ChannelResponse::Message(m) => r == Ok::<Option<T>, LGError>(Some(m)) && *final(self)
                    == *old(self),
                ChannelResponse::Empty => r == Ok::<Option<T>, LGError>(None)
                    && Self::heartbeat_refreshed(*old(self), *final(self), channel, now_ms as int),
                ChannelResponse::Failure(d) => r == Err::<Option<T>, LGError>(
                    LGError::LGMPCommunicationError(d),
                ) && *final(self) == *old(self),
            },
    {
        match resp {
            ChannelResponse::Message(m) => Ok(Some(m)),
            ChannelResponse::Empty => {
                match channel {
                    KVMFRChans::Frame => {
                        self.last_frame_heartbeat_ms = now_ms as i128;
                    },
                    KVMFRChans::Cursor => {
                        self.last_cursor_heartbeat_ms = now_ms as i128;
                    },
                }
                Ok(None)
            },
            ChannelResponse::Failure(d) => Err(LGError::LGMPCommunicationError(d)),
        }
    }

    /// Applies the outcome of advancing `channel` to its most recent
    /// message, discarding the skipped ones. "Queue empty" here means the
    /// channel was already caught up: that is success, and it refreshes the
    /// heartbeat. Any other failure propagates as a communication error.
    pub fn fast_forward(&mut self, channel: KVMFRChans, now_ms: u64, resp: ChannelResponse<()>) -> (r:
        Result<(), LGError>)
        requires
            old(self).wf(),
        ensures
            final(self).wf(),
            match resp {
                ChannelResponse::Message(_) => r == Ok::<(), LGError>(()) && *final(self) == *old(self),
                ChannelResponse::Empty => r == Ok::<(), LGError>(()) && Self::heartbeat_refreshed(
                    *old(self),
                    *final(self),
                    channel,
                    now_ms as int,
                ),
                ChannelResponse::Failure(d) => r == Err::<(), LGError>(
                    LGError::LGMPCommunicationError(d),
                ) && *final(self) == *old(self),
            },
    {
        match resp {
            ChannelResponse::Message(_) => Ok(()),
            ChannelResponse::Empty => {
                match channel {
                    KVMFRChans::Frame => {
                        self.last_frame_heartbeat_ms = now_ms as i128;
                    },
                    KVMFRChans::Cursor => {
                        self.last_cursor_heartbeat_ms = now_ms as i128;
                    },
                }
                Ok(())
            },
            ChannelResponse::Failure(d) => Err(LGError::LGMPCommunicationError(d)),
        }
    }
}

/// The connection: an optional initialised session and the configuration.
/// The queue-client session object and the mapped region are owned by the
/// surrounding driver; opening them, registering with the host, subscribing
/// and the per-call locking happen there, and their outcomes are handed to
/// the methods here as plain values.
pub struct LGMPConnection {
    pub session: Option<LGMPSession>,
    pub opts: LGMPOpts,
}

impl LGMPConnection {
    pub open spec fn wf(&self) -> bool {
        match self.session {
            Some(s) => s.wf(),
            None => true,
        }
    }

    /// Creates a connection with no session: registration with the host has
    /// not happened and no timeout tracking has started. The underlying
    /// protocol expects a short wait (about 200 ms) between the driver
    /// mapping the region and `init`.
    pub fn open(opts: LGMPOpts) -> (c: LGMPConnection)
        ensures
            c.wf(),
            c.session is None,
            c.opts == opts,
    {
        LGMPConnection { session: None, opts }
    }

    /// Completes registration: validates the host's registration metadata
    /// and, when it matches the expected compatibility header exactly,
    /// installs a fresh session whose two heartbeats are both `now -
    /// timeout` — already overdue, so the first tick is due for a
    /// fast-forward. On any mismatch the result is a version-mismatch error
    /// carrying the expected version, and the connection is left exactly as
    /// it was.
    pub fn init(&mut self, now_ms: u64, metadata: &[u8]) -> (r: Result<(), LGError>)
        requires
            old(self).wf(),
        ensures
            final(self).wf(),
            final(self).opts == old(self).opts,
            header_valid(metadata@) ==> r == Ok::<(), LGError>(()) && (final(self).session matches Some(s)
                && s.last_frame_heartbeat_ms == now_ms - final(self).opts.timeout_ms
                && s.last_cursor_heartbeat_ms == now_ms - final(self).opts.timeout_ms),
            !header_valid(metadata@) ==> r == Err::<(), LGError>(
                LGError::KVMFRVersionMismatch(KVMFR_VERSION),
            ) && *final(self) == *old(self),
    {
        match validate_registration(metadata) {
            Ok(()) => {
                let s = LGMPSession::new(now_ms, self.opts.timeout_ms);
                self.session = Some(s);
                Ok(())
            },
            Err(e) => Err(e),
        }
    }

    /// Whether a tick on the selected channel must trigger a fast-forward.
    pub open spec fn spec_tick_due(
        &self,
        channel: KVMFRChans,
        now_ms: int,
        tick_period_ms: int,
    ) -> bool {
        match self.session {
            Some(s) => should_fast_forward(
                now_ms,
                tick_period_ms,
                s.heartbeat_ms(channel),
                self.opts.timeout_ms as int,
            ),
            None => false,
        }
    }

    /// The frame-channel tick decision: true exactly when a session exists
    /// and the fast-forward heuristic fires. With no session a tick does
    /// nothing; when the heuristic does not fire, the channel must not be
    /// touched at all, which this decision expresses by borrowing the
    /// connection immutably and prescribing no action.
    pub fn tick_frame(&self, now_ms: u64, tick_period_ms: u64) -> (due: bool)
        requires
            self.wf(),
        ensures
            due == self.spec_tick_due(KVMFRChans::Frame, now_ms as int, tick_period_ms as int),
    {
        match self.session {
            Some(s) => tick_due(now_ms, tick_period_ms, s.last_frame_heartbeat_ms, self.opts.timeout_ms),
            None => false,
        }
    }

    /// The cursor-channel tick decision; see [`Self::tick_frame`].
    pub fn tick_cursor(&self, now_ms: u64, tick_period_ms: u64) -> (due: bool)
        requires
            self.wf(),
        ensures
            due == self.spec_tick_due(KVMFRChans::Cursor, now_ms as int, tick_period_ms as int),
    {
        match self.session {
            Some(s) => tick_due(now_ms, tick_period_ms, s.last_cursor_heartbeat_ms, self.opts.timeout_ms),
            None => false,
        }
    }

    /// Applies the outcome of the fast-forward a due frame tick triggered,
    /// and resets the frame heartbeat to `now_ms` when the channel advanced
    /// or was already empty. A failure propagates as a communication error
    /// and leaves the heartbeats alone. With no session, nothing happens.
    pub fn apply_fast_forward_frame(&mut self, now_ms: u64, resp: ChannelResponse<()>) -> (r: Result<
        (),
        LGError,
    >)
        requires
            old(self).wf(),
        ensures
            final(self).wf(),
            final(self).opts == old(self).opts,
            old(self).session is None ==> r == Ok::<(), LGError>(()) && *final(self) == *old(self),
            old(self).session matches Some(s) ==> match resp {
                ChannelResponse::Failure(d) => r == Err::<(), LGError>(
                    LGError::LGMPCommunicationError(d),
                ) && *final(self) == *old(self),
                _ => r == Ok::<(), LGError>(()) && (final(self).session matches Some(s2)
                    && LGMPSession::heartbeat_refreshed(s, s2, KVMFRChans::Frame, now_ms as int)),
            },
    {
        match self.session {
            Some(mut sess) => {
                match sess.fast_forward(KVMFRChans::Frame, now_ms, resp) {
                    Ok(()) => {
                        sess.last_frame_heartbeat_ms = now_ms as i128;
                        self.session = Some(sess);
                        Ok(())
                    },
                    Err(e) => Err(e),
                }
            },
            None => Ok(()),
        }
    }

    /// Applies the outcome of the fast-forward a due cursor tick triggered;
    /// see [`Self::apply_fast_forward_frame`].
    pub fn apply_fast_forward_cursor(&mut self, now_ms: u64, resp: ChannelResponse<()>) -> (r: Result<
        (),
        LGError,
    >)
        requires
            old(self).wf(),
        ensures
            final(self).wf(),
            final(self).opts == old(self).opts,
            old(self).session is None ==> r == Ok::<(), LGError>(()) && *final(self) == *old(self),
            old(self).session matches Some(s) ==> match resp {
                ChannelResponse::Failure(d) => r == Err::<(), LGError>(
                    LGError::LGMPCommunicationError(d),
                ) && *final(self) == *old(self),
                _ => r == Ok::<(), LGError>(()) && (final(self).session matches Some(s2)
                    && LGMPSession::heartbeat_refreshed(s, s2, KVMFRChans::Cursor, now_ms as int)),
            },
    {
        match self.session {
            Some(mut sess) => {
                match sess.fast_forward(KVMFRChans::Cursor, now_ms, resp) {
                    Ok(()) => {
                        sess.last_cursor_heartbeat_ms = now_ms as i128;
                        self.session = Some(sess);
                        Ok(())
                    },
                    Err(e) => Err(e),
                }
            },
            None => Ok(()),
        }
    }

    /// Applies the outcome of popping the frame channel. A popped message is
    /// wrapped in a frame handle; an empty channel is "no update" and
    /// refreshes the frame heartbeat to the call time; with no session the
    /// result is "no update" and nothing changes.
    pub fn get_frame_update<'a>(&mut self, now_ms: u64, resp: ChannelResponse<&'a [u8]>) -> (r:
        Result<Option<KVMFRFrameHandle<'a>>, LGError>)
        requires
            old(self).wf(),
        ensures
            final(self).wf(),
            final(self).opts == old(self).opts,
            old(self).session is None ==> (r matches Ok(h) && h is None) && *final(self) == *old(self),
            old(self).session matches Some(s) ==> match resp {
                ChannelResponse::Message(m) => (r matches Ok(h) && h matches Some(hh) && hh.bytes()
                    == m@) && *final(self) == *old(self),
                ChannelResponse::Empty => (r matches Ok(h) && h is None) && (final(self).session
                    matches Some(s2) && LGMPSession::heartbeat_refreshed(
                    s,
                    s2,
                    KVMFRChans::Frame,
                    now_ms as int,
                )),
                ChannelResponse::Failure(d) => r == Err::<Option<KVMFRFrameHandle<'a>>, LGError>(
                    LGError::LGMPCommunicationError(d),
                ) && *final(self) == *old(self),
            },
    {
        match self.session {
            Some(mut sess) => {
                let popped = sess.pop_ref(KVMFRChans::Frame, now_ms, resp);
                self.session = Some(sess);
                match popped {
                    Ok(Some(m)) => Ok(Some(KVMFRFrameHandle::new(m))),
                    Ok(None) => Ok(None),
                    Err(e) => Err(e),
                }
            },
            None => Ok(None),
        }
    }

    /// Applies the outcome of popping the cursor channel; see
    /// [`Self::get_frame_update`].
    pub fn get_cursor_update<'a>(&mut self, now_ms: u64, resp: ChannelResponse<&'a [u8]>) -> (r:
        Result<Option<KVMFRCursorHandle<'a>>, LGError>)
        requires
            old(self).wf(),
        ensures
            final(self).wf(),
            final(self).opts == old(self).opts,
            old(self).session is None ==> (r matches Ok(h) && h is None) && *final(self) == *old(self),
            old(self).session matches Some(s) ==> match resp {
                ChannelResponse::Message(m) => (r matches Ok(h) && h matches Some(hh) && hh.bytes()
                    == m@) && *final(self) == *old(self),
                ChannelResponse::Empty => (r matches Ok(h) && h is None) && (final(self).session
                    matches Some(s2) && LGMPSession::heartbeat_refreshed(
                    s,
                    s2,
                    KVMFRChans::Cursor,
                    now_ms as int,
                )),
                ChannelResponse::Failure(d) => r == Err::<Option<KVMFRCursorHandle<'a>>, LGError>(
                    LGError::LGMPCommunicationError(d),
                ) && *final(self) == *old(self),
            },
    {
        match self.session {
            Some(mut sess) => {
                let popped = sess.pop_ref(KVMFRChans::Cursor, now_ms, resp);
                self.session = Some(sess);
                match popped {
                    Ok(Some(m)) => Ok(Some(KVMFRCursorHandle::new(m))),
                    Ok(None) => Ok(None),
                    Err(e) => Err(e),
                }
            },
            None => Ok(None),
        }
    }
}

/// Law: a freshly initialised session is immediately eligible to
/// fast-forward. After a successful `init` at time `now0`, both heartbeats
/// sit at `now0 - timeout`, so any tick at a time not earlier than `now0`
/// with a positive tick period finds both channels due.
pub proof fn lemma_init_then_tick_due(
    c: LGMPConnection,
    now0_ms: u64,
    now_ms: u64,
    tick_period_ms: u64,
)
    requires
        c.session matches Some(s) && s.last_frame_heartbeat_ms == now0_ms - c.opts.timeout_ms
            && s.last_cursor_heartbeat_ms == now0_ms - c.opts.timeout_ms,
        now_ms >= now0_ms,
        tick_period_ms > 0,
    ensures
        c.spec_tick_due(KVMFRChans::Frame, now_ms as int, tick_period_ms as int),
        c.spec_tick_due(KVMFRChans::Cursor, now_ms as int, tick_period_ms as int),
{
}

} // verus!

