use vstd::prelude::*;

use crate::error::LGError;

verus! {

/// Protocol version this client speaks. Registration is rejected unless the
/// host reports exactly this version: there is no compatibility window.
pub const KVMFR_VERSION: u32 = 20;

/// Exact byte length of the registration metadata (the compatibility
/// header): magic at bytes 0..8, little-endian version at bytes 8..12, a
/// host-version string at bytes 12..44, and feature flags at bytes 44..48.
pub const KVMFR_SIZE: usize = 48;

/// Size in bytes of the fixed structure at the head of a frame message.
/// A frame message shorter than this is rejected before any field of it
/// is read.
pub const KVMFR_FRAME_SIZE: usize = 64;

/// Size in bytes of the fixed structure at the head of a cursor message.
pub const KVMFR_CURSOR_SIZE: usize = 20;

/// The expected magic prefix of the compatibility header: the bytes of
/// "KVMFR---".
pub open spec fn kvmfr_magic() -> Seq<u8> {
    seq![0x4bu8, 0x56u8, 0x4du8, 0x46u8, 0x52u8, 0x2du8, 0x2du8, 0x2du8]
}

/// The unsigned 32-bit little-endian integer stored at `b[off .. off + 4]`.
pub open spec fn le_u32_at(b: Seq<u8>, off: int) -> int {
    b[off] + b[off + 1] * 0x100 + b[off + 2] * 0x1_0000 + b[off + 3] * 0x100_0000
}

/// Whether registration metadata passes the compatibility check: exact
/// expected length, the expected magic prefix, and exactly the expected
/// protocol version.
pub open spec fn header_valid(b: Seq<u8>) -> bool {
    &&& b.len() == KVMFR_SIZE
    &&& b.subrange(0, 8) == kvmfr_magic()
    &&& le_u32_at(b, 8) == KVMFR_VERSION
}

/// Validates host registration metadata against the compatibility header
/// this client expects. Any mismatch — wrong length, wrong magic, or wrong
/// version — is reported as a version mismatch carrying the expected
/// version, and nothing of the metadata beyond the header is inspected.
pub fn validate_registration(metadata: &[u8]) -> (r: Result<(), LGError>)
    ensures
        header_valid(metadata@) ==> r == Ok::<(), LGError>(()),
        !header_valid(metadata@) ==> r == Err::<(), LGError>(
            LGError::KVMFRVersionMismatch(KVMFR_VERSION),
        ),
{
    if metadata.len() != KVMFR_SIZE {
        return Err(LGError::KVMFRVersionMismatch(KVMFR_VERSION));
    }
    let magic_ok: bool = metadata[0] == 0x4b && metadata[1] == 0x56 && metadata[2] == 0x4d
        && metadata[3] == 0x46 && metadata[4] == 0x52 && metadata[5] == 0x2d
        && metadata[6] == 0x2d && metadata[7] == 0x2d;
    if !magic_ok {
        proof {
            assert(metadata@.subrange(0, 8) != kvmfr_magic()) by {
                if metadata@.subrange(0, 8) == kvmfr_magic() {
                    assert(metadata@[0] == kvmfr_magic()[0]);
                    assert(metadata@[1] == kvmfr_magic()[1]);
                    assert(metadata@[2] == kvmfr_magic()[2]);
                    assert(metadata@[3] == kvmfr_magic()[3]);
                    assert(metadata@[4] == kvmfr_magic()[4]);
                    assert(metadata@[5] == kvmfr_magic()[5]);
                    assert(metadata@[6] == kvmfr_magic()[6]);
                    assert(metadata@[7] == kvmfr_magic()[7]);
                }
            }
        }
        return Err(LGError::KVMFRVersionMismatch(KVMFR_VERSION));
    }
    proof {
        assert(metadata@.subrange(0, 8) =~= kvmfr_magic());
    }
    let version: u32 = (metadata[8] as u32) + (metadata[9] as u32) * 0x100
        + (metadata[10] as u32) * 0x1_0000 + (metadata[11] as u32) * 0x100_0000;
    if version != KVMFR_VERSION {
        return Err(LGError::KVMFRVersionMismatch(KVMFR_VERSION));
    }
    Ok(())
}

/// A validated, zero-copy view of a frame message: the raw bytes are known
/// to be at least as long as the fixed frame structure. The view borrows
/// the message bytes; it copies nothing.
pub struct KVMFRFrame<'a> {
    data: &'a [u8],
}

impl<'a> KVMFRFrame<'a> {
    /// The bytes this view ranges over.
    pub closed spec fn bytes(&self) -> Seq<u8> {
        self.data@
    }

    /// A view is well formed when the message is long enough to hold the
    /// fixed frame structure.
    pub open spec fn wf(&self) -> bool {
        self.bytes().len() >= KVMFR_FRAME_SIZE
    }

    /// The raw message bytes, borrowed, not copied.
    pub fn raw(&self) -> (r: &'a [u8])
        ensures
            r@ == self.bytes(),
    {
        self.data
    }

    /// Reads one byte of the fixed frame structure.
    pub fn byte_at(&self, i: usize) -> (b: u8)
        requires
            self.wf(),
            i < KVMFR_FRAME_SIZE,
        ensures
            b == self.bytes()[i as int],
    {
        self.data[i]
    }
}

/// A validated, zero-copy view of a cursor message, analogous to
/// [`KVMFRFrame`].
pub struct KVMFRCursor<'a> {
    data: &'a [u8],
}

impl<'a> KVMFRCursor<'a> {
    /// The bytes this view ranges over.
    pub closed spec fn bytes(&self) -> Seq<u8> {
        self.data@
    }

    /// A view is well formed when the message is long enough to hold the
    /// fixed cursor structure.
    pub open spec fn wf(&self) -> bool {
        self.bytes().len() >= KVMFR_CURSOR_SIZE
    }

    /// The raw message bytes, borrowed, not copied.
    pub fn raw(&self) -> (r: &'a [u8])
        ensures
            r@ == self.bytes(),
    {
        self.data
    }

    /// Reads one byte of the fixed cursor structure.
    pub fn byte_at(&self, i: usize) -> (b: u8)
        requires
            self.wf(),
            i < KVMFR_CURSOR_SIZE,
        ensures
            b == self.bytes()[i as int],
    {
        self.data[i]
    }
}

/// A handle to one popped frame message. It borrows the message bytes for
/// its whole lifetime: in a running client those bytes live in the shared
/// region and stay locked against further pops and fast-forwards on the
/// frame channel until every borrow of them is gone.
pub struct KVMFRFrameHandle<'a> {
    msg: &'a [u8],
}

impl<'a> KVMFRFrameHandle<'a> {
    /// The raw bytes of the popped message.
    pub closed spec fn bytes(&self) -> Seq<u8> {
        self.msg@
    }

    /// Wraps the bytes of one popped frame message.
    pub fn new(msg: &'a [u8]) -> (h: Self)
        ensures
            h.bytes() == msg@,
    {
        KVMFRFrameHandle { msg }
    }

    /// The received byte length of the message.
    pub fn len(&self) -> (n: usize)
        ensures
            n == self.bytes().len(),
    {
        self.msg.len()
    }

    /// Reinterprets the message as a frame structure, after checking that
    /// the received length is at least the size of that structure. A
    /// message that is too small yields the frame-specific error and is
    /// never partially read.
    pub fn as_frame(&self) -> (r: Result<KVMFRFrame<'a>, LGError>)
        ensures
            self.bytes().len() >= KVMFR_FRAME_SIZE ==> (r matches Ok(f) && f.wf() && f.bytes()
                == self.bytes()),
            self.bytes().len() < KVMFR_FRAME_SIZE ==> (r matches Err(e) && e
                == LGError::FrameChannelMessageTooSmall),
    {
        if self.msg.len() < KVMFR_FRAME_SIZE {
            Err(LGError::FrameChannelMessageTooSmall)
        } else {
            Ok(KVMFRFrame { data: self.msg })
        }
    }
}

/// A handle to one popped cursor message, analogous to
/// [`KVMFRFrameHandle`].
pub struct KVMFRCursorHandle<'a> {
    msg: &'a [u8],
}

impl<'a> KVMFRCursorHandle<'a> {
    /// The raw bytes of the popped message.
    pub closed spec fn bytes(&self) -> Seq<u8> {
        self.msg@
    }

    /// Wraps the bytes of one popped cursor message.
    pub fn new(msg: &'a [u8]) -> (h: Self)
        ensures
            h.bytes() == msg@,
    {
        KVMFRCursorHandle { msg }
    }

    /// The received byte length of the message.
    pub fn len(&self) -> (n: usize)
        ensures
            n == self.bytes().len(),
    {
        self.msg.len()
    }

    /// Reinterprets the message as a cursor structure, after checking that
    /// the received length is at least the size of that structure.
    pub fn as_ptr_msg(&self) -> (r: Result<KVMFRCursor<'a>, LGError>)
        ensures
            self.bytes().len() >= KVMFR_CURSOR_SIZE ==> (r matches Ok(c) && c.wf() && c.bytes()
                == self.bytes()),
            self.bytes().len() < KVMFR_CURSOR_SIZE ==> (r matches Err(e) && e
                == LGError::CursorChannelMessageTooSmall),
    {
        if self.msg.len() < KVMFR_CURSOR_SIZE {
            Err(LGError::CursorChannelMessageTooSmall)
        } else {
            Ok(KVMFRCursor { data: self.msg })
        }
    }
}

} // verus!
