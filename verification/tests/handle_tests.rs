use lgmp_session::error::LGError;
use lgmp_session::kvmfr::{
    validate_registration, KVMFRCursorHandle, KVMFRFrameHandle, KVMFR_CURSOR_SIZE,
    KVMFR_FRAME_SIZE, KVMFR_SIZE, KVMFR_VERSION,
};

fn valid_header() -> Vec<u8> {
    let mut h = vec![0u8; KVMFR_SIZE];
    h[0..8].copy_from_slice(b"KVMFR---");
    h[8..12].copy_from_slice(&KVMFR_VERSION.to_le_bytes());
    h
}

#[test]
fn validate_registration_accepts_exact_header() {
    let h = valid_header();
    assert!(validate_registration(&h).is_ok());
}

#[test]
fn validate_registration_rejects_truncated_header() {
    // One byte short: rejected even though magic and version still match at
    // their offsets.
    let mut h = valid_header();
    h.truncate(KVMFR_SIZE - 1);
    let r = validate_registration(&h);
    assert!(matches!(r, Err(LGError::KVMFRVersionMismatch(v)) if v == KVMFR_VERSION));
}

#[test]
fn validate_registration_rejects_empty_metadata() {
    let r = validate_registration(&[]);
    assert!(matches!(r, Err(LGError::KVMFRVersionMismatch(_))));
}

#[test]
fn validate_registration_rejects_each_magic_byte() {
    for i in 0..8 {
        let mut h = valid_header();
        h[i] ^= 0xff;
        let r = validate_registration(&h);
        assert!(matches!(r, Err(LGError::KVMFRVersionMismatch(_))));
    }
}

#[test]
fn frame_too_small_is_rejected() {
    let short = vec![0u8; KVMFR_FRAME_SIZE - 1];
    let handle = KVMFRFrameHandle::new(&short);
    let r = handle.as_frame();
    assert!(matches!(r, Err(LGError::FrameChannelMessageTooSmall)));
}

#[test]
fn frame_large_enough_yields_view() {
    let msg: Vec<u8> = (0..(KVMFR_FRAME_SIZE as u8 + 10)).collect();
    let handle = KVMFRFrameHandle::new(&msg);
    assert_eq!(handle.len(), msg.len());
    let frame = handle.as_frame().expect("long enough");
    // Zero-copy: the view ranges over the very same bytes.
    assert_eq!(frame.raw().as_ptr(), msg.as_ptr());
    assert_eq!(frame.raw(), &msg[..]);
    assert_eq!(frame.byte_at(3), 3);
}

#[test]
fn cursor_too_small_is_rejected() {
    let short = vec![0u8; KVMFR_CURSOR_SIZE - 1];
    let handle = KVMFRCursorHandle::new(&short);
    let r = handle.as_ptr_msg();
    assert!(matches!(r, Err(LGError::CursorChannelMessageTooSmall)));
}

#[test]
fn cursor_large_enough_yields_view() {
    let msg = vec![9u8; KVMFR_CURSOR_SIZE];
    let handle = KVMFRCursorHandle::new(&msg);
    assert_eq!(handle.len(), KVMFR_CURSOR_SIZE);
    let cursor = handle.as_ptr_msg().expect("long enough");
    assert_eq!(cursor.raw().as_ptr(), msg.as_ptr());
    assert_eq!(cursor.byte_at(0), 9);
}

#[test]
fn frame_exactly_at_size_is_accepted() {
    let msg = vec![0u8; KVMFR_FRAME_SIZE];
    let handle = KVMFRFrameHandle::new(&msg);
    assert!(handle.as_frame().is_ok());
}
