use owner_governed_asset_ledger::address::Address;
use owner_governed_asset_ledger::error::ErrorCode;
use owner_governed_asset_ledger::manifest::{touch_manifest, ObjectManifest};

#[test]
fn flags_round_trip() {
    let mut m = ObjectManifest::zeroed();
    assert!(!m.is_active() && !m.minted() && !m.initialized());
    m.set_is_active(true);
    m.set_minted(true);
    m.set_initialized(true);
    assert_eq!((m.is_active, m.minted, m.initialized), (1, 1, 1));
    m.set_minted(false);
    assert!(!m.minted());
}

#[test]
fn uri_is_stored_with_zero_tail() {
    let mut m = ObjectManifest::zeroed();
    m.metadata_uri = [9u8; 128];
    m.set_metadata_uri("ipfs://abc");
    assert_eq!(m.metadata_uri_len(), 10);
    assert!(m.metadata_uri_equals("ipfs://abc"));
    assert!(!m.metadata_uri_equals("ipfs://abd"));
    assert!(!m.metadata_uri_equals("ipfs://ab"));
    assert!(m.metadata_uri[10..].iter().all(|b| *b == 0));
    assert_eq!(m.metadata_uri_bytes(), b"ipfs://abc".to_vec());
}

#[test]
fn inactive_record_refuses_touch() {
    let mut m = ObjectManifest::zeroed();
    m.set_initialized(true);
    let a = Address { bytes: [0u8; 32] };
    let r = touch_manifest(&m, 0, &a, &a, 0, 0, &[0u8; 32], b"", &a);
    assert_eq!(r.err(), Some(ErrorCode::ObjectInactive));
    m.set_is_active(true);
    let r = touch_manifest(&m, 1, &a, &a, 0, 0, &[0u8; 32], b"", &a);
    assert_eq!(r.err(), Some(ErrorCode::ObjectIdMismatch));
    let r = touch_manifest(&m, 0, &a, &a, 0, 0, &[0u8; 32], b"", &a);
    assert_eq!(r.map(|(_, fresh)| fresh), Ok(false));
}
