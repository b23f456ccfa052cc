use owner_governed_asset_ledger::address::Address;
use owner_governed_asset_ledger::manifest::ObjectManifest;
use spl_discriminator::ArrayDiscriminator;

fn sample() -> ObjectManifest {
    let mut m = ObjectManifest::zeroed();
    m.config = Address { bytes: [1u8; 32] };
    m.object_id = 0x0102_0304_0506_0708;
    m.mint = Address { bytes: [2u8; 32] };
    m.bump = 254;
    m.mint_bump = 253;
    m.set_is_active(true);
    m.set_initialized(true);
    m.manifest_hash = [7u8; 32];
    m.set_metadata_uri("https://example.com/object.json");
    m.creator = Address { bytes: [3u8; 32] };
    m
}

#[test]
fn record_layout_offsets() {
    let m = sample();
    let b = m.to_bytes();
    assert_eq!(b.len(), 272);
    assert_eq!(&b[0..32], &[1u8; 32]);
    assert_eq!(&b[32..40], &0x0102_0304_0506_0708u64.to_le_bytes());
    assert_eq!(&b[40..72], &[2u8; 32]);
    assert_eq!(&b[72..77], &[254, 253, 1, 0, 1]);
    assert_eq!(&b[77..109], &[7u8; 32]);
    assert_eq!(&b[109..140], b"https://example.com/object.json");
    assert_eq!(&b[238..240], &31u16.to_le_bytes());
    assert_eq!(&b[240..272], &[3u8; 32]);
}

#[test]
fn account_data_round_trip() {
    let m = sample();
    let data = m.to_account_data();
    assert_eq!(data.len(), 288);
    let tag = ArrayDiscriminator::new_with_hash_input("account:ObjectManifest");
    assert_eq!(&data[0..8], tag.as_slice());
    let back = ObjectManifest::from_account_data(&data);
    assert_eq!(back.to_bytes(), m.to_bytes());
    assert_eq!(back.metadata_uri_string(), "https://example.com/object.json");
}

#[test]
fn short_account_reads_as_zero_record() {
    let back = ObjectManifest::from_account_data(&[]);
    assert_eq!(back.to_bytes(), vec![0u8; 272]);
    let partial = ObjectManifest::from_account_data(&[9u8; 40]);
    assert_eq!(&partial.to_bytes()[0..32], &[9u8; 32]);
    assert_eq!(&partial.to_bytes()[32..], &[0u8; 240][..]);
}
