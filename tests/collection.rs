use borsh::BorshSerialize;
use mpl_token_metadata::accounts::Metadata as MetadataAccount;
use mpl_token_metadata::types::{CollectionDetails, Key};
use owner_governed_asset_ledger::collection::{
    is_sized_collection, metadata_account_base_len, metadata_is_decodable,
    read_collection_details_from_tlv,
};
use owner_governed_asset_ledger::error::ErrorCode;
use spl_discriminator::ArrayDiscriminator;

fn collection_metadata(details: Option<CollectionDetails>) -> Vec<u8> {
    let metadata = MetadataAccount {
        key: Key::MetadataV1,
        update_authority: Default::default(),
        mint: Default::default(),
        name: "Collection".into(),
        symbol: "COLL".into(),
        uri: "https://example.com/collection.json".into(),
        seller_fee_basis_points: 0,
        creators: None,
        primary_sale_happened: false,
        is_mutable: true,
        edition_nonce: None,
        token_standard: None,
        collection: None,
        uses: None,
        collection_details: details,
        programmable_config: None,
    };
    let mut data = Vec::new();
    metadata.serialize(&mut data).unwrap();
    data
}

fn append_collection_details_tlv(buffer: &mut Vec<u8>, details: &CollectionDetails) {
    let mut value = Vec::new();
    details.serialize(&mut value).unwrap();
    let discriminator = ArrayDiscriminator::new_with_hash_input("collection_details");
    buffer.extend_from_slice(discriminator.as_ref());
    buffer.extend_from_slice(&(value.len() as u32).to_le_bytes());
    buffer.extend_from_slice(&value);
}

#[test]
fn metadata_base_len_handles_missing_optional_tail() {
    let data = collection_metadata(None);
    let base_len = metadata_account_base_len(&data).unwrap();
    assert_eq!(base_len, data.len());
    assert!(read_collection_details_from_tlv(&data).is_none());
}

#[test]
fn base_len_covers_inline_details() {
    let data = collection_metadata(Some(CollectionDetails::V1 { size: 3 }));
    assert_eq!(metadata_account_base_len(&data), Some(data.len()));
    assert_eq!(is_sized_collection(&data), Ok(true));
}

#[test]
fn base_len_stops_before_tagged_region() {
    let mut data = collection_metadata(None);
    let inline_len = data.len();
    append_collection_details_tlv(&mut data, &CollectionDetails::V1 { size: 1 });
    assert_eq!(metadata_account_base_len(&data), Some(inline_len));
}

#[test]
fn tagged_details_are_found() {
    let mut data = collection_metadata(None);
    let details = CollectionDetails::V1 { size: 9 };
    append_collection_details_tlv(&mut data, &details);
    let mut expected = Vec::new();
    details.serialize(&mut expected).unwrap();
    assert_eq!(read_collection_details_from_tlv(&data), Some(expected));
    assert_eq!(is_sized_collection(&data), Ok(true));
}

#[test]
fn truncated_optionals_fall_back_to_tagged_region() {
    let mut data = collection_metadata(None);
    assert_eq!(data.pop(), Some(0));
    assert_eq!(data.pop(), Some(0));
    let stop = data.len();
    append_collection_details_tlv(&mut data, &CollectionDetails::V1 { size: 100 });
    assert_eq!(metadata_account_base_len(&data), Some(stop));
    assert!(read_collection_details_from_tlv(&data).is_some());
    assert_eq!(is_sized_collection(&data), Ok(true));
}

#[test]
fn plain_collection_is_unsized() {
    let data = collection_metadata(None);
    assert_eq!(is_sized_collection(&data), Ok(false));
}

#[test]
fn zero_padding_after_record_is_unsized() {
    let mut data = collection_metadata(None);
    data.extend_from_slice(&[0u8; 40]);
    assert!(read_collection_details_from_tlv(&data).is_none());
    assert_eq!(is_sized_collection(&data), Ok(false));
}

#[test]
fn other_tag_is_not_details() {
    let mut data = collection_metadata(None);
    data.extend_from_slice(&[1u8; 8]);
    data.extend_from_slice(&2u32.to_le_bytes());
    data.extend_from_slice(&[5u8, 6u8]);
    assert!(read_collection_details_from_tlv(&data).is_none());
    assert_eq!(is_sized_collection(&data), Ok(false));
}

#[test]
fn tagged_entry_past_end_is_ignored() {
    let mut data = collection_metadata(None);
    let discriminator = ArrayDiscriminator::new_with_hash_input("collection_details");
    data.extend_from_slice(discriminator.as_ref());
    data.extend_from_slice(&50u32.to_le_bytes());
    data.extend_from_slice(&[1u8, 2u8]);
    assert!(read_collection_details_from_tlv(&data).is_none());
}

#[test]
fn undecodable_collection_record_is_refused() {
    let data = vec![9u8, 1, 2, 3];
    assert!(!metadata_is_decodable(&data));
    assert_eq!(
        is_sized_collection(&data),
        Err(ErrorCode::InvalidCollectionMetadataAccount)
    );
    assert_eq!(metadata_account_base_len(&[]), None);
}
