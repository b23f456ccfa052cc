//! Whether a collection is sized, read from its metadata record's raw bytes.
//!
//! The record starts with a fixed-shape prefix, followed by two trailing
//! optional fields (collection details, then programmable configuration), each
//! a presence byte and, if present, its payload. Newer records may instead keep
//! the collection details in a tagged region after the prefix: a list of
//! entries, each an 8-byte discriminator, a 4-byte little-endian length and
//! that many value bytes.
use crate::error::ErrorCode;
use mpl_token_metadata::accounts::Metadata as MetadataAccount;
use mpl_token_metadata::types::{
    Collection, CollectionDetails, Data, Key as MetadataKey, ProgrammableConfig, TokenStandard,
    Uses,
};
use borsh::BorshDeserialize;
use spl_discriminator::ArrayDiscriminator;
use vstd::prelude::*;

verus! {

/// Bytes left once `n` bytes are taken from the front of `b`, if it holds them.
pub open spec fn rest_after(b: Seq<u8>, n: int) -> Option<usize> {
    if b.len() >= n { Some((b.len() - n) as usize) } else { None }
}

/// Bytes left after decoding a metadata key: one byte naming one of its 15
/// variants.
pub open spec fn rest_after_key(b: Seq<u8>) -> Option<usize> {
    if b.len() >= 1 && b[0] < 15 { rest_after(b, 1) } else { None }
}

/// Bytes left after decoding an optional token standard: 0, or 1 and a byte
/// naming one of its 6 variants.
pub open spec fn rest_after_token_standard(b: Seq<u8>) -> Option<usize> {
    if b.len() >= 1 && b[0] == 0 {
        rest_after(b, 1)
    } else if b.len() >= 2 && b[0] == 1 && b[1] < 6 {
        rest_after(b, 2)
    } else {
        None
    }
}

/// Bytes left after decoding an optional collection reference: 0, or 1, a
/// boolean byte and a 32-byte key.
pub open spec fn rest_after_collection(b: Seq<u8>) -> Option<usize> {
    if b.len() >= 1 && b[0] == 0 {
        rest_after(b, 1)
    } else if b.len() >= 2 && b[0] == 1 && (b[1] == 0 || b[1] == 1) {
        rest_after(b, 34)
    } else {
        None
    }
}

/// Bytes left after decoding an optional uses block: 0, or 1, a byte naming
/// one of the 3 use methods and two 8-byte counters.
pub open spec fn rest_after_uses(b: Seq<u8>) -> Option<usize> {
    if b.len() >= 1 && b[0] == 0 {
        rest_after(b, 1)
    } else if b.len() >= 2 && b[0] == 1 && b[1] < 3 {
        rest_after(b, 18)
    } else {
        None
    }
}

/// Bytes left after decoding a collection-details value: a variant byte 0 or
/// 1, then 8 bytes (a size, or padding).
pub open spec fn rest_after_collection_details(b: Seq<u8>) -> Option<usize> {
    if b.len() >= 1 && (b[0] == 0 || b[0] == 1) { rest_after(b, 9) } else { None }
}

/// Bytes left after decoding a programmable configuration: variant byte 0,
/// then an optional 32-byte rule set.
pub open spec fn rest_after_programmable_config(b: Seq<u8>) -> Option<usize> {
    if b.len() >= 2 && b[0] == 0 && b[1] == 0 {
        rest_after(b, 2)
    } else if b.len() >= 2 && b[0] == 0 && b[1] == 1 {
        rest_after(b, 34)
    } else {
        None
    }
}

/// Bytes left after decoding the name/symbol/uri/fee/creators block.
pub uninterp spec fn rest_after_data(b: Seq<u8>) -> Option<usize>;

/// Whether the whole record decodes as metadata, and if so whether its inline
/// collection details are present.
pub uninterp spec fn metadata_details_present(b: Seq<u8>) -> Option<bool>;

/// The discriminator hashed from a string.
pub uninterp spec fn discriminator_of(input: Seq<char>) -> Seq<u8>;

pub open spec fn suffix(b: Seq<u8>, pos: int) -> Seq<u8> {
    b.subrange(pos, b.len() as int)
}

pub open spec fn rest_ok(r: Option<usize>, b: Seq<u8>) -> bool {
    r matches Some(n) ==> n <= b.len()
}

/// Relies on borsh decoding of the registry's `Key`, an enum of 15 unit variants.
#[verifier::external_body]
fn decode_key(b: &[u8], pos: usize) -> (r: Option<usize>)
    requires
        pos <= b@.len(),
    ensures
        r == rest_after_key(suffix(b@, pos as int)),
        rest_ok(r, suffix(b@, pos as int)),
{
    let mut c = &b[pos..];
    MetadataKey::deserialize(&mut c).ok().map(|_| c.len())
}

/// Relies on borsh decoding of the registry's `Data`: the slice handed in only advances.
#[verifier::external_body]
fn decode_data(b: &[u8], pos: usize) -> (r: Option<usize>)
    requires
        pos <= b@.len(),
    ensures
        r == rest_after_data(suffix(b@, pos as int)),
        rest_ok(r, suffix(b@, pos as int)),
{
    let mut c = &b[pos..];
    Data::deserialize(&mut c).ok().map(|_| c.len())
}

/// Relies on borsh decoding of `Option<TokenStandard>`, an enum of 6 unit variants.
#[verifier::external_body]
fn decode_token_standard(b: &[u8], pos: usize) -> (r: Option<usize>)
    requires
        pos <= b@.len(),
    ensures
        r == rest_after_token_standard(suffix(b@, pos as int)),
        rest_ok(r, suffix(b@, pos as int)),
{
    let mut c = &b[pos..];
    Option::<TokenStandard>::deserialize(&mut c).ok().map(|_| c.len())
}

/// Relies on borsh decoding of `Option<Collection>`: a bool and a key.
#[verifier::external_body]
fn decode_collection(b: &[u8], pos: usize) -> (r: Option<usize>)
    requires
        pos <= b@.len(),
    ensures
        r == rest_after_collection(suffix(b@, pos as int)),
        rest_ok(r, suffix(b@, pos as int)),
{
    let mut c = &b[pos..];
    Option::<Collection>::deserialize(&mut c).ok().map(|_| c.len())
}

/// Relies on borsh decoding of `Option<Uses>`: a 3-variant use method and two `u64`.
#[verifier::external_body]
fn decode_uses(b: &[u8], pos: usize) -> (r: Option<usize>)
    requires
        pos <= b@.len(),
    ensures
        r == rest_after_uses(suffix(b@, pos as int)),
        rest_ok(r, suffix(b@, pos as int)),
{
    let mut c = &b[pos..];
    Option::<Uses>::deserialize(&mut c).ok().map(|_| c.len())
}

/// Relies on borsh decoding of `CollectionDetails`: `V1 { size: u64 }` or `V2 { padding: [u8; 8] }`.
#[verifier::external_body]
fn decode_collection_details(b: &[u8], pos: usize, end: usize) -> (r: Option<usize>)
    requires
        pos <= end <= b@.len(),
    ensures
        r == rest_after_collection_details(b@.subrange(pos as int, end as int)),
        rest_ok(r, b@.subrange(pos as int, end as int)),
{
    let mut c = &b[pos..end];
    CollectionDetails::deserialize(&mut c).ok().map(|_| c.len())
}

/// Relies on borsh decoding of `ProgrammableConfig`: `V1 { rule_set: Option<Pubkey> }`.
#[verifier::external_body]
fn decode_programmable_config(b: &[u8], pos: usize) -> (r: Option<usize>)
    requires
        pos <= b@.len(),
    ensures
        r == rest_after_programmable_config(suffix(b@, pos as int)),
        rest_ok(r, suffix(b@, pos as int)),
{
    let mut c = &b[pos..];
    ProgrammableConfig::deserialize(&mut c).ok().map(|_| c.len())
}

/// Relies on `Metadata::safe_deserialize`: whether the record decodes, and
/// whether its inline collection details are then present.
#[verifier::external_body]
fn decode_metadata_details(b: &[u8]) -> (r: Option<bool>)
    ensures
        r == metadata_details_present(b@),
{
    MetadataAccount::safe_deserialize(b).ok().map(|m| m.collection_details.is_some())
}

/// Relies on `ArrayDiscriminator::new_with_hash_input`: eight bytes that
/// depend on the string alone.
#[verifier::external_body]
fn hash_discriminator(input: &str) -> (r: [u8; 8])
    ensures
        r@ == discriminator_of(input@),
{
    ArrayDiscriminator::new_with_hash_input(input).into()
}

/// Position after a step that left `r` bytes of `b`.
pub open spec fn via(b: Seq<u8>, r: Option<usize>) -> Option<int> {
    match r {
        Some(n) => Some(b.len() - n),
        None => None,
    }
}

/// Position after `n` more bytes, if `b` holds them.
pub open spec fn skip(b: Seq<u8>, p: Option<int>, n: int) -> Option<int> {
    match p {
        Some(q) => if q + n <= b.len() { Some(q + n) } else { None },
        None => None,
    }
}

/// Position after a boolean byte (0 or 1).
pub open spec fn skip_bool(b: Seq<u8>, p: Option<int>) -> Option<int> {
    match p {
        Some(q) => if 0 <= q < b.len() && (b[q] == 0 || b[q] == 1) { Some(q + 1) } else { None },
        None => None,
    }
}

/// Position after an optional byte: a presence byte (0 or 1), then the byte if present.
pub open spec fn skip_opt_u8(b: Seq<u8>, p: Option<int>) -> Option<int> {
    match p {
        Some(q) => if 0 <= q < b.len() && b[q] == 0 {
            Some(q + 1)
        } else if 0 <= q && q + 1 < b.len() && b[q] == 1 {
            Some(q + 2)
        } else {
            None
        },
        None => None,
    }
}

/// Position where the two trailing optional fields of a metadata record begin:
/// after the key, update authority, mint, data block, two flags, edition
/// nonce, token standard, collection and uses.
pub open spec fn prefix_end(b: Seq<u8>) -> Option<int> {
    let p1 = via(b, rest_after_key(suffix(b, 0)));
    let p3 = skip(b, skip(b, p1, 32), 32);
    let p4 = match p3 {
        Some(q) => via(b, rest_after_data(suffix(b, q))),
        None => None,
    };
    let p7 = skip_opt_u8(b, skip_bool(b, skip_bool(b, p4)));
    let p8 = match p7 {
        Some(q) => via(b, rest_after_token_standard(suffix(b, q))),
        None => None,
    };
    let p9 = match p8 {
        Some(q) => via(b, rest_after_collection(suffix(b, q))),
        None => None,
    };
    match p9 {
        Some(q) => via(b, rest_after_uses(suffix(b, q))),
        None => None,
    }
}

/// Where the walk is after one trailing optional at `p`, or `None` when it
/// stops there: no byte left, an unknown presence byte, or a payload that
/// does not decode.
pub open spec fn past_optional(b: Seq<u8>, p: int, details: bool) -> Option<int> {
    if p >= b.len() {
        None
    } else if b[p] == 0 {
        Some(p + 1)
    } else if b[p] == 1 {
        if details {
            via(b, rest_after_collection_details(suffix(b, p + 1)))
        } else {
            via(b, rest_after_programmable_config(suffix(b, p + 1)))
        }
    } else {
        None
    }
}

/// Length of the part of a metadata record that the inline fields take: the
/// walk past the prefix and the two trailing optionals, stopping at the first
/// optional that does not decode.
pub open spec fn spec_base_len(b: Seq<u8>) -> Option<int> {
    match prefix_end(b) {
        None => None,
        Some(p) => Some(
            match past_optional(b, p, true) {
                None => p,
                Some(q) => match past_optional(b, q, false) {
                    None => q,
                    Some(s) => s,
                },
            },
        ),
    }
}

fn step(b: &[u8], r: Option<usize>) -> (p: Option<usize>)
    requires
        r matches Some(n) ==> n <= b@.len(),
    ensures
        p matches Some(q) ==> q <= b@.len(),
        (match p { Some(q) => Some(q as int), None => None }) == via(b@, r),
{
    match r {
        Some(n) => Some(b.len() - n),
        None => None,
    }
}

fn step_optional(b: &[u8], p: usize, details: bool) -> (r: Option<usize>)
    requires
        p <= b@.len(),
    ensures
        r matches Some(q) ==> p < q <= b@.len(),
        (match r { Some(q) => Some(q as int), None => None }) == past_optional(b@, p as int, details),
{
    if p >= b.len() {
        return None;
    }
    if b[p] == 0 {
        return Some(p + 1);
    }
    if b[p] == 1 {
        let rest = if details {
            decode_collection_details(b, p + 1, b.len())
        } else {
            decode_programmable_config(b, p + 1)
        };
        return step(b, rest);
    }
    None
}

/// Length of the inline part of a metadata record, or `None` when its fixed
/// prefix does not decode.
pub fn metadata_account_base_len(account_data: &[u8]) -> (r: Option<usize>)
    ensures
        (match r { Some(q) => Some(q as int), None => None }) == spec_base_len(account_data@),
        r matches Some(q) ==> q <= account_data@.len(),
        r matches Some(q) ==> prefix_end(account_data@) matches Some(p) && p <= q,
{
    let b = account_data;
    let p1 = step(b, decode_key(b, 0))?;
    if b.len() - p1 < 64 {
        return None;
    }
    let p3 = p1 + 64;
    let p4 = step(b, decode_data(b, p3))?;
    if p4 >= b.len() || (b[p4] != 0 && b[p4] != 1) {
        return None;
    }
    let p5 = p4 + 1;
    if p5 >= b.len() || (b[p5] != 0 && b[p5] != 1) {
        return None;
    }
    let p6 = p5 + 1;
    let p7 = if p6 < b.len() && b[p6] == 0 {
        p6 + 1
    } else if p6 < b.len() && b.len() - p6 > 1 && b[p6] == 1 {
        p6 + 2
    } else {
        return None;
    };
    let p8 = step(b, decode_token_standard(b, p7))?;
    let p9 = step(b, decode_collection(b, p8))?;
    let p10 = step(b, decode_uses(b, p9))?;
    assert(prefix_end(b@) == Some(p10 as int));
    match step_optional(b, p10, true) {
        None => Some(p10),
        Some(q) => match step_optional(b, q, false) {
            None => Some(q),
            Some(s) => Some(s),
        },
    }
}

/// Length field of the entry at `i` (four little-endian bytes from `i + 8`).
pub open spec fn entry_len(t: Seq<u8>, i: int) -> int {
    t[i + 8] + 256 * t[i + 9] + 65536 * t[i + 10] + 16777216 * t[i + 11]
}

pub open spec fn uninitialized_discriminator() -> Seq<u8> {
    Seq::new(8, |k: int| 0u8)
}

/// The tagged region from `i` on can be walked entry by entry: it ends at its
/// end, at an all-zero discriminator, or in fewer than eight trailing zero
/// bytes, and no entry's value runs past it.
pub open spec fn entries_well_formed(t: Seq<u8>, i: int) -> bool
    decreases t.len() - i,
{
    if i < 0 || i >= t.len() {
        true
    } else if t.len() < i + 8 {
        forall|k: int| i <= k < t.len() ==> t[k] == 0
    } else if t.subrange(i, i + 8) == uninitialized_discriminator() {
        true
    } else if t.len() < i + 12 {
        false
    } else if i + 12 + entry_len(t, i) > t.len() {
        false
    } else {
        entries_well_formed(t, i + 12 + entry_len(t, i))
    }
}

/// Start of the first entry from `i` on tagged `d`, found before an all-zero
/// discriminator.
pub open spec fn find_entry(t: Seq<u8>, d: Seq<u8>, i: int) -> Option<int>
    decreases t.len() - i,
{
    if i < 0 || i >= t.len() || t.len() < i + 12 {
        None
    } else if t.subrange(i, i + 8) == d {
        Some(i)
    } else if t.subrange(i, i + 8) == uninitialized_discriminator() {
        None
    } else if i + 12 + entry_len(t, i) > t.len() {
        None
    } else {
        find_entry(t, d, i + 12 + entry_len(t, i))
    }
}

/// Value bytes of the first entry of the tagged region `t` tagged `d`.
pub open spec fn tagged_value(t: Seq<u8>, d: Seq<u8>) -> Option<Seq<u8>> {
    if !entries_well_formed(t, 0) {
        None
    } else {
        match find_entry(t, d, 0) {
            Some(i) => if i + 12 + entry_len(t, i) <= t.len() {
                Some(t.subrange(i + 12, i + 12 + entry_len(t, i)))
            } else {
                None
            },
            None => None,
        }
    }
}

/// Tag of the collection-details entry of the tagged region.
pub open spec fn collection_details_tag() -> Seq<u8> {
    discriminator_of("collection_details"@)
}

/// The value bytes of a tagged collection-details entry after the inline part
/// of the record, when that entry is there and decodes as collection details.
pub open spec fn spec_tlv_collection_details(b: Seq<u8>) -> Option<Seq<u8>> {
    match spec_base_len(b) {
        Some(base) => if base < b.len() {
            match tagged_value(suffix(b, base), collection_details_tag()) {
                Some(v) => if rest_after_collection_details(v) is Some { Some(v) } else { None },
                None => None,
            }
        } else {
            None
        },
        None => None,
    }
}

fn entry_len_at(b: &[u8], base: usize, i: usize) -> (r: u64)
    requires
        base <= b@.len(),
        i + 12 <= b@.len() - base,
    ensures
        r as int == entry_len(suffix(b@, base as int), i as int),
{
    let blen = b.len();
    let k = base + i + 8;
    (b[k] as u64) + 256 * (b[k + 1] as u64) + 65536 * (b[k + 2] as u64) + 16777216 * (b[k + 3] as u64)
}

fn tag_equals(b: &[u8], pos: usize, d: &[u8; 8]) -> (r: bool)
    requires
        pos + 8 <= b@.len(),
    ensures
        r == (b@.subrange(pos as int, pos + 8) == d@),
{
    let blen = b.len();
    let mut k: usize = 0;
    while k < 8
        invariant
            blen == b@.len(),
            pos + 8 <= b@.len(),
            k <= 8,
            forall|j: int| 0 <= j < k ==> b@[pos + j] == d@[j],
        decreases 8 - k,
    {
        if b[pos + k] != d[k] {
            assert(b@.subrange(pos as int, pos + 8)[k as int] != d@[k as int]);
            return false;
        }
        k = k + 1;
    }
    assert(b@.subrange(pos as int, pos + 8) =~= d@);
    true
}

fn entries_ok(b: &[u8], base: usize) -> (r: bool)
    requires
        base <= b@.len(),
    ensures
        r == entries_well_formed(suffix(b@, base as int), 0),
{
    let ghost t = suffix(b@, base as int);
    let blen = b.len();
    let n = b.len() - base;
    let zero: [u8; 8] = [0u8; 8];
    assert(zero@ =~= uninitialized_discriminator());
    let mut i: usize = 0;
    while i < n
        invariant
            t == suffix(b@, base as int),
            n == t.len(),
            base + n == b@.len(),
            zero@ == uninitialized_discriminator(),
            b@.len() <= usize::MAX,
            entries_well_formed(t, 0) == entries_well_formed(t, i as int),
        decreases n - i,
    {
        if n - i < 8 {
            let mut k: usize = i;
            while k < n
                invariant
                    i <= k <= n,
                    t == suffix(b@, base as int),
                    n == t.len(),
                    base + n == b@.len(),
                    b@.len() <= usize::MAX,
                    i < n,
                    n - i < 8,
                    entries_well_formed(t, 0) == entries_well_formed(t, i as int),
                    forall|j: int| i <= j < k ==> t[j] == 0,
                decreases n - k,
            {
                if b[base + k] != 0 {
                    assert(t[k as int] != 0);
                    return false;
                }
                k = k + 1;
            }
            return true;
        }
        assert(b@.subrange(base + i, base + i + 8) =~= t.subrange(i as int, i + 8));
        if tag_equals(b, base + i, &zero) {
            return true;
        }
        if n - i < 12 {
            return false;
        }
        let len = entry_len_at(b, base, i);
        if len > (n - i - 12) as u64 {
            return false;
        }
        i = i + 12 + len as usize;
    }
    true
}

fn find_tagged(b: &[u8], base: usize, d: &[u8; 8]) -> (r: Option<usize>)
    requires
        base <= b@.len(),
    ensures
        (match r { Some(q) => Some(q as int), None => None }) == find_entry(suffix(b@, base as int), d@, 0),
        r matches Some(q) ==> q + 12 <= b@.len() - base,
{
    let ghost t = suffix(b@, base as int);
    let blen = b.len();
    let n = b.len() - base;
    let zero: [u8; 8] = [0u8; 8];
    assert(zero@ =~= uninitialized_discriminator());
    let mut i: usize = 0;
    while i < n
        invariant
            t == suffix(b@, base as int),
            n == t.len(),
            base + n == b@.len(),
            zero@ == uninitialized_discriminator(),
            b@.len() <= usize::MAX,
            find_entry(t, d@, 0) == find_entry(t, d@, i as int),
        decreases n - i,
    {
        if n - i < 12 {
            return None;
        }
        assert(b@.subrange(base + i, base + i + 8) =~= t.subrange(i as int, i + 8));
        if tag_equals(b, base + i, d) {
            return Some(i);
        }
        if tag_equals(b, base + i, &zero) {
            return None;
        }
        let len = entry_len_at(b, base, i);
        if len >= (n - i - 12) as u64 {
            proof {
                let next = i + 12 + entry_len(t, i as int);
                assert(next >= t.len());
                assert(find_entry(t, d@, next) == None::<int>);
            }
            return None;
        }
        i = i + 12 + len as usize;
    }
    None
}

/// The value bytes of the collection-details entry of the tagged region that
/// follows the inline part of a metadata record, when it is there and decodes.
pub fn read_collection_details_from_tlv(account_data: &[u8]) -> (r: Option<Vec<u8>>)
    ensures
        (match r { Some(v) => Some(v@), None => None }) == spec_tlv_collection_details(account_data@),
{
    let b = account_data;
    let base = metadata_account_base_len(b)?;
    if base >= b.len() {
        return None;
    }
    if !entries_ok(b, base) {
        return None;
    }
    let d = hash_discriminator("collection_details");
    let i = find_tagged(b, base, &d)?;
    let len = entry_len_at(b, base, i);
    if len > (b.len() - base - i - 12) as u64 {
        return None;
    }
    let start = base + i + 12;
    let end = start + len as usize;
    let ghost t = suffix(b@, base as int);
    assert(b@.subrange(start as int, end as int) =~= t.subrange(i + 12, i + 12 + len));
    decode_collection_details(b, start, end)?;
    let mut v: Vec<u8> = Vec::new();
    let mut k: usize = start;
    while k < end
        invariant
            start <= k <= end <= b@.len(),
            v@ =~= b@.subrange(start as int, k as int),
        decreases end - k,
    {
        v.push(b[k]);
        k = k + 1;
    }
    Some(v)
}

/// Whether the record decodes as a metadata record.
pub fn metadata_is_decodable(account_data: &[u8]) -> (r: bool)
    ensures
        r == (metadata_details_present(account_data@) is Some),
{
    decode_metadata_details(account_data).is_some()
}

/// Whether the collection is sized: its inline collection details are
/// present, or a tagged collection-details entry follows the inline part.
pub open spec fn spec_is_sized_collection(b: Seq<u8>) -> Result<bool, ErrorCode> {
    match metadata_details_present(b) {
        None => Err(ErrorCode::InvalidCollectionMetadataAccount),
        Some(inline) => Ok(inline || spec_tlv_collection_details(b) is Some),
    }
}

/// Decides between the sized and the unsized collection verification; a record
/// that does not decode as metadata is refused.
pub fn is_sized_collection(account_data: &[u8]) -> (r: Result<bool, ErrorCode>)
    ensures
        r == spec_is_sized_collection(account_data@),
{
    match decode_metadata_details(account_data) {
        None => Err(ErrorCode::InvalidCollectionMetadataAccount),
        Some(inline) => {
            let tlv = read_collection_details_from_tlv(account_data);
            Ok(inline || tlv.is_some())
        },
    }
}

} // verus!
