//! The manifest's byte layout on its account.
use crate::address::Address;
use crate::manifest::ObjectManifest;
use crate::programs::spec_u64_le;
use vstd::prelude::*;

verus! {

broadcast use vstd::array::group_array_axioms;

/// Size of the record after the account's tag.
pub const RECORD_LEN: usize = 272;

/// Size of the account's type tag.
pub const TAG_LEN: usize = 8;

/// The two little-endian bytes of `x`.
pub open spec fn spec_u16_le(x: u16) -> Seq<u8> {
    seq![(x & 0xff) as u8, ((x >> 8u16) & 0xff) as u8]
}

/// `s` holds `m` in the record layout: `config` at 0, `object_id` at 32,
/// `mint` at 40, `bump` at 72, `mint_bump` at 73, `is_active` at 74, `minted`
/// at 75, `initialized` at 76, `manifest_hash` at 77, `metadata_uri` at 109,
/// `metadata_uri_padding` at 237, `metadata_uri_length` at 238, `creator` at
/// 240, numbers little-endian.
pub open spec fn spec_layout(m: ObjectManifest, s: Seq<u8>) -> bool {
    &&& s.len() == RECORD_LEN
    &&& s.subrange(0, 32) == m.config.bytes@
    &&& s.subrange(32, 40) == spec_u64_le(m.object_id)
    &&& s.subrange(40, 72) == m.mint.bytes@
    &&& s[72] == m.bump
    &&& s[73] == m.mint_bump
    &&& s[74] == m.is_active
    &&& s[75] == m.minted
    &&& s[76] == m.initialized
    &&& s.subrange(77, 109) == m.manifest_hash@
    &&& s.subrange(109, 237) == m.metadata_uri@
    &&& s[237] == m.metadata_uri_padding
    &&& s.subrange(238, 240) == spec_u16_le(m.metadata_uri_length)
    &&& s.subrange(240, 272) == m.creator.bytes@
}

/// The account's type tag: the first eight bytes of the SHA-256 digest of
/// `account:ObjectManifest`.
pub open spec fn spec_manifest_tag() -> Seq<u8> {
    seq![251, 149, 135, 70, 201, 143, 251, 105]
}

/// `data` zero-extended to at least `n` bytes.
pub open spec fn zero_extended(data: Seq<u8>, n: int) -> Seq<u8> {
    if data.len() >= n { data } else { data + Seq::new((n - data.len()) as nat, |i: int| 0u8) }
}

/// `data` is a manifest account holding the tag, then `m`, then eight zero bytes.
pub open spec fn spec_account_data(m: ObjectManifest, data: Seq<u8>) -> bool {
    &&& data.len() == TAG_LEN + RECORD_LEN + 8
    &&& data.subrange(0, 8) == spec_manifest_tag()
    &&& spec_layout(m, data.subrange(8, 280))
    &&& data.subrange(280, 288) == Seq::new(8, |i: int| 0u8)
}

proof fn lemma_u64_le(x: u64, y: u64)
    ensures
        spec_u64_le(x) == spec_u64_le(y) ==> x == y,
{
    if spec_u64_le(x) == spec_u64_le(y) {
        assert(spec_u64_le(x)[0] == spec_u64_le(y)[0]);
        assert(spec_u64_le(x)[1] == spec_u64_le(y)[1]);
        assert(spec_u64_le(x)[2] == spec_u64_le(y)[2]);
        assert(spec_u64_le(x)[3] == spec_u64_le(y)[3]);
        assert(spec_u64_le(x)[4] == spec_u64_le(y)[4]);
        assert(spec_u64_le(x)[5] == spec_u64_le(y)[5]);
        assert(spec_u64_le(x)[6] == spec_u64_le(y)[6]);
        assert(spec_u64_le(x)[7] == spec_u64_le(y)[7]);
        assert(x == y) by (bit_vector)
            requires
                (x & 0xff) as u8 == (y & 0xff) as u8,
                ((x >> 8u64) & 0xff) as u8 == ((y >> 8u64) & 0xff) as u8,
                ((x >> 16u64) & 0xff) as u8 == ((y >> 16u64) & 0xff) as u8,
                ((x >> 24u64) & 0xff) as u8 == ((y >> 24u64) & 0xff) as u8,
                ((x >> 32u64) & 0xff) as u8 == ((y >> 32u64) & 0xff) as u8,
                ((x >> 40u64) & 0xff) as u8 == ((y >> 40u64) & 0xff) as u8,
                ((x >> 48u64) & 0xff) as u8 == ((y >> 48u64) & 0xff) as u8,
                ((x >> 56u64) & 0xff) as u8 == ((y >> 56u64) & 0xff) as u8,
        ;
    }
}

proof fn lemma_u16_le(x: u16, y: u16)
    ensures
        spec_u16_le(x) == spec_u16_le(y) ==> x == y,
{
    if spec_u16_le(x) == spec_u16_le(y) {
        assert(spec_u16_le(x)[0] == spec_u16_le(y)[0]);
        assert(spec_u16_le(x)[1] == spec_u16_le(y)[1]);
        assert(x == y) by (bit_vector)
            requires
                (x & 0xff) as u8 == (y & 0xff) as u8,
                ((x >> 8u16) & 0xff) as u8 == ((y >> 8u16) & 0xff) as u8,
        ;
    }
}

/// A record layout holds one manifest only: reading back what was written
/// gives the manifest that was written.
pub proof fn lemma_layout_unique(m1: ObjectManifest, m2: ObjectManifest, s: Seq<u8>)
    requires
        spec_layout(m1, s),
        spec_layout(m2, s),
    ensures
        m1 == m2,
{
    lemma_u64_le(m1.object_id, m2.object_id);
    lemma_u16_le(m1.metadata_uri_length, m2.metadata_uri_length);
    assert(m1.config.bytes =~= m2.config.bytes);
    assert(m1.mint.bytes =~= m2.mint.bytes);
    assert(m1.creator.bytes =~= m2.creator.bytes);
    assert(m1.manifest_hash =~= m2.manifest_hash);
    assert(m1.metadata_uri =~= m2.metadata_uri);
}

fn push_all(out: &mut Vec<u8>, b: &[u8])
    ensures
        final(out)@ == old(out)@ + b@,
{
    let mut i: usize = 0;
    while i < b.len()
        invariant
            i <= b@.len(),
            out@ == old(out)@ + b@.subrange(0, i as int),
        decreases b@.len() - i,
    {
        out.push(b[i]);
        i = i + 1;
        assert(b@.subrange(0, i as int) == b@.subrange(0, i - 1) + seq![b@[i - 1]]);
    }
    assert(b@.subrange(0, b@.len() as int) =~= b@);
}

fn read32(b: &[u8], off: usize) -> (r: [u8; 32])
    requires
        off + 32 <= b@.len(),
    ensures
        r@ == b@.subrange(off as int, off + 32),
{
    let blen = b.len();
    let mut r = [0u8; 32];
    let mut i: usize = 0;
    while i < 32
        invariant
            blen == b@.len(),
            off + 32 <= b@.len(),
            i <= 32,
            forall|j: int| 0 <= j < i ==> r@[j] == b@[off + j],
        decreases 32 - i,
    {
        r[i] = b[off + i];
        i = i + 1;
    }
    assert(r@ =~= b@.subrange(off as int, off + 32));
    r
}

fn read128(b: &[u8], off: usize) -> (r: [u8; 128])
    requires
        off + 128 <= b@.len(),
    ensures
        r@ == b@.subrange(off as int, off + 128),
{
    let blen = b.len();
    let mut r = [0u8; 128];
    let mut i: usize = 0;
    while i < 128
        invariant
            blen == b@.len(),
            off + 128 <= b@.len(),
            i <= 128,
            forall|j: int| 0 <= j < i ==> r@[j] == b@[off + j],
        decreases 128 - i,
    {
        r[i] = b[off + i];
        i = i + 1;
    }
    assert(r@ =~= b@.subrange(off as int, off + 128));
    r
}

impl ObjectManifest {
    /// The record in its byte layout.
    pub fn to_bytes(&self) -> (r: Vec<u8>)
        ensures
            spec_layout(*self, r@),
    {
        let mut out: Vec<u8> = Vec::new();
        push_all(&mut out, self.config.bytes.as_slice());
        let x = self.object_id;
        let id: [u8; 8] = [
            (x & 0xff) as u8,
            ((x >> 8u64) & 0xff) as u8,
            ((x >> 16u64) & 0xff) as u8,
            ((x >> 24u64) & 0xff) as u8,
            ((x >> 32u64) & 0xff) as u8,
            ((x >> 40u64) & 0xff) as u8,
            ((x >> 48u64) & 0xff) as u8,
            ((x >> 56u64) & 0xff) as u8,
        ];
        assert(id@ =~= spec_u64_le(x));
        push_all(&mut out, id.as_slice());
        push_all(&mut out, self.mint.bytes.as_slice());
        out.push(self.bump);
        out.push(self.mint_bump);
        out.push(self.is_active);
        out.push(self.minted);
        out.push(self.initialized);
        push_all(&mut out, self.manifest_hash.as_slice());
        push_all(&mut out, self.metadata_uri.as_slice());
        out.push(self.metadata_uri_padding);
        let l = self.metadata_uri_length;
        let len: [u8; 2] = [(l & 0xff) as u8, ((l >> 8u16) & 0xff) as u8];
        assert(len@ =~= spec_u16_le(l));
        push_all(&mut out, len.as_slice());
        push_all(&mut out, self.creator.bytes.as_slice());
        assert(out@.subrange(0, 32) =~= self.config.bytes@);
        assert(out@.subrange(32, 40) =~= spec_u64_le(x));
        assert(out@.subrange(40, 72) =~= self.mint.bytes@);
        assert(out@.subrange(77, 109) =~= self.manifest_hash@);
        assert(out@.subrange(109, 237) =~= self.metadata_uri@);
        assert(out@.subrange(238, 240) =~= spec_u16_le(l));
        assert(out@.subrange(240, 272) =~= self.creator.bytes@);
        out
    }

    /// Reads a record from the first 272 bytes of `b`.
    pub fn from_bytes(b: &[u8]) -> (r: ObjectManifest)
        requires
            b@.len() >= RECORD_LEN,
        ensures
            spec_layout(r, b@.subrange(0, RECORD_LEN as int)),
    {
        let b0 = b[32] as u64;
        let b1 = b[33] as u64;
        let b2 = b[34] as u64;
        let b3 = b[35] as u64;
        let b4 = b[36] as u64;
        let b5 = b[37] as u64;
        let b6 = b[38] as u64;
        let b7 = b[39] as u64;
        let x: u64 = b0 | (b1 << 8u64) | (b2 << 16u64) | (b3 << 24u64) | (b4 << 32u64) | (b5 << 40u64)
            | (b6 << 48u64) | (b7 << 56u64);
        assert(spec_u64_le(x) =~= b@.subrange(32, 40)) by {
            assert((x & 0xff) as u8 == b0 as u8 && ((x >> 8u64) & 0xff) as u8 == b1 as u8
                && ((x >> 16u64) & 0xff) as u8 == b2 as u8 && ((x >> 24u64) & 0xff) as u8 == b3 as u8
                && ((x >> 32u64) & 0xff) as u8 == b4 as u8 && ((x >> 40u64) & 0xff) as u8 == b5 as u8
                && ((x >> 48u64) & 0xff) as u8 == b6 as u8 && ((x >> 56u64) & 0xff) as u8 == b7 as u8) by (bit_vector)
                requires
                    b0 < 256 && b1 < 256 && b2 < 256 && b3 < 256 && b4 < 256 && b5 < 256 && b6 < 256 && b7 < 256,
                    x == b0 | (b1 << 8u64) | (b2 << 16u64) | (b3 << 24u64) | (b4 << 32u64) | (b5 << 40u64)
                        | (b6 << 48u64) | (b7 << 56u64),
            ;
        }
        let l0 = b[238] as u16;
        let l1 = b[239] as u16;
        let l: u16 = l0 | (l1 << 8u16);
        assert(spec_u16_le(l) =~= b@.subrange(238, 240)) by {
            assert((l & 0xff) as u8 == l0 as u8 && ((l >> 8u16) & 0xff) as u8 == l1 as u8) by (bit_vector)
                requires
                    l0 < 256 && l1 < 256,
                    l == l0 | (l1 << 8u16),
            ;
        }
        let r = ObjectManifest {
            config: Address { bytes: read32(b, 0) },
            object_id: x,
            mint: Address { bytes: read32(b, 40) },
            bump: b[72],
            mint_bump: b[73],
            is_active: b[74],
            minted: b[75],
            initialized: b[76],
            manifest_hash: read32(b, 77),
            metadata_uri: read128(b, 109),
            metadata_uri_padding: b[237],
            metadata_uri_length: l,
            creator: Address { bytes: read32(b, 240) },
        };
        let ghost s = b@.subrange(0, RECORD_LEN as int);
        assert(s.subrange(0, 32) =~= b@.subrange(0, 32));
        assert(s.subrange(32, 40) =~= b@.subrange(32, 40));
        assert(s.subrange(40, 72) =~= b@.subrange(40, 72));
        assert(s.subrange(77, 109) =~= b@.subrange(77, 109));
        assert(s.subrange(109, 237) =~= b@.subrange(109, 237));
        assert(s.subrange(238, 240) =~= b@.subrange(238, 240));
        assert(s.subrange(240, 272) =~= b@.subrange(240, 272));
        r
    }

    /// The manifest account's data: the type tag, the record, eight zero bytes.
    pub fn to_account_data(&self) -> (r: Vec<u8>)
        ensures
            spec_account_data(*self, r@),
    {
        let mut out: Vec<u8> = vec![251, 149, 135, 70, 201, 143, 251, 105];
        assert(out@ =~= spec_manifest_tag());
        let rec = self.to_bytes();
        push_all(&mut out, rec.as_slice());
        let pad = [0u8; 8];
        push_all(&mut out, pad.as_slice());
        assert(out@.subrange(0, 8) =~= spec_manifest_tag());
        assert(out@.subrange(8, 280) =~= rec@);
        assert(out@.subrange(280, 288) =~= Seq::new(8, |i: int| 0u8));
        out
    }

    /// The record a manifest account holds, read as if the account were grown
    /// to its full size with zero bytes; all zero for an empty account.
    pub fn from_account_data(data: &[u8]) -> (r: ObjectManifest)
        ensures
            spec_layout(r, zero_extended(data@, 280).subrange(8, 280)),
    {
        let mut buf: Vec<u8> = Vec::new();
        let mut i: usize = 8;
        while i < 280
            invariant
                8 <= i <= 280,
                buf@ == zero_extended(data@, 280).subrange(8, i as int),
            decreases 280 - i,
        {
            let v = if i < data.len() { data[i] } else { 0u8 };
            buf.push(v);
            i = i + 1;
            assert(buf@ =~= zero_extended(data@, 280).subrange(8, i as int));
        }
        let r = ObjectManifest::from_bytes(buf.as_slice());
        assert(buf@.subrange(0, RECORD_LEN as int) =~= buf@);
        r
    }
}

/// Writing a manifest to its account and reading it back gives the same
/// manifest.
pub proof fn lemma_account_round_trip(m: ObjectManifest, data: Seq<u8>, n: ObjectManifest)
    requires
        spec_account_data(m, data),
        spec_layout(n, zero_extended(data, 280).subrange(8, 280)),
    ensures
        n == m,
{
    lemma_layout_unique(m, n, data.subrange(8, 280));
}

} // verus!
