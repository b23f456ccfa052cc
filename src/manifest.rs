//! The per-object manifest record and its transitions.
use crate::address::Address;
use crate::error::ErrorCode;
use vstd::prelude::*;
use vstd::string::StringSliceAdditionalSpecFns;
use vstd::utf8::{decode_utf8, encode_utf8_valid_utf8, valid_utf8};

verus! {

/// Capacity of the URI buffer held by a manifest.
pub const MAX_URI_LENGTH: usize = 128;

/// Persistent record describing one object.
///
/// Byte layout (little-endian, no implicit padding, 272 bytes): `config` at 0,
/// `object_id` at 32, `mint` at 40, `bump` at 72, `mint_bump` at 73,
/// `is_active` at 74, `minted` at 75, `initialized` at 76, `manifest_hash` at
/// 77, `metadata_uri` at 109, `metadata_uri_padding` at 237,
/// `metadata_uri_length` at 238 and `creator` at 240. On the account it
/// follows an 8-byte type tag.
#[derive(Clone, Copy, Debug)]
pub struct ObjectManifest {
    pub config: Address,
    pub object_id: u64,
    pub mint: Address,
    pub bump: u8,
    pub mint_bump: u8,
    pub is_active: u8,
    pub minted: u8,
    pub initialized: u8,
    pub manifest_hash: [u8; 32],
    pub metadata_uri: [u8; 128],
    pub metadata_uri_padding: u8,
    pub metadata_uri_length: u16,
    pub creator: Address,
}

/// Relies on `String::from_utf8`: it succeeds exactly on valid UTF-8, and the
/// string then holds the decoded characters.
#[verifier::external_body]
fn string_from_utf8(v: Vec<u8>) -> (r: Option<String>)
    ensures
        r is Some <==> valid_utf8(v@),
        r matches Some(s) ==> s@ == decode_utf8(v@),
{
    String::from_utf8(v).ok()
}

/// The bytes of a string.
pub open spec fn str_bytes(s: &str) -> Seq<u8> {
    s.spec_bytes()
}

impl ObjectManifest {
    /// The stored URI fits the buffer.
    pub open spec fn wf(&self) -> bool {
        self.metadata_uri_length as int <= MAX_URI_LENGTH
    }

    /// The stored URI: the first `metadata_uri_length` bytes of the buffer.
    pub open spec fn uri(&self) -> Seq<u8> {
        self.metadata_uri@.subrange(0, self.metadata_uri_length as int)
    }

    /// The buffer past the stored URI is zero.
    pub open spec fn uri_tail_zero(&self) -> bool {
        forall|i: int| self.metadata_uri_length <= i < MAX_URI_LENGTH ==> self.metadata_uri@[i] == 0
    }

    /// The stored URI as text.
    pub fn metadata_uri_string(&self) -> (r: String)
        requires
            self.wf(),
            valid_utf8(self.uri()),
        ensures
            r@ == decode_utf8(self.uri()),
    {
        match string_from_utf8(self.metadata_uri_bytes()) {
            Some(s) => s,
            None => String::new(),
        }
    }

    pub open spec fn spec_is_active(&self) -> bool {
        self.is_active != 0
    }

    pub open spec fn spec_minted(&self) -> bool {
        self.minted != 0
    }

    pub open spec fn spec_initialized(&self) -> bool {
        self.initialized != 0
    }

    /// Everything but the three flags, the hash and the URI buffer is equal.
    pub open spec fn same_binding(&self, other: &ObjectManifest) -> bool {
        &&& self.config == other.config
        &&& self.object_id == other.object_id
        &&& self.mint == other.mint
        &&& self.bump == other.bump
        &&& self.mint_bump == other.mint_bump
        &&& self.creator == other.creator
    }

    /// A record with every byte zero, as a freshly created account holds.
    pub fn zeroed() -> (r: ObjectManifest)
        ensures
            r.wf(),
            r.uri_tail_zero(),
            r.uri() == Seq::<u8>::empty(),
            !r.spec_is_active(),
            !r.spec_minted(),
            !r.spec_initialized(),
            r.object_id == 0,
            r.bump == 0,
            r.mint_bump == 0,
            r.metadata_uri_padding == 0,
            r.config.bytes@ == Seq::new(32, |i: int| 0u8),
            r.mint.bytes@ == Seq::new(32, |i: int| 0u8),
            r.creator.bytes@ == Seq::new(32, |i: int| 0u8),
            r.manifest_hash@ == Seq::new(32, |i: int| 0u8),
            r.metadata_uri@ == Seq::new(128, |i: int| 0u8),
    {
        let r = ObjectManifest {
            config: Address { bytes: [0u8; 32] },
            object_id: 0,
            mint: Address { bytes: [0u8; 32] },
            bump: 0,
            mint_bump: 0,
            is_active: 0,
            minted: 0,
            initialized: 0,
            manifest_hash: [0u8; 32],
            metadata_uri: [0u8; 128],
            metadata_uri_padding: 0,
            metadata_uri_length: 0,
            creator: Address { bytes: [0u8; 32] },
        };
        assert(r.uri() =~= Seq::<u8>::empty());
        assert(r.config.bytes@ =~= Seq::new(32, |i: int| 0u8));
        assert(r.mint.bytes@ =~= Seq::new(32, |i: int| 0u8));
        assert(r.creator.bytes@ =~= Seq::new(32, |i: int| 0u8));
        assert(r.manifest_hash@ =~= Seq::new(32, |i: int| 0u8));
        assert(r.metadata_uri@ =~= Seq::new(128, |i: int| 0u8));
        r
    }

    pub fn metadata_uri_len(&self) -> (r: usize)
        ensures
            r == self.metadata_uri_length,
    {
        self.metadata_uri_length as usize
    }

    pub fn is_active(&self) -> (r: bool)
        ensures
            r == self.spec_is_active(),
    {
        self.is_active != 0
    }

    pub fn set_is_active(&mut self, value: bool)
        ensures
            *final(self) == (ObjectManifest { is_active: if value { 1 } else { 0 }, ..*old(self) }),
    {
        self.is_active = if value { 1 } else { 0 };
    }

    pub fn minted(&self) -> (r: bool)
        ensures
            r == self.spec_minted(),
    {
        self.minted != 0
    }

    pub fn set_minted(&mut self, value: bool)
        ensures
            *final(self) == (ObjectManifest { minted: if value { 1 } else { 0 }, ..*old(self) }),
    {
        self.minted = if value { 1 } else { 0 };
    }

    pub fn initialized(&self) -> (r: bool)
        ensures
            r == self.spec_initialized(),
    {
        self.initialized != 0
    }

    pub fn set_initialized(&mut self, value: bool)
        ensures
            *final(self) == (ObjectManifest { initialized: if value { 1 } else { 0 }, ..*old(self) }),
    {
        self.initialized = if value { 1 } else { 0 };
    }

    /// Whether the stored URI equals `uri`, byte for byte.
    pub fn metadata_uri_equals(&self, uri: &str) -> (r: bool)
        requires
            self.wf(),
        ensures
            r == (self.uri() == str_bytes(uri)),
    {
        self.uri_matches_bytes(uri.as_bytes())
    }

    /// Whether the stored URI equals `bytes`.
    pub fn uri_matches_bytes(&self, bytes: &[u8]) -> (r: bool)
        requires
            self.wf(),
        ensures
            r == (self.uri() == bytes@),
    {
        let len = self.metadata_uri_length as usize;
        if bytes.len() != len {
            return false;
        }
        let mut i: usize = 0;
        while i < len
            invariant
                len == self.metadata_uri_length,
                len <= MAX_URI_LENGTH,
                bytes@.len() == len,
                i <= len,
                forall|j: int| 0 <= j < i ==> self.metadata_uri@[j] == bytes@[j],
            decreases len - i,
        {
            if self.metadata_uri[i] != bytes[i] {
                assert(self.uri()[i as int] != bytes@[i as int]);
                return false;
            }
            i = i + 1;
        }
        assert(self.uri() =~= bytes@);
        true
    }

    /// The stored URI as owned bytes.
    pub fn metadata_uri_bytes(&self) -> (r: Vec<u8>)
        requires
            self.wf(),
        ensures
            r@ == self.uri(),
    {
        let len = self.metadata_uri_length as usize;
        let mut out: Vec<u8> = Vec::new();
        let mut i: usize = 0;
        while i < len
            invariant
                len == self.metadata_uri_length,
                len <= MAX_URI_LENGTH,
                i <= len,
                out@ =~= self.metadata_uri@.subrange(0, i as int),
            decreases len - i,
        {
            out.push(self.metadata_uri[i]);
            i = i + 1;
        }
        out
    }

    /// Replaces the stored URI with the bytes of `uri` and zeroes the rest of
    /// the buffer.
    pub fn set_metadata_uri(&mut self, uri: &str)
        requires
            str_bytes(uri).len() <= MAX_URI_LENGTH,
        ensures
            final(self).wf(),
            final(self).uri() == str_bytes(uri),
            valid_utf8(final(self).uri()),
            final(self).uri_tail_zero(),
            final(self).metadata_uri_padding == 0,
            final(self).same_binding(old(self)),
            final(self).is_active == old(self).is_active,
            final(self).minted == old(self).minted,
            final(self).initialized == old(self).initialized,
            final(self).manifest_hash == old(self).manifest_hash,
    {
        self.set_metadata_uri_bytes(uri.as_bytes());
        proof {
            encode_utf8_valid_utf8(uri@);
        }
    }

    /// Replaces the stored URI with `bytes` and zeroes the rest of the buffer.
    pub fn set_metadata_uri_bytes(&mut self, bytes: &[u8])
        requires
            bytes@.len() <= MAX_URI_LENGTH,
        ensures
            final(self).wf(),
            final(self).uri() == bytes@,
            final(self).uri_tail_zero(),
            final(self).metadata_uri_padding == 0,
            final(self).same_binding(old(self)),
            final(self).is_active == old(self).is_active,
            final(self).minted == old(self).minted,
            final(self).initialized == old(self).initialized,
            final(self).manifest_hash == old(self).manifest_hash,
    {
        let len = bytes.len();
        let mut buf: [u8; 128] = [0u8; 128];
        let mut i: usize = 0;
        while i < len
            invariant
                len == bytes@.len(),
                len <= MAX_URI_LENGTH,
                i <= len,
                forall|j: int| 0 <= j < i ==> buf@[j] == bytes@[j],
                forall|j: int| i <= j < MAX_URI_LENGTH ==> buf@[j] == 0,
            decreases len - i,
        {
            buf[i] = bytes[i];
            i = i + 1;
        }
        self.metadata_uri = buf;
        self.metadata_uri_padding = 0;
        self.metadata_uri_length = len as u16;
        assert(self.uri() =~= bytes@);
    }
}

/// Why touching `m` during a mint with these arguments is refused, if it is.
/// A first touch fixes the record; a later one must name the same object,
/// configuration, mint and hash, and a non-empty URI must equal the stored one.
pub open spec fn spec_touch_error(
    m: ObjectManifest,
    object_id: u64,
    config: Address,
    mint: Address,
    hash: Seq<u8>,
    uri: Seq<u8>,
) -> Option<ErrorCode> {
    if !m.spec_initialized() {
        if uri.len() > MAX_URI_LENGTH { Some(ErrorCode::UriTooLong) } else { None }
    } else if !m.spec_is_active() {
        Some(ErrorCode::ObjectInactive)
    } else if m.object_id != object_id {
        Some(ErrorCode::ObjectIdMismatch)
    } else if m.config.bytes@ != config.bytes@ {
        Some(ErrorCode::InvalidConfig)
    } else if m.mint.bytes@ != mint.bytes@ {
        Some(ErrorCode::MintMismatch)
    } else if m.manifest_hash@ != hash {
        Some(ErrorCode::ManifestMismatch)
    } else if m.metadata_uri_length as int > MAX_URI_LENGTH {
        Some(ErrorCode::UriTooLong)
    } else if uri.len() != 0 && uri.len() > MAX_URI_LENGTH {
        Some(ErrorCode::UriTooLong)
    } else if uri.len() != 0 && m.uri() != uri {
        Some(ErrorCode::ManifestMismatch)
    } else {
        None
    }
}

/// `n` is `m` after a successful touch: a first touch writes the bindings,
/// hash, URI and creator and marks the record active, initialized and not
/// minted; a later touch changes nothing.
pub open spec fn spec_touched(
    m: ObjectManifest,
    n: ObjectManifest,
    object_id: u64,
    config: Address,
    mint: Address,
    bump: u8,
    mint_bump: u8,
    hash: Seq<u8>,
    uri: Seq<u8>,
    creator: Address,
) -> bool {
    if !m.spec_initialized() {
        &&& n.config == config
        &&& n.object_id == object_id
        &&& n.mint == mint
        &&& n.bump == bump
        &&& n.mint_bump == mint_bump
        &&& n.is_active == 1
        &&& n.initialized == 1
        &&& n.minted == 0
        &&& n.manifest_hash@ == hash
        &&& n.wf()
        &&& n.uri() == uri
        &&& n.uri_tail_zero()
        &&& n.metadata_uri_padding == 0
        &&& n.creator == creator
    } else {
        n == m
    }
}

/// The manifest step of a mint: validates the record against the arguments and
/// writes it on first touch. Returns the new record and whether this touch
/// initialized it.
pub fn touch_manifest(
    m: &ObjectManifest,
    object_id: u64,
    config: &Address,
    mint: &Address,
    bump: u8,
    mint_bump: u8,
    hash: &[u8; 32],
    uri: &[u8],
    creator: &Address,
) -> (r: Result<(ObjectManifest, bool), ErrorCode>)
    ensures
        match r {
            Ok((n, fresh)) => spec_touch_error(*m, object_id, *config, *mint, hash@, uri@) is None
                && fresh == !m.spec_initialized()
                && spec_touched(*m, n, object_id, *config, *mint, bump, mint_bump, hash@, uri@, *creator),
            Err(e) => spec_touch_error(*m, object_id, *config, *mint, hash@, uri@) == Some(e),
        },
{
    if !m.initialized() {
        if uri.len() > MAX_URI_LENGTH {
            return Err(ErrorCode::UriTooLong);
        }
        let mut n = *m;
        n.config = *config;
        n.object_id = object_id;
        n.mint = *mint;
        n.bump = bump;
        n.mint_bump = mint_bump;
        n.set_is_active(true);
        n.set_initialized(true);
        n.set_minted(false);
        n.manifest_hash = *hash;
        n.set_metadata_uri_bytes(uri);
        n.creator = *creator;
        return Ok((n, true));
    }
    if !m.is_active() {
        return Err(ErrorCode::ObjectInactive);
    }
    if m.object_id != object_id {
        return Err(ErrorCode::ObjectIdMismatch);
    }
    if m.config != *config {
        return Err(ErrorCode::InvalidConfig);
    }
    if m.mint != *mint {
        return Err(ErrorCode::MintMismatch);
    }
    if !bytes32_eq(&m.manifest_hash, hash) {
        return Err(ErrorCode::ManifestMismatch);
    }
    if m.metadata_uri_len() > MAX_URI_LENGTH {
        return Err(ErrorCode::UriTooLong);
    }
    if uri.len() != 0 {
        if uri.len() > MAX_URI_LENGTH {
            return Err(ErrorCode::UriTooLong);
        }
        if !m.uri_matches_bytes(uri) {
            return Err(ErrorCode::ManifestMismatch);
        }
    }
    Ok((*m, false))
}

/// The owner-update step: rewrites hash, URI and active flag and keeps the
/// bindings and the minted and initialized flags.
pub open spec fn spec_owner_updated(m: ObjectManifest, n: ObjectManifest, hash: Seq<u8>, uri: Seq<u8>, is_active: bool) -> bool {
    &&& n.same_binding(&m)
    &&& n.manifest_hash@ == hash
    &&& n.wf()
    &&& n.uri() == uri
    &&& n.uri_tail_zero()
    &&& n.metadata_uri_padding == 0
    &&& n.is_active == (if is_active { 1u8 } else { 0u8 })
    &&& n.minted == m.minted
    &&& n.initialized == m.initialized
}

pub fn owner_update(m: &ObjectManifest, hash: &[u8; 32], uri: &[u8], is_active: bool) -> (n: ObjectManifest)
    requires
        uri@.len() <= MAX_URI_LENGTH,
    ensures
        spec_owner_updated(*m, n, hash@, uri@, is_active),
{
    let mut n = *m;
    n.manifest_hash = *hash;
    n.set_metadata_uri_bytes(uri);
    n.set_is_active(is_active);
    n
}

/// Whether two 32-byte arrays are equal.
pub fn bytes32_eq(a: &[u8; 32], b: &[u8; 32]) -> (r: bool)
    ensures
        r == (a@ == b@),
{
    let mut i: usize = 0;
    while i < 32
        invariant
            i <= 32,
            forall|j: int| 0 <= j < i ==> a@[j] == b@[j],
        decreases 32 - i,
    {
        if a[i] != b[i] {
            return false;
        }
        i = i + 1;
    }
    assert(a@ =~= b@);
    true
}

} // verus!
