use vstd::prelude::*;
use vstd::utf8::encode_utf8;

verus! {

/// Length in bytes that an image hash must have: a SHA-256 digest in hex.
pub const HASH_LEN: usize = 64;

/// Largest length in bytes allowed for a content identifier.
pub const MAX_CID_LEN: usize = 100;

/// Length in bytes of the UTF-8 encoding of `s`, which is what `str::len` counts.
pub open spec fn byte_len(s: Seq<char>) -> nat {
    encode_utf8(s).len()
}

/// Length in bytes of `s`.
pub fn byte_count(s: &String) -> (n: usize)
    ensures
        n == byte_len(s@),
{
    s.as_str().as_bytes().len()
}

/// A 32-byte public key: the identity of a signer or an account address.
#[derive(Clone, Copy, Debug, PartialEq, Eq)]
pub struct Pubkey {
    pub bytes: [u8; 32],
}

impl View for Pubkey {
    type V = Seq<u8>;

    open spec fn view(&self) -> Seq<u8> {
        self.bytes@
    }
}

impl Pubkey {
    pub fn new_from_array(bytes: [u8; 32]) -> (r: Pubkey)
        ensures
            r@ == bytes@,
    {
        Pubkey { bytes }
    }

    pub fn to_bytes(&self) -> (r: [u8; 32])
        ensures
            r@ == self@,
    {
        self.bytes
    }

    /// Compares two keys byte by byte.
    pub fn same_key(&self, other: &Pubkey) -> (r: bool)
        ensures
            r == (self@ == other@),
    {
        let mut i: usize = 0;
        while i < 32
            invariant
                i <= 32,
                self@.len() == 32,
                other@.len() == 32,
                forall|j: int| 0 <= j < i ==> self@[j] == other@[j],
            decreases 32 - i,
        {
            if self.bytes[i] != other.bytes[i] {
                assert(self@[i as int] != other@[i as int]);
                return false;
            }
            i = i + 1;
        }
        assert(self@ =~= other@);
        true
    }
}

/// The record stored for one registered image.
#[derive(Debug)]
pub struct ImageState {
    /// The key that signed the registration.
    pub author: Pubkey,
    /// Unix time, in seconds, at which the record was created.
    pub timestamp: i64,
    /// Hex-encoded SHA-256 digest of the image.
    pub image_hash: String,
    /// Content identifier of the image in content-addressed storage.
    pub ipfs_cid: String,
}

/// What a record holds, as plain mathematical values.
pub struct ImageStateView {
    pub author: Seq<u8>,
    pub timestamp: i64,
    pub image_hash: Seq<char>,
    pub ipfs_cid: Seq<char>,
}

impl View for ImageState {
    type V = ImageStateView;

    open spec fn view(&self) -> ImageStateView {
        ImageStateView {
            author: self.author@,
            timestamp: self.timestamp,
            image_hash: self.image_hash@,
            ipfs_cid: self.ipfs_cid@,
        }
    }
}

impl ImageState {
    /// Whether the record has the shape that registration enforces.
    pub open spec fn well_shaped(v: ImageStateView) -> bool {
        &&& byte_len(v.image_hash) == HASH_LEN
        &&& byte_len(v.ipfs_cid) <= MAX_CID_LEN
    }
}

} // verus!
