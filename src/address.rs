use vstd::prelude::*;

use crate::state::{byte_count, byte_len, Pubkey, HASH_LEN};

verus! {

/// Largest seed, in bytes, that program-derived addressing accepts.
pub const MAX_SEED_LEN: usize = 32;

/// Address and bump seed that program-derived addressing finds for the seeds
/// and the program id, or `None` where it finds none.
pub uninterp spec fn program_address(seeds: Seq<Seq<u8>>, program_id: Seq<u8>) -> Option<(Seq<u8>, u8)>;

/// Relies on `Pubkey::try_find_program_address` of solana-program, as anchor_lang
/// re-exports it: the address and bump seed that it returns, or its `None`, depend
/// on the seeds and the program id alone.
#[verifier::external_body]
fn try_find_program_address(seeds: &Vec<Vec<u8>>, program_id: &Pubkey) -> (r: Option<(Pubkey, u8)>)
    ensures
        match r {
            Some((key, bump)) => program_address(seeds.deep_view(), program_id@) == Some((key@, bump)),
            None => program_address(seeds.deep_view(), program_id@) is None,
        },
{
    let slices: Vec<&[u8]> = seeds.iter().map(|s| s.as_slice()).collect();
    let id = anchor_lang::prelude::Pubkey::new_from_array(program_id.bytes);
    anchor_lang::prelude::Pubkey::try_find_program_address(&slices, &id)
        .map(|(key, bump)| (Pubkey { bytes: key.to_bytes() }, bump))
}

/// The tag that keeps image records apart from any other kind of account:
/// the bytes of `"image"`.
pub open spec fn image_tag() -> Seq<u8> {
    seq![105u8, 109u8, 97u8, 103u8, 101u8]
}

/// The seeds of the record for a hash whose encoding is `hash`: the tag, then
/// the hash cut into two halves so that no seed exceeds the seed limit.
pub open spec fn image_seeds(hash: Seq<u8>) -> Seq<Seq<u8>> {
    seq![image_tag(), hash.subrange(0, MAX_SEED_LEN as int), hash.subrange(MAX_SEED_LEN as int, HASH_LEN as int)]
}

/// The address of the record for `image_hash` under `program_id`, where one
/// can be derived.
pub open spec fn image_address_spec(program_id: Seq<u8>, image_hash: Seq<char>) -> Option<Seq<u8>> {
    match program_address(image_seeds(vstd::utf8::encode_utf8(image_hash)), program_id) {
        Some((key, _bump)) => Some(key),
        None => None,
    }
}

fn copy_range(bytes: &[u8], lo: usize, hi: usize) -> (r: Vec<u8>)
    requires
        lo <= hi <= bytes@.len(),
    ensures
        r@ == bytes@.subrange(lo as int, hi as int),
{
    let mut r: Vec<u8> = Vec::new();
    let mut i: usize = lo;
    while i < hi
        invariant
            lo <= i <= hi,
            hi <= bytes@.len(),
            r@ == bytes@.subrange(lo as int, i as int),
        decreases hi - i,
    {
        r.push(bytes[i]);
        i = i + 1;
    }
    r
}

/// Builds the seeds of the record for a hash of the required length.
pub fn image_seeds_of(image_hash: &String) -> (r: Vec<Vec<u8>>)
    requires
        byte_len(image_hash@) == HASH_LEN,
    ensures
        r.deep_view() == image_seeds(vstd::utf8::encode_utf8(image_hash@)),
{
    let bytes = image_hash.as_str().as_bytes();
    let tag: Vec<u8> = vec![105u8, 109u8, 97u8, 103u8, 101u8];
    let first = copy_range(bytes, 0, MAX_SEED_LEN);
    let second = copy_range(bytes, MAX_SEED_LEN, HASH_LEN);
    assert(tag@ =~= image_tag());
    let r: Vec<Vec<u8>> = vec![tag, first, second];
    assert(r.deep_view()[0] == image_tag());
    assert(r.deep_view()[1] == bytes@.subrange(0, MAX_SEED_LEN as int));
    assert(r.deep_view()[2] == bytes@.subrange(MAX_SEED_LEN as int, HASH_LEN as int));
    assert(r.deep_view() =~= image_seeds(vstd::utf8::encode_utf8(image_hash@)));
    r
}

/// Derives the address at which the record for `image_hash` lives.
///
/// Returns `None` for a hash of the wrong length, and where no address can be
/// derived from its seeds.
pub fn image_address(program_id: &Pubkey, image_hash: &String) -> (r: Option<Pubkey>)
    ensures
        byte_len(image_hash@) != HASH_LEN ==> r is None,
        byte_len(image_hash@) == HASH_LEN ==> match r {
            Some(key) => image_address_spec(program_id@, image_hash@) == Some(key@),
            None => image_address_spec(program_id@, image_hash@) is None,
        },
{
    if byte_count(image_hash) != HASH_LEN {
        return None;
    }
    let seeds = image_seeds_of(image_hash);
    match try_find_program_address(&seeds, program_id) {
        Some((key, _bump)) => Some(key),
        None => None,
    }
}

} // verus!
