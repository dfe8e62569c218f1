use vstd::prelude::*;

use crate::address::image_address_spec;
use crate::instruction::{new_record, registration, ErrorCode, RegisterError};
use crate::state::{byte_len, ImageState, ImageStateView, HASH_LEN, MAX_CID_LEN};

verus! {

/// A registration of a well-shaped image whose address is derivable and free
/// succeeds, and adds exactly one record at that address: authored by the
/// signer, stamped with the time of the call, holding the hash and content
/// identifier as given. The new record has the shape that validation enforces.
pub proof fn lemma_valid_registration_creates_record(
    records: Map<Seq<u8>, ImageStateView>,
    program_id: Seq<u8>,
    author: Seq<u8>,
    timestamp: i64,
    image_hash: Seq<char>,
    ipfs_cid: Seq<char>,
    address: Seq<u8>,
)
    requires
        byte_len(image_hash) == HASH_LEN,
        byte_len(ipfs_cid) <= MAX_CID_LEN,
        image_address_spec(program_id, image_hash) == Some(address),
        !records.contains_key(address),
    ensures
        ({
            let (r, after) = registration(records, program_id, author, timestamp, image_hash, ipfs_cid);
            &&& r is Ok
            &&& after == records.insert(address, new_record(author, timestamp, image_hash, ipfs_cid))
            &&& after[address].author == author
            &&& after[address].timestamp == timestamp
            &&& after[address].image_hash == image_hash
            &&& after[address].ipfs_cid == ipfs_cid
            &&& ImageState::well_shaped(after[address])
        }),
{
}

/// Once a hash is registered, a second registration of the same hash, with
/// any content identifier, signer and time, fails because the address is in
/// use, and leaves the records as the first registration left them.
pub proof fn lemma_second_registration_conflicts(
    records: Map<Seq<u8>, ImageStateView>,
    program_id: Seq<u8>,
    image_hash: Seq<char>,
    first_author: Seq<u8>,
    first_timestamp: i64,
    first_cid: Seq<char>,
    second_author: Seq<u8>,
    second_timestamp: i64,
    second_cid: Seq<char>,
)
    requires
        registration(records, program_id, first_author, first_timestamp, image_hash, first_cid).0 is Ok,
    ensures
        ({
            let after_first = registration(records, program_id, first_author, first_timestamp, image_hash, first_cid).1;
            let (r, after_second) = registration(
                after_first,
                program_id,
                second_author,
                second_timestamp,
                image_hash,
                second_cid,
            );
            &&& r == Err::<(), RegisterError>(RegisterError::AccountInUse)
            &&& after_second == after_first
        }),
{
    let address = image_address_spec(program_id, image_hash)->Some_0;
    let after_first = registration(records, program_id, first_author, first_timestamp, image_hash, first_cid).1;
    assert(after_first.contains_key(address));
}

/// A hash whose length is not exactly 64 bytes is refused with
/// `InvalidHashLength`, and no record is created.
pub proof fn lemma_bad_hash_rejected(
    records: Map<Seq<u8>, ImageStateView>,
    program_id: Seq<u8>,
    author: Seq<u8>,
    timestamp: i64,
    image_hash: Seq<char>,
    ipfs_cid: Seq<char>,
)
    requires
        byte_len(image_hash) != HASH_LEN,
    ensures
        registration(records, program_id, author, timestamp, image_hash, ipfs_cid) == (
            Err::<(), RegisterError>(RegisterError::Validation(ErrorCode::InvalidHashLength)),
            records,
        ),
{
}

/// A content identifier longer than 100 bytes is refused with
/// `InvalidCidLength`, and no record is created, wherever the hash is valid
/// and its address is derivable and free (a taken address is reported first).
pub proof fn lemma_long_cid_rejected(
    records: Map<Seq<u8>, ImageStateView>,
    program_id: Seq<u8>,
    author: Seq<u8>,
    timestamp: i64,
    image_hash: Seq<char>,
    ipfs_cid: Seq<char>,
    address: Seq<u8>,
)
    requires
        byte_len(ipfs_cid) > MAX_CID_LEN,
        byte_len(image_hash) == HASH_LEN,
        image_address_spec(program_id, image_hash) == Some(address),
        !records.contains_key(address),
    ensures
        registration(records, program_id, author, timestamp, image_hash, ipfs_cid) == (
            Err::<(), RegisterError>(RegisterError::Validation(ErrorCode::InvalidCidLength)),
            records,
        ),
{
}

/// The records after a series of registrations of one hash and one content
/// identifier, each by the signer and at the time that `attempts` gives.
pub open spec fn after_attempts(
    records: Map<Seq<u8>, ImageStateView>,
    program_id: Seq<u8>,
    image_hash: Seq<char>,
    ipfs_cid: Seq<char>,
    attempts: Seq<(Seq<u8>, i64)>,
) -> Map<Seq<u8>, ImageStateView>
    decreases attempts.len(),
{
    if attempts.len() == 0 {
        records
    } else {
        let (author, timestamp) = attempts.last();
        registration(
            after_attempts(records, program_id, image_hash, ipfs_cid, attempts.drop_last()),
            program_id,
            author,
            timestamp,
            image_hash,
            ipfs_cid,
        ).1
    }
}

/// Input that fails validation never creates a record, however many times,
/// by whichever signers and at whatever times, it is submitted.
pub proof fn lemma_failed_validation_repeats_harmlessly(
    records: Map<Seq<u8>, ImageStateView>,
    program_id: Seq<u8>,
    image_hash: Seq<char>,
    ipfs_cid: Seq<char>,
    attempts: Seq<(Seq<u8>, i64)>,
)
    requires
        byte_len(image_hash) != HASH_LEN || byte_len(ipfs_cid) > MAX_CID_LEN,
    ensures
        after_attempts(records, program_id, image_hash, ipfs_cid, attempts) == records,
        forall|author: Seq<u8>, timestamp: i64|
            #[trigger] registration(records, program_id, author, timestamp, image_hash, ipfs_cid).0 is Err,
    decreases attempts.len(),
{
    if attempts.len() > 0 {
        lemma_failed_validation_repeats_harmlessly(records, program_id, image_hash, ipfs_cid, attempts.drop_last());
    }
}

/// The address of a record depends on its hash alone: two registrations of
/// equal hashes, whatever their content identifiers, signers and times, that
/// both succeed on the same records put their record at the same address.
pub proof fn lemma_address_depends_on_hash_alone(
    records: Map<Seq<u8>, ImageStateView>,
    program_id: Seq<u8>,
    image_hash: Seq<char>,
    other_hash: Seq<char>,
    author: Seq<u8>,
    other_author: Seq<u8>,
    timestamp: i64,
    other_timestamp: i64,
    ipfs_cid: Seq<char>,
    other_cid: Seq<char>,
)
    requires
        image_hash == other_hash,
    ensures
        image_address_spec(program_id, image_hash) == image_address_spec(program_id, other_hash),
        ({
            let (r, after) = registration(records, program_id, author, timestamp, image_hash, ipfs_cid);
            let (other_r, other_after) = registration(
                records,
                program_id,
                other_author,
                other_timestamp,
                other_hash,
                other_cid,
            );
            r is Ok && other_r is Ok ==> {
                &&& after.dom() == other_after.dom()
                &&& after.dom() == records.dom().insert(image_address_spec(program_id, image_hash)->Some_0)
            }
        }),
{
    let (r, after) = registration(records, program_id, author, timestamp, image_hash, ipfs_cid);
    let (other_r, other_after) = registration(records, program_id, other_author, other_timestamp, other_hash, other_cid);
    if r is Ok && other_r is Ok {
        let address = image_address_spec(program_id, image_hash)->Some_0;
        assert(after.dom() =~= records.dom().insert(address));
        assert(other_after.dom() =~= records.dom().insert(address));
    }
}

} // verus!
