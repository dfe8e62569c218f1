use vstd::prelude::*;

use anchor_lang::prelude::SolanaSysvar;

use crate::address::{image_address, image_address_spec};
use crate::ledger::Ledger;
use crate::state::{byte_count, byte_len, ImageState, ImageStateView, Pubkey, HASH_LEN, MAX_CID_LEN};

verus! {

/// The registry's own validation errors.
#[derive(Clone, Copy, Debug, PartialEq, Eq, Structural)]
pub enum ErrorCode {
    /// The image hash is not exactly 64 bytes long (a SHA-256 digest in hex).
    InvalidHashLength,
    /// The content identifier is longer than 100 bytes.
    InvalidCidLength,
}

impl ErrorCode {
    /// A human-readable description of the error.
    pub fn message(&self) -> (r: &'static str) {
        match self {
            ErrorCode::InvalidHashLength => "Image hash must be exactly 64 characters (SHA-256 hex)",
            ErrorCode::InvalidCidLength => "IPFS CID must be 100 characters or less",
        }
    }
}

/// Why a registration failed.
#[derive(Clone, Copy, Debug, PartialEq, Eq, Structural)]
pub enum RegisterError {
    /// The input has the wrong shape.
    Validation(ErrorCode),
    /// A record already exists at the address derived from the hash.
    AccountInUse,
    /// No program-derived address could be found for the hash.
    NoProgramAddress,
    /// The current time could not be read from the clock.
    ClockUnavailable,
}

/// The accounts that a registration runs with: the program that owns the
/// records, and the key that signed the request and becomes the author.
#[derive(Clone, Copy, Debug)]
pub struct RegisterImage {
    pub program_id: Pubkey,
    pub author: Pubkey,
}

#[verifier::external_type_specification]
#[verifier::external_body]
pub struct ExProgramError(anchor_lang::prelude::ProgramError);

/// Relies on `Clock::get` of solana-program, as anchor_lang re-exports it, for
/// the current Unix time from the clock sysvar. Nothing is promised of the time
/// it gives, nor that the sysvar can be read.
#[verifier::external_body]
fn clock_unix_timestamp() -> (r: Result<i64, anchor_lang::prelude::ProgramError>) {
    anchor_lang::prelude::Clock::get().map(|clock| clock.unix_timestamp)
}

/// The record that a registration creates.
pub open spec fn new_record(author: Seq<u8>, timestamp: i64, image_hash: Seq<char>, ipfs_cid: Seq<char>) -> ImageStateView {
    ImageStateView { author, timestamp, image_hash, ipfs_cid }
}

/// Result and records after storing a record at `address`: refused for a hash
/// of the wrong length, then where the address is taken, then for a content
/// identifier that is too long; else the record is added.
pub open spec fn store_outcome(
    records: Map<Seq<u8>, ImageStateView>,
    address: Seq<u8>,
    author: Seq<u8>,
    timestamp: i64,
    image_hash: Seq<char>,
    ipfs_cid: Seq<char>,
) -> (Result<(), RegisterError>, Map<Seq<u8>, ImageStateView>) {
    if byte_len(image_hash) != HASH_LEN {
        (Err(RegisterError::Validation(ErrorCode::InvalidHashLength)), records)
    } else if records.contains_key(address) {
        (Err(RegisterError::AccountInUse), records)
    } else if byte_len(ipfs_cid) > MAX_CID_LEN {
        (Err(RegisterError::Validation(ErrorCode::InvalidCidLength)), records)
    } else {
        (Ok(()), records.insert(address, new_record(author, timestamp, image_hash, ipfs_cid)))
    }
}

/// Result and records after a registration at time `timestamp`: the record
/// goes to the address derived from the hash.
pub open spec fn registration(
    records: Map<Seq<u8>, ImageStateView>,
    program_id: Seq<u8>,
    author: Seq<u8>,
    timestamp: i64,
    image_hash: Seq<char>,
    ipfs_cid: Seq<char>,
) -> (Result<(), RegisterError>, Map<Seq<u8>, ImageStateView>) {
    if byte_len(image_hash) != HASH_LEN {
        (Err(RegisterError::Validation(ErrorCode::InvalidHashLength)), records)
    } else {
        match image_address_spec(program_id, image_hash) {
            Some(address) => store_outcome(records, address, author, timestamp, image_hash, ipfs_cid),
            None => (Err(RegisterError::NoProgramAddress), records),
        }
    }
}

/// Validates a record and creates it at `address`, all or nothing.
pub fn store_image(
    ledger: &mut Ledger,
    address: &Pubkey,
    author: &Pubkey,
    timestamp: i64,
    image_hash: String,
    ipfs_cid: String,
) -> (r: Result<(), RegisterError>)
    ensures
        (r, final(ledger)@) == store_outcome(old(ledger)@, address@, author@, timestamp, image_hash@, ipfs_cid@),
{
    if byte_count(&image_hash) != HASH_LEN {
        return Err(RegisterError::Validation(ErrorCode::InvalidHashLength));
    }
    if ledger.contains(address) {
        return Err(RegisterError::AccountInUse);
    }
    if byte_count(&ipfs_cid) > MAX_CID_LEN {
        return Err(RegisterError::Validation(ErrorCode::InvalidCidLength));
    }
    let state = ImageState { author: *author, timestamp, image_hash, ipfs_cid };
    let created = ledger.create_if_absent(*address, state);
    assert(created is Ok);
    Ok(())
}

/// Registers an image at the Unix time `timestamp`: validates the hash,
/// derives the record's address from it, and stores the record there.
pub fn register_image_at(
    ctx: &RegisterImage,
    ledger: &mut Ledger,
    image_hash: String,
    ipfs_cid: String,
    timestamp: i64,
) -> (r: Result<(), RegisterError>)
    ensures
        (r, final(ledger)@) == registration(
            old(ledger)@,
            ctx.program_id@,
            ctx.author@,
            timestamp,
            image_hash@,
            ipfs_cid@,
        ),
{
    if byte_count(&image_hash) != HASH_LEN {
        return Err(RegisterError::Validation(ErrorCode::InvalidHashLength));
    }
    match image_address(&ctx.program_id, &image_hash) {
        Some(address) => store_image(ledger, &address, &ctx.author, timestamp, image_hash, ipfs_cid),
        None => Err(RegisterError::NoProgramAddress),
    }
}

/// Registers an image at the time that the clock gives. Where the clock
/// cannot be read, fails and leaves the ledger as it was; else the outcome is
/// that of a registration at the time it read.
pub fn register_image(
    ctx: &RegisterImage,
    ledger: &mut Ledger,
    image_hash: String,
    ipfs_cid: String,
) -> (r: Result<(), RegisterError>)
    ensures
        r == Err::<(), RegisterError>(RegisterError::ClockUnavailable) && final(ledger)@ == old(ledger)@
            || exists|timestamp: i64|
                (r, final(ledger)@) == #[trigger] registration(
                    old(ledger)@,
                    ctx.program_id@,
                    ctx.author@,
                    timestamp,
                    image_hash@,
                    ipfs_cid@,
                ),
{
    match clock_unix_timestamp() {
        Ok(timestamp) => register_image_at(ctx, ledger, image_hash, ipfs_cid, timestamp),
        Err(_) => Err(RegisterError::ClockUnavailable),
    }
}

} // verus!
