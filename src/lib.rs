//! An append-only registry that binds the content hash of an image to a
//! content identifier and to the key that signed the registration.
//!
//! Each record lives at an address derived from its hash alone, so at most
//! one record can ever exist per hash; the registration is validated and
//! committed as a single all-or-nothing step.

mod address;
mod instruction;
mod laws;
mod ledger;
mod state;

pub use state::{byte_count, byte_len, ImageState, ImageStateView, Pubkey, HASH_LEN, MAX_CID_LEN};
pub use address::{image_address, image_address_spec, image_seeds, image_seeds_of, image_tag, program_address, MAX_SEED_LEN};
pub use ledger::{Account, AlreadyInUse, Ledger};
pub use instruction::{new_record, register_image, register_image_at, registration, store_image, store_outcome, ErrorCode, RegisterError, RegisterImage};
pub use laws::{after_attempts, lemma_address_depends_on_hash_alone, lemma_bad_hash_rejected, lemma_failed_validation_repeats_harmlessly, lemma_long_cid_rejected, lemma_second_registration_conflicts, lemma_valid_registration_creates_record};
