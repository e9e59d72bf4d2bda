//! Algorithm-agnostic asymmetric keys, digests, signatures and hybrid key
//! wrapping, with a canonical binary encoding for every value.
mod codec;
mod error;
mod frame;
mod hash;
mod primitives;
mod private_key;
mod public_key;
mod signature;
mod text;

pub use codec::{
    be_u16_bytes, be_u64_bytes, lemma_be16_round_trip, lemma_be64_round_trip, read_be_u16,
    read_be_u64,
};
pub use error::ErrorCode;
pub use frame::{
    decode_key_frame, encode_key_frame, lemma_key_frame_reencode, lemma_key_frame_round_trip,
    lemma_key_frame_truncated,
};
pub use hash::{
    hash_data, lemma_hash_codec_round_trip, lemma_hash_hex_round_trip, HashValue, HASH_VALUE_LEN,
};
pub use private_key::{
    lemma_private_key_round_trip, signing_digest, split_wrapped, PrivateKey, PrivateKeyType, DEFAULT_RSA_BITS, SECP_PUBLIC_KEY_BYTES,
    SECP_SECRET_KEY_BYTES, SESSION_KEY_BYTES,
};
pub use public_key::{lemma_public_key_round_trip, session_key_from_shared, PublicKey};
pub use signature::{
    lemma_signature_reencode, lemma_signature_round_trip, lemma_signature_time_bound,
    lemma_signature_truncated, lemma_signature_wf, SignData, Signature, KEY_TYPE_RSA,
    KEY_TYPE_RSA2048, KEY_TYPE_RSA3072, KEY_TYPE_SECP256K1,
};
pub use text::lemma_hex_round_trip;
