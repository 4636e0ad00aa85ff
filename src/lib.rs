//! Pre-signed URLs for S3-compatible object storage, following the
//! AWS Signature Version 4 query-parameter scheme.

pub mod crypto;
pub mod text;
pub mod time;
pub mod query;
pub mod presign;

pub use crypto::{hmac_sha_256, hmac_sha_256_hex, sha256, to_hex};
pub use presign::{
    derive_signing_key, get_canonical_request, get_query_parameters, get_signature_key,
    get_signature_payload, get_signed_url, get_url, GetSignedUrlOptions, PresignError,
    MAX_EXPIRES_IN,
};
pub use time::SigningTime;
