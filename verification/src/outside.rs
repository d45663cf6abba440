//! Declarations of the outside types that pass through the library unchanged.

use vstd::prelude::*;

verus! {

/// `bech32::DecodeError`: why a string is not valid bech32.
#[verifier::external_type_specification]
#[verifier::external_body]
pub struct ExBech32DecodeError(::bech32::DecodeError);

/// `bech32::EncodeError`: why data cannot be bech32-encoded.
#[verifier::external_type_specification]
#[verifier::external_body]
pub struct ExBech32EncodeError(::bech32::EncodeError);

/// `getrandom::Error`: why the system random source failed.
#[verifier::external_type_specification]
#[verifier::external_body]
pub struct ExGetrandomError(::getrandom::Error);

/// `pallas_addresses::Error`: why an address could not be built or encoded.
#[verifier::external_type_specification]
#[verifier::external_body]
pub struct ExAddressError(::pallas_addresses::Error);

/// `base64::DecodeError`: why text is not valid base64.
#[verifier::external_type_specification]
#[verifier::external_body]
pub struct ExBase64DecodeError(::base64::DecodeError);

/// `std::io::Error`: a failed read, write or process launch.
#[verifier::external_type_specification]
#[verifier::external_body]
pub struct ExIoError(std::io::Error);

/// `aes_gcm::Error` (`aead::Error`): an AEAD operation failed.
#[verifier::external_type_specification]
#[verifier::external_body]
pub struct ExAeadError(::aes_gcm::Error);

/// `serde_cbor::Error`: a CBOR value could not be written or read.
#[verifier::external_type_specification]
#[verifier::external_body]
pub struct ExCborError(::serde_cbor::Error);

} // verus!
