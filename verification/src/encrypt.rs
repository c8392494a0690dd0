//! Encrypting stored metadata to the owner's key (ECIES over secp256k1).

use vstd::prelude::*;
use crate::text::owned;
use crate::ethereum::{big_endian_value, secp256k1_order};

verus! {

/// Whether bytes hold a secp256k1 secret key, as a wallet's key is: 32
/// bytes whose value is nonzero and below the group order.
pub open spec fn valid_secret_key(secret_key: Seq<u8>) -> bool {
    secret_key.len() == 32 && 0 < big_endian_value(secret_key) && big_endian_value(secret_key) < secp256k1_order()
}

/// The compressed (33-byte SEC1) public key of a secret key.
pub uninterp spec fn public_key_of(secret_key: Seq<u8>) -> Seq<u8>;

/// The compressed public key of a secret key (`k256::SecretKey::from_slice`,
/// `public_key`, `to_encoded_point(true)`, as ethers re-exports k256); trusted
/// to depend on the key alone.
#[verifier::external_body]
fn compressed_public_key(secret_key: &[u8]) -> (res: Vec<u8>)
    requires
        valid_secret_key(secret_key@),
    ensures
        res@ == public_key_of(secret_key@),
{
    match ethers::core::k256::SecretKey::from_slice(secret_key) {
        Ok(sk) => ethers::core::k256::elliptic_curve::sec1::ToEncodedPoint::to_encoded_point(&sk.public_key(), true)
            .as_bytes()
            .to_vec(),
        Err(_) => Vec::new(),
    }
}

/// Encrypts bytes to a public key (`ecies::encrypt`, its error shown by
/// `{:?}`). The ciphertext rests on a fresh ephemeral key and nonce, so it is
/// not named; what holds of every outcome is trusted: with ecies' default
/// settings (which nothing here changes) it is the 65-byte ephemeral key, the
/// 16-byte nonce, the 16-byte tag and the encrypted bytes, and decrypting it
/// with a secret key of that public key gives the bytes back.
#[verifier::external_body]
fn ecies_encrypt(public_key: &[u8], data: &[u8]) -> (res: Result<Vec<u8>, String>)
    ensures
        match res {
            Ok(c) => {
                &&& c@.len() == data@.len() + 97
                &&& forall|sk: Seq<u8>| valid_secret_key(sk) && #[trigger] public_key_of(sk) == public_key@
                    ==> ecies_plain(sk, c@) == Ok::<Seq<u8>, Seq<char>>(data@)
            },
            Err(_) => true,
        },
{
    match ecies::encrypt(public_key, data) {
        Ok(v) => Ok(v),
        Err(e) => Err(format!("{:?}", e)),
    }
}

/// What decrypting bytes with a secret key gives (`ecies::decrypt`): the
/// plain bytes, or the `{:?}` text of the error.
pub uninterp spec fn ecies_plain(secret_key: Seq<u8>, data: Seq<u8>) -> Result<Seq<u8>, Seq<char>>;

/// Decrypts bytes with a secret key (`ecies::decrypt`); trusted to depend on
/// the key and the bytes alone.
#[verifier::external_body]
fn ecies_decrypt(secret_key: &[u8], data: &[u8]) -> (res: Result<Vec<u8>, String>)
    ensures
        match res {
            Ok(v) => ecies_plain(secret_key@, data@) == Ok::<Seq<u8>, Seq<char>>(v@),
            Err(e) => ecies_plain(secret_key@, data@) matches Err(t) && e@ == t,
        },
{
    match ecies::decrypt(secret_key, data) {
        Ok(v) => Ok(v),
        Err(e) => Err(format!("{:?}", e)),
    }
}

/// Encrypts metadata to the public key of the owner's wallet, whose secret
/// key is given; empty metadata is refused. What comes out decrypts, with
/// that secret key, to the metadata.
pub fn encrypt_with_public_key(metadata: Vec<u8>, secret_key: &[u8]) -> (res: Result<Vec<u8>, String>)
    requires
        valid_secret_key(secret_key@),
    ensures
        match res {
            Ok(c) => {
                &&& metadata@.len() > 0
                &&& c@.len() == metadata@.len() + 97
                &&& ecies_plain(secret_key@, c@) == Ok::<Seq<u8>, Seq<char>>(metadata@)
            },
            Err(e) => if metadata@.len() == 0 {
                e@ == "Invalid data."@
            } else {
                exists|t: Seq<char>| e@ == "Error encrypting the data: "@ + t
            },
        },
{
    let public_key = compressed_public_key(secret_key);
    if metadata.len() == 0 {
        return Err(owned("Invalid data."));
    }
    match ecies_encrypt(public_key.as_slice(), metadata.as_slice()) {
        Ok(c) => Ok(c),
        Err(t) => {
            let mut e = owned("Error encrypting the data: ");
            e.append(t.as_str());
            assert(e@ == "Error encrypting the data: "@ + t@);
            Err(e)
        },
    }
}

/// Decrypts metadata with the owner's secret key; empty data is refused, and
/// a failure names the error.
pub fn decrypt_with_private_key(encrypted_data: Vec<u8>, secret_key: &[u8]) -> (res: Result<Vec<u8>, String>)
    ensures
        encrypted_data@.len() == 0 ==> (res matches Err(e) && e@ == "Invalid data."@),
        encrypted_data@.len() > 0 ==> match ecies_plain(secret_key@, encrypted_data@) {
            Ok(p) => (res matches Ok(v) && v@ == p),
            Err(t) => (res matches Err(e) && e@ == "Error decrypting the data: "@ + t),
        },
{
    if encrypted_data.len() == 0 {
        return Err(owned("Invalid data."));
    }
    match ecies_decrypt(secret_key, encrypted_data.as_slice()) {
        Ok(v) => Ok(v),
        Err(t) => {
            let mut e = owned("Error decrypting the data: ");
            e.append(t.as_str());
            Err(e)
        },
    }
}

/// The bytes to upload for a serialised description: encrypted to the
/// owner's key exactly when the description is marked encrypted, else the
/// bytes as they are.
pub fn sealed_metadata(metadata: Vec<u8>, encrypted: bool, secret_key: &[u8]) -> (res: Result<Vec<u8>, String>)
    requires
        encrypted ==> valid_secret_key(secret_key@),
    ensures
        !encrypted ==> (res matches Ok(v) && v@ == metadata@),
        encrypted ==> match res {
            Ok(c) => {
                &&& metadata@.len() > 0
                &&& c@.len() == metadata@.len() + 97
                &&& ecies_plain(secret_key@, c@) == Ok::<Seq<u8>, Seq<char>>(metadata@)
            },
            Err(e) => if metadata@.len() == 0 {
                e@ == "Invalid data."@
            } else {
                exists|t: Seq<char>| e@ == "Error encrypting the data: "@ + t
            },
        },
{
    if encrypted {
        encrypt_with_public_key(metadata, secret_key)
    } else {
        Ok(metadata)
    }
}

} // verus!
