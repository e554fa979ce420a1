//! Key derivation: from a passphrase and a salt to two secret halves, and
//! from one half and the sealed secret to the container key.

use vstd::prelude::*;
use vstd::slice::slice_subrange;
use vstd::slice::slice_to_vec;
use vstd::string::StringSliceAdditionalSpecFns;
use crate::error::KdfError;

verus! {

/// Length of the derived material.
pub const DERIVED_LEN: usize = 64;

/// Length of each half of the derived material, and of the container key.
pub const HALF_LEN: usize = 32;

/// Length of the salt.
pub const SALT_LEN: usize = 64;

/// Shortest salt that Argon2 takes.
pub const MIN_SALT_LEN: usize = 8;

/// Longest passphrase and longest salt that Argon2 takes, in bytes.
pub const MAX_INPUT_LEN: u64 = 0xFFFF_FFFF;

/// The `len` bytes that Argon2id yields for these passphrase bytes and this
/// salt under the default parameter set (version 19, 19 MiB, 2 passes, 1 lane).
pub uninterp spec fn argon2id_output(password: Seq<u8>, salt: Seq<u8>, len: nat) -> Seq<u8>;

/// The HMAC-SHA-256 tag of `message` under `key`.
pub uninterp spec fn hmac_sha256(key: Seq<u8>, message: Seq<u8>) -> Seq<u8>;

/// The error of the `argon2` crate, `argon2::Error`. Nothing is claimed of
/// what it holds.
#[verifier::external_type_specification]
#[verifier::external_body]
pub struct ExArgon2Error(argon2::Error);

/// Whether Argon2 takes inputs of these lengths.
pub open spec fn derivable(password: Seq<u8>, salt: Seq<u8>) -> bool {
    &&& password.len() <= MAX_INPUT_LEN
    &&& MIN_SALT_LEN <= salt.len() <= MAX_INPUT_LEN
}

/// Calls `argon2::Argon2::hash_password_into` on a context made by
/// `Argon2::default()` and an output buffer of `len` bytes.
///
/// Trusted: for an output of 4 bytes or more, the call fails exactly when
/// the passphrase is longer than 0xFFFFFFFF bytes or the salt shorter than 8
/// or longer than 0xFFFFFFFF bytes; otherwise the buffer comes back filled,
/// and its content depends on the three arguments only.
#[verifier::external_body]
fn argon2id_hash(password: &[u8], salt: &[u8], len: usize) -> (r: Result<Vec<u8>, argon2::Error>)
    requires
        4 <= len <= 0x7FFF_FFFF,
    ensures
        match r {
            Ok(out) => {
                &&& derivable(password@, salt@)
                &&& out@ == argon2id_output(password@, salt@, len as nat)
                &&& out@.len() == len
            },
            Err(_) => !derivable(password@, salt@),
        },
{
    let mut out = vec![0u8; len];
    argon2::Argon2::default().hash_password_into(password, salt, &mut out)?;
    Ok(out)
}

/// Calls `Hmac::<Sha256>::new_from_slice`, `update` and `finalize` of the
/// crates `hmac` and `sha2`.
///
/// Trusted: a key of any length is taken, the tag has 32 bytes, and it
/// depends on the key and the message only.
#[verifier::external_body]
fn hmac_sha256_tag(key: &[u8], data: &[u8]) -> (tag: Vec<u8>)
    ensures
        tag@ == hmac_sha256(key@, data@),
        tag@.len() == HALF_LEN,
{
    let mut mac = <hmac::Hmac<sha2::Sha256> as hmac::Mac>::new_from_slice(key).expect(
        "HMAC takes a key of any length",
    );
    hmac::Mac::update(&mut mac, data);
    hmac::Mac::finalize(mac).into_bytes().to_vec()
}

/// Whether a passphrase and a salt are well formed: the salt has its 64
/// bytes and the passphrase is no longer than Argon2 takes.
pub open spec fn well_formed(password: Seq<u8>, salt: Seq<u8>) -> bool {
    salt.len() == SALT_LEN && password.len() <= MAX_INPUT_LEN
}

/// What [`derive_key`] returns for a passphrase and a salt.
pub open spec fn derived(password: Seq<u8>, salt: Seq<u8>) -> Result<Seq<u8>, KdfError> {
    if well_formed(password, salt) {
        Ok(argon2id_output(password, salt, DERIVED_LEN as nat))
    } else {
        Err(KdfError::KdfFailure)
    }
}

/// Derives 64 bytes from a passphrase and a salt of 64 bytes with Argon2id.
///
/// The result is a function of the two arguments: every call with the same
/// passphrase and salt gives the same bytes. The call fails on a salt of any
/// other length than 64 bytes, and on a passphrase longer than Argon2 takes.
pub fn derive_key(password: &str, salt: &[u8]) -> (r: Result<Vec<u8>, KdfError>)
    ensures
        r is Ok <==> salt@.len() == SALT_LEN && password.spec_bytes().len() <= MAX_INPUT_LEN,
        r matches Ok(material) ==> material@.len() == DERIVED_LEN,
        match r {
            Ok(material) => derived(password.spec_bytes(), salt@) == Ok::<Seq<u8>, KdfError>(
                material@,
            ),
            Err(e) => derived(password.spec_bytes(), salt@) == Err::<Seq<u8>, KdfError>(e),
        },
{
    if salt.len() != SALT_LEN {
        return Err(KdfError::KdfFailure);
    }
    match argon2id_hash(password.as_bytes(), salt, DERIVED_LEN) {
        Ok(material) => Ok(material),
        Err(_) => Err(KdfError::KdfFailure),
    }
}

/// The first half of the derived material: the key of the final HMAC.
pub open spec fn slice_a(material: Seq<u8>) -> Seq<u8> {
    material.subrange(0, HALF_LEN as int)
}

/// The second half of the derived material: the authorization value of the
/// sealed object.
pub open spec fn slice_b(material: Seq<u8>) -> Seq<u8> {
    material.subrange(HALF_LEN as int, DERIVED_LEN as int)
}

/// The two halves of derived material, if it has its 64 bytes.
pub open spec fn halves(material: Seq<u8>) -> Option<(Seq<u8>, Seq<u8>)> {
    if material.len() == DERIVED_LEN {
        Some((slice_a(material), slice_b(material)))
    } else {
        None
    }
}

/// Splits the derived material into its two halves of 32 bytes. The halves
/// do not overlap and together they are the material. Anything but 64 bytes
/// is not derived material and is not split.
pub fn split_key(material: &[u8]) -> (r: Option<(Vec<u8>, Vec<u8>)>)
    ensures
        match r {
            Some(pair) => {
                &&& halves(material@) == Some((pair.0@, pair.1@))
                &&& pair.0@.len() == HALF_LEN
                &&& pair.1@.len() == HALF_LEN
                &&& pair.0@ + pair.1@ == material@
            },
            None => halves(material@) is None,
        },
{
    if material.len() != DERIVED_LEN {
        return None;
    }
    let first = slice_to_vec(slice_subrange(material, 0, HALF_LEN));
    let second = slice_to_vec(slice_subrange(material, HALF_LEN, DERIVED_LEN));
    assert(first@ + second@ =~= material@);
    Some((first, second))
}

/// Computes HMAC-SHA-256 of `data` under `key`; the tag has 32 bytes.
pub fn compute_hmac(key: &[u8], data: &[u8]) -> (tag: Vec<u8>)
    ensures
        tag@ == hmac_sha256(key@, data@),
        tag@.len() == HALF_LEN,
{
    hmac_sha256_tag(key, data)
}

/// Whether `material` is what the derivation yields for a passphrase and a
/// salt: the 64 bytes of a successful call of [`derive_key`].
pub open spec fn derives(password: Seq<u8>, salt: Seq<u8>, material: Seq<u8>) -> bool {
    derived(password, salt) == Ok::<Seq<u8>, KdfError>(material) && material.len() == DERIVED_LEN
}

/// Two derivations from the same passphrase and the same salt give the same
/// result, success or failure, byte for byte.
pub proof fn derivation_is_deterministic(
    password: Seq<u8>,
    salt: Seq<u8>,
    same_password: Seq<u8>,
    same_salt: Seq<u8>,
)
    requires
        password == same_password,
        salt == same_salt,
    ensures
        derived(password, salt) == derived(same_password, same_salt),
        derived(password, salt) is Ok <==> well_formed(password, salt),
{
}

/// Two tags of the same message under the same key are the same.
pub proof fn hmac_is_deterministic(
    key: Seq<u8>,
    message: Seq<u8>,
    same_key: Seq<u8>,
    same_message: Seq<u8>,
)
    requires
        key == same_key,
        message == same_message,
    ensures
        hmac_sha256(key, message) == hmac_sha256(same_key, same_message),
{
}

} // verus!
