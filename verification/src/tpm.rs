//! Hardware sealer: what is asked of the security module.
//!
//! The module is driven through a session that goes from `Uninitialized` to
//! `SessionOpen`, `RootKeyReady`, then `Sealing` or `Unsealing`, and `Done`.
//! This file holds the fixed object templates, the limits on what goes into
//! and comes out of the module, and the reading of its failures.

use vstd::prelude::*;
use vstd::slice::slice_to_vec;
use crate::error::SealerError;
use crate::error::Step;

verus! {

/// Number of random bytes asked of the module for the salt and for the secret.
pub const RANDOM_LEN: usize = 64;

/// Capacity of the module's authorization buffer, in bytes.
pub const AUTH_MAX_LEN: usize = 64;

/// Capacity of the module's buffer for data to seal, in bytes.
pub const SEALED_DATA_MAX_LEN: usize = 256;

/// Capacity of the buffer for the public part of an object, in bytes.
pub const PUBLIC_MAX_LEN: usize = 612;

/// Capacity of the buffer for the private part of an object, in bytes.
pub const PRIVATE_MAX_LEN: usize = 1550;

/// Size of the storage root key, in bits.
pub const ROOT_KEY_BITS: u16 = 2048;

/// The phases of a session with the module.
#[derive(Clone, Copy, Debug, PartialEq, Eq, Structural)]
pub enum SealerPhase {
    Uninitialized,
    SessionOpen,
    RootKeyReady,
    Sealing,
    Unsealing,
    Done,
}

impl SealerPhase {
    /// The place of a phase on the way of a session; sealing and unsealing
    /// share theirs, as a session does one or the other.
    pub open spec fn order(self) -> nat {
        match self {
            SealerPhase::Uninitialized => 0,
            SealerPhase::SessionOpen => 1,
            SealerPhase::RootKeyReady => 2,
            SealerPhase::Sealing => 3,
            SealerPhase::Unsealing => 3,
            SealerPhase::Done => 4,
        }
    }

    /// Whether a session in phase `self` can later be in phase `later`: it
    /// stays where it is or moves forward, and never goes from sealing to
    /// unsealing or back.
    pub open spec fn leads_to(self, later: SealerPhase) -> bool {
        self == later || self.order() < later.order()
    }
}

/// Naming hash of an object.
#[derive(Clone, Copy, Debug, PartialEq, Eq, Structural)]
pub enum HashAlgorithm {
    Sha1,
    Sha256,
    Sha384,
    Sha512,
}

/// Symmetric algorithm with which a parent wraps its children.
#[derive(Clone, Copy, Debug, PartialEq, Eq, Structural)]
pub enum SymmetricCipher {
    Null,
    Aes128Cfb,
}

/// The hierarchy under which a primary key is created.
#[derive(Clone, Copy, Debug, PartialEq, Eq, Structural)]
pub enum Hierarchy {
    Owner,
    Platform,
    Endorsement,
    Null,
}

/// The attribute bits of an object.
#[derive(Clone, Copy, Debug, PartialEq, Eq, Structural)]
pub struct ObjectAttributes {
    pub fixed_tpm: bool,
    pub st_clear: bool,
    pub fixed_parent: bool,
    pub sensitive_data_origin: bool,
    pub user_with_auth: bool,
    pub admin_with_policy: bool,
    /// Set: the object is exempt from dictionary-attack protection.
    pub no_da: bool,
    pub encrypted_duplication: bool,
    pub restricted: bool,
    pub decrypt: bool,
    pub sign_encrypt: bool,
}

/// The parameters that depend on the type of an object. Every scheme is null.
#[derive(Clone, Copy, Debug, PartialEq, Eq, Structural)]
pub enum ObjectParameters {
    /// An RSA key; exponent 0 stands for the default exponent.
    Rsa { key_bits: u16, exponent: u32, symmetric: SymmetricCipher },
    /// A keyed-hash object, which holds data.
    KeyedHash,
}

/// The public template of an object. The authorization policy is always
/// empty and the unique field is always empty.
#[derive(Clone, Copy, Debug, PartialEq, Eq, Structural)]
pub struct ObjectTemplate {
    pub name_hash: HashAlgorithm,
    pub attributes: ObjectAttributes,
    pub parameters: ObjectParameters,
}

impl ObjectTemplate {
    /// A key that can only wrap and unwrap its children.
    pub open spec fn is_storage_parent(self) -> bool {
        &&& self.attributes.restricted
        &&& self.attributes.decrypt
        &&& !self.attributes.sign_encrypt
        &&& self.attributes.fixed_tpm
        &&& self.attributes.fixed_parent
        &&& self.attributes.sensitive_data_origin
        &&& self.parameters matches ObjectParameters::Rsa { symmetric, .. }
        &&& symmetric != SymmetricCipher::Null
    }

    /// An object that holds caller-supplied data, bound to this module and
    /// to its parent, released on plain authorization, under
    /// dictionary-attack protection.
    pub open spec fn is_sealed_data(self) -> bool {
        &&& self.parameters == ObjectParameters::KeyedHash
        &&& !self.attributes.sign_encrypt
        &&& !self.attributes.decrypt
        &&& !self.attributes.restricted
        &&& !self.attributes.sensitive_data_origin
        &&& self.attributes.fixed_tpm
        &&& self.attributes.fixed_parent
        &&& self.attributes.user_with_auth
        &&& !self.attributes.admin_with_policy
        &&& !self.attributes.no_da
    }
}

/// The template of the storage root key.
pub open spec fn primary_template() -> ObjectTemplate {
    ObjectTemplate {
        name_hash: HashAlgorithm::Sha256,
        attributes: ObjectAttributes {
            fixed_tpm: true,
            st_clear: false,
            fixed_parent: true,
            sensitive_data_origin: true,
            user_with_auth: true,
            admin_with_policy: false,
            no_da: false,
            encrypted_duplication: false,
            restricted: true,
            decrypt: true,
            sign_encrypt: false,
        },
        parameters: ObjectParameters::Rsa {
            key_bits: ROOT_KEY_BITS,
            exponent: 0,
            symmetric: SymmetricCipher::Aes128Cfb,
        },
    }
}

/// The template of the sealed object.
pub open spec fn sealed_template() -> ObjectTemplate {
    ObjectTemplate {
        name_hash: HashAlgorithm::Sha256,
        attributes: ObjectAttributes {
            fixed_tpm: true,
            st_clear: false,
            fixed_parent: true,
            sensitive_data_origin: false,
            user_with_auth: true,
            admin_with_policy: false,
            no_da: false,
            encrypted_duplication: false,
            restricted: false,
            decrypt: false,
            sign_encrypt: false,
        },
        parameters: ObjectParameters::KeyedHash,
    }
}

/// Builds the template of the storage root key: RSA-2048, decrypt only,
/// restricted, AES-128-CFB for its children, names hashed with SHA-256.
pub fn build_primary_template() -> (template: ObjectTemplate)
    ensures
        template == primary_template(),
        template.is_storage_parent(),
        template.name_hash == HashAlgorithm::Sha256,
        template.parameters matches ObjectParameters::Rsa { key_bits, .. } && key_bits == 2048,
{
    let attributes = ObjectAttributes {
        fixed_tpm: true,
        st_clear: false,
        fixed_parent: true,
        sensitive_data_origin: true,
        user_with_auth: true,
        admin_with_policy: false,
        no_da: false,
        encrypted_duplication: false,
        restricted: true,
        decrypt: true,
        sign_encrypt: false,
    };
    let parameters = ObjectParameters::Rsa {
        key_bits: ROOT_KEY_BITS,
        exponent: 0,
        symmetric: SymmetricCipher::Aes128Cfb,
    };
    ObjectTemplate { name_hash: HashAlgorithm::Sha256, attributes, parameters }
}

/// Builds the template of the sealed object: keyed-hash data, names hashed
/// with SHA-256, plain authorization, dictionary-attack protection on.
pub fn build_sealed_template() -> (template: ObjectTemplate)
    ensures
        template == sealed_template(),
        template.is_sealed_data(),
        template.name_hash == HashAlgorithm::Sha256,
{
    let attributes = ObjectAttributes {
        fixed_tpm: true,
        st_clear: false,
        fixed_parent: true,
        sensitive_data_origin: false,
        user_with_auth: true,
        admin_with_policy: false,
        no_da: false,
        encrypted_duplication: false,
        restricted: false,
        decrypt: false,
        sign_encrypt: false,
    };
    ObjectTemplate {
        name_hash: HashAlgorithm::Sha256,
        attributes,
        parameters: ObjectParameters::KeyedHash,
    }
}

/// The request for the storage root key.
#[derive(Clone, Copy, Debug, PartialEq, Eq, Structural)]
pub struct PrimaryRequest {
    pub hierarchy: Hierarchy,
    pub template: ObjectTemplate,
}

/// The request for the storage root key as [`create_primary`] makes it.
pub open spec fn primary_request() -> PrimaryRequest {
    PrimaryRequest { hierarchy: Hierarchy::Owner, template: primary_template() }
}

/// Makes the request for the storage root key: the fixed template under the
/// owner hierarchy. Every call gives the same request, so the module derives
/// the same key again.
pub fn create_primary() -> (request: PrimaryRequest)
    ensures
        request == primary_request(),
{
    PrimaryRequest { hierarchy: Hierarchy::Owner, template: build_primary_template() }
}

/// Takes the module's answer to a request for `len` random bytes: the
/// answer, if it has `len` bytes.
pub fn tpm_random_bytes(reply: Vec<u8>, len: usize) -> (r: Result<Vec<u8>, SealerError>)
    ensures
        r is Ok <==> reply@.len() == len,
        r matches Ok(bytes) ==> bytes@ == reply@,
        r matches Err(e) ==> e == SealerError::HardwareUnavailable,
{
    if reply.len() == len {
        Ok(reply)
    } else {
        Err(SealerError::HardwareUnavailable)
    }
}

/// A request to seal `data` under the authorization value `auth`.
#[derive(Clone, Debug, PartialEq, Eq)]
pub struct SealRequest {
    pub template: ObjectTemplate,
    pub auth: Vec<u8>,
    pub data: Vec<u8>,
}

/// A seal request as a value.
pub struct SealRequestView {
    pub template: ObjectTemplate,
    pub auth: Seq<u8>,
    pub data: Seq<u8>,
}

impl View for SealRequest {
    type V = SealRequestView;

    open spec fn view(&self) -> SealRequestView {
        SealRequestView { template: self.template, auth: self.auth@, data: self.data@ }
    }
}

/// Whether the module takes a secret and an authorization value of these
/// lengths.
pub open spec fn sealable(secret: Seq<u8>, pin: Seq<u8>) -> bool {
    pin.len() <= AUTH_MAX_LEN && secret.len() <= SEALED_DATA_MAX_LEN
}

/// What [`seal_secret`] returns.
pub open spec fn seal_request(secret: Seq<u8>, pin: Seq<u8>) -> Result<
    SealRequestView,
    SealerError,
> {
    if sealable(secret, pin) {
        Ok(SealRequestView { template: sealed_template(), auth: pin, data: secret })
    } else {
        Err(SealerError::SealFailure)
    }
}

/// Makes the request to seal `secret` under `pin`, or refuses a secret or a
/// `pin` that does not fit the module's buffers.
pub fn seal_secret(secret: &[u8], pin: &[u8]) -> (r: Result<SealRequest, SealerError>)
    ensures
        match r {
            Ok(request) => seal_request(secret@, pin@) == Ok::<SealRequestView, SealerError>(
                request@,
            ),
            Err(e) => seal_request(secret@, pin@) == Err::<SealRequestView, SealerError>(e),
        },
{
    if pin.len() > AUTH_MAX_LEN || secret.len() > SEALED_DATA_MAX_LEN {
        return Err(SealerError::SealFailure);
    }
    Ok(
        SealRequest {
            template: build_sealed_template(),
            auth: slice_to_vec(pin),
            data: slice_to_vec(secret),
        },
    )
}

/// A request to reload a sealed object and to release what it holds.
#[derive(Clone, Debug, PartialEq, Eq)]
pub struct UnsealRequest {
    pub public: Vec<u8>,
    pub private: Vec<u8>,
    pub auth: Vec<u8>,
}

/// An unseal request as a value.
pub struct UnsealRequestView {
    pub public: Seq<u8>,
    pub private: Seq<u8>,
    pub auth: Seq<u8>,
}

impl View for UnsealRequest {
    type V = UnsealRequestView;

    open spec fn view(&self) -> UnsealRequestView {
        UnsealRequestView { public: self.public@, private: self.private@, auth: self.auth@ }
    }
}

/// Whether the module takes a private part and an authorization value of
/// these lengths.
pub open spec fn unsealable(private: Seq<u8>, pin: Seq<u8>) -> bool {
    private.len() <= PRIVATE_MAX_LEN && pin.len() <= AUTH_MAX_LEN
}

/// What [`unseal_secret`] returns.
pub open spec fn unseal_request(public: Seq<u8>, private: Seq<u8>, pin: Seq<u8>) -> Result<
    UnsealRequestView,
    SealerError,
> {
    if unsealable(private, pin) {
        Ok(UnsealRequestView { public, private, auth: pin })
    } else {
        Err(SealerError::SealFailure)
    }
}

/// Makes the request to unseal the object with these two parts under `pin`,
/// or refuses a private part or a `pin` that does not fit the module's
/// buffers.
pub fn unseal_secret(pub_bytes: &[u8], priv_bytes: &[u8], pin: &[u8]) -> (r: Result<
    UnsealRequest,
    SealerError,
>)
    ensures
        match r {
            Ok(request) => unseal_request(pub_bytes@, priv_bytes@, pin@) == Ok::<
                UnsealRequestView,
                SealerError,
            >(request@),
            Err(e) => unseal_request(pub_bytes@, priv_bytes@, pin@) == Err::<
                UnsealRequestView,
                SealerError,
            >(e),
        },
{
    if priv_bytes.len() > PRIVATE_MAX_LEN || pin.len() > AUTH_MAX_LEN {
        return Err(SealerError::SealFailure);
    }
    Ok(
        UnsealRequest {
            public: slice_to_vec(pub_bytes),
            private: slice_to_vec(priv_bytes),
            auth: slice_to_vec(pin),
        },
    )
}

/// Whether the two parts can be those of a sealed object: neither is empty
/// and each fits the module's buffer for it.
pub open spec fn blob_fits(public: Seq<u8>, private: Seq<u8>) -> bool {
    1 <= public.len() <= PUBLIC_MAX_LEN && 1 <= private.len() <= PRIVATE_MAX_LEN
}

/// Computes [`blob_fits`].
pub fn is_sealed_blob(public: &[u8], private: &[u8]) -> (b: bool)
    ensures
        b == blob_fits(public@, private@),
{
    1 <= public.len() && public.len() <= PUBLIC_MAX_LEN && 1 <= private.len() && private.len()
        <= PRIVATE_MAX_LEN
}

/// How the module turned a request down.
#[derive(Clone, Copy, Debug, PartialEq, Eq, Structural)]
pub enum HardwareFault {
    /// No transport or no session: the module was not reached.
    Unreachable,
    /// The authorization value was wrong and a lockout credit was consumed.
    AuthFail,
    /// The authorization value was wrong and no credit was consumed.
    BadAuth,
    /// The module is in lockout.
    Lockout,
    /// The request was refused for another reason.
    Rejected,
}

/// The failure that a fault of the module means at a given step.
pub open spec fn sealer_failure(step: Step, fault: HardwareFault) -> SealerError {
    match fault {
        HardwareFault::Unreachable => SealerError::HardwareUnavailable,
        HardwareFault::Lockout => SealerError::HardwareLockedOut,
        HardwareFault::AuthFail | HardwareFault::BadAuth => match step {
            Step::Unseal => SealerError::AuthFailure,
            Step::Seal => SealerError::SealFailure,
            _ => SealerError::HardwareUnavailable,
        },
        HardwareFault::Rejected => match step {
            Step::Seal | Step::Unseal => SealerError::SealFailure,
            _ => SealerError::HardwareUnavailable,
        },
    }
}

/// Reads a fault of the module at a given step. A wrong authorization value
/// is reported as such only on unseal, a lockout at every step.
pub fn classify_fault(step: Step, fault: HardwareFault) -> (e: SealerError)
    ensures
        e == sealer_failure(step, fault),
        e == SealerError::AuthFailure <==> step == Step::Unseal && (fault
            == HardwareFault::AuthFail || fault == HardwareFault::BadAuth),
        e == SealerError::HardwareLockedOut <==> fault == HardwareFault::Lockout,
{
    match fault {
        HardwareFault::Unreachable => SealerError::HardwareUnavailable,
        HardwareFault::Lockout => SealerError::HardwareLockedOut,
        HardwareFault::AuthFail | HardwareFault::BadAuth => match step {
            Step::Unseal => SealerError::AuthFailure,
            Step::Seal => SealerError::SealFailure,
            _ => SealerError::HardwareUnavailable,
        },
        HardwareFault::Rejected => match step {
            Step::Seal | Step::Unseal => SealerError::SealFailure,
            _ => SealerError::HardwareUnavailable,
        },
    }
}

} // verus!
