//! Container store: what is asked of the encrypted container, and the header
//! records that carry the salt and the sealed object.
//!
//! A header record is stored by the container as
//! `{ "type": <type_tag>, "keyslots": [], "key_description": <payload> }`,
//! the payload being the standard padded base64 text of the bytes it carries.
//! Slot 1 holds the salt, slot 2 the public part and slot 3 the private part
//! of the sealed object; keyslot 0 holds the container key.

use vstd::prelude::*;
use vstd::slice::slice_to_vec;
use crate::error::Step;
use crate::error::StoreError;

verus! {

/// Header slot of the salt.
pub const SALT_SLOT: u32 = 1;

/// Header slot of the public part of the sealed object.
pub const PUBLIC_SLOT: u32 = 2;

/// Header slot of the private part of the sealed object.
pub const PRIVATE_SLOT: u32 = 3;

/// Keyslot of the container that takes the container key.
pub const KEY_SLOT: u32 = 0;

/// Size of the volume key of a fresh container, in bytes.
pub const VOLUME_KEY_BYTES: usize = 32;

/// Name of the member of a stored record that holds the type tag.
pub const TYPE_MEMBER: &'static str = "type";

/// Name of the member of a stored record that lists keyslots.
pub const KEYSLOTS_MEMBER: &'static str = "keyslots";

/// Name of the member of a stored record that holds the payload.
pub const PAYLOAD_MEMBER: &'static str = "key_description";

/// Type tag of the salt record.
pub open spec fn salt_tag() -> Seq<char> {
    "user.salt"@
}

/// Type tag of the record of the public part.
pub open spec fn public_tag() -> Seq<char> {
    "user.obj_pub"@
}

/// Type tag of the record of the private part.
pub open spec fn private_tag() -> Seq<char> {
    "user.obj_priv"@
}

/// The padded base64 text (standard alphabet) of `data`.
pub uninterp spec fn base64_text(data: Seq<u8>) -> Seq<char>;

/// The bytes that `text` stands for, if it is the padded base64 text
/// (standard alphabet) of some bytes.
pub uninterp spec fn base64_data(text: Seq<char>) -> Option<Seq<u8>>;

/// The error of `base64`'s decoder, `base64::DecodeError`. Nothing is
/// claimed of what it holds.
#[verifier::external_type_specification]
#[verifier::external_body]
pub struct ExDecodeError(base64::DecodeError);

/// Length of the base64 text of `len` bytes.
pub open spec fn encoded_len(len: nat) -> nat {
    4 * ((len + 2) / 3)
}

/// Whether the base64 text of `data` has a length that fits a `usize`.
pub open spec fn encodable(data: Seq<u8>) -> bool {
    encoded_len(data.len()) <= usize::MAX
}

/// Calls `Engine::encode` of the crate `base64` on its `STANDARD` engine.
///
/// Trusted: the text depends on the bytes only, has four characters for
/// every three bytes begun, and `STANDARD` decodes it to the same bytes. The
/// call panics where that length does not fit a `usize`.
#[verifier::external_body]
fn base64_encode(data: &[u8]) -> (text: String)
    requires
        encodable(data@),
    ensures
        text@ == base64_text(data@),
        text@.len() == encoded_len(data@.len()),
        base64_data(text@) == Some(data@),
{
    base64::Engine::encode(&base64::engine::general_purpose::STANDARD, data)
}

/// Calls `Engine::decode` of the crate `base64` on its `STANDARD` engine.
///
/// Trusted: whether the call succeeds, and with which bytes, depends on the
/// text only.
#[verifier::external_body]
fn base64_decode(text: &str) -> (r: Result<Vec<u8>, base64::DecodeError>)
    ensures
        match r {
            Ok(data) => base64_data(text@) == Some(data@),
            Err(_) => base64_data(text@) is None,
        },
{
    base64::Engine::decode(&base64::engine::general_purpose::STANDARD, text)
}

/// A record of the container header, as it is written.
#[derive(Clone, Debug, PartialEq, Eq)]
pub struct HeaderRecord {
    /// The slot that the record replaces.
    pub slot: u32,
    /// The name of what the record carries.
    pub type_tag: String,
    /// The keyslots that the record refers to: always none.
    pub keyslots: Vec<String>,
    /// The payload as text.
    pub key_description: String,
}

/// A header record as a value.
pub struct HeaderRecordView {
    pub slot: u32,
    pub type_tag: Seq<char>,
    pub keyslots: Seq<Seq<char>>,
    pub key_description: Seq<char>,
}

impl View for HeaderRecord {
    type V = HeaderRecordView;

    open spec fn view(&self) -> HeaderRecordView {
        HeaderRecordView {
            slot: self.slot,
            type_tag: self.type_tag@,
            keyslots: Seq::new(self.keyslots@.len(), |i: int| self.keyslots@[i]@),
            key_description: self.key_description@,
        }
    }
}

/// The record that carries `payload` under `slot` and `type_tag`.
pub open spec fn record_of(slot: u32, type_tag: Seq<char>, payload: Seq<u8>) -> HeaderRecordView {
    HeaderRecordView {
        slot,
        type_tag,
        keyslots: Seq::empty(),
        key_description: base64_text(payload),
    }
}

/// What a header slot was found to hold.
#[derive(Clone, Debug, PartialEq, Eq)]
pub enum SlotReading {
    /// No record is stored under the slot.
    Absent,
    /// A record is stored, and it has no textual `key_description`.
    Empty,
    /// A record with this `key_description`.
    Payload(String),
}

/// A slot reading as a value.
pub enum SlotReadingView {
    Absent,
    Empty,
    Payload(Seq<char>),
}

impl View for SlotReading {
    type V = SlotReadingView;

    open spec fn view(&self) -> SlotReadingView {
        match self {
            SlotReading::Absent => SlotReadingView::Absent,
            SlotReading::Empty => SlotReadingView::Empty,
            SlotReading::Payload(text) => SlotReadingView::Payload(text@),
        }
    }
}

/// What reading a slot gives once `record` has been written to it.
pub open spec fn stored(record: HeaderRecordView) -> SlotReadingView {
    SlotReadingView::Payload(record.key_description)
}

/// The bytes that a slot reading carries. A missing record is told apart
/// from a record that is there and carries nothing: no payload, an empty
/// payload, or a payload that does not decode.
pub open spec fn token_payload(reading: SlotReadingView) -> Result<Seq<u8>, StoreError> {
    match reading {
        SlotReadingView::Absent => Err(StoreError::RecordMissing),
        SlotReadingView::Empty => Err(StoreError::RecordCorrupt),
        SlotReadingView::Payload(text) => if text.len() == 0 {
            Err(StoreError::RecordCorrupt)
        } else {
            match base64_data(text) {
                Some(data) => Ok(data),
                None => Err(StoreError::RecordCorrupt),
            }
        },
    }
}

/// What reading back the record of `payload` gives: the payload, unless it
/// is empty, as an empty record counts as corrupt.
pub open spec fn read_back(payload: Seq<u8>) -> Result<Seq<u8>, StoreError> {
    if payload.len() == 0 {
        Err(StoreError::RecordCorrupt)
    } else {
        Ok(payload)
    }
}

/// The three payloads of the header, slot by slot; the first slot that
/// fails decides the error.
pub open spec fn loaded_tokens(
    salt: SlotReadingView,
    sealed_public: SlotReadingView,
    sealed_private: SlotReadingView,
) -> Result<(Seq<u8>, Seq<u8>, Seq<u8>), StoreError> {
    match token_payload(salt) {
        Err(e) => Err(e),
        Ok(a) => match token_payload(sealed_public) {
            Err(e) => Err(e),
            Ok(b) => match token_payload(sealed_private) {
                Err(e) => Err(e),
                Ok(c) => Ok((a, b, c)),
            },
        },
    }
}

/// Builds the record that carries `payload`.
fn make_record(slot: u32, type_tag: &str, payload: &[u8]) -> (record: HeaderRecord)
    requires
        encodable(payload@),
    ensures
        record@ == record_of(slot, type_tag@, payload@),
        token_payload(stored(record@)) == read_back(payload@),
{
    let record = HeaderRecord {
        slot,
        type_tag: type_tag.to_owned(),
        keyslots: Vec::new(),
        key_description: base64_encode(payload),
    };
    assert(record@.keyslots =~= Seq::empty());
    record
}

/// The three header records of a salt and a sealed object, in slot order.
pub open spec fn header_records(salt: Seq<u8>, public: Seq<u8>, private: Seq<u8>) -> Seq<
    HeaderRecordView,
> {
    seq![
        record_of(SALT_SLOT, salt_tag(), salt),
        record_of(PUBLIC_SLOT, public_tag(), public),
        record_of(PRIVATE_SLOT, private_tag(), private),
    ]
}

/// The records of a list as values.
pub open spec fn record_views(records: Seq<HeaderRecord>) -> Seq<HeaderRecordView> {
    Seq::new(records.len(), |i: int| records[i]@)
}

/// What [`luks2_store_tpm_tokens`] returns: the three records, unless the
/// text of a payload would be longer than a `usize` can say.
pub open spec fn stored_tokens(salt: Seq<u8>, public: Seq<u8>, private: Seq<u8>) -> Result<
    Seq<HeaderRecordView>,
    StoreError,
> {
    if encodable(salt) && encodable(public) && encodable(private) {
        Ok(header_records(salt, public, private))
    } else {
        Err(StoreError::DeviceError)
    }
}

/// Tells whether the base64 text of `data` has a length that fits a `usize`.
pub fn is_encodable(data: &[u8]) -> (b: bool)
    ensures
        b == encodable(data@),
{
    data.len() <= usize::MAX / 4 * 3
}

/// Builds the three header records that persist the salt and the two parts
/// of the sealed object, in slot order.
///
/// Reading the three slots back after the records were written gives the
/// three byte strings again, byte for byte, provided none of them is empty:
/// an empty payload reads back as a corrupt record. A payload so long that
/// its text has no length in `usize` is turned down with `DeviceError`.
pub fn luks2_store_tpm_tokens(salt: &[u8], pub_bytes: &[u8], priv_bytes: &[u8]) -> (r: Result<
    Vec<HeaderRecord>,
    StoreError,
>)
    ensures
        match r {
            Ok(records) => {
                &&& stored_tokens(salt@, pub_bytes@, priv_bytes@) == Ok::<
                    Seq<HeaderRecordView>,
                    StoreError,
                >(record_views(records@))
                &&& token_payload(stored(records@[0]@)) == read_back(salt@)
                &&& token_payload(stored(records@[1]@)) == read_back(pub_bytes@)
                &&& token_payload(stored(records@[2]@)) == read_back(priv_bytes@)
                &&& salt@.len() > 0 && pub_bytes@.len() > 0 && priv_bytes@.len() > 0
                    ==> loaded_tokens(
                    stored(records@[0]@),
                    stored(records@[1]@),
                    stored(records@[2]@),
                ) == Ok::<(Seq<u8>, Seq<u8>, Seq<u8>), StoreError>((salt@, pub_bytes@, priv_bytes@))
            },
            Err(e) => stored_tokens(salt@, pub_bytes@, priv_bytes@) == Err::<
                Seq<HeaderRecordView>,
                StoreError,
            >(e),
        },
{
    if !is_encodable(salt) || !is_encodable(pub_bytes) || !is_encodable(priv_bytes) {
        return Err(StoreError::DeviceError);
    }
    let mut records: Vec<HeaderRecord> = Vec::new();
    records.push(make_record(SALT_SLOT, "user.salt", salt));
    records.push(make_record(PUBLIC_SLOT, "user.obj_pub", pub_bytes));
    records.push(make_record(PRIVATE_SLOT, "user.obj_priv", priv_bytes));
    assert(record_views(records@) =~= header_records(salt@, pub_bytes@, priv_bytes@));
    Ok(records)
}

/// Decodes the payload of one slot. A slot without a record is reported as
/// `RecordMissing`; a record without a payload, with an empty payload or
/// with a payload that is not base64 text, as `RecordCorrupt`.
pub fn read_token(reading: &SlotReading) -> (r: Result<Vec<u8>, StoreError>)
    ensures
        match r {
            Ok(data) => token_payload(reading@) == Ok::<Seq<u8>, StoreError>(data@),
            Err(e) => token_payload(reading@) == Err::<Seq<u8>, StoreError>(e),
        },
{
    match reading {
        SlotReading::Absent => Err(StoreError::RecordMissing),
        SlotReading::Empty => Err(StoreError::RecordCorrupt),
        SlotReading::Payload(text) => {
            if text.as_str().is_empty() {
                return Err(StoreError::RecordCorrupt);
            }
            match base64_decode(text.as_str()) {
                Ok(data) => Ok(data),
                Err(_) => Err(StoreError::RecordCorrupt),
            }
        },
    }
}

/// Decodes the salt and the two parts of the sealed object from what the
/// three header slots were found to hold.
pub fn luks2_load_tpm_tokens(
    salt: &SlotReading,
    sealed_public: &SlotReading,
    sealed_private: &SlotReading,
) -> (r: Result<(Vec<u8>, Vec<u8>, Vec<u8>), StoreError>)
    ensures
        match r {
            Ok(t) => loaded_tokens(salt@, sealed_public@, sealed_private@) == Ok::<
                (Seq<u8>, Seq<u8>, Seq<u8>),
                StoreError,
            >((t.0@, t.1@, t.2@)),
            Err(e) => loaded_tokens(salt@, sealed_public@, sealed_private@) == Err::<
                (Seq<u8>, Seq<u8>, Seq<u8>),
                StoreError,
            >(e),
        },
{
    let a = match read_token(salt) {
        Ok(a) => a,
        Err(e) => { return Err(e); },
    };
    let b = match read_token(sealed_public) {
        Ok(b) => b,
        Err(e) => { return Err(e); },
    };
    let c = match read_token(sealed_private) {
        Ok(c) => c,
        Err(e) => { return Err(e); },
    };
    Ok((a, b, c))
}

/// Cipher of a fresh container.
pub open spec fn cipher_name() -> Seq<char> {
    "aes"@
}

/// Cipher mode of a fresh container.
pub open spec fn cipher_mode_name() -> Seq<char> {
    "xts-plain"@
}

/// A request to format the container and to install a key. Whatever the
/// container held before is lost.
#[derive(Clone, Debug, PartialEq, Eq)]
pub struct FormatRequest {
    pub cipher: String,
    pub cipher_mode: String,
    /// Size of the volume key that the container generates, in bytes.
    pub volume_key_bytes: usize,
    /// The keyslot that takes `key`.
    pub keyslot: u32,
    pub key: Vec<u8>,
}

/// A format request as a value.
pub struct FormatRequestView {
    pub cipher: Seq<char>,
    pub cipher_mode: Seq<char>,
    pub volume_key_bytes: usize,
    pub keyslot: u32,
    pub key: Seq<u8>,
}

impl View for FormatRequest {
    type V = FormatRequestView;

    open spec fn view(&self) -> FormatRequestView {
        FormatRequestView {
            cipher: self.cipher@,
            cipher_mode: self.cipher_mode@,
            volume_key_bytes: self.volume_key_bytes,
            keyslot: self.keyslot,
            key: self.key@,
        }
    }
}

/// The request that installs `key` in a fresh container.
pub open spec fn format_request(key: Seq<u8>) -> FormatRequestView {
    FormatRequestView {
        cipher: cipher_name(),
        cipher_mode: cipher_mode_name(),
        volume_key_bytes: VOLUME_KEY_BYTES,
        keyslot: KEY_SLOT,
        key,
    }
}

/// Makes the request to format the container with AES in XTS mode and a
/// 256-bit volume key, and to install `key_data` in keyslot 0.
pub fn luks_format(key_data: &[u8]) -> (request: FormatRequest)
    ensures
        request@ == format_request(key_data@),
{
    FormatRequest {
        cipher: "aes".to_owned(),
        cipher_mode: "xts-plain".to_owned(),
        volume_key_bytes: VOLUME_KEY_BYTES,
        keyslot: KEY_SLOT,
        key: slice_to_vec(key_data),
    }
}

/// A request to activate the container under a mapping name.
#[derive(Clone, Debug, PartialEq, Eq)]
pub struct OpenRequest {
    pub name: String,
    pub key: Vec<u8>,
}

/// An open request as a value.
pub struct OpenRequestView {
    pub name: Seq<char>,
    pub key: Seq<u8>,
}

impl View for OpenRequest {
    type V = OpenRequestView;

    open spec fn view(&self) -> OpenRequestView {
        OpenRequestView { name: self.name@, key: self.key@ }
    }
}

/// Makes the request to activate the container with `final_key` under the
/// mapping name `name`.
pub fn luks_open(final_key: &[u8], name: &str) -> (request: OpenRequest)
    ensures
        request@ == (OpenRequestView { name: name@, key: final_key@ }),
{
    OpenRequest { name: name.to_owned(), key: slice_to_vec(final_key) }
}

/// Error number with which the container refuses a key that opens no keyslot.
pub const ERRNO_PERMISSION: i32 = 1;

/// Error number with which the container refuses a mapping name in use.
pub const ERRNO_EXISTS: i32 = 17;

/// Error number with which the container says that what was asked for does
/// not exist.
pub const ERRNO_NO_ENTRY: i32 = 2;

/// Error number with which the container says that what was asked for is
/// not valid: a device without a header, a slot without a record.
pub const ERRNO_INVALID: i32 = 22;

/// Whether an error number on reading the header or a slot means that there
/// is nothing to read, rather than that the device failed.
pub open spec fn means_absent(errno: i32) -> bool {
    errno == ERRNO_INVALID || errno == ERRNO_NO_ENTRY
}

/// Computes [`means_absent`].
pub fn is_absent(errno: i32) -> (b: bool)
    ensures
        b == means_absent(errno),
{
    errno == ERRNO_INVALID || errno == ERRNO_NO_ENTRY
}

/// The failure that an error number of the container means at a given step.
pub open spec fn store_failure(step: Step, errno: i32) -> StoreError {
    if step == Step::Open && errno == ERRNO_PERMISSION {
        StoreError::WrongKey
    } else if step == Step::Open && errno == ERRNO_EXISTS {
        StoreError::AlreadyActive
    } else {
        StoreError::DeviceError
    }
}

/// Reads an error number of the container at a given step. A wrong key and
/// a name in use are told apart on activation; everything else is a device
/// error.
pub fn classify_errno(step: Step, errno: i32) -> (e: StoreError)
    ensures
        e == store_failure(step, errno),
{
    match step {
        Step::Open => {
            if errno == ERRNO_PERMISSION {
                StoreError::WrongKey
            } else if errno == ERRNO_EXISTS {
                StoreError::AlreadyActive
            } else {
                StoreError::DeviceError
            }
        },
        _ => StoreError::DeviceError,
    }
}

} // verus!
