//! Orchestrator: the two workflows, `setup` and `unlock`.
//!
//! A workflow never touches a device. It is a state that answers each event
//! with the next state and the next action; a driver performs the action on
//! the security module or on the container and reports what came of it. A
//! failure at any step ends the workflow: nothing is retried and nothing is
//! rolled back.

use vstd::prelude::*;
use vstd::utf8::encode_utf8;
use crate::error::Component;
use crate::error::ErrorKind;
use crate::error::Failure;
use crate::error::KdfError;
use crate::error::SealerError;
use crate::error::Step;
use crate::error::StoreError;
use crate::kdf::compute_hmac;
use crate::kdf::derive_key;
use crate::kdf::derived;
use crate::kdf::derives;
use crate::kdf::hmac_sha256;
use crate::kdf::slice_a;
use crate::kdf::slice_b;
use crate::kdf::split_key;
use crate::luks::classify_errno;
use crate::luks::format_request;
use crate::luks::header_records;
use crate::luks::loaded_tokens;
use crate::luks::luks2_load_tpm_tokens;
use crate::luks::luks2_store_tpm_tokens;
use crate::luks::luks_format;
use crate::luks::luks_open;
use crate::luks::record_views;
use crate::luks::store_failure;
use crate::luks::FormatRequest;
use crate::luks::FormatRequestView;
use crate::luks::HeaderRecord;
use crate::luks::HeaderRecordView;
use crate::luks::OpenRequest;
use crate::luks::OpenRequestView;
use crate::luks::SlotReading;
use crate::luks::SlotReadingView;
use crate::luks::KEY_SLOT;
use crate::tpm::blob_fits;
use crate::tpm::classify_fault;
use crate::tpm::create_primary;
use crate::tpm::is_sealed_blob;
use crate::tpm::primary_request;
use crate::tpm::seal_request;
use crate::tpm::seal_secret;
use crate::tpm::sealer_failure;
use crate::tpm::tpm_random_bytes;
use crate::tpm::unseal_request;
use crate::tpm::unseal_secret;
use crate::tpm::HardwareFault;
use crate::tpm::PrimaryRequest;
use crate::tpm::SealRequest;
use crate::tpm::SealRequestView;
use crate::tpm::SealerPhase;
use crate::tpm::UnsealRequest;
use crate::tpm::UnsealRequestView;
use crate::tpm::RANDOM_LEN;

verus! {

/// The name under which `unlock` maps the opened container.
pub open spec fn mapping_name() -> Seq<char> {
    "data"@
}

/// What the driver reports.
#[derive(Clone, Debug, PartialEq, Eq)]
pub enum Event {
    /// A session with the security module is open.
    SessionOpened,
    /// The storage root key is loaded.
    RootKeyReady,
    /// The module's random bytes.
    RandomBytes(Vec<u8>),
    /// The two parts of the object that the module sealed.
    Sealed { public: Vec<u8>, private: Vec<u8> },
    /// What the sealed object held.
    Unsealed(Vec<u8>),
    /// The container is formatted and the key sits in this keyslot.
    Formatted(u32),
    /// The header records are written.
    RecordsWritten,
    /// What the three header slots hold.
    RecordsRead { salt: SlotReading, sealed_public: SlotReading, sealed_private: SlotReading },
    /// The device holds no container header, so no slot holds a record.
    NoHeader,
    /// The container is active.
    Opened,
    /// The module turned the request down.
    HardwareFailed(HardwareFault),
    /// The container turned the request down, with this error number.
    StoreFailed(i32),
}

/// An event as a value.
pub enum EventView {
    SessionOpened,
    RootKeyReady,
    RandomBytes(Seq<u8>),
    Sealed { public: Seq<u8>, private: Seq<u8> },
    Unsealed(Seq<u8>),
    Formatted(u32),
    RecordsWritten,
    RecordsRead {
        salt: SlotReadingView,
        sealed_public: SlotReadingView,
        sealed_private: SlotReadingView,
    },
    NoHeader,
    Opened,
    HardwareFailed(HardwareFault),
    StoreFailed(i32),
}

impl View for Event {
    type V = EventView;

    open spec fn view(&self) -> EventView {
        match self {
            Event::SessionOpened => EventView::SessionOpened,
            Event::RootKeyReady => EventView::RootKeyReady,
            Event::RandomBytes(bytes) => EventView::RandomBytes(bytes@),
            Event::Sealed { public, private } => EventView::Sealed {
                public: public@,
                private: private@,
            },
            Event::Unsealed(secret) => EventView::Unsealed(secret@),
            Event::Formatted(keyslot) => EventView::Formatted(*keyslot),
            Event::RecordsWritten => EventView::RecordsWritten,
            Event::RecordsRead { salt, sealed_public, sealed_private } => EventView::RecordsRead {
                salt: salt@,
                sealed_public: sealed_public@,
                sealed_private: sealed_private@,
            },
            Event::NoHeader => EventView::NoHeader,
            Event::Opened => EventView::Opened,
            Event::HardwareFailed(fault) => EventView::HardwareFailed(*fault),
            Event::StoreFailed(errno) => EventView::StoreFailed(*errno),
        }
    }
}

/// What the driver is asked to do next.
#[derive(Clone, Debug, PartialEq, Eq)]
pub enum Action {
    /// Open a session with the security module.
    OpenSession,
    /// Create the storage root key.
    CreateRootKey(PrimaryRequest),
    /// Fetch this many bytes from the module's random number generator.
    RandomBytes(usize),
    /// Seal a secret.
    Seal(SealRequest),
    /// Unseal the secret.
    Unseal(UnsealRequest),
    /// Format the container. Destroys what it held.
    Format(FormatRequest),
    /// Write the header records, each in place of what its slot held.
    WriteRecords(Vec<HeaderRecord>),
    /// Read the three header slots.
    ReadRecords,
    /// Activate the container.
    Open(OpenRequest),
    /// The workflow is done: release the session and the container.
    Complete,
    /// The workflow failed: release the session and the container.
    Abort(Failure),
}

/// An action as a value.
pub enum ActionView {
    OpenSession,
    CreateRootKey(PrimaryRequest),
    RandomBytes(usize),
    Seal(SealRequestView),
    Unseal(UnsealRequestView),
    Format(FormatRequestView),
    WriteRecords(Seq<HeaderRecordView>),
    ReadRecords,
    Open(OpenRequestView),
    Complete,
    Abort(Failure),
}

impl View for Action {
    type V = ActionView;

    open spec fn view(&self) -> ActionView {
        match self {
            Action::OpenSession => ActionView::OpenSession,
            Action::CreateRootKey(request) => ActionView::CreateRootKey(*request),
            Action::RandomBytes(len) => ActionView::RandomBytes(*len),
            Action::Seal(request) => ActionView::Seal(request@),
            Action::Unseal(request) => ActionView::Unseal(request@),
            Action::Format(request) => ActionView::Format(request@),
            Action::WriteRecords(records) => ActionView::WriteRecords(record_views(records@)),
            Action::ReadRecords => ActionView::ReadRecords,
            Action::Open(request) => ActionView::Open(request@),
            Action::Complete => ActionView::Complete,
            Action::Abort(failure) => ActionView::Abort(*failure),
        }
    }
}

/// The failure that an event means when it is not the answer that `step`
/// waits for. A fault of the component addressed is read at that step; any
/// other event counts as that component being unreachable.
pub open spec fn refusal(step: Step, event: EventView) -> Failure {
    let kind = match event {
        EventView::HardwareFailed(fault) if step.component() == Component::HardwareSealer =>
            ErrorKind::Sealer(sealer_failure(step, fault)),
        EventView::StoreFailed(errno) if step.component() == Component::ContainerStore =>
            ErrorKind::Store(store_failure(step, errno)),
        _ => step.unanswered(),
    };
    Failure { step, kind }
}

/// Computes [`refusal`].
fn refuse(step: Step, event: &Event) -> (failure: Failure)
    ensures
        failure == refusal(step, event@),
{
    let kind = match event {
        Event::HardwareFailed(fault) => match step {
            Step::DeriveKey | Step::Format | Step::WriteRecords | Step::ReadRecords
            | Step::Open => step.unanswered_kind(),
            _ => ErrorKind::Sealer(classify_fault(step, *fault)),
        },
        Event::StoreFailed(errno) => match step {
            Step::Format | Step::WriteRecords | Step::ReadRecords | Step::Open => ErrorKind::Store(
                classify_errno(step, *errno),
            ),
            _ => step.unanswered_kind(),
        },
        _ => step.unanswered_kind(),
    };
    Failure { step, kind }
}

/// The container key: HMAC-SHA-256 of the secret under the first half of
/// the derived material.
pub open spec fn final_key(material: Seq<u8>, secret: Seq<u8>) -> Seq<u8> {
    hmac_sha256(slice_a(material), secret)
}

/// The states of the setup workflow, as values. Each state but the last two
/// waits for the answer to the action that led to it.
pub enum SetupModel {
    /// Waits for the session.
    OpeningSession { password: Seq<char> },
    /// Waits for the storage root key.
    CreatingRootKey { password: Seq<char> },
    /// Waits for the random bytes of the salt.
    GeneratingSalt { password: Seq<char> },
    /// Waits for the random bytes of the secret.
    GeneratingSecret { password: Seq<char>, salt: Seq<u8> },
    /// Waits for the sealed object. The secret and the passphrase are gone.
    Sealing { salt: Seq<u8>, final_key: Seq<u8> },
    /// Waits for the container to be formatted. The container key is gone.
    Formatting { salt: Seq<u8>, sealed_public: Seq<u8>, sealed_private: Seq<u8> },
    /// Waits for the header records to be written.
    WritingRecords,
    Done,
    Failed(Failure),
}

impl SetupModel {
    /// What holds of every state that a setup reaches.
    pub open spec fn wf(self) -> bool {
        match self {
            SetupModel::GeneratingSecret { salt, .. } => salt.len() == RANDOM_LEN,
            SetupModel::Sealing { salt, .. } => salt.len() == RANDOM_LEN,
            SetupModel::Formatting { salt, sealed_public, sealed_private } => salt.len()
                == RANDOM_LEN && blob_fits(sealed_public, sealed_private),
            _ => true,
        }
    }

    /// Whether the workflow has ended.
    pub open spec fn is_final(self) -> bool {
        self is Done || self is Failed
    }

    /// Where the session with the security module stands.
    pub open spec fn sealer_phase(self) -> SealerPhase {
        match self {
            SetupModel::OpeningSession { .. } => SealerPhase::Uninitialized,
            SetupModel::CreatingRootKey { .. } => SealerPhase::SessionOpen,
            SetupModel::GeneratingSalt { .. } => SealerPhase::RootKeyReady,
            SetupModel::GeneratingSecret { .. } => SealerPhase::RootKeyReady,
            SetupModel::Sealing { .. } => SealerPhase::Sealing,
            _ => SealerPhase::Done,
        }
    }
}

/// The outcome of a step that fails.
pub open spec fn setup_fails(failure: Failure) -> (SetupModel, ActionView) {
    (SetupModel::Failed(failure), ActionView::Abort(failure))
}

/// The step that follows the arrival of the secret: derive the two halves,
/// compute the container key and ask for the secret to be sealed under the
/// second half.
pub open spec fn setup_seal(password: Seq<char>, salt: Seq<u8>, secret: Seq<u8>) -> (
    SetupModel,
    ActionView,
) {
    match derived(encode_utf8(password), salt) {
        Err(e) => setup_fails(Failure { step: Step::DeriveKey, kind: ErrorKind::Kdf(e) }),
        Ok(material) => match seal_request(secret, slice_b(material)) {
            Err(e) => setup_fails(Failure { step: Step::Seal, kind: ErrorKind::Sealer(e) }),
            Ok(request) => (
                SetupModel::Sealing { salt, final_key: final_key(material, secret) },
                ActionView::Seal(request),
            ),
        },
    }
}

/// One step of the setup workflow: the state and the action that follow
/// `event` in `state`.
pub open spec fn setup_step(state: SetupModel, event: EventView) -> (SetupModel, ActionView) {
    match state {
        SetupModel::OpeningSession { password } => match event {
            EventView::SessionOpened => (
                SetupModel::CreatingRootKey { password },
                ActionView::CreateRootKey(primary_request()),
            ),
            _ => setup_fails(refusal(Step::OpenSession, event)),
        },
        SetupModel::CreatingRootKey { password } => match event {
            EventView::RootKeyReady => (
                SetupModel::GeneratingSalt { password },
                ActionView::RandomBytes(RANDOM_LEN),
            ),
            _ => setup_fails(refusal(Step::CreateRootKey, event)),
        },
        SetupModel::GeneratingSalt { password } => match event {
            EventView::RandomBytes(bytes) if bytes.len() == RANDOM_LEN => (
                SetupModel::GeneratingSecret { password, salt: bytes },
                ActionView::RandomBytes(RANDOM_LEN),
            ),
            _ => setup_fails(refusal(Step::GenerateSalt, event)),
        },
        SetupModel::GeneratingSecret { password, salt } => match event {
            EventView::RandomBytes(bytes) if bytes.len() == RANDOM_LEN => setup_seal(
                password,
                salt,
                bytes,
            ),
            _ => setup_fails(refusal(Step::GenerateSecret, event)),
        },
        SetupModel::Sealing { salt, final_key } => match event {
            EventView::Sealed { public, private } if blob_fits(public, private) => (
                SetupModel::Formatting { salt, sealed_public: public, sealed_private: private },
                ActionView::Format(format_request(final_key)),
            ),
            EventView::Sealed { .. } => setup_fails(
                Failure { step: Step::Seal, kind: ErrorKind::Sealer(SealerError::SealFailure) },
            ),
            _ => setup_fails(refusal(Step::Seal, event)),
        },
        SetupModel::Formatting { salt, sealed_public, sealed_private } => match event {
            EventView::Formatted(keyslot) if keyslot == KEY_SLOT => (
                SetupModel::WritingRecords,
                ActionView::WriteRecords(header_records(salt, sealed_public, sealed_private)),
            ),
            _ => setup_fails(refusal(Step::Format, event)),
        },
        SetupModel::WritingRecords => match event {
            EventView::RecordsWritten => (SetupModel::Done, ActionView::Complete),
            _ => setup_fails(refusal(Step::WriteRecords, event)),
        },
        SetupModel::Done => (SetupModel::Done, ActionView::Complete),
        SetupModel::Failed(failure) => setup_fails(failure),
    }
}

enum SetupPhase {
    OpeningSession { password: String },
    CreatingRootKey { password: String },
    GeneratingSalt { password: String },
    GeneratingSecret { password: String, salt: Vec<u8> },
    Sealing { salt: Vec<u8>, final_key: Vec<u8> },
    Formatting { salt: Vec<u8>, sealed_public: Vec<u8>, sealed_private: Vec<u8> },
    WritingRecords,
    Done,
    Failed(Failure),
}

/// A setup workflow in progress. It holds the passphrase until the two
/// halves are derived, and never the secret.
pub struct Setup {
    phase: SetupPhase,
}

impl View for Setup {
    type V = SetupModel;

    closed spec fn view(&self) -> SetupModel {
        match self.phase {
            SetupPhase::OpeningSession { password } => SetupModel::OpeningSession {
                password: password@,
            },
            SetupPhase::CreatingRootKey { password } => SetupModel::CreatingRootKey {
                password: password@,
            },
            SetupPhase::GeneratingSalt { password } => SetupModel::GeneratingSalt {
                password: password@,
            },
            SetupPhase::GeneratingSecret { password, salt } => SetupModel::GeneratingSecret {
                password: password@,
                salt: salt@,
            },
            SetupPhase::Sealing { salt, final_key } => SetupModel::Sealing {
                salt: salt@,
                final_key: final_key@,
            },
            SetupPhase::Formatting { salt, sealed_public, sealed_private } =>
                SetupModel::Formatting {
                    salt: salt@,
                    sealed_public: sealed_public@,
                    sealed_private: sealed_private@,
                },
            SetupPhase::WritingRecords => SetupModel::WritingRecords,
            SetupPhase::Done => SetupModel::Done,
            SetupPhase::Failed(failure) => SetupModel::Failed(failure),
        }
    }
}

impl Setup {
    #[verifier::type_invariant]
    spec fn inv(self) -> bool {
        self@.wf()
    }

    /// Begins a setup with this passphrase: the first thing asked for is a
    /// session with the security module.
    pub fn begin(password: &str) -> (r: (Setup, Action))
        ensures
            r.0@ == (SetupModel::OpeningSession { password: password@ }),
            r.1@ == ActionView::OpenSession,
    {
        (
            Setup { phase: SetupPhase::OpeningSession { password: password.to_owned() } },
            Action::OpenSession,
        )
    }

    /// Whether the workflow has ended.
    pub fn is_final(&self) -> (b: bool)
        ensures
            b == self@.is_final(),
    {
        match self.phase {
            SetupPhase::Done => true,
            SetupPhase::Failed(_) => true,
            _ => false,
        }
    }

    fn failed(failure: Failure) -> (r: (Setup, Action))
        ensures
            r.0@ == setup_fails(failure).0,
            r.1@ == setup_fails(failure).1,
    {
        (Setup { phase: SetupPhase::Failed(failure) }, Action::Abort(failure))
    }

    fn seal(password: String, salt: Vec<u8>, secret: Vec<u8>) -> (r: (Setup, Action))
        requires
            salt@.len() == RANDOM_LEN,
        ensures
            r.0@ == setup_seal(password@, salt@, secret@).0,
            r.1@ == setup_seal(password@, salt@, secret@).1,
    {
        let material = match derive_key(password.as_str(), salt.as_slice()) {
            Ok(material) => material,
            Err(e) => {
                return Setup::failed(Failure { step: Step::DeriveKey, kind: ErrorKind::Kdf(e) });
            },
        };
        let (key_half, pin) = match split_key(material.as_slice()) {
            Some(pair) => pair,
            None => {
                return Setup::failed(
                    Failure { step: Step::DeriveKey, kind: ErrorKind::Kdf(KdfError::KdfFailure) },
                );
            },
        };
        let final_key = compute_hmac(key_half.as_slice(), secret.as_slice());
        match seal_secret(secret.as_slice(), pin.as_slice()) {
            Ok(request) => (Setup { phase: SetupPhase::Sealing { salt, final_key } }, Action::Seal(
                request,
            )),
            Err(e) => Setup::failed(Failure { step: Step::Seal, kind: ErrorKind::Sealer(e) }),
        }
    }
}

/// Advances a setup by one event.
///
/// The steps, in order: open a session, create the root key, fetch 64
/// random bytes for the salt and 64 for the secret, derive the two halves
/// from the passphrase and the salt, seal the secret under the second half,
/// format the container with the HMAC of the secret under the first half,
/// write the salt and the sealed object to the header. Any other event than
/// the one awaited ends the setup with the failure of that step.
pub fn setup(state: Setup, event: Event) -> (r: (Setup, Action))
    ensures
        r.0@ == setup_step(state@, event@).0,
        r.1@ == setup_step(state@, event@).1,
{
    proof {
        use_type_invariant(&state);
    }
    match state.phase {
        SetupPhase::OpeningSession { password } => match event {
            Event::SessionOpened => (
                Setup { phase: SetupPhase::CreatingRootKey { password } },
                Action::CreateRootKey(create_primary()),
            ),
            other => Setup::failed(refuse(Step::OpenSession, &other)),
        },
        SetupPhase::CreatingRootKey { password } => match event {
            Event::RootKeyReady => (
                Setup { phase: SetupPhase::GeneratingSalt { password } },
                Action::RandomBytes(RANDOM_LEN),
            ),
            other => Setup::failed(refuse(Step::CreateRootKey, &other)),
        },
        SetupPhase::GeneratingSalt { password } => match event {
            Event::RandomBytes(bytes) => match tpm_random_bytes(bytes, RANDOM_LEN) {
                Ok(salt) => (
                    Setup { phase: SetupPhase::GeneratingSecret { password, salt } },
                    Action::RandomBytes(RANDOM_LEN),
                ),
                Err(e) => Setup::failed(
                    Failure { step: Step::GenerateSalt, kind: ErrorKind::Sealer(e) },
                ),
            },
            other => Setup::failed(refuse(Step::GenerateSalt, &other)),
        },
        SetupPhase::GeneratingSecret { password, salt } => match event {
            Event::RandomBytes(bytes) => match tpm_random_bytes(bytes, RANDOM_LEN) {
                Ok(secret) => Setup::seal(password, salt, secret),
                Err(e) => Setup::failed(
                    Failure { step: Step::GenerateSecret, kind: ErrorKind::Sealer(e) },
                ),
            },
            other => Setup::failed(refuse(Step::GenerateSecret, &other)),
        },
        SetupPhase::Sealing { salt, final_key } => match event {
            Event::Sealed { public, private } => {
                if is_sealed_blob(public.as_slice(), private.as_slice()) {
                    let request = luks_format(final_key.as_slice());
                    (
                        Setup {
                            phase: SetupPhase::Formatting {
                                salt,
                                sealed_public: public,
                                sealed_private: private,
                            },
                        },
                        Action::Format(request),
                    )
                } else {
                    Setup::failed(
                        Failure {
                            step: Step::Seal,
                            kind: ErrorKind::Sealer(SealerError::SealFailure),
                        },
                    )
                }
            },
            other => Setup::failed(refuse(Step::Seal, &other)),
        },
        SetupPhase::Formatting { salt, sealed_public, sealed_private } => match event {
            Event::Formatted(keyslot) => {
                if keyslot == KEY_SLOT {
                    match luks2_store_tpm_tokens(
                        salt.as_slice(),
                        sealed_public.as_slice(),
                        sealed_private.as_slice(),
                    ) {
                        Ok(records) => (
                            Setup { phase: SetupPhase::WritingRecords },
                            Action::WriteRecords(records),
                        ),
                        Err(e) => Setup::failed(
                            Failure { step: Step::WriteRecords, kind: ErrorKind::Store(e) },
                        ),
                    }
                } else {
                    Setup::failed(refuse(Step::Format, &Event::Formatted(keyslot)))
                }
            },
            other => Setup::failed(refuse(Step::Format, &other)),
        },
        SetupPhase::WritingRecords => match event {
            Event::RecordsWritten => (Setup { phase: SetupPhase::Done }, Action::Complete),
            other => Setup::failed(refuse(Step::WriteRecords, &other)),
        },
        SetupPhase::Done => (Setup { phase: SetupPhase::Done }, Action::Complete),
        SetupPhase::Failed(failure) => Setup::failed(failure),
    }
}

/// The states of the unlock workflow, as values.
pub enum UnlockModel {
    /// Waits for the header records.
    ReadingRecords { password: Seq<char> },
    /// Waits for the session. The passphrase is gone.
    OpeningSession {
        key_half: Seq<u8>,
        pin: Seq<u8>,
        sealed_public: Seq<u8>,
        sealed_private: Seq<u8>,
    },
    /// Waits for the storage root key.
    CreatingRootKey {
        key_half: Seq<u8>,
        pin: Seq<u8>,
        sealed_public: Seq<u8>,
        sealed_private: Seq<u8>,
    },
    /// Waits for the secret.
    Unsealing { key_half: Seq<u8> },
    /// Waits for the container to be activated. The secret and the
    /// container key are gone.
    Opening,
    Done,
    Failed(Failure),
}

impl UnlockModel {
    /// Whether the workflow has ended.
    pub open spec fn is_final(self) -> bool {
        self is Done || self is Failed
    }

    /// Where the session with the security module stands.
    pub open spec fn sealer_phase(self) -> SealerPhase {
        match self {
            UnlockModel::ReadingRecords { .. } => SealerPhase::Uninitialized,
            UnlockModel::OpeningSession { .. } => SealerPhase::Uninitialized,
            UnlockModel::CreatingRootKey { .. } => SealerPhase::SessionOpen,
            UnlockModel::Unsealing { .. } => SealerPhase::Unsealing,
            _ => SealerPhase::Done,
        }
    }
}

/// The outcome of a step that fails.
pub open spec fn unlock_fails(failure: Failure) -> (UnlockModel, ActionView) {
    (UnlockModel::Failed(failure), ActionView::Abort(failure))
}

/// The step that follows the reading of the header: decode the three
/// records, derive the two halves from the passphrase and the salt that was
/// read, and ask for a session.
pub open spec fn unlock_derive(
    password: Seq<char>,
    salt: SlotReadingView,
    sealed_public: SlotReadingView,
    sealed_private: SlotReadingView,
) -> (UnlockModel, ActionView) {
    match loaded_tokens(salt, sealed_public, sealed_private) {
        Err(e) => unlock_fails(Failure { step: Step::ReadRecords, kind: ErrorKind::Store(e) }),
        Ok(tokens) => match derived(encode_utf8(password), tokens.0) {
            Err(e) => unlock_fails(Failure { step: Step::DeriveKey, kind: ErrorKind::Kdf(e) }),
            Ok(material) => (
                UnlockModel::OpeningSession {
                    key_half: slice_a(material),
                    pin: slice_b(material),
                    sealed_public: tokens.1,
                    sealed_private: tokens.2,
                },
                ActionView::OpenSession,
            ),
        },
    }
}

/// One step of the unlock workflow: the state and the action that follow
/// `event` in `state`.
pub open spec fn unlock_step(state: UnlockModel, event: EventView) -> (UnlockModel, ActionView) {
    match state {
        UnlockModel::ReadingRecords { password } => match event {
            EventView::RecordsRead { salt, sealed_public, sealed_private } => unlock_derive(
                password,
                salt,
                sealed_public,
                sealed_private,
            ),
            EventView::NoHeader => unlock_fails(
                Failure {
                    step: Step::ReadRecords,
                    kind: ErrorKind::Store(StoreError::RecordMissing),
                },
            ),
            _ => unlock_fails(refusal(Step::ReadRecords, event)),
        },
        UnlockModel::OpeningSession { key_half, pin, sealed_public, sealed_private } => match event
        {
            EventView::SessionOpened => (
                UnlockModel::CreatingRootKey { key_half, pin, sealed_public, sealed_private },
                ActionView::CreateRootKey(primary_request()),
            ),
            _ => unlock_fails(refusal(Step::OpenSession, event)),
        },
        UnlockModel::CreatingRootKey { key_half, pin, sealed_public, sealed_private } => match event
        {
            EventView::RootKeyReady => match unseal_request(sealed_public, sealed_private, pin) {
                Ok(request) => (UnlockModel::Unsealing { key_half }, ActionView::Unseal(request)),
                Err(e) => unlock_fails(
                    Failure { step: Step::Unseal, kind: ErrorKind::Sealer(e) },
                ),
            },
            _ => unlock_fails(refusal(Step::CreateRootKey, event)),
        },
        UnlockModel::Unsealing { key_half } => match event {
            EventView::Unsealed(secret) => (
                UnlockModel::Opening,
                ActionView::Open(
                    OpenRequestView { name: mapping_name(), key: hmac_sha256(key_half, secret) },
                ),
            ),
            _ => unlock_fails(refusal(Step::Unseal, event)),
        },
        UnlockModel::Opening => match event {
            EventView::Opened => (UnlockModel::Done, ActionView::Complete),
            _ => unlock_fails(refusal(Step::Open, event)),
        },
        UnlockModel::Done => (UnlockModel::Done, ActionView::Complete),
        UnlockModel::Failed(failure) => unlock_fails(failure),
    }
}

enum UnlockPhase {
    ReadingRecords { password: String },
    OpeningSession {
        key_half: Vec<u8>,
        pin: Vec<u8>,
        sealed_public: Vec<u8>,
        sealed_private: Vec<u8>,
    },
    CreatingRootKey {
        key_half: Vec<u8>,
        pin: Vec<u8>,
        sealed_public: Vec<u8>,
        sealed_private: Vec<u8>,
    },
    Unsealing { key_half: Vec<u8> },
    Opening,
    Done,
    Failed(Failure),
}

/// An unlock workflow in progress. It holds the passphrase until the two
/// halves are derived, and the secret at no time.
pub struct Unlock {
    phase: UnlockPhase,
}

impl View for Unlock {
    type V = UnlockModel;

    closed spec fn view(&self) -> UnlockModel {
        match self.phase {
            UnlockPhase::ReadingRecords { password } => UnlockModel::ReadingRecords {
                password: password@,
            },
            UnlockPhase::OpeningSession { key_half, pin, sealed_public, sealed_private } =>
                UnlockModel::OpeningSession {
                    key_half: key_half@,
                    pin: pin@,
                    sealed_public: sealed_public@,
                    sealed_private: sealed_private@,
                },
            UnlockPhase::CreatingRootKey { key_half, pin, sealed_public, sealed_private } =>
                UnlockModel::CreatingRootKey {
                    key_half: key_half@,
                    pin: pin@,
                    sealed_public: sealed_public@,
                    sealed_private: sealed_private@,
                },
            UnlockPhase::Unsealing { key_half } => UnlockModel::Unsealing { key_half: key_half@ },
            UnlockPhase::Opening => UnlockModel::Opening,
            UnlockPhase::Done => UnlockModel::Done,
            UnlockPhase::Failed(failure) => UnlockModel::Failed(failure),
        }
    }
}

impl Unlock {
    /// Begins an unlock with this passphrase: the first thing asked for is
    /// the header of the container.
    pub fn begin(password: &str) -> (r: (Unlock, Action))
        ensures
            r.0@ == (UnlockModel::ReadingRecords { password: password@ }),
            r.1@ == ActionView::ReadRecords,
    {
        (
            Unlock { phase: UnlockPhase::ReadingRecords { password: password.to_owned() } },
            Action::ReadRecords,
        )
    }

    /// Whether the workflow has ended.
    pub fn is_final(&self) -> (b: bool)
        ensures
            b == self@.is_final(),
    {
        match self.phase {
            UnlockPhase::Done => true,
            UnlockPhase::Failed(_) => true,
            _ => false,
        }
    }

    fn failed(failure: Failure) -> (r: (Unlock, Action))
        ensures
            r.0@ == unlock_fails(failure).0,
            r.1@ == unlock_fails(failure).1,
    {
        (Unlock { phase: UnlockPhase::Failed(failure) }, Action::Abort(failure))
    }

    fn derive(
        password: String,
        salt: SlotReading,
        sealed_public: SlotReading,
        sealed_private: SlotReading,
    ) -> (r: (Unlock, Action))
        ensures
            r.0@ == unlock_derive(password@, salt@, sealed_public@, sealed_private@).0,
            r.1@ == unlock_derive(password@, salt@, sealed_public@, sealed_private@).1,
    {
        let tokens = match luks2_load_tpm_tokens(&salt, &sealed_public, &sealed_private) {
            Ok(tokens) => tokens,
            Err(e) => {
                return Unlock::failed(
                    Failure { step: Step::ReadRecords, kind: ErrorKind::Store(e) },
                );
            },
        };
        let material = match derive_key(password.as_str(), tokens.0.as_slice()) {
            Ok(material) => material,
            Err(e) => {
                return Unlock::failed(Failure { step: Step::DeriveKey, kind: ErrorKind::Kdf(e) });
            },
        };
        let (key_half, pin) = match split_key(material.as_slice()) {
            Some(pair) => pair,
            None => {
                return Unlock::failed(
                    Failure { step: Step::DeriveKey, kind: ErrorKind::Kdf(KdfError::KdfFailure) },
                );
            },
        };
        (
            Unlock {
                phase: UnlockPhase::OpeningSession {
                    key_half,
                    pin,
                    sealed_public: tokens.1,
                    sealed_private: tokens.2,
                },
            },
            Action::OpenSession,
        )
    }
}

/// Advances an unlock by one event.
///
/// The steps, in order: read the header records, derive the two halves from
/// the passphrase and the salt that was read, open a session, create the
/// root key, unseal the secret under the second half, activate the container
/// with the HMAC of the secret under the first half. Any other event than
/// the one awaited ends the unlock with the failure of that step; an unlock
/// never formats the container, never writes to its header and never asks
/// twice for the secret.
pub fn unlock(state: Unlock, event: Event) -> (r: (Unlock, Action))
    ensures
        r.0@ == unlock_step(state@, event@).0,
        r.1@ == unlock_step(state@, event@).1,
{
    match state.phase {
        UnlockPhase::ReadingRecords { password } => match event {
            Event::RecordsRead { salt, sealed_public, sealed_private } => Unlock::derive(
                password,
                salt,
                sealed_public,
                sealed_private,
            ),
            Event::NoHeader => Unlock::failed(
                Failure {
                    step: Step::ReadRecords,
                    kind: ErrorKind::Store(StoreError::RecordMissing),
                },
            ),
            other => Unlock::failed(refuse(Step::ReadRecords, &other)),
        },
        UnlockPhase::OpeningSession { key_half, pin, sealed_public, sealed_private } => match event
        {
            Event::SessionOpened => (
                Unlock {
                    phase: UnlockPhase::CreatingRootKey {
                        key_half,
                        pin,
                        sealed_public,
                        sealed_private,
                    },
                },
                Action::CreateRootKey(create_primary()),
            ),
            other => Unlock::failed(refuse(Step::OpenSession, &other)),
        },
        UnlockPhase::CreatingRootKey { key_half, pin, sealed_public, sealed_private } => match event
        {
            Event::RootKeyReady => match unseal_secret(
                sealed_public.as_slice(),
                sealed_private.as_slice(),
                pin.as_slice(),
            ) {
                Ok(request) => (
                    Unlock { phase: UnlockPhase::Unsealing { key_half } },
                    Action::Unseal(request),
                ),
                Err(e) => Unlock::failed(
                    Failure { step: Step::Unseal, kind: ErrorKind::Sealer(e) },
                ),
            },
            other => Unlock::failed(refuse(Step::CreateRootKey, &other)),
        },
        UnlockPhase::Unsealing { key_half } => match event {
            Event::Unsealed(secret) => {
                let final_key = compute_hmac(key_half.as_slice(), secret.as_slice());
                (Unlock { phase: UnlockPhase::Opening }, Action::Open(
                    luks_open(final_key.as_slice(), "data"),
                ))
            },
            other => Unlock::failed(refuse(Step::Unseal, &other)),
        },
        UnlockPhase::Opening => match event {
            Event::Opened => (Unlock { phase: UnlockPhase::Done }, Action::Complete),
            other => Unlock::failed(refuse(Step::Open, &other)),
        },
        UnlockPhase::Done => (Unlock { phase: UnlockPhase::Done }, Action::Complete),
        UnlockPhase::Failed(failure) => Unlock::failed(failure),
    }
}

impl SetupModel {
    /// How far a setup has come: the number of answers taken so far, and 7
    /// once it has ended.
    pub open spec fn rank(self) -> nat {
        match self {
            SetupModel::OpeningSession { .. } => 0,
            SetupModel::CreatingRootKey { .. } => 1,
            SetupModel::GeneratingSalt { .. } => 2,
            SetupModel::GeneratingSecret { .. } => 3,
            SetupModel::Sealing { .. } => 4,
            SetupModel::Formatting { .. } => 5,
            SetupModel::WritingRecords => 6,
            SetupModel::Done => 7,
            SetupModel::Failed(_) => 7,
        }
    }

    /// Whether `action` is the request whose answer `self` waits for, or the
    /// closing action of a workflow that has ended.
    pub open spec fn awaits(self, action: ActionView) -> bool {
        match self {
            SetupModel::OpeningSession { .. } => action is OpenSession,
            SetupModel::CreatingRootKey { .. } => action == ActionView::CreateRootKey(
                primary_request(),
            ),
            SetupModel::GeneratingSalt { .. } => action == ActionView::RandomBytes(RANDOM_LEN),
            SetupModel::GeneratingSecret { .. } => action == ActionView::RandomBytes(RANDOM_LEN),
            SetupModel::Sealing { .. } => action is Seal,
            SetupModel::Formatting { .. } => action is Format,
            SetupModel::WritingRecords => action is WriteRecords,
            SetupModel::Done => action is Complete,
            SetupModel::Failed(failure) => action == ActionView::Abort(failure),
        }
    }
}

impl UnlockModel {
    /// How far an unlock has come: the number of answers taken so far, and
    /// 5 once it has ended.
    pub open spec fn rank(self) -> nat {
        match self {
            UnlockModel::ReadingRecords { .. } => 0,
            UnlockModel::OpeningSession { .. } => 1,
            UnlockModel::CreatingRootKey { .. } => 2,
            UnlockModel::Unsealing { .. } => 3,
            UnlockModel::Opening => 4,
            UnlockModel::Done => 5,
            UnlockModel::Failed(_) => 5,
        }
    }

    /// Whether `action` is the request whose answer `self` waits for, or the
    /// closing action of a workflow that has ended.
    pub open spec fn awaits(self, action: ActionView) -> bool {
        match self {
            UnlockModel::ReadingRecords { .. } => action is ReadRecords,
            UnlockModel::OpeningSession { .. } => action is OpenSession,
            UnlockModel::CreatingRootKey { .. } => action == ActionView::CreateRootKey(
                primary_request(),
            ),
            UnlockModel::Unsealing { .. } => action is Unseal,
            UnlockModel::Opening => action is Open,
            UnlockModel::Done => action is Complete,
            UnlockModel::Failed(failure) => action == ActionView::Abort(failure),
        }
    }
}

/// Every step of a setup keeps the state well formed.
pub proof fn setup_keeps_wf(state: SetupModel, event: EventView)
    requires
        state.wf(),
    ensures
        setup_step(state, event).0.wf(),
{
}

/// A setup that has not ended moves forward by one step or ends; the action
/// it asks for is the one whose answer the new state waits for. So no step
/// is taken twice, and a setup ends after seven events at most.
pub proof fn setup_moves_forward(state: SetupModel, event: EventView)
    requires
        !state.is_final(),
    ensures
        ({
            let next = setup_step(state, event);
            &&& next.0.rank() == state.rank() + 1 || next.0 is Failed
            &&& next.0.rank() > state.rank()
            &&& next.0.awaits(next.1)
        }),
{
}

/// A setup that has ended stays as it is: whatever is reported to it, it
/// repeats its verdict and asks for nothing more.
pub proof fn setup_end_is_final(state: SetupModel, event: EventView)
    requires
        state.is_final(),
    ensures
        setup_step(state, event).0 == state,
        state.awaits(setup_step(state, event).1),
{
}

/// An unlock that has not ended moves forward by one step or ends; the
/// action it asks for is the one whose answer the new state waits for. So
/// the secret is asked for once at most, whatever the module answers, and an
/// unlock ends after five events at most.
pub proof fn unlock_moves_forward(state: UnlockModel, event: EventView)
    requires
        !state.is_final(),
    ensures
        ({
            let next = unlock_step(state, event);
            &&& next.0.rank() == state.rank() + 1 || next.0 is Failed
            &&& next.0.rank() > state.rank()
            &&& next.0.awaits(next.1)
        }),
{
}

/// An unlock that has ended stays as it is.
pub proof fn unlock_end_is_final(state: UnlockModel, event: EventView)
    requires
        state.is_final(),
    ensures
        unlock_step(state, event).0 == state,
        state.awaits(unlock_step(state, event).1),
{
}

/// The session with the security module only moves forward through
/// `Uninitialized`, `SessionOpen`, `RootKeyReady`, then `Sealing` in a setup
/// and `Unsealing` in an unlock, and `Done`.
pub proof fn session_follows_phases(setup: SetupModel, unlock: UnlockModel, event: EventView)
    ensures
        setup.sealer_phase().leads_to(setup_step(setup, event).0.sealer_phase()),
        unlock.sealer_phase().leads_to(unlock_step(unlock, event).0.sealer_phase()),
        !(setup.sealer_phase() is Unsealing),
        !(unlock.sealer_phase() is Sealing),
{
}

/// An unlock never formats the container, never writes to its header, and
/// asks the module neither for random bytes nor to seal anything. A setup
/// never reads the header, never unseals and never activates the container.
pub proof fn workflows_keep_to_their_actions(
    setup: SetupModel,
    unlock: UnlockModel,
    event: EventView,
)
    ensures
        !(unlock_step(unlock, event).1 is Format),
        !(unlock_step(unlock, event).1 is WriteRecords),
        !(unlock_step(unlock, event).1 is Seal),
        !(unlock_step(unlock, event).1 is RandomBytes),
        !(setup_step(setup, event).1 is ReadRecords),
        !(setup_step(setup, event).1 is Unseal),
        !(setup_step(setup, event).1 is Open),
{
}

/// What a setup writes to the header is the salt it drew and the two parts
/// of the sealed object as the module returned them, and nothing else.
pub proof fn setup_writes_salt_and_sealed_object(state: SetupModel, event: EventView)
    requires
        setup_step(state, event).1 is WriteRecords,
    ensures
        state matches SetupModel::Formatting { salt, sealed_public, sealed_private }
            && setup_step(state, event).1 == ActionView::WriteRecords(
            header_records(salt, sealed_public, sealed_private),
        ),
{
}

/// A wrong authorization value on unseal ends the unlock with `AuthFailure`
/// at the unseal step, and so does a module in lockout with
/// `HardwareLockedOut`; no key is handed out and the container is not asked
/// for anything.
pub proof fn wrong_pin_ends_unlock(key_half: Seq<u8>, fault: HardwareFault)
    ensures
        ({
            let state = UnlockModel::Unsealing { key_half };
            let next = unlock_step(state, EventView::HardwareFailed(fault));
            &&& next.1 is Abort
            &&& next.0 is Failed
            &&& next.0->Failed_0.step == Step::Unseal
            &&& (fault == HardwareFault::AuthFail || fault == HardwareFault::BadAuth)
                ==> next.0->Failed_0.kind == ErrorKind::Sealer(SealerError::AuthFailure)
            &&& fault == HardwareFault::Lockout ==> next.0->Failed_0.kind == ErrorKind::Sealer(
                SealerError::HardwareLockedOut,
            )
        }),
{
}

/// An unlock of a device without a header, or of a header without a salt
/// record, fails with `RecordMissing` at the first step.
pub proof fn unlock_without_records_fails(
    password: Seq<char>,
    sealed_public: SlotReadingView,
    sealed_private: SlotReadingView,
)
    ensures
        unlock_step(UnlockModel::ReadingRecords { password }, EventView::NoHeader) == unlock_fails(
            Failure { step: Step::ReadRecords, kind: ErrorKind::Store(StoreError::RecordMissing) },
        ),
        unlock_step(
            UnlockModel::ReadingRecords { password },
            EventView::RecordsRead { salt: SlotReadingView::Absent, sealed_public, sealed_private },
        ) == unlock_fails(
            Failure { step: Step::ReadRecords, kind: ErrorKind::Store(StoreError::RecordMissing) },
        ),
{
}

/// Whatever the passphrase, an unlock gets past the key derivation when the
/// header decodes and the salt has its 64 bytes: a wrong passphrase shows at
/// the unseal step, not before.
pub proof fn unlock_derives_from_any_passphrase(
    password: Seq<char>,
    salt: SlotReadingView,
    sealed_public: SlotReadingView,
    sealed_private: SlotReadingView,
)
    requires
        loaded_tokens(salt, sealed_public, sealed_private) is Ok,
        crate::kdf::well_formed(
            encode_utf8(password),
            loaded_tokens(salt, sealed_public, sealed_private)->Ok_0.0,
        ),
    ensures
        ({
            let next = unlock_step(
                UnlockModel::ReadingRecords { password },
                EventView::RecordsRead { salt, sealed_public, sealed_private },
            );
            next.0 is OpeningSession && next.1 is OpenSession
        }),
{
}

/// An unlock of a header whose salt has another length than 64 bytes ends
/// at the key derivation with `KdfFailure`: the module is not asked and no
/// lockout credit is spent.
pub proof fn unlock_stops_at_malformed_salt(
    password: Seq<char>,
    salt_read: SlotReadingView,
    public_read: SlotReadingView,
    private_read: SlotReadingView,
)
    requires
        loaded_tokens(salt_read, public_read, private_read) matches Ok(tokens) && tokens.0.len()
            != crate::kdf::SALT_LEN,
    ensures
        unlock_step(
            UnlockModel::ReadingRecords { password },
            EventView::RecordsRead {
                salt: salt_read,
                sealed_public: public_read,
                sealed_private: private_read,
            },
        ) == unlock_fails(
            Failure { step: Step::DeriveKey, kind: ErrorKind::Kdf(KdfError::KdfFailure) },
        ),
{
}

/// A setup seals the secret under the second half of the derived material
/// and installs the HMAC of the secret under the first half. An unlock of a
/// header that gives back the same salt and the same sealed object presents
/// that second half and, once the module hands the secret back, activates
/// the container with that HMAC. The first half never goes to the module
/// and the second never to the container.
pub proof fn halves_serve_their_purposes(
    password: Seq<char>,
    salt: Seq<u8>,
    secret: Seq<u8>,
    material: Seq<u8>,
    public: Seq<u8>,
    private: Seq<u8>,
    salt_read: SlotReadingView,
    public_read: SlotReadingView,
    private_read: SlotReadingView,
)
    requires
        salt.len() == RANDOM_LEN,
        secret.len() == RANDOM_LEN,
        blob_fits(public, private),
        derives(encode_utf8(password), salt, material),
        loaded_tokens(salt_read, public_read, private_read) == Ok::<
            (Seq<u8>, Seq<u8>, Seq<u8>),
            StoreError,
        >((salt, public, private)),
    ensures
        ({
            let sealing = setup_step(
                SetupModel::GeneratingSecret { password, salt },
                EventView::RandomBytes(secret),
            );
            let formatting = setup_step(sealing.0, EventView::Sealed { public, private });
            let session = unlock_step(
                UnlockModel::ReadingRecords { password },
                EventView::RecordsRead {
                    salt: salt_read,
                    sealed_public: public_read,
                    sealed_private: private_read,
                },
            );
            let rooted = unlock_step(session.0, EventView::SessionOpened);
            let unsealing = unlock_step(rooted.0, EventView::RootKeyReady);
            let opening = unlock_step(unsealing.0, EventView::Unsealed(secret));
            &&& sealing.1 == ActionView::Seal(
                SealRequestView {
                    template: crate::tpm::sealed_template(),
                    auth: slice_b(material),
                    data: secret,
                },
            )
            &&& formatting.1 == ActionView::Format(
                format_request(hmac_sha256(slice_a(material), secret)),
            )
            &&& unsealing.1 == ActionView::Unseal(
                UnsealRequestView { public, private, auth: slice_b(material) },
            )
            &&& opening.1 == ActionView::Open(
                OpenRequestView {
                    name: mapping_name(),
                    key: hmac_sha256(slice_a(material), secret),
                },
            )
        }),
{
}

} // verus!
