//! The failures that a workflow can report.

use vstd::prelude::*;
use vstd::string::StringExecFns;

verus! {

/// Failure of the key derivation.
#[derive(Clone, Copy, Debug, PartialEq, Eq, Structural)]
pub enum KdfError {
    /// The passphrase or the salt has a length that the derivation refuses.
    KdfFailure,
}

/// Failures of the hardware sealer.
#[derive(Clone, Copy, Debug, PartialEq, Eq, Structural)]
pub enum SealerError {
    /// The security module could not be reached, or its answer was unusable.
    HardwareUnavailable,
    /// The module refused to create or to reload the sealed object.
    SealFailure,
    /// The authorization value presented on unseal does not match.
    AuthFailure,
    /// Too many wrong authorization values: the module is locked out.
    HardwareLockedOut,
}

/// Failures of the container store.
#[derive(Clone, Copy, Debug, PartialEq, Eq, Structural)]
pub enum StoreError {
    /// A header slot holds no record.
    RecordMissing,
    /// A header slot holds a record without a payload that can be decoded.
    RecordCorrupt,
    /// The key opens no keyslot of the container.
    WrongKey,
    /// The mapping name is already in use.
    AlreadyActive,
    /// The container could not be read or written.
    DeviceError,
}

/// A failure together with the component that it comes from.
#[derive(Clone, Copy, Debug, PartialEq, Eq, Structural)]
pub enum ErrorKind {
    Kdf(KdfError),
    Sealer(SealerError),
    Store(StoreError),
}

/// The steps of the two workflows, in the vocabulary of a failure report.
#[derive(Clone, Copy, Debug, PartialEq, Eq, Structural)]
pub enum Step {
    OpenSession,
    CreateRootKey,
    GenerateSalt,
    GenerateSecret,
    DeriveKey,
    Seal,
    Format,
    WriteRecords,
    ReadRecords,
    Unseal,
    Open,
}

/// What a workflow reports when it gives up: the step that failed and why.
#[derive(Clone, Copy, Debug, PartialEq, Eq, Structural)]
pub struct Failure {
    pub step: Step,
    pub kind: ErrorKind,
}

/// The components that a step can address.
#[derive(Clone, Copy, Debug, PartialEq, Eq, Structural)]
pub enum Component {
    KeyDerivation,
    HardwareSealer,
    ContainerStore,
}

impl Step {
    /// The component that carries out the step.
    pub open spec fn component(self) -> Component {
        match self {
            Step::DeriveKey => Component::KeyDerivation,
            Step::Format | Step::WriteRecords | Step::ReadRecords | Step::Open =>
                Component::ContainerStore,
            _ => Component::HardwareSealer,
        }
    }

    /// The failure recorded when the driver's answer does not fit the step:
    /// the component addressed counts as unreachable.
    pub open spec fn unanswered(self) -> ErrorKind {
        match self.component() {
            Component::KeyDerivation => ErrorKind::Kdf(KdfError::KdfFailure),
            Component::HardwareSealer => ErrorKind::Sealer(SealerError::HardwareUnavailable),
            Component::ContainerStore => ErrorKind::Store(StoreError::DeviceError),
        }
    }

    /// Computes [`Step::unanswered`].
    pub fn unanswered_kind(self) -> (kind: ErrorKind)
        ensures
            kind == self.unanswered(),
    {
        match self {
            Step::DeriveKey => ErrorKind::Kdf(KdfError::KdfFailure),
            Step::Format | Step::WriteRecords | Step::ReadRecords | Step::Open => ErrorKind::Store(
                StoreError::DeviceError,
            ),
            _ => ErrorKind::Sealer(SealerError::HardwareUnavailable),
        }
    }

    /// The name of the step in a report.
    pub open spec fn name(self) -> Seq<char> {
        match self {
            Step::OpenSession => "open session"@,
            Step::CreateRootKey => "create root key"@,
            Step::GenerateSalt => "generate salt"@,
            Step::GenerateSecret => "generate secret"@,
            Step::DeriveKey => "derive key"@,
            Step::Seal => "seal"@,
            Step::Format => "format"@,
            Step::WriteRecords => "write records"@,
            Step::ReadRecords => "read records"@,
            Step::Unseal => "unseal"@,
            Step::Open => "open"@,
        }
    }

    /// Gives [`Step::name`] as text.
    pub fn label(self) -> (text: &'static str)
        ensures
            text@ == self.name(),
    {
        match self {
            Step::OpenSession => "open session",
            Step::CreateRootKey => "create root key",
            Step::GenerateSalt => "generate salt",
            Step::GenerateSecret => "generate secret",
            Step::DeriveKey => "derive key",
            Step::Seal => "seal",
            Step::Format => "format",
            Step::WriteRecords => "write records",
            Step::ReadRecords => "read records",
            Step::Unseal => "unseal",
            Step::Open => "open",
        }
    }
}

impl ErrorKind {
    /// What the user is told of a failure. A wrong authorization value on
    /// unseal is a wrong passphrase to the user.
    pub open spec fn text(self) -> Seq<char> {
        match self {
            ErrorKind::Kdf(KdfError::KdfFailure) =>
                "the passphrase or the salt cannot be used for key derivation"@,
            ErrorKind::Sealer(SealerError::HardwareUnavailable) =>
                "the security module is not available"@,
            ErrorKind::Sealer(SealerError::SealFailure) =>
                "the security module refused the sealed object"@,
            ErrorKind::Sealer(SealerError::AuthFailure) => "wrong passphrase"@,
            ErrorKind::Sealer(SealerError::HardwareLockedOut) =>
                "the security module is locked out"@,
            ErrorKind::Store(StoreError::RecordMissing) => "a header record is missing"@,
            ErrorKind::Store(StoreError::RecordCorrupt) => "a header record is corrupt"@,
            ErrorKind::Store(StoreError::WrongKey) => "the key does not open the container"@,
            ErrorKind::Store(StoreError::AlreadyActive) => "the container is already active"@,
            ErrorKind::Store(StoreError::DeviceError) => "the container cannot be accessed"@,
        }
    }

    /// Gives [`ErrorKind::text`] as text.
    pub fn describe(self) -> (text: &'static str)
        ensures
            text@ == self.text(),
    {
        match self {
            ErrorKind::Kdf(KdfError::KdfFailure) =>
                "the passphrase or the salt cannot be used for key derivation",
            ErrorKind::Sealer(SealerError::HardwareUnavailable) =>
                "the security module is not available",
            ErrorKind::Sealer(SealerError::SealFailure) =>
                "the security module refused the sealed object",
            ErrorKind::Sealer(SealerError::AuthFailure) => "wrong passphrase",
            ErrorKind::Sealer(SealerError::HardwareLockedOut) =>
                "the security module is locked out",
            ErrorKind::Store(StoreError::RecordMissing) => "a header record is missing",
            ErrorKind::Store(StoreError::RecordCorrupt) => "a header record is corrupt",
            ErrorKind::Store(StoreError::WrongKey) => "the key does not open the container",
            ErrorKind::Store(StoreError::AlreadyActive) => "the container is already active",
            ErrorKind::Store(StoreError::DeviceError) => "the container cannot be accessed",
        }
    }

    /// Whether the caller may try the workflow again once the device is
    /// there. Only an unreachable security module is of that kind: a wrong
    /// passphrase costs a lockout credit each time and is never retried
    /// without the user.
    pub open spec fn retryable(self) -> bool {
        self == ErrorKind::Sealer(SealerError::HardwareUnavailable)
    }

    /// Computes [`ErrorKind::retryable`].
    pub fn is_retryable(self) -> (b: bool)
        ensures
            b == self.retryable(),
    {
        match self {
            ErrorKind::Sealer(SealerError::HardwareUnavailable) => true,
            _ => false,
        }
    }
}

impl Failure {
    /// The report of a failure: the step, then what the user is told.
    pub open spec fn report(self) -> Seq<char> {
        "[!] "@ + self.step.name() + " failed: "@ + self.kind.text()
    }

    /// Builds [`Failure::report`].
    pub fn message(&self) -> (text: String)
        ensures
            text@ == self.report(),
    {
        let mut text = "[!] ".to_owned();
        text.append(self.step.label());
        text.append(" failed: ");
        text.append(self.kind.describe());
        text
    }
}

} // verus!
