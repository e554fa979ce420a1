//! What the two workflows assume of the security module and of the
//! container, and what follows for a setup and the unlocks after it.
//!
//! Nothing here runs: the two models say in the smallest terms how the
//! devices answer, and the proofs follow a setup and an unlock step by step
//! against them.

use vstd::prelude::*;
use vstd::utf8::encode_utf8;
use crate::error::ErrorKind;
use crate::error::Failure;
use crate::error::SealerError;
use crate::error::Step;
use crate::error::StoreError;
use crate::kdf::derives;
use crate::kdf::slice_b;
use crate::luks::base64_text;
use crate::luks::format_request;
use crate::luks::header_records;
use crate::luks::stored;
use crate::luks::token_payload;
use crate::luks::HeaderRecordView;
use crate::luks::ERRNO_PERMISSION;
use crate::luks::KEY_SLOT;
use crate::luks::SlotReadingView;
use crate::luks::PRIVATE_SLOT;
use crate::luks::PUBLIC_SLOT;
use crate::luks::SALT_SLOT;
use crate::tpm::blob_fits;
use crate::tpm::HardwareFault;
use crate::tpm::SealRequestView;
use crate::tpm::UnsealRequestView;
use crate::tpm::RANDOM_LEN;
use crate::workflow::final_key;
use crate::workflow::setup_step;
use crate::workflow::unlock_fails;
use crate::workflow::unlock_step;
use crate::workflow::ActionView;
use crate::workflow::EventView;
use crate::workflow::SetupModel;
use crate::workflow::UnlockModel;

verus! {

/// What a container holds, as far as the workflows depend on it: the key
/// in its keyslot, if it was ever formatted, and the records of its header.
pub struct ContainerModel {
    pub key: Option<Seq<u8>>,
    pub header: Map<u32, HeaderRecordView>,
}

impl ContainerModel {
    /// A container that was never set up.
    pub open spec fn blank() -> ContainerModel {
        ContainerModel { key: None, header: Map::empty() }
    }

    /// The container once `record` has replaced what its slot held.
    pub open spec fn put(self, record: HeaderRecordView) -> ContainerModel {
        ContainerModel { key: self.key, header: self.header.insert(record.slot, record) }
    }

    /// The container once the records are written, one after the other.
    pub open spec fn put_all(self, records: Seq<HeaderRecordView>) -> ContainerModel
        decreases records.len(),
    {
        if records.len() == 0 {
            self
        } else {
            self.put(records.first()).put_all(records.drop_first())
        }
    }

    /// The container once `action` is performed on it with success.
    /// Formatting installs the key and clears the header; writing replaces
    /// slot by slot; no other action changes what the container holds.
    pub open spec fn after(self, action: ActionView) -> ContainerModel {
        match action {
            ActionView::Format(request) => ContainerModel {
                key: Some(request.key),
                header: Map::empty(),
            },
            ActionView::WriteRecords(records) => self.put_all(records),
            _ => self,
        }
    }

    /// What reading a slot gives.
    pub open spec fn read(self, slot: u32) -> SlotReadingView {
        if self.header.contains_key(slot) {
            stored(self.header[slot])
        } else {
            SlotReadingView::Absent
        }
    }

    /// The answer to a request to read the three slots: a container that
    /// was never formatted has no header to read them from.
    pub open spec fn records_read(self) -> EventView {
        if self.key is None {
            EventView::NoHeader
        } else {
            EventView::RecordsRead {
                salt: self.read(SALT_SLOT),
                sealed_public: self.read(PUBLIC_SLOT),
                sealed_private: self.read(PRIVATE_SLOT),
            }
        }
    }

    /// Whether `key` activates the container.
    pub open spec fn opens_with(self, key: Seq<u8>) -> bool {
        self.key == Some(key)
    }
}

/// Reading the three slots after the header records were written gives what
/// was written, whatever the container held before.
pub proof fn written_records_read_back(
    container: ContainerModel,
    salt: Seq<u8>,
    public: Seq<u8>,
    private: Seq<u8>,
)
    ensures
        ({
            let records = header_records(salt, public, private);
            let written = container.after(ActionView::WriteRecords(records));
            &&& written.read(SALT_SLOT) == stored(records[0])
            &&& written.read(PUBLIC_SLOT) == stored(records[1])
            &&& written.read(PRIVATE_SLOT) == stored(records[2])
            &&& written.key == container.key
        }),
{
    let records = header_records(salt, public, private);
    reveal_with_fuel(ContainerModel::put_all, 4);
    assert(records.drop_first() =~= seq![records[1], records[2]]);
    assert(records.drop_first().drop_first() =~= seq![records[2]]);
    assert(records.drop_first().drop_first().drop_first() =~= Seq::empty());
}

/// What the security module holds, as far as the workflows depend on it:
/// for the two parts of each object it sealed, the request that it sealed.
pub struct ModuleModel {
    pub objects: Map<(Seq<u8>, Seq<u8>), SealRequestView>,
}

impl ModuleModel {
    /// The module once it has sealed `request` and returned these two parts.
    pub open spec fn sealing(self, request: SealRequestView, public: Seq<u8>, private: Seq<u8>)
        -> ModuleModel {
        ModuleModel { objects: self.objects.insert((public, private), request) }
    }

    /// The answer to a request to unseal: the data of the object under the
    /// authorization value it was sealed with, an authorization failure
    /// under any other, a refusal of parts that the module never returned.
    pub open spec fn unsealing(self, request: UnsealRequestView) -> EventView {
        let parts = (request.public, request.private);
        if !self.objects.contains_key(parts) {
            EventView::HardwareFailed(HardwareFault::Rejected)
        } else if self.objects[parts].auth == request.auth {
            EventView::Unsealed(self.objects[parts].data)
        } else {
            EventView::HardwareFailed(HardwareFault::AuthFail)
        }
    }
}

/// Unsealing what was sealed, under the authorization value it was sealed
/// with, gives the secret back.
pub proof fn unseal_returns_what_was_sealed(
    module: ModuleModel,
    request: SealRequestView,
    public: Seq<u8>,
    private: Seq<u8>,
)
    ensures
        module.sealing(request, public, private).unsealing(
            UnsealRequestView { public, private, auth: request.auth },
        ) == EventView::Unsealed(request.data),
{
}

/// Unsealing under another authorization value fails, and the unlock that
/// asked ends with `AuthFailure` at the unseal step: the secret is not
/// returned and no key is handed out.
pub proof fn unseal_with_another_pin_fails(
    module: ModuleModel,
    request: SealRequestView,
    public: Seq<u8>,
    private: Seq<u8>,
    pin: Seq<u8>,
    key_half: Seq<u8>,
)
    requires
        pin != request.auth,
    ensures
        ({
            let answer = module.sealing(request, public, private).unsealing(
                UnsealRequestView { public, private, auth: pin },
            );
            &&& answer == EventView::HardwareFailed(HardwareFault::AuthFail)
            &&& unlock_step(UnlockModel::Unsealing { key_half }, answer) == unlock_fails(
                Failure { step: Step::Unseal, kind: ErrorKind::Sealer(SealerError::AuthFailure) },
            )
        }),
{
}

/// Whether the record of `data` reads back as `data`, as the encoder
/// promises of every payload that is not empty.
pub open spec fn decodes_back(data: Seq<u8>) -> bool {
    token_payload(SlotReadingView::Payload(base64_text(data))) == Ok::<Seq<u8>, StoreError>(data)
}

/// The state of the world after a setup with `password` that drew `salt`
/// and `secret` and was handed the sealed object `(public, private)`:
/// what the module and the container hold, and the key that was installed.
pub open spec fn after_setup(
    module: ModuleModel,
    container: ContainerModel,
    password: Seq<char>,
    salt: Seq<u8>,
    secret: Seq<u8>,
    public: Seq<u8>,
    private: Seq<u8>,
) -> (ModuleModel, ContainerModel, SetupModel) {
    let sealing = setup_step(
        SetupModel::GeneratingSecret { password, salt },
        EventView::RandomBytes(secret),
    );
    let formatting = setup_step(sealing.0, EventView::Sealed { public, private });
    let writing = setup_step(formatting.0, EventView::Formatted(KEY_SLOT));
    let done = setup_step(writing.0, EventView::RecordsWritten);
    (
        match sealing.1 {
            ActionView::Seal(request) => module.sealing(request, public, private),
            _ => module,
        },
        container.after(formatting.1).after(writing.1),
        done.0,
    )
}

/// The last state and the last action of an unlock with `password` against
/// a module and a container, every device answering as its model says.
pub open spec fn unlock_run(module: ModuleModel, container: ContainerModel, password: Seq<char>)
    -> (UnlockModel, ActionView, Option<Seq<u8>>) {
    let session = unlock_step(UnlockModel::ReadingRecords { password }, container.records_read());
    let rooted = unlock_step(session.0, EventView::SessionOpened);
    let unsealing = unlock_step(rooted.0, EventView::RootKeyReady);
    let opening = match unsealing.1 {
        ActionView::Unseal(request) => unlock_step(unsealing.0, module.unsealing(request)),
        _ => unsealing,
    };
    match opening.1 {
        ActionView::Open(request) => {
            let answer = if container.opens_with(request.key) {
                EventView::Opened
            } else {
                EventView::StoreFailed(ERRNO_PERMISSION)
            };
            let done = unlock_step(opening.0, answer);
            (done.0, done.1, Some(request.key))
        },
        _ => (opening.0, opening.1, None),
    }
}

/// A setup followed by an unlock with the same passphrase succeeds, and the
/// unlock activates the container with the very key that the setup
/// installed.
pub proof fn unlock_after_setup_succeeds(
    module: ModuleModel,
    container: ContainerModel,
    password: Seq<char>,
    salt: Seq<u8>,
    secret: Seq<u8>,
    public: Seq<u8>,
    private: Seq<u8>,
    material: Seq<u8>,
)
    requires
        salt.len() == RANDOM_LEN,
        secret.len() == RANDOM_LEN,
        blob_fits(public, private),
        derives(encode_utf8(password), salt, material),
        decodes_back(salt),
        decodes_back(public),
        decodes_back(private),
    ensures
        ({
            let world = after_setup(module, container, password, salt, secret, public, private);
            let run = unlock_run(world.0, world.1, password);
            &&& world.2 is Done
            &&& world.1.opens_with(final_key(material, secret))
            &&& run.0 is Done
            &&& run.1 is Complete
            &&& run.2 == Some(final_key(material, secret))
        }),
{
    let formatted = container.after(
        ActionView::Format(format_request(final_key(material, secret))),
    );
    written_records_read_back(formatted, salt, public, private);
}

/// A setup followed by an unlock with a passphrase that derives another
/// authorization value fails at the unseal step with `AuthFailure`, not at
/// the key derivation, and the container is not asked to open.
pub proof fn unlock_after_setup_with_wrong_passphrase_fails(
    module: ModuleModel,
    container: ContainerModel,
    password: Seq<char>,
    wrong: Seq<char>,
    salt: Seq<u8>,
    secret: Seq<u8>,
    public: Seq<u8>,
    private: Seq<u8>,
    material: Seq<u8>,
    wrong_material: Seq<u8>,
)
    requires
        salt.len() == RANDOM_LEN,
        secret.len() == RANDOM_LEN,
        blob_fits(public, private),
        derives(encode_utf8(password), salt, material),
        derives(encode_utf8(wrong), salt, wrong_material),
        slice_b(wrong_material) != slice_b(material),
        decodes_back(salt),
        decodes_back(public),
        decodes_back(private),
    ensures
        ({
            let world = after_setup(module, container, password, salt, secret, public, private);
            let run = unlock_run(world.0, world.1, wrong);
            &&& run.0 == UnlockModel::Failed(
                Failure { step: Step::Unseal, kind: ErrorKind::Sealer(SealerError::AuthFailure) },
            )
            &&& run.1 is Abort
            &&& run.2 is None
        }),
{
    let formatted = container.after(
        ActionView::Format(format_request(final_key(material, secret))),
    );
    written_records_read_back(formatted, salt, public, private);
}

/// A second setup replaces the first for good, whatever the first did:
/// afterwards only the key of the second activates the container, the
/// header holds the salt and the sealed object of the second, and an unlock
/// with the passphrase of the second succeeds.
pub proof fn second_setup_replaces_first(
    module: ModuleModel,
    container: ContainerModel,
    first_password: Seq<char>,
    first_salt: Seq<u8>,
    first_secret: Seq<u8>,
    first_public: Seq<u8>,
    first_private: Seq<u8>,
    password: Seq<char>,
    salt: Seq<u8>,
    secret: Seq<u8>,
    public: Seq<u8>,
    private: Seq<u8>,
    material: Seq<u8>,
    key: Seq<u8>,
)
    requires
        salt.len() == RANDOM_LEN,
        secret.len() == RANDOM_LEN,
        blob_fits(public, private),
        derives(encode_utf8(password), salt, material),
        decodes_back(salt),
        decodes_back(public),
        decodes_back(private),
    ensures
        ({
            let first = after_setup(
                module,
                container,
                first_password,
                first_salt,
                first_secret,
                first_public,
                first_private,
            );
            let second = after_setup(first.0, first.1, password, salt, secret, public, private);
            let records = header_records(salt, public, private);
            &&& second.1.opens_with(key) <==> key == final_key(material, secret)
            &&& second.1.header.dom() =~= set![SALT_SLOT, PUBLIC_SLOT, PRIVATE_SLOT]
            &&& second.1.read(SALT_SLOT) == stored(records[0])
            &&& second.1.read(PUBLIC_SLOT) == stored(records[1])
            &&& second.1.read(PRIVATE_SLOT) == stored(records[2])
            &&& unlock_run(second.0, second.1, password).0 is Done
        }),
{
    let first = after_setup(
        module,
        container,
        first_password,
        first_salt,
        first_secret,
        first_public,
        first_private,
    );
    unlock_after_setup_succeeds(first.0, first.1, password, salt, secret, public, private, material);
    let formatted = first.1.after(ActionView::Format(format_request(final_key(material, secret))));
    written_records_read_back(formatted, salt, public, private);
    let records = header_records(salt, public, private);
    reveal_with_fuel(ContainerModel::put_all, 4);
    assert(records.drop_first() =~= seq![records[1], records[2]]);
    assert(records.drop_first().drop_first() =~= seq![records[2]]);
    assert(records.drop_first().drop_first().drop_first() =~= Seq::empty());
}

/// After a second setup, an unlock with the passphrase of the first fails
/// at the unseal step with `AuthFailure` and never asks for the container
/// to be opened, given that the first passphrase derives another
/// authorization value from the salt of the second setup than the second
/// passphrase does.
pub proof fn first_passphrase_fails_after_second_setup(
    module: ModuleModel,
    container: ContainerModel,
    first_password: Seq<char>,
    first_salt: Seq<u8>,
    first_secret: Seq<u8>,
    first_public: Seq<u8>,
    first_private: Seq<u8>,
    password: Seq<char>,
    salt: Seq<u8>,
    secret: Seq<u8>,
    public: Seq<u8>,
    private: Seq<u8>,
    material: Seq<u8>,
    stale_material: Seq<u8>,
)
    requires
        salt.len() == RANDOM_LEN,
        secret.len() == RANDOM_LEN,
        blob_fits(public, private),
        derives(encode_utf8(password), salt, material),
        derives(encode_utf8(first_password), salt, stale_material),
        slice_b(stale_material) != slice_b(material),
        decodes_back(salt),
        decodes_back(public),
        decodes_back(private),
    ensures
        ({
            let first = after_setup(
                module,
                container,
                first_password,
                first_salt,
                first_secret,
                first_public,
                first_private,
            );
            let second = after_setup(first.0, first.1, password, salt, secret, public, private);
            let run = unlock_run(second.0, second.1, first_password);
            &&& run.0 == UnlockModel::Failed(
                Failure { step: Step::Unseal, kind: ErrorKind::Sealer(SealerError::AuthFailure) },
            )
            &&& run.1 is Abort
            &&& run.2 is None
        }),
{
    let first = after_setup(
        module,
        container,
        first_password,
        first_salt,
        first_secret,
        first_public,
        first_private,
    );
    unlock_after_setup_with_wrong_passphrase_fails(
        first.0,
        first.1,
        password,
        first_password,
        salt,
        secret,
        public,
        private,
        material,
        stale_material,
    );
}

/// No step of an unlock changes what the container holds: an unlock that
/// fails leaves the container as it found it.
pub proof fn unlock_leaves_container_as_it_is(
    container: ContainerModel,
    state: UnlockModel,
    event: EventView,
)
    ensures
        container.after(unlock_step(state, event).1) == container,
{
}

/// An unlock of a container that was never set up fails with
/// `RecordMissing` at the first step, whatever the passphrase and whatever
/// the module holds.
pub proof fn unlock_of_blank_container_fails(module: ModuleModel, password: Seq<char>)
    ensures
        unlock_run(module, ContainerModel::blank(), password).0 == UnlockModel::Failed(
            Failure { step: Step::ReadRecords, kind: ErrorKind::Store(StoreError::RecordMissing) },
        ),
        unlock_run(module, ContainerModel::blank(), password).1 is Abort,
        unlock_run(module, ContainerModel::blank(), password).2 is None,
{
}

} // verus!
