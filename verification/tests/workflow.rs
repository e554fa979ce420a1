use std::collections::HashMap;

use tpm2_luks::error::{ErrorKind, Failure, KdfError, SealerError, Step, StoreError};
use tpm2_luks::kdf::{compute_hmac, derive_key};
use tpm2_luks::luks::{luks2_store_tpm_tokens, SlotReading};
use tpm2_luks::tpm::{build_sealed_template, create_primary, HardwareFault};
use tpm2_luks::workflow::{setup, unlock, Action, Event, Setup, Unlock};

/// A security module that keeps what it sealed in memory.
struct Module {
    sealed: Vec<(Vec<u8>, Vec<u8>)>,
    drawn: u8,
    wrong_pins: u32,
}

/// A container that keeps its keyslot and its header in memory.
struct Container {
    key: Option<Vec<u8>>,
    header: HashMap<u32, String>,
    active: bool,
}

impl Module {
    fn new() -> Module {
        Module { sealed: Vec::new(), drawn: 0, wrong_pins: 0 }
    }

    fn random(&mut self, len: usize) -> Vec<u8> {
        self.drawn = self.drawn.wrapping_add(1);
        (0..len).map(|i| (i as u8).wrapping_mul(7).wrapping_add(self.drawn)).collect()
    }
}

impl Container {
    fn blank() -> Container {
        Container { key: None, header: HashMap::new(), active: false }
    }

    fn read(&self, slot: u32) -> SlotReading {
        match self.header.get(&slot) {
            Some(text) => SlotReading::Payload(text.clone()),
            None => SlotReading::Absent,
        }
    }
}

/// Performs one action and says what came of it; `None` once the workflow
/// has ended.
fn perform(action: &Action, module: &mut Module, container: &mut Container) -> Option<Event> {
    match action {
        Action::OpenSession => Some(Event::SessionOpened),
        Action::CreateRootKey(_) => Some(Event::RootKeyReady),
        Action::RandomBytes(len) => Some(Event::RandomBytes(module.random(*len))),
        Action::Seal(request) => {
            module.sealed.push((request.data.clone(), request.auth.clone()));
            let index = (module.sealed.len() - 1) as u8;
            Some(Event::Sealed { public: vec![0xAA, index], private: vec![0xBB, index] })
        }
        Action::Unseal(request) => {
            if request.public.len() != 2 || request.private.len() != 2 {
                return Some(Event::HardwareFailed(HardwareFault::Rejected));
            }
            let (data, auth) = &module.sealed[request.public[1] as usize];
            if *auth == request.auth {
                Some(Event::Unsealed(data.clone()))
            } else {
                module.wrong_pins += 1;
                Some(Event::HardwareFailed(HardwareFault::AuthFail))
            }
        }
        Action::Format(request) => {
            container.key = Some(request.key.clone());
            container.header.clear();
            Some(Event::Formatted(request.keyslot))
        }
        Action::WriteRecords(records) => {
            for record in records {
                container.header.insert(record.slot, record.key_description.clone());
            }
            Some(Event::RecordsWritten)
        }
        Action::ReadRecords => match container.key {
            None => Some(Event::NoHeader),
            Some(_) => Some(Event::RecordsRead {
                salt: container.read(1),
                sealed_public: container.read(2),
                sealed_private: container.read(3),
            }),
        },
        Action::Open(request) => {
            if container.active {
                Some(Event::StoreFailed(17))
            } else if container.key.as_ref() == Some(&request.key) {
                container.active = true;
                Some(Event::Opened)
            } else {
                Some(Event::StoreFailed(1))
            }
        }
        Action::Complete | Action::Abort(_) => None,
    }
}

fn run_setup(password: &str, module: &mut Module, container: &mut Container) -> Vec<Action> {
    let (mut state, mut action) = Setup::begin(password);
    let mut log = vec![action.clone()];
    while let Some(event) = perform(&action, module, container) {
        let next = setup(state, event);
        state = next.0;
        action = next.1;
        log.push(action.clone());
    }
    assert!(state.is_final());
    log
}

fn run_unlock(password: &str, module: &mut Module, container: &mut Container) -> Vec<Action> {
    let (mut state, mut action) = Unlock::begin(password);
    let mut log = vec![action.clone()];
    while let Some(event) = perform(&action, module, container) {
        let next = unlock(state, event);
        state = next.0;
        action = next.1;
        log.push(action.clone());
    }
    assert!(state.is_final());
    log
}

fn format_key(log: &[Action]) -> Vec<u8> {
    for action in log {
        if let Action::Format(request) = action {
            return request.key.clone();
        }
    }
    panic!("no format in {:?}", log)
}

fn open_key(log: &[Action]) -> Vec<u8> {
    for action in log {
        if let Action::Open(request) = action {
            return request.key.clone();
        }
    }
    panic!("no open in {:?}", log)
}

fn failure(step: Step, kind: ErrorKind) -> Action {
    Action::Abort(Failure { step, kind })
}

fn hex(bytes: &[u8]) -> String {
    let mut out = String::new();
    for b in bytes {
        out.push_str(&format!("{:02x}", b));
    }
    out
}

/// A setup that has drawn its salt and waits for the secret.
fn setup_waiting_for_secret(password: &str, salt: Vec<u8>) -> Setup {
    let (state, _) = Setup::begin(password);
    let (state, _) = setup(state, Event::SessionOpened);
    let (state, _) = setup(state, Event::RootKeyReady);
    let (state, action) = setup(state, Event::RandomBytes(salt));
    assert_eq!(action, Action::RandomBytes(64));
    state
}

/// An unlock that has asked for the secret, on a header that decodes.
fn unlock_waiting_for_secret(password: &str) -> Unlock {
    let records = luks2_store_tpm_tokens(&[1u8; 64], &[2, 2], &[3, 3]).unwrap();
    let (state, _) = Unlock::begin(password);
    let (state, _) = unlock(
        state,
        Event::RecordsRead {
            salt: SlotReading::Payload(records[0].key_description.clone()),
            sealed_public: SlotReading::Payload(records[1].key_description.clone()),
            sealed_private: SlotReading::Payload(records[2].key_description.clone()),
        },
    );
    let (state, _) = unlock(state, Event::SessionOpened);
    let (state, action) = unlock(state, Event::RootKeyReady);
    assert!(matches!(action, Action::Unseal(_)));
    state
}

#[test]
fn setup_then_unlock_with_the_same_password_opens_with_the_same_key() {
    let mut module = Module::new();
    let mut container = Container::blank();
    let setup_log = run_setup("correct horse", &mut module, &mut container);
    assert_eq!(setup_log.last(), Some(&Action::Complete));
    let unlock_log = run_unlock("correct horse", &mut module, &mut container);
    assert_eq!(unlock_log.last(), Some(&Action::Complete));
    assert_eq!(format_key(&setup_log), open_key(&unlock_log));
    assert_eq!(open_key(&unlock_log).len(), 32);
    assert!(container.active);
    assert_eq!(module.wrong_pins, 0);
}

#[test]
fn unlock_with_a_wrong_password_fails_at_unseal_with_auth_failure() {
    let mut module = Module::new();
    let mut container = Container::blank();
    run_setup("correct horse", &mut module, &mut container);
    let log = run_unlock("wrong password", &mut module, &mut container);
    assert_eq!(
        log.last(),
        Some(&failure(Step::Unseal, ErrorKind::Sealer(SealerError::AuthFailure)))
    );
    assert!(log.iter().all(|action| !matches!(action, Action::Open(_))));
    assert_eq!(log.iter().filter(|action| matches!(action, Action::Unseal(_))).count(), 1);
    assert_eq!(module.wrong_pins, 1);
    assert!(!container.active);
}

#[test]
fn unlock_of_a_container_that_was_never_set_up_reports_missing_records() {
    let mut module = Module::new();
    let mut container = Container::blank();
    let log = run_unlock("correct horse", &mut module, &mut container);
    assert_eq!(
        log,
        vec![
            Action::ReadRecords,
            failure(Step::ReadRecords, ErrorKind::Store(StoreError::RecordMissing)),
        ]
    );
}

#[test]
fn unlock_of_a_header_without_records_reports_missing_records() {
    let (state, _) = Unlock::begin("correct horse");
    let (state, action) = unlock(
        state,
        Event::RecordsRead {
            salt: SlotReading::Absent,
            sealed_public: SlotReading::Absent,
            sealed_private: SlotReading::Absent,
        },
    );
    assert_eq!(action, failure(Step::ReadRecords, ErrorKind::Store(StoreError::RecordMissing)));
    assert!(state.is_final());
}

#[test]
fn setup_takes_no_header_for_no_answer() {
    let (state, _) = Setup::begin("correct horse");
    let (_, action) = setup(state, Event::NoHeader);
    assert_eq!(
        action,
        failure(Step::OpenSession, ErrorKind::Sealer(SealerError::HardwareUnavailable))
    );
}

#[test]
fn second_setup_replaces_the_first() {
    let mut module = Module::new();
    let mut container = Container::blank();
    let first = run_setup("first password", &mut module, &mut container);
    let second = run_setup("second password", &mut module, &mut container);
    assert_ne!(format_key(&first), format_key(&second));
    assert_eq!(container.key, Some(format_key(&second)));
    assert_eq!(container.header.len(), 3);

    let stale = run_unlock("first password", &mut module, &mut container);
    assert_eq!(
        stale.last(),
        Some(&failure(Step::Unseal, ErrorKind::Sealer(SealerError::AuthFailure)))
    );
    assert!(!container.active);

    let fresh = run_unlock("second password", &mut module, &mut container);
    assert_eq!(fresh.last(), Some(&Action::Complete));
    assert_eq!(open_key(&fresh), format_key(&second));
}

#[test]
fn key_of_the_first_setup_no_longer_opens_after_the_second() {
    let mut module = Module::new();
    let mut container = Container::blank();
    let first = run_setup("first password", &mut module, &mut container);
    run_setup("second password", &mut module, &mut container);
    let stale = tpm2_luks::luks::luks_open(&format_key(&first), "data");
    assert_eq!(
        perform(&Action::Open(stale), &mut module, &mut container),
        Some(Event::StoreFailed(1))
    );
}

#[test]
fn setup_asks_for_its_steps_in_order() {
    let mut module = Module::new();
    let mut container = Container::blank();
    let log = run_setup("correct horse", &mut module, &mut container);
    assert_eq!(log.len(), 8);
    assert_eq!(log[0], Action::OpenSession);
    assert_eq!(log[1], Action::CreateRootKey(create_primary()));
    assert_eq!(log[2], Action::RandomBytes(64));
    assert_eq!(log[3], Action::RandomBytes(64));
    assert!(matches!(log[4], Action::Seal(_)));
    assert!(matches!(log[5], Action::Format(_)));
    assert!(matches!(log[6], Action::WriteRecords(_)));
    assert_eq!(log[7], Action::Complete);
}

#[test]
fn unlock_asks_for_its_steps_in_order() {
    let mut module = Module::new();
    let mut container = Container::blank();
    run_setup("correct horse", &mut module, &mut container);
    let log = run_unlock("correct horse", &mut module, &mut container);
    assert_eq!(log.len(), 6);
    assert_eq!(log[0], Action::ReadRecords);
    assert_eq!(log[1], Action::OpenSession);
    assert_eq!(log[2], Action::CreateRootKey(create_primary()));
    assert!(matches!(log[3], Action::Unseal(_)));
    assert!(matches!(log[4], Action::Open(_)));
    assert_eq!(log[5], Action::Complete);
    if let Action::Open(request) = &log[4] {
        assert_eq!(request.name, "data");
    }
}

#[test]
fn setup_seals_under_the_second_half_and_formats_with_the_hmac_of_the_first() {
    let salt: Vec<u8> = (0u8..64).collect();
    let secret = vec![0xA5u8; 64];
    let state = setup_waiting_for_secret("correct horse", salt.clone());
    let (state, action) = setup(state, Event::RandomBytes(secret.clone()));
    let request = match action {
        Action::Seal(request) => request,
        other => panic!("{:?}", other),
    };
    assert_eq!(request.data, secret);
    assert_eq!(
        hex(&request.auth),
        "f44908d99cad4b25256962c8a2a7f215b32c8bf4c86d55cbb1c782a0af7ba67f"
    );
    assert_eq!(request.template, build_sealed_template());

    let (state, action) = setup(state, Event::Sealed { public: vec![1, 2], private: vec![3] });
    let format = match action {
        Action::Format(format) => format,
        other => panic!("{:?}", other),
    };
    assert_eq!(
        hex(&format.key),
        "987107b70e34a1a08fc370228819ff8601157600e456109bd7a3b342fa4ae384"
    );
    let material = derive_key("correct horse", &salt).unwrap();
    assert_eq!(format.key, compute_hmac(&material[..32], &secret));
    assert_eq!((format.cipher.as_str(), format.cipher_mode.as_str()), ("aes", "xts-plain"));
    assert_eq!((format.volume_key_bytes, format.keyslot), (32, 0));

    let (state, action) = setup(state, Event::Formatted(0));
    let records = luks2_store_tpm_tokens(&salt, &[1, 2], &[3]).unwrap();
    assert_eq!(action, Action::WriteRecords(records));
    let (state, action) = setup(state, Event::RecordsWritten);
    assert_eq!(action, Action::Complete);
    assert!(state.is_final());
}

#[test]
fn unlock_presents_the_second_half_and_opens_with_the_hmac_of_the_first() {
    let salt: Vec<u8> = (0u8..64).collect();
    let records = luks2_store_tpm_tokens(&salt, &[7, 7, 7], &[8, 8]).unwrap();
    let (state, action) = Unlock::begin("correct horse");
    assert_eq!(action, Action::ReadRecords);
    let (state, action) = unlock(
        state,
        Event::RecordsRead {
            salt: SlotReading::Payload(records[0].key_description.clone()),
            sealed_public: SlotReading::Payload(records[1].key_description.clone()),
            sealed_private: SlotReading::Payload(records[2].key_description.clone()),
        },
    );
    assert_eq!(action, Action::OpenSession);
    let (state, _) = unlock(state, Event::SessionOpened);
    let (state, action) = unlock(state, Event::RootKeyReady);
    let request = match action {
        Action::Unseal(request) => request,
        other => panic!("{:?}", other),
    };
    assert_eq!(request.public, vec![7, 7, 7]);
    assert_eq!(request.private, vec![8, 8]);
    assert_eq!(
        hex(&request.auth),
        "f44908d99cad4b25256962c8a2a7f215b32c8bf4c86d55cbb1c782a0af7ba67f"
    );
    let (state, action) = unlock(state, Event::Unsealed(vec![0xA5u8; 64]));
    let open = match action {
        Action::Open(open) => open,
        other => panic!("{:?}", other),
    };
    assert_eq!(hex(&open.key), "987107b70e34a1a08fc370228819ff8601157600e456109bd7a3b342fa4ae384");
    assert_eq!(open.name, "data");
    let (state, action) = unlock(state, Event::Opened);
    assert_eq!(action, Action::Complete);
    assert!(state.is_final());
}

#[test]
fn setup_refuses_a_short_random_reply() {
    let (state, _) = Setup::begin("correct horse");
    let (state, _) = setup(state, Event::SessionOpened);
    let (state, _) = setup(state, Event::RootKeyReady);
    let (state, action) = setup(state, Event::RandomBytes(vec![1; 32]));
    assert_eq!(
        action,
        failure(Step::GenerateSalt, ErrorKind::Sealer(SealerError::HardwareUnavailable))
    );
    assert!(state.is_final());

    let state = setup_waiting_for_secret("correct horse", vec![1; 64]);
    let (_, action) = setup(state, Event::RandomBytes(vec![1; 65]));
    assert_eq!(
        action,
        failure(Step::GenerateSecret, ErrorKind::Sealer(SealerError::HardwareUnavailable))
    );
}

#[test]
fn setup_refuses_a_sealed_object_that_exceeds_the_buffers() {
    let state = setup_waiting_for_secret("correct horse", vec![1; 64]);
    let (state, _) = setup(state, Event::RandomBytes(vec![2; 64]));
    let (state, action) =
        setup(state, Event::Sealed { public: vec![0; 613], private: vec![0; 10] });
    assert_eq!(action, failure(Step::Seal, ErrorKind::Sealer(SealerError::SealFailure)));
    assert!(state.is_final());
}

#[test]
fn setup_reports_a_key_in_another_keyslot_as_device_error() {
    let state = setup_waiting_for_secret("correct horse", vec![1; 64]);
    let (state, _) = setup(state, Event::RandomBytes(vec![2; 64]));
    let (state, _) = setup(state, Event::Sealed { public: vec![0; 612], private: vec![0; 1550] });
    let (_, action) = setup(state, Event::Formatted(1));
    assert_eq!(action, failure(Step::Format, ErrorKind::Store(StoreError::DeviceError)));
}

#[test]
fn setup_ends_on_a_fault_of_the_module_at_each_step() {
    let (state, _) = Setup::begin("pw");
    let (_, action) = setup(state, Event::HardwareFailed(HardwareFault::Unreachable));
    assert_eq!(
        action,
        failure(Step::OpenSession, ErrorKind::Sealer(SealerError::HardwareUnavailable))
    );

    let (state, _) = Setup::begin("pw");
    let (state, _) = setup(state, Event::SessionOpened);
    let (_, action) = setup(state, Event::HardwareFailed(HardwareFault::Lockout));
    assert_eq!(
        action,
        failure(Step::CreateRootKey, ErrorKind::Sealer(SealerError::HardwareLockedOut))
    );

    let state = setup_waiting_for_secret("pw", vec![1; 64]);
    let (state, _) = setup(state, Event::RandomBytes(vec![2; 64]));
    let (_, action) = setup(state, Event::HardwareFailed(HardwareFault::Rejected));
    assert_eq!(action, failure(Step::Seal, ErrorKind::Sealer(SealerError::SealFailure)));
}

#[test]
fn setup_ends_on_a_failure_of_the_container() {
    let state = setup_waiting_for_secret("pw", vec![1; 64]);
    let (state, _) = setup(state, Event::RandomBytes(vec![2; 64]));
    let (state, _) = setup(state, Event::Sealed { public: vec![1], private: vec![2] });
    let (_, action) = setup(state, Event::StoreFailed(5));
    assert_eq!(action, failure(Step::Format, ErrorKind::Store(StoreError::DeviceError)));

    let state = setup_waiting_for_secret("pw", vec![1; 64]);
    let (state, _) = setup(state, Event::RandomBytes(vec![2; 64]));
    let (state, _) = setup(state, Event::Sealed { public: vec![1], private: vec![2] });
    let (state, _) = setup(state, Event::Formatted(0));
    let (_, action) = setup(state, Event::StoreFailed(28));
    assert_eq!(action, failure(Step::WriteRecords, ErrorKind::Store(StoreError::DeviceError)));
}

#[test]
fn event_that_answers_nothing_ends_the_workflow() {
    let (state, _) = Setup::begin("pw");
    let (_, action) = setup(state, Event::RootKeyReady);
    assert_eq!(
        action,
        failure(Step::OpenSession, ErrorKind::Sealer(SealerError::HardwareUnavailable))
    );

    let (state, _) = Setup::begin("pw");
    let (_, action) = setup(state, Event::StoreFailed(1));
    assert_eq!(
        action,
        failure(Step::OpenSession, ErrorKind::Sealer(SealerError::HardwareUnavailable))
    );

    let (state, _) = Unlock::begin("pw");
    let (_, action) = unlock(state, Event::SessionOpened);
    assert_eq!(action, failure(Step::ReadRecords, ErrorKind::Store(StoreError::DeviceError)));

    let (state, _) = Unlock::begin("pw");
    let (_, action) = unlock(state, Event::HardwareFailed(HardwareFault::AuthFail));
    assert_eq!(action, failure(Step::ReadRecords, ErrorKind::Store(StoreError::DeviceError)));
}

#[test]
fn ended_workflow_repeats_its_verdict() {
    let (state, _) = Setup::begin("pw");
    let (state, first) = setup(state, Event::HardwareFailed(HardwareFault::Unreachable));
    let (state, second) = setup(state, Event::SessionOpened);
    let (state, third) = setup(state, Event::RandomBytes(vec![0; 64]));
    assert_eq!(first, second);
    assert_eq!(second, third);
    assert!(state.is_final());

    let state = unlock_waiting_for_secret("pw");
    let (state, _) = unlock(state, Event::Unsealed(vec![9; 64]));
    let (state, done) = unlock(state, Event::Opened);
    assert_eq!(done, Action::Complete);
    let (state, again) = unlock(state, Event::HardwareFailed(HardwareFault::Lockout));
    assert_eq!(again, Action::Complete);
    assert!(state.is_final());
}

#[test]
fn unlock_reports_a_corrupt_record() {
    let (state, _) = Unlock::begin("pw");
    let (state, action) = unlock(
        state,
        Event::RecordsRead {
            salt: SlotReading::Payload("AAAAAAAAAAA=".to_string()),
            sealed_public: SlotReading::Payload("***".to_string()),
            sealed_private: SlotReading::Absent,
        },
    );
    assert_eq!(action, failure(Step::ReadRecords, ErrorKind::Store(StoreError::RecordCorrupt)));
    assert!(state.is_final());
}

#[test]
fn unlock_stops_at_a_salt_of_another_length_before_the_module_is_asked() {
    for len in [3usize, 8, 16, 63, 65] {
        let records = luks2_store_tpm_tokens(&vec![1u8; len], &[4], &[5]).unwrap();
        let (state, _) = Unlock::begin("pw");
        let (state, action) = unlock(
            state,
            Event::RecordsRead {
                salt: SlotReading::Payload(records[0].key_description.clone()),
                sealed_public: SlotReading::Payload(records[1].key_description.clone()),
                sealed_private: SlotReading::Payload(records[2].key_description.clone()),
            },
        );
        assert_eq!(action, failure(Step::DeriveKey, ErrorKind::Kdf(KdfError::KdfFailure)));
        assert!(state.is_final());
    }
}

#[test]
fn unlock_reports_an_empty_payload_as_a_corrupt_record() {
    let records = luks2_store_tpm_tokens(&[1u8; 64], &[4], &[5]).unwrap();
    let (state, _) = Unlock::begin("pw");
    let (state, action) = unlock(
        state,
        Event::RecordsRead {
            salt: SlotReading::Payload(records[0].key_description.clone()),
            sealed_public: SlotReading::Payload(String::new()),
            sealed_private: SlotReading::Payload(records[2].key_description.clone()),
        },
    );
    assert_eq!(action, failure(Step::ReadRecords, ErrorKind::Store(StoreError::RecordCorrupt)));
    assert!(state.is_final());
}

#[test]
fn setup_refuses_a_sealed_object_with_an_empty_part() {
    let state = setup_waiting_for_secret("correct horse", vec![1; 64]);
    let (state, _) = setup(state, Event::RandomBytes(vec![2; 64]));
    let (state, action) = setup(state, Event::Sealed { public: vec![], private: vec![1] });
    assert_eq!(action, failure(Step::Seal, ErrorKind::Sealer(SealerError::SealFailure)));
    assert!(state.is_final());
}

#[test]
fn unlock_refuses_a_private_part_that_exceeds_the_buffer() {
    let records = luks2_store_tpm_tokens(&[1; 64], &[4], &[5; 1551]).unwrap();
    let (state, _) = Unlock::begin("pw");
    let (state, _) = unlock(
        state,
        Event::RecordsRead {
            salt: SlotReading::Payload(records[0].key_description.clone()),
            sealed_public: SlotReading::Payload(records[1].key_description.clone()),
            sealed_private: SlotReading::Payload(records[2].key_description.clone()),
        },
    );
    let (state, _) = unlock(state, Event::SessionOpened);
    let (_, action) = unlock(state, Event::RootKeyReady);
    assert_eq!(action, failure(Step::Unseal, ErrorKind::Sealer(SealerError::SealFailure)));
}

#[test]
fn unlock_reports_lockout_apart_from_a_wrong_pin() {
    let state = unlock_waiting_for_secret("pw");
    let (_, action) = unlock(state, Event::HardwareFailed(HardwareFault::Lockout));
    assert_eq!(action, failure(Step::Unseal, ErrorKind::Sealer(SealerError::HardwareLockedOut)));

    let state = unlock_waiting_for_secret("pw");
    let (_, action) = unlock(state, Event::HardwareFailed(HardwareFault::BadAuth));
    assert_eq!(action, failure(Step::Unseal, ErrorKind::Sealer(SealerError::AuthFailure)));
}

#[test]
fn unlock_tells_a_wrong_key_from_a_name_in_use() {
    let state = unlock_waiting_for_secret("pw");
    let (state, _) = unlock(state, Event::Unsealed(vec![9; 64]));
    let (_, action) = unlock(state, Event::StoreFailed(1));
    assert_eq!(action, failure(Step::Open, ErrorKind::Store(StoreError::WrongKey)));

    let state = unlock_waiting_for_secret("pw");
    let (state, _) = unlock(state, Event::Unsealed(vec![9; 64]));
    let (_, action) = unlock(state, Event::StoreFailed(17));
    assert_eq!(action, failure(Step::Open, ErrorKind::Store(StoreError::AlreadyActive)));

    let state = unlock_waiting_for_secret("pw");
    let (state, _) = unlock(state, Event::Unsealed(vec![9; 64]));
    let (_, action) = unlock(state, Event::StoreFailed(5));
    assert_eq!(action, failure(Step::Open, ErrorKind::Store(StoreError::DeviceError)));
}

#[test]
fn second_unlock_finds_the_name_in_use() {
    let mut module = Module::new();
    let mut container = Container::blank();
    run_setup("correct horse", &mut module, &mut container);
    run_unlock("correct horse", &mut module, &mut container);
    let log = run_unlock("correct horse", &mut module, &mut container);
    assert_eq!(log.last(), Some(&failure(Step::Open, ErrorKind::Store(StoreError::AlreadyActive))));
}
