use tpm2_luks::error::{Step, StoreError};
use tpm2_luks::luks::{
    classify_errno, is_absent, is_encodable, luks2_load_tpm_tokens, luks2_store_tpm_tokens, luks_format,
    luks_open, read_token, HeaderRecord, SlotReading, KEYSLOTS_MEMBER, KEY_SLOT, PAYLOAD_MEMBER,
    PRIVATE_SLOT, PUBLIC_SLOT, SALT_SLOT, TYPE_MEMBER,
};

fn stored(record: &HeaderRecord) -> SlotReading {
    SlotReading::Payload(record.key_description.clone())
}

fn all_bytes() -> Vec<u8> {
    (0u8..=255).collect()
}

#[test]
fn store_builds_three_records_in_slot_order() {
    let records = luks2_store_tpm_tokens(b"foobar", b"fo", b"").unwrap();
    assert_eq!(records.len(), 3);
    assert_eq!(
        records[0],
        HeaderRecord {
            slot: 1,
            type_tag: "user.salt".to_string(),
            keyslots: vec![],
            key_description: "Zm9vYmFy".to_string(),
        }
    );
    assert_eq!(
        records[1],
        HeaderRecord {
            slot: 2,
            type_tag: "user.obj_pub".to_string(),
            keyslots: vec![],
            key_description: "Zm8=".to_string(),
        }
    );
    assert_eq!(
        records[2],
        HeaderRecord {
            slot: 3,
            type_tag: "user.obj_priv".to_string(),
            keyslots: vec![],
            key_description: "".to_string(),
        }
    );
    assert_eq!((SALT_SLOT, PUBLIC_SLOT, PRIVATE_SLOT), (1, 2, 3));
}

#[test]
fn store_encodes_every_byte_value() {
    let records = luks2_store_tpm_tokens(&all_bytes(), b"f", b"foo").unwrap();
    assert_eq!(
        records[0].key_description,
        "AAECAwQFBgcICQoLDA0ODxAREhMUFRYXGBkaGxwdHh8gISIjJCUmJygpKissLS4vMDEyMzQ1Njc4OTo7PD0+P0\
         BBQkNERUZHSElKS0xNTk9QUVJTVFVWV1hZWltcXV5fYGFiY2RlZmdoaWprbG1ub3BxcnN0dXZ3eHl6e3x9fn+A\
         gYKDhIWGh4iJiouMjY6PkJGSk5SVlpeYmZqbnJ2en6ChoqOkpaanqKmqq6ytrq+wsbKztLW2t7i5uru8vb6/wM\
         HCw8TFxsfIycrLzM3Oz9DR0tPU1dbX2Nna29zd3t/g4eLj5OXm5+jp6uvs7e7v8PHy8/T19vf4+fr7/P3+/w=="
    );
    assert_eq!(records[1].key_description, "Zg==");
    assert_eq!(records[2].key_description, "Zm9v");
}

#[test]
fn header_round_trip_is_byte_for_byte() {
    let salt = all_bytes();
    let public: Vec<u8> = all_bytes().into_iter().rev().collect();
    let private = vec![0u8, 255, 0, 255, 128];
    let records = luks2_store_tpm_tokens(&salt, &public, &private).unwrap();
    let loaded =
        luks2_load_tpm_tokens(&stored(&records[0]), &stored(&records[1]), &stored(&records[2]));
    assert_eq!(loaded, Ok((salt, public, private)));
}

#[test]
fn empty_payload_reads_back_as_a_corrupt_record() {
    let records = luks2_store_tpm_tokens(b"", b"ab", b"abc").unwrap();
    assert_eq!(records[0].key_description, "");
    assert_eq!(read_token(&stored(&records[0])), Err(StoreError::RecordCorrupt));
    assert_eq!(read_token(&stored(&records[1])), Ok(b"ab".to_vec()));
    assert_eq!(
        luks2_load_tpm_tokens(&stored(&records[0]), &stored(&records[1]), &stored(&records[2])),
        Err(StoreError::RecordCorrupt)
    );
    assert_eq!(
        luks2_load_tpm_tokens(&stored(&records[1]), &stored(&records[2]), &stored(&records[0])),
        Err(StoreError::RecordCorrupt)
    );
}

#[test]
fn header_round_trip_of_one_byte_payloads() {
    let records = luks2_store_tpm_tokens(&[0], &[255], &[b'=']).unwrap();
    let loaded =
        luks2_load_tpm_tokens(&stored(&records[0]), &stored(&records[1]), &stored(&records[2]));
    assert_eq!(loaded, Ok((vec![0], vec![255], vec![b'='])));
}

#[test]
fn read_token_decodes_a_payload() {
    assert_eq!(read_token(&SlotReading::Payload("Zm9vYmFy".to_string())), Ok(b"foobar".to_vec()));
    assert_eq!(read_token(&SlotReading::Payload("Zg==".to_string())), Ok(b"f".to_vec()));
}

#[test]
fn read_token_reports_an_empty_payload_as_corrupt() {
    assert_eq!(read_token(&SlotReading::Payload(String::new())), Err(StoreError::RecordCorrupt));
}

#[test]
fn read_token_reports_an_absent_record_as_missing() {
    assert_eq!(read_token(&SlotReading::Absent), Err(StoreError::RecordMissing));
}

#[test]
fn read_token_reports_a_record_without_payload_as_corrupt() {
    assert_eq!(read_token(&SlotReading::Empty), Err(StoreError::RecordCorrupt));
}

#[test]
fn read_token_reports_text_that_is_not_base64_as_corrupt() {
    for text in ["not base64!", "Zg", "Zg=", "Zh==", "Z", "Zm9v Zm9v", "Zm9v\n", "Zm9v===="] {
        assert_eq!(
            read_token(&SlotReading::Payload(text.to_string())),
            Err(StoreError::RecordCorrupt),
            "{:?}",
            text
        );
    }
}

#[test]
fn load_reports_the_first_slot_that_fails() {
    let good = SlotReading::Payload("Zm9v".to_string());
    let bad = SlotReading::Payload("%%%%".to_string());
    assert_eq!(
        luks2_load_tpm_tokens(&SlotReading::Absent, &bad, &bad),
        Err(StoreError::RecordMissing)
    );
    assert_eq!(
        luks2_load_tpm_tokens(&bad, &SlotReading::Absent, &good),
        Err(StoreError::RecordCorrupt)
    );
    assert_eq!(
        luks2_load_tpm_tokens(&good, &SlotReading::Absent, &bad),
        Err(StoreError::RecordMissing)
    );
    assert_eq!(
        luks2_load_tpm_tokens(&good, &good, &SlotReading::Empty),
        Err(StoreError::RecordCorrupt)
    );
    assert_eq!(
        luks2_load_tpm_tokens(&good, &good, &good),
        Ok((b"foo".to_vec(), b"foo".to_vec(), b"foo".to_vec()))
    );
}

#[test]
fn format_request_fixes_cipher_key_size_and_keyslot() {
    let request = luks_format(&[1, 2, 3]);
    assert_eq!(request.cipher, "aes");
    assert_eq!(request.cipher_mode, "xts-plain");
    assert_eq!(request.volume_key_bytes, 32);
    assert_eq!(request.keyslot, 0);
    assert_eq!(request.keyslot, KEY_SLOT);
    assert_eq!(request.key, vec![1, 2, 3]);
}

#[test]
fn open_request_carries_key_and_name() {
    let request = luks_open(&[9, 8, 7], "data");
    assert_eq!(request.name, "data");
    assert_eq!(request.key, vec![9, 8, 7]);
}

#[test]
fn errno_is_read_by_step() {
    assert_eq!(classify_errno(Step::Open, 1), StoreError::WrongKey);
    assert_eq!(classify_errno(Step::Open, 17), StoreError::AlreadyActive);
    assert_eq!(classify_errno(Step::Open, 5), StoreError::DeviceError);
    assert_eq!(classify_errno(Step::Open, -1), StoreError::DeviceError);
    assert_eq!(classify_errno(Step::Format, 1), StoreError::DeviceError);
    assert_eq!(classify_errno(Step::WriteRecords, 17), StoreError::DeviceError);
    assert_eq!(classify_errno(Step::ReadRecords, 2), StoreError::DeviceError);
}

#[test]
fn payloads_of_any_sensible_size_can_be_encoded() {
    assert!(is_encodable(b""));
    assert!(is_encodable(&[0u8; 1550]));
    assert!(is_encodable(&vec![0u8; 1 << 20]));
}

#[test]
fn stored_record_names_its_members() {
    assert_eq!((TYPE_MEMBER, KEYSLOTS_MEMBER, PAYLOAD_MEMBER), ("type", "keyslots", "key_description"));
}

#[test]
fn only_two_error_numbers_mean_that_nothing_is_there() {
    assert!(is_absent(22));
    assert!(is_absent(2));
    for errno in [0, 1, 5, 13, 16, 17, 28, -22, -2] {
        assert!(!is_absent(errno), "{}", errno);
    }
}
