use ironbridge::ids::{DeviceId, DeviceName, DocumentId, DocumentName, GroupId, GroupName, UserId};
use ironbridge::validation::ValidationError;

#[test]
fn user_id_round_trips() {
    let u = UserId::validate("user1").unwrap();
    assert_eq!(u.id(), "user1");
}

#[test]
fn group_id_round_trips() {
    let g = GroupId::validate("group-42").unwrap();
    assert_eq!(g.id(), "group-42");
}

#[test]
fn document_id_round_trips() {
    let d = DocumentId::validate("doc.7").unwrap();
    assert_eq!(d.id(), "doc.7");
}

#[test]
fn id_accepts_full_punctuation_set() {
    let raw = "AZaz09_.$#|@/:;=+'-";
    let u = UserId::validate(raw).unwrap();
    assert_eq!(u.id(), raw);
}

#[test]
fn id_accepts_maximum_length() {
    let raw = "a".repeat(100);
    let u = UserId::validate(&raw).unwrap();
    assert_eq!(u.id(), raw);
}

#[test]
fn id_rejects_empty_string() {
    let e = UserId::validate("").unwrap_err();
    assert_eq!(e, ValidationError::EmptyInput);
    assert!(!e.reason().is_empty());
}

#[test]
fn id_rejects_over_length() {
    let raw = "a".repeat(101);
    let e = GroupId::validate(&raw).unwrap_err();
    match e {
        ValidationError::InputTooLong { raw: r } => assert_eq!(r, raw),
        other => panic!("unexpected error {:?}", other),
    }
}

#[test]
fn id_rejects_disallowed_character_at_first_position() {
    let e = DocumentId::validate("ab cd!").unwrap_err();
    match e {
        ValidationError::DisallowedCharacter { raw, index } => {
            assert_eq!(raw, "ab cd!");
            assert_eq!(index, 2);
        }
        other => panic!("unexpected error {:?}", other),
    }
}

#[test]
fn id_rejects_whitespace_only() {
    assert!(UserId::validate("   ").is_err());
}

#[test]
fn name_accepts_spaces_and_wide_characters() {
    let n = GroupName::validate("the good group \u{263a}").unwrap();
    assert_eq!(n.name(), "the good group \u{263a}");
    let d = DocumentName::validate("quarterly report").unwrap();
    assert_eq!(d.name(), "quarterly report");
    let v = DeviceName::validate("my phone").unwrap();
    assert_eq!(v.name(), "my phone");
}

#[test]
fn name_rejects_empty_string() {
    let e = DeviceName::validate("").unwrap_err();
    assert_eq!(e, ValidationError::EmptyInput);
}

#[test]
fn name_rejects_whitespace_only() {
    let e = GroupName::validate(" \t\r\n ").unwrap_err();
    match e {
        ValidationError::WhitespaceOnly { raw } => assert_eq!(raw, " \t\r\n "),
        other => panic!("unexpected error {:?}", other),
    }
    assert!(DeviceName::validate("\u{00a0}\u{2003}").is_err());
}

#[test]
fn name_length_bounds() {
    let ok = "n".repeat(100);
    assert_eq!(GroupName::validate(&ok).unwrap().name(), ok);
    let too_long = "n".repeat(101);
    match DocumentName::validate(&too_long).unwrap_err() {
        ValidationError::InputTooLong { raw } => assert_eq!(raw, too_long),
        other => panic!("unexpected error {:?}", other),
    }
}

#[test]
fn name_length_is_measured_in_bytes() {
    // 33 three-byte characters plus one ASCII character: exactly 100 bytes.
    let boundary = format!("{}a", "\u{263a}".repeat(33));
    assert_eq!(boundary.len(), 100);
    assert_eq!(GroupName::validate(&boundary).unwrap().name(), boundary);

    // 34 three-byte characters: only 34 characters, but 102 bytes.
    let over = "\u{263a}".repeat(34);
    assert_eq!(over.len(), 102);
    match DocumentName::validate(&over).unwrap_err() {
        ValidationError::InputTooLong { raw } => assert_eq!(raw, over),
        other => panic!("unexpected error {:?}", other),
    }
}

#[test]
fn device_id_negative_fails() {
    let e = DeviceId::validate(-1).unwrap_err();
    match e {
        ValidationError::NegativeDeviceId { raw } => assert_eq!(raw, -1),
        other => panic!("unexpected error {:?}", other),
    }
    assert!(!e.reason().is_empty());
}

#[test]
fn device_id_signed_max_round_trips() {
    let d = DeviceId::validate(i64::MAX).unwrap();
    assert_eq!(d.id(), i64::MAX);
}

#[test]
fn device_id_zero_round_trips() {
    let d = DeviceId::validate(0).unwrap();
    assert_eq!(d.id(), 0);
}

#[test]
fn device_id_ordinary_value_round_trips() {
    let d = DeviceId::validate(314159).unwrap();
    assert_eq!(d.id(), 314159);
}

#[test]
fn device_id_from_unsigned_bounds() {
    let d = DeviceId::from_unsigned(i64::MAX as u64).unwrap();
    assert_eq!(d.id(), i64::MAX);
    match DeviceId::from_unsigned(i64::MAX as u64 + 1).unwrap_err() {
        ValidationError::OversizedDeviceId { raw } => assert_eq!(raw, i64::MAX as u64 + 1),
        other => panic!("unexpected error {:?}", other),
    }
    assert!(DeviceId::from_unsigned(u64::MAX).is_err());
}

#[test]
fn every_error_reason_is_descriptive() {
    assert_eq!(ValidationError::EmptyInput.reason(), "must not be empty");
    assert_eq!(
        ValidationError::InputTooLong { raw: "x".repeat(101) }.reason(),
        "must have length between 1 and 100"
    );
    assert_eq!(
        ValidationError::DisallowedCharacter { raw: "a!".to_string(), index: 1 }.reason(),
        "contains invalid characters"
    );
    assert_eq!(
        ValidationError::WhitespaceOnly { raw: "  ".to_string() }.reason(),
        "must not be only whitespace"
    );
    assert_eq!(
        ValidationError::NegativeDeviceId { raw: -7 }.reason(),
        "must be a non-negative number"
    );
    assert_eq!(
        ValidationError::OversizedDeviceId { raw: u64::MAX }.reason(),
        "must not exceed the signed 64-bit maximum"
    );
}
