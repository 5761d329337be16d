use voice_catalog::gender::{decode_gender, Gender};

#[test]
fn gender_codes_decode() {
    assert_eq!(decode_gender(0), Gender::Unspecified);
    assert_eq!(decode_gender(1), Gender::Male);
    assert_eq!(decode_gender(2), Gender::Female);
    assert_eq!(decode_gender(3), Gender::Neutral);
}

#[test]
fn undecodable_gender_is_neutral_label() {
    for code in [4, -1, 99, i32::MAX, i32::MIN] {
        assert_eq!(decode_gender(code), Gender::Neutral);
        assert_eq!(decode_gender(code).label(), "Neutral");
    }
}

#[test]
fn gender_labels() {
    assert_eq!(Gender::Unspecified.label(), "Unspecified");
    assert_eq!(Gender::Male.label(), "Male");
    assert_eq!(Gender::Female.label(), "Female");
    assert_eq!(Gender::Neutral.label(), "Neutral");
}
