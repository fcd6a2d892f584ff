use include_sql_args::canonical_name;

#[test]
fn canonical_name_of_lower_case_ascii() {
    assert_eq!(canonical_name("param_name"), "PARAM_NAME");
}

#[test]
fn canonical_name_keeps_digits_and_underscores() {
    assert_eq!(canonical_name("a1"), "A1");
    assert_eq!(canonical_name("_x_9"), "_X_9");
}

#[test]
fn canonical_name_of_upper_case_is_unchanged() {
    assert_eq!(canonical_name("DATA"), "DATA");
}

#[test]
fn canonical_name_of_mixed_case() {
    assert_eq!(canonical_name("outName"), "OUTNAME");
}

#[test]
fn canonical_name_of_empty_text() {
    assert_eq!(canonical_name(""), "");
}

#[test]
fn canonical_name_of_raw_identifier() {
    assert_eq!(canonical_name("r#type"), "R#TYPE");
}

#[test]
fn canonical_name_outside_ascii_follows_unicode() {
    assert_eq!(canonical_name("stra\u{df}e"), "STRASSE");
    assert_eq!(canonical_name("\u{e9}t\u{e9}"), "\u{c9}T\u{c9}");
}

#[test]
fn canonical_name_twice_is_canonical_name_once() {
    for name in ["id", "out_name", "A1", "mixedCase_7", "stra\u{df}e"] {
        let once = canonical_name(name);
        let twice = canonical_name(&once);
        assert_eq!(twice, once);
    }
}

#[test]
fn canonical_name_agrees_with_the_standard_library_on_ascii() {
    for name in ["id", "out_name", "A1", "mixedCase_7", "z", "a{`"] {
        assert_eq!(canonical_name(name), name.to_uppercase());
    }
}
