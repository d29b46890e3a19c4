use identifier::normalize;
use identifier::Identifier;

#[test]
fn test_identifier() {
    assert!(Identifier::new("AbCdEfG").unwrap().as_str() == "abcdefg");
    assert!(Identifier::new("a0123456789").unwrap().as_str() == "a0123456789");
    assert!(Identifier::new("Hello World").unwrap().as_str() == "hello world");
    assert!(Identifier::new("").is_none());
    assert!(Identifier::new("1a").is_none());
    assert!(Identifier::new(" abc ").is_none());
    assert!(Identifier::new("_1a").unwrap().as_str() == "_1a");
}

#[test]
fn normalization_is_idempotent() {
    let first = Identifier::new("Hello World").unwrap();
    let again = Identifier::new(first.as_str()).unwrap();
    assert_eq!(first, again);
    assert_eq!(again.as_str(), "hello world");

    let first = Identifier::new("_Mixed_CASE_07").unwrap();
    let again = Identifier::new(first.as_str()).unwrap();
    assert_eq!(first, again);
}

#[test]
fn construction_is_case_insensitive() {
    assert_eq!(
        Identifier::new("HELLO_world").unwrap(),
        Identifier::new("hello_WORLD").unwrap()
    );
    assert_eq!(
        Identifier::new("AbCdEfG").unwrap(),
        Identifier::new("aBcDeFg").unwrap()
    );
    assert!(Identifier::new("Key One") == Identifier::new("kEY oNE"));
}

#[test]
fn allowed_alphabet_is_accepted() {
    assert!(Identifier::new("_abc XYZ 012").is_some());
    assert!(Identifier::new("zZ9_ 9").is_some());
    assert!(Identifier::new("_").is_some());
    assert!(Identifier::new("a0123456789").is_some());
}

#[test]
fn empty_input_is_rejected() {
    assert!(Identifier::new("").is_none());
    assert!(normalize("").is_none());
}

#[test]
fn leading_digit_or_space_is_rejected() {
    assert!(Identifier::new("1a").is_none());
    assert!(Identifier::new(" abc").is_none());
    assert!(Identifier::new("0").is_none());
    assert!(Identifier::new(" ").is_none());
}

#[test]
fn disallowed_characters_are_rejected() {
    assert!(Identifier::new("a-b").is_none());
    assert!(Identifier::new("a.b").is_none());
    assert!(Identifier::new("a\tb").is_none());
    assert!(Identifier::new("a\nb").is_none());
    assert!(Identifier::new("name!").is_none());
    assert!(Identifier::new("caf\u{e9}").is_none());
    assert!(Identifier::new("a\u{0}b").is_none());
}

#[test]
fn canonical_form_is_lowercase() {
    let id = Identifier::new("MixedCase123 X_Y").unwrap();
    assert!(id.as_str().chars().all(|c| !c.is_ascii_uppercase()));
    assert_eq!(id.as_str(), "mixedcase123 x_y");
}

#[test]
fn normalize_folds_and_validates() {
    assert_eq!(normalize("AbC").unwrap(), "abc");
    assert_eq!(normalize("_1a").unwrap(), "_1a");
    assert!(normalize("9lives").is_none());
    assert!(normalize("semi;colon").is_none());
}

#[test]
fn text_accessors_agree() {
    let id = Identifier::new("Some Name").unwrap();
    assert_eq!(id.to_text(), "some name");
    assert_eq!(id.as_str(), "some name");
    let copy = id.clone();
    assert_eq!(copy, id);
    assert_eq!(copy.as_str(), "some name");
}

#[test]
fn debug_form_shows_canonical_text() {
    let id = Identifier::new("AbC").unwrap();
    let shown = format!("{:?}", id);
    assert!(shown.contains("abc"));
    assert!(!shown.contains("AbC"));
}
