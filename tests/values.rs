use bioimg_staging::age::{Age, AgeParsingError, StagingAge};
use bioimg_staging::bounded_string::{BoundedString, BoundedStringParsingError};
use bioimg_staging::result::GuiError;

#[test]
fn age_boundaries() {
    assert_eq!(Age::try_from(120).unwrap().value(), 120);
    assert_eq!(Age::try_from(121).unwrap_err(), AgeParsingError::TooOld);
    assert_eq!(Age::try_from(255).unwrap_err(), AgeParsingError::TooOld);
    assert_eq!(Age::try_from(0).unwrap().value(), 0);
    assert_eq!(Age::try_from(42).unwrap().to_usize(), 42usize);
    assert_eq!(AgeParsingError::TooOld.message(), "Too old");
}

#[test]
fn staging_age_keeps_raw_value() {
    let mut a = StagingAge::default();
    assert_eq!(a.state().unwrap().value(), 0);
    assert!(a.update(130).is_err());
    assert_eq!(a.0, 130);
    assert_eq!(a.update(30).unwrap().value(), 30);
    assert_eq!(a.state().unwrap().value(), 30);
}

#[test]
fn bounded_string_boundaries() {
    type B = BoundedString<2, 4>;
    assert_eq!(
        B::try_from(String::from("a")),
        Err(BoundedStringParsingError::TooShort { min: 2, actual: 1 })
    );
    assert_eq!(B::try_from(String::from("ab")).unwrap().as_str(), "ab");
    assert_eq!(B::try_from(String::from("abcd")).unwrap().as_str(), "abcd");
    assert_eq!(
        B::try_from(String::from("abcde")),
        Err(BoundedStringParsingError::TooLong { max: 4, actual: 5 })
    );
    assert_eq!(
        B::try_from(String::new()),
        Err(BoundedStringParsingError::TooShort { min: 2, actual: 0 })
    );
}

#[test]
fn bounded_string_counts_characters_and_keeps_text() {
    type B = BoundedString<1, 3>;
    assert_eq!(B::try_from(String::from("\u{e9}\u{e9}\u{e9}")).unwrap().as_str(), "\u{e9}\u{e9}\u{e9}");
    assert_eq!(B::try_from(String::from(" a ")).unwrap().as_str(), " a ");
    let b = B::try_from(String::from("xy")).unwrap();
    assert_eq!(b.copy(), b);
}

#[test]
fn gui_error_keeps_message() {
    let e = GuiError::new(String::from("bad value"));
    assert_eq!(e.message(), "bad value");
}
