use bioimg_staging::age::{Age, AgeParsingError};
use bioimg_staging::bounded_string::{BoundedString, BoundedStringParsingError};
use bioimg_staging::cite_widget::ConfString;
use bioimg_staging::staging::{InputLines, StagingNum, StagingOpt, StagingString, StagingVec};

type Short = BoundedString<1, 3>;

#[test]
fn staging_num_validates_on_every_change() {
    let mut n: StagingNum<Age> = StagingNum::new();
    assert_eq!(*n.raw(), 0);
    assert_eq!(n.outcome().unwrap().value(), 0);
    n.set_raw(121);
    assert_eq!(n.outcome().unwrap_err(), AgeParsingError::TooOld);
    n.set_raw(121);
    assert_eq!(n.outcome().unwrap_err(), AgeParsingError::TooOld);
    n.set_raw(7);
    assert_eq!(n.outcome().unwrap().value(), 7);
}

#[test]
fn staging_string_starts_empty_and_invalid() {
    let mut s: StagingString<ConfString> = StagingString::new(InputLines::Multiline);
    assert_eq!(s.raw(), "");
    assert_eq!(s.input_lines(), InputLines::Multiline);
    assert_eq!(
        s.outcome(),
        Err(BoundedStringParsingError::TooShort { min: 1, actual: 0 })
    );
    s.set_raw(String::from("hello"));
    assert_eq!(s.outcome().unwrap().as_str(), "hello");
    assert_eq!(s.raw(), "hello");
    assert_eq!(s.input_lines(), InputLines::Multiline);
}

#[test]
fn optional_absence() {
    let mut o: StagingOpt<StagingString<Short>> = StagingOpt::new();
    assert!(o.state().is_none());
    o.set_present();
    assert_eq!(
        o.state(),
        Some(Err(BoundedStringParsingError::TooShort { min: 1, actual: 0 }))
    );
    o.update_child(String::from("ab"));
    assert_eq!(o.state().unwrap().unwrap().as_str(), "ab");
    // already present: kept
    o.set_present();
    assert_eq!(o.state().unwrap().unwrap().as_str(), "ab");
    o.set_absent();
    assert!(o.state().is_none());
    assert!(!o.is_present());
    // a new child starts over
    o.set_present();
    assert_eq!(
        o.state(),
        Some(Err(BoundedStringParsingError::TooShort { min: 1, actual: 0 }))
    );
}

#[test]
fn list_independence() {
    let mut v: StagingVec<StagingString<Short>> = StagingVec::new(String::from("author"));
    v.grow();
    v.grow();
    assert_eq!(v.len(), 3);
    v.update_child(0, String::from("abcd"));
    v.update_child(1, String::from("ok"));
    let st = v.state();
    assert_eq!(st.len(), 3);
    assert_eq!(st[0], Err(BoundedStringParsingError::TooLong { max: 3, actual: 4 }));
    assert_eq!(st[1].as_ref().unwrap().as_str(), "ok");
    assert_eq!(st[2], Err(BoundedStringParsingError::TooShort { min: 1, actual: 0 }));
    v.update_child(1, String::from("abcdef"));
    let st = v.state();
    assert_eq!(st[0], Err(BoundedStringParsingError::TooLong { max: 3, actual: 4 }));
    assert_eq!(st[1], Err(BoundedStringParsingError::TooLong { max: 3, actual: 6 }));
    assert_eq!(st[2], Err(BoundedStringParsingError::TooShort { min: 1, actual: 0 }));
}

#[test]
fn list_keeps_at_least_one_item() {
    let mut v: StagingVec<StagingNum<Age>> = StagingVec::new(String::from("age"));
    assert_eq!(v.item_name(), "age");
    assert_eq!(v.len(), 1);
    v.shrink();
    assert_eq!(v.len(), 1);
    v.update_child(0, 200);
    v.grow();
    assert_eq!(v.len(), 2);
    let st = v.state();
    assert_eq!(st[0].clone().unwrap_err(), AgeParsingError::TooOld);
    assert_eq!(st[1].unwrap().value(), 0);
    v.shrink();
    assert_eq!(v.len(), 1);
    assert_eq!(v.state()[0].clone().unwrap_err(), AgeParsingError::TooOld);
    // out of range: nothing happens
    v.update_child(5, 3);
    assert_eq!(v.len(), 1);
    assert_eq!(v.state()[0].clone().unwrap_err(), AgeParsingError::TooOld);
}

#[test]
fn same_text_gives_same_outcome() {
    let mut s: StagingString<Short> = StagingString::new(InputLines::SingleLine);
    s.set_raw(String::from("abc"));
    let first = s.outcome();
    s.set_raw(String::from("abc"));
    assert_eq!(s.outcome(), first);
    assert_eq!(s.raw(), "abc");
}
