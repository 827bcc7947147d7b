use bioimg_staging::model::ModelRdf;
use bioimg_staging::version::{decimal_string, LiteralVersion, Version, VersionParsingError};

#[test]
fn test_version_parsing() {
    assert_eq!(
        Version::try_from_string(String::from("1.2.3")).unwrap(),
        Version {
            major: 1,
            minor: 2,
            patch: 3
        }
    );
    assert_eq!(
        Version::try_from("1.2"),
        Err(VersionParsingError::WrongNumberOfComponents { found: 2 })
    );
    assert_eq!(
        Version::try_from("1.2.bla"),
        Err(VersionParsingError::ParseIntError(
            "bla".parse::<u32>().expect_err("should fail parsing")
        ))
    );
}

#[test]
fn version_formats_canonically() {
    let v = Version { major: 1, minor: 2, patch: 3 };
    assert_eq!(v.to_string(), "1.2.3");
    let w = Version { major: 10, minor: 0, patch: 255 };
    assert_eq!(w.to_string(), "10.0.255");
}

#[test]
fn version_round_trips() {
    let cases = [
        Version { major: 1, minor: 2, patch: 3 },
        Version { major: 0, minor: 0, patch: 0 },
        Version { major: 120, minor: 7, patch: 99999 },
        Version { major: usize::MAX, minor: 1, patch: 0 },
    ];
    for v in cases {
        assert_eq!(Version::try_from(v.to_string().as_str()), Ok(v));
    }
}

#[test]
fn version_component_count_errors() {
    assert_eq!(
        Version::try_from("1.2.3.4"),
        Err(VersionParsingError::WrongNumberOfComponents { found: 4 })
    );
    assert_eq!(
        Version::try_from("7"),
        Err(VersionParsingError::WrongNumberOfComponents { found: 1 })
    );
}

#[test]
fn version_bad_components() {
    assert!(matches!(
        Version::try_from("bla"),
        Err(VersionParsingError::ParseIntError(_))
    ));
    assert!(matches!(
        Version::try_from(""),
        Err(VersionParsingError::ParseIntError(_))
    ));
    assert!(matches!(
        Version::try_from("1..3"),
        Err(VersionParsingError::ParseIntError(_))
    ));
    assert!(matches!(
        Version::try_from("1.-2.3"),
        Err(VersionParsingError::ParseIntError(_))
    ));
    // a bad piece is reported before the count is checked
    assert!(matches!(
        Version::try_from("1.x"),
        Err(VersionParsingError::ParseIntError(_))
    ));
    assert_eq!(
        Version::try_from("+1.02.3"),
        Ok(Version { major: 1, minor: 2, patch: 3 })
    );
}

#[test]
fn literal_version_pins_one_version() {
    let ok = LiteralVersion::<1, 0, 0>::try_from(Version { major: 1, minor: 0, patch: 0 });
    assert!(ok.is_ok());
    assert_eq!(
        LiteralVersion::<1, 0, 0>::try_from(Version { major: 1, minor: 0, patch: 1 }),
        Err(VersionParsingError::UnexpectedVersion {
            expected: Version { major: 1, minor: 0, patch: 0 },
            found: Version { major: 1, minor: 0, patch: 1 },
        })
    );
    assert_eq!(
        LiteralVersion::<0, 5, 0>.into_version(),
        Version { major: 0, minor: 5, patch: 0 }
    );
}

#[test]
fn model_record_is_pinned_to_its_format() {
    let parsed = Version::try_from("0.5.0").unwrap();
    let rdf = ModelRdf {
        format_version: LiteralVersion::try_from(parsed).unwrap(),
    };
    assert_eq!(rdf.format_version.into_version().to_string(), "0.5.0");
}

#[test]
fn decimal_text_of_numbers() {
    assert_eq!(decimal_string(0), "0");
    assert_eq!(decimal_string(9), "9");
    assert_eq!(decimal_string(10), "10");
    assert_eq!(decimal_string(1203), "1203");
    assert_eq!(decimal_string(usize::MAX), usize::MAX.to_string());
}

#[test]
fn parse_int_error_converts() {
    let e = "x".parse::<usize>().unwrap_err();
    assert_eq!(
        VersionParsingError::from(e.clone()),
        VersionParsingError::ParseIntError(e)
    );
}
