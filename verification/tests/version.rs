use aloxide::text::NumError;
use aloxide::version::{Version, VersionParseError, VersionParser};

#[test]
fn parse_any() {
    let parser = VersionParser::new();

    let good = [
        (Version::new(1, 0, 0), "1"),
        (Version::with_pre(1, 0, 0, "rc1"), "1-rc1"),
        (Version::with_pre(1, 0, 0, "rc2"), "1.0-rc2"),
        (Version::new(1, 0, 0), "1.0.0"),
        (Version::with_pre(1, 0, 0, "dev"), "1.0.0-dev"),
    ];

    for (version, string) in &good {
        assert_eq!(version, &parser.parse(string).unwrap());
    }

    let bad = ["1.0.", "1..-dev"];
    for string in &bad {
        parser.parse(string).unwrap_err();
    }
}

#[test]
fn parse_all() {
    let mut parser = VersionParser::new();
    parser.require_all();

    let good = [
        (Version::new(1, 0, 0), "1.0.0"),
        (Version::with_pre(1, 0, 0, "dev"), "1.0.0-dev"),
    ];

    for (version, string) in &good {
        assert_eq!(version, &parser.parse(string).unwrap());
    }

    let bad = ["1.0", "1.0.", "1..-dev"];
    for string in &bad {
        parser.parse(string).unwrap_err();
    }
}

#[test]
fn ordering() {
    let versions = [
        Version::with_pre(0, 0, 1, "dev"),
        Version::with_pre(0, 0, 1, "rc1"),
        Version::with_pre(0, 0, 1, "rc2"),
        Version::new(0, 0, 1),
        Version::new(0, 1, 0),
        Version::new(1, 0, 0),
        Version::with_pre(1, 0, 1, "preview1"),
        Version::with_pre(1, 0, 1, "preview2"),
        Version::new(1, 0, 1),
    ];
    for pair in versions.windows(2) {
        let a = &pair[0];
        let b = &pair[1];
        assert!(b > a, "{} > {}", b.render(), a.render());
    }
}

#[test]
fn minimal_grammar_defaults() {
    let parser = VersionParser::new();
    assert_eq!(parser.parse("1").unwrap(), Version::new(1, 0, 0));
    assert_eq!(parser.parse("1.0").unwrap(), Version::new(1, 0, 0));
}

#[test]
fn strict_grammar_requires_teeny() {
    let mut parser = VersionParser::new();
    parser.require_all();
    assert!(matches!(
        parser.parse("1.0").unwrap_err(),
        VersionParseError::TeenyMissing
    ));
}

#[test]
fn trailing_dot_is_teeny_error() {
    let lax = VersionParser::new();
    assert!(matches!(
        lax.parse("1.0.").unwrap_err(),
        VersionParseError::TeenyInt(NumError::Empty)
    ));
    let mut strict = VersionParser::new();
    strict.require_all();
    assert!(matches!(
        strict.parse("1.0.").unwrap_err(),
        VersionParseError::TeenyInt(NumError::Empty)
    ));
}

#[test]
fn require_minor_rejects_bare_major() {
    let mut parser = VersionParser::new();
    parser.require_minor();
    assert!(matches!(
        parser.parse("1").unwrap_err(),
        VersionParseError::MinorMissing
    ));
    assert_eq!(parser.parse("1.2").unwrap(), Version::new(1, 2, 0));
}

#[test]
fn parse_error_variants() {
    let parser = VersionParser::new();
    assert!(matches!(
        parser.parse("x").unwrap_err(),
        VersionParseError::MajorInt(NumError::InvalidDigit)
    ));
    assert!(matches!(
        parser.parse("").unwrap_err(),
        VersionParseError::MajorInt(NumError::Empty)
    ));
    assert!(matches!(
        parser.parse("70000").unwrap_err(),
        VersionParseError::MajorInt(NumError::PosOverflow)
    ));
    assert!(matches!(
        parser.parse("1..-dev").unwrap_err(),
        VersionParseError::MinorInt(NumError::Empty)
    ));
    assert!(matches!(
        parser.parse("1.y.0").unwrap_err(),
        VersionParseError::MinorInt(NumError::InvalidDigit)
    ));
}

#[test]
fn render_round_trip() {
    let mut parser = VersionParser::new();
    parser.require_all();
    let samples = [
        Version::new(2, 6, 0),
        Version::new(0, 0, 0),
        Version::with_pre(2, 7, 1, "rc2"),
        Version::with_pre(3, 0, 0, "preview-1"),
    ];
    for v in &samples {
        assert_eq!(&parser.parse(&v.render()).unwrap(), v);
    }
}

#[test]
fn render_canonical_form() {
    assert_eq!(Version::new(2, 6, 0).render(), "2.6.0");
    assert_eq!(Version::with_pre(2, 6, 0, "rc1").render(), "2.6.0-rc1");
    assert_eq!(Version::new(65535, 65535, 65535).render(), "65535.65535.65535");
}

#[test]
fn release_outranks_any_prerelease() {
    let release = Version::new(1, 2, 3);
    assert!(release > Version::with_pre(1, 2, 3, "zzz"));
    assert!(release > Version::with_pre(1, 2, 3, "rc99"));
    assert!(Version::with_pre(1, 2, 3, "rc1") < release);
}

#[test]
fn rc_outranks_other_prerelease() {
    let rc = Version::with_pre(1, 2, 3, "rc1");
    assert!(rc > Version::with_pre(1, 2, 3, "zzz"));
    assert!(Version::with_pre(1, 2, 3, "dev") < rc);
}

#[test]
fn archive_name_and_url() {
    let v = Version::new(2, 6, 0);
    assert_eq!(v.archive_name(), "ruby-2.6.0.tar.bz2");
    assert_eq!(
        v.url(),
        "https://cache.ruby-lang.org/pub/ruby/2.6/ruby-2.6.0.tar.bz2"
    );
    let pre = Version::with_pre(2, 7, 0, "rc2");
    assert_eq!(pre.archive_name(), "ruby-2.7.0-rc2.tar.bz2");
    assert_eq!(
        pre.url(),
        "https://cache.ruby-lang.org/pub/ruby/2.7/ruby-2.7.0-rc2.tar.bz2"
    );
}

#[test]
fn pre_accessor() {
    assert_eq!(Version::with_pre(1, 0, 0, "rc1").pre(), Some("rc1"));
    assert_eq!(Version::new(1, 0, 0).pre(), None);
}

#[test]
fn version_from_output() {
    let ok = aloxide::ExecOutput {
        success: true,
        stdout: b"2.6.0".to_vec(),
        stderr: Vec::new(),
    };
    let v = Version::from_output(ok).unwrap();
    assert_eq!(v, Version::new(2, 6, 0));

    let failed = aloxide::ExecOutput {
        success: false,
        stdout: Vec::new(),
        stderr: b"boom".to_vec(),
    };
    assert!(matches!(
        Version::from_output(failed).unwrap_err(),
        aloxide::version::RubyVersionError::Exec(aloxide::RubyExecError::RunFail(_))
    ));

    let garbled = aloxide::ExecOutput {
        success: true,
        stdout: vec![0xff, 0xfe],
        stderr: Vec::new(),
    };
    assert!(matches!(
        Version::from_output(garbled).unwrap_err(),
        aloxide::version::RubyVersionError::Exec(aloxide::RubyExecError::Utf8Error(_))
    ));

    let lax = aloxide::ExecOutput {
        success: true,
        stdout: b"2.6".to_vec(),
        stderr: Vec::new(),
    };
    assert!(matches!(
        Version::from_output(lax).unwrap_err(),
        aloxide::version::RubyVersionError::Parse(VersionParseError::TeenyMissing)
    ));
}
