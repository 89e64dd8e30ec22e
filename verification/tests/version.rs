use cargo_verison::error::VerisonError;
use cargo_verison::version::{check_identifiers, render_decimal, SemanticVersion};

#[test]
fn decimal_numerals() {
    assert_eq!(render_decimal(0), "0");
    assert_eq!(render_decimal(7), "7");
    assert_eq!(render_decimal(9), "9");
    assert_eq!(render_decimal(10), "10");
    assert_eq!(render_decimal(109), "109");
    assert_eq!(render_decimal(1234567890), "1234567890");
    assert_eq!(render_decimal(u64::MAX), "18446744073709551615");
}

#[test]
fn pre_release_identifiers() {
    for text in ["", "alpha", "alpha.1", "0", "0.0", "x-y-z.--", "1a", "0a", "rc.10", "-"] {
        assert!(check_identifiers(text, true), "{text}");
    }
    for text in [".", "a.", ".a", "a..b", "01", "a.00", "00", "a_b", "a+b", "é", "a b", "a.é"] {
        assert!(!check_identifiers(text, true), "{text}");
    }
}

#[test]
fn build_identifiers_may_have_leading_zeros() {
    for text in ["", "001", "a.00", "exp.sha.5114f85", "21AF26D3----117B344092BD"] {
        assert!(check_identifiers(text, false), "{text}");
    }
    for text in [".", "a.", ".a", "a..b", "a_b", "ü"] {
        assert!(!check_identifiers(text, false), "{text}");
    }
}

#[test]
fn versions_from_parts() {
    let version =
        SemanticVersion::new(1, 0, 0, String::from("alpha.1"), String::from("001")).unwrap();
    assert_eq!(version.to_string(), "1.0.0-alpha.1+001");
    assert_eq!(version.clone().to_string(), "1.0.0-alpha.1+001");
    assert!(version.same(&version.clone()));
    assert!(SemanticVersion::new(1, 0, 0, String::from("01"), String::new()).is_none());
    assert!(SemanticVersion::new(1, 0, 0, String::new(), String::from("a..b")).is_none());
    let plain = SemanticVersion::new(0, 0, 0, String::new(), String::new()).unwrap();
    assert_eq!(plain.to_string(), "0.0.0");
    assert!(!plain.same(&version));
    let build_only = SemanticVersion::new(3, 4, 5, String::new(), String::from("b")).unwrap();
    assert_eq!(build_only.to_string(), "3.4.5+b");
}

#[test]
fn versions_from_text() {
    let version = SemanticVersion::parse("10.20.30-rc.1+build.7").unwrap();
    assert_eq!(version.major(), 10);
    assert_eq!(version.minor(), 20);
    assert_eq!(version.patch(), 30);
    assert_eq!(version.pre(), "rc.1");
    assert_eq!(version.build(), "build.7");
    assert_eq!(version.to_string(), "10.20.30-rc.1+build.7");
    let same = SemanticVersion::new(10, 20, 30, String::from("rc.1"), String::from("build.7"));
    assert!(version.same(&same.unwrap()));
    assert!(matches!(SemanticVersion::parse("1.2"), Err(VerisonError::SemVer(_))));
    assert!(matches!(SemanticVersion::parse("1.2.3-01"), Err(VerisonError::SemVer(_))));
    assert!(matches!(
        SemanticVersion::parse("1.2.18446744073709551616"),
        Err(VerisonError::SemVer(_))
    ));
}

#[test]
fn the_text_of_a_version_reads_back_as_the_version() {
    for text in ["0.0.0", "1.2.3", "1.2.3-alpha", "1.2.3+5", "1.2.3-0.x.7+z.001", "9.99.999"] {
        let version = SemanticVersion::parse(text).unwrap();
        assert_eq!(version.to_string(), text);
        assert!(SemanticVersion::parse(&version.to_string()).unwrap().same(&version));
    }
}

#[test]
fn the_next_patch_version() {
    let version = SemanticVersion::parse("1.2.3-alpha.1+build.5").unwrap();
    let next = version.next_patch().unwrap();
    assert_eq!(next.to_string(), "1.2.4-alpha.1+build.5");
    assert_eq!(next.major(), 1);
    assert_eq!(next.minor(), 2);
    assert_eq!(next.patch(), 4);
    assert_eq!(next.pre(), "alpha.1");
    assert_eq!(next.build(), "build.5");
    assert_eq!(version.to_string(), "1.2.3-alpha.1+build.5");
    let nines = SemanticVersion::parse("0.9.99").unwrap();
    assert_eq!(nines.next_patch().unwrap().to_string(), "0.9.100");
    let last = SemanticVersion::new(0, 0, u64::MAX, String::new(), String::new()).unwrap();
    assert!(last.next_patch().is_none());
    let almost = SemanticVersion::new(0, 0, u64::MAX - 1, String::new(), String::new()).unwrap();
    assert_eq!(almost.next_patch().unwrap().patch(), u64::MAX);
}

#[test]
fn the_identifier_grammar_is_the_one_that_is_parsed() {
    for text in [
        "", "alpha", "alpha.1", "0", "0.0", "x-y-z.--", "1a", "0a", "rc.10", "-", ".", "a.", ".a",
        "a..b", "01", "a.00", "00", "a_b", "a+b", "é", "a b", "a.é", "001", "0-0", "-0", "10",
    ] {
        assert_eq!(check_identifiers(text, true), semver::Prerelease::new(text).is_ok(), "{text}");
        assert_eq!(
            check_identifiers(text, false),
            semver::BuildMetadata::new(text).is_ok(),
            "{text}"
        );
    }
}

#[test]
fn every_valid_version_is_read_from_its_canonical_text() {
    for (major, minor, patch) in [(0, 0, 0), (1, 2, 3), (10, 0, 100), (u64::MAX, u64::MAX, u64::MAX)] {
        for pre in ["", "alpha", "0", "rc.1", "x-y.0.--"] {
            for build in ["", "001", "exp.sha.5114f85", "-"] {
                let version =
                    SemanticVersion::new(major, minor, patch, String::from(pre), String::from(build))
                        .unwrap();
                let read = SemanticVersion::parse(&version.to_string()).unwrap();
                assert!(read.same(&version));
                assert_eq!(read.to_string(), version.to_string());
            }
        }
    }
}

#[test]
fn a_text_that_is_read_is_the_canonical_text_of_what_is_read() {
    for text in [
        "1.2.3", "01.2.3", "1.02.3", "1.2.03", "1.2.3-", "1.2.3+", "1.2.3-a+", "1.2.3-+b", "1.2",
        "1.2.3.4", " 1.2.3", "1.2.3 ", "1.2.3-01", "1.2.3-0", "1.2.3+01", "1.2.3-a.b+c.d", "1..3",
        "+1.2.3", "1.2.3-é", "18446744073709551615.0.0", "18446744073709551616.0.0", "0.0.0",
    ] {
        match SemanticVersion::parse(text) {
            Ok(version) => assert_eq!(version.to_string(), text),
            Err(error) => assert!(matches!(error, VerisonError::SemVer(_)), "{text}"),
        }
    }
    assert!(SemanticVersion::parse("1.2.3-0").is_ok());
    assert!(SemanticVersion::parse("1.2.3+01").is_ok());
    assert!(SemanticVersion::parse("01.2.3").is_err());
    assert!(SemanticVersion::parse("1.2.3-01").is_err());
}
