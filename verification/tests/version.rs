use warlock::firecracker::version::{
    find_version, parse_and_validate_version, require_minimum, Version, VersionError,
};

#[test]
fn firecracker_test_parse_version_with_v_prefix() {
    let result = parse_and_validate_version("v1.14.1");
    assert!(result.is_ok());
    assert_eq!(result.unwrap(), Version::new(1, 14, 1));
}

#[test]
fn firecracker_test_parse_version_without_v_prefix() {
    let result = parse_and_validate_version("1.14.1");
    assert!(result.is_ok());
    assert_eq!(result.unwrap(), Version::new(1, 14, 1));
}

#[test]
fn firecracker_test_parse_version_with_whitespace() {
    let result = parse_and_validate_version("  v1.14.1\n");
    assert!(result.is_ok());
    assert_eq!(result.unwrap(), Version::new(1, 14, 1));
}

#[test]
fn firecracker_test_version_meets_minimum() {
    let result = parse_and_validate_version("v1.14.1");
    assert!(result.is_ok());
}

#[test]
fn firecracker_test_version_exceeds_minimum() {
    let result = parse_and_validate_version("v1.15.0");
    assert!(result.is_ok());
}

#[test]
fn firecracker_test_version_below_minimum() {
    let result = parse_and_validate_version("v1.10.0");
    assert!(result.is_err());
    assert!(result.unwrap_err().message().contains("too old"));
}

#[test]
fn firecracker_test_version_exact_minimum() {
    let result = parse_and_validate_version("v1.14.1");
    assert!(result.is_ok());
}

#[test]
fn firecracker_test_invalid_version_format() {
    let result = parse_and_validate_version("invalid");
    assert!(result.is_err());
}

#[test]
fn firecracker_test_parse_version_with_multiline_output() {
    // Real Firecracker output includes exit messages after version
    let output = "Firecracker v1.14.1\n\n2026-02-23T21:05:34.876998360 [anonymous-instance:main] Firecracker exiting successfully. exit_code=0\n";
    let result = parse_and_validate_version(output);
    assert!(result.is_ok());
    assert_eq!(result.unwrap(), Version::new(1, 14, 1));
}

#[test]
fn firecracker_test_parse_version_with_extra_lines() {
    let output = "v1.15.0\nSome other output\nMore lines here";
    let result = parse_and_validate_version(output);
    assert!(result.is_ok());
    assert_eq!(result.unwrap(), Version::new(1, 15, 0));
}

#[test]
fn firecracker_test_parse_version_single_line_still_works() {
    let result = parse_and_validate_version("v1.14.1");
    assert!(result.is_ok());
    assert_eq!(result.unwrap(), Version::new(1, 14, 1));
}

#[test]
fn version_test_parse_version_with_v_prefix() {
    let result = parse_and_validate_version("v1.14.1");
    assert!(result.is_ok());
    assert_eq!(result.unwrap(), Version::new(1, 14, 1));
}

#[test]
fn version_test_parse_version_without_v_prefix() {
    let result = parse_and_validate_version("1.14.1");
    assert!(result.is_ok());
    assert_eq!(result.unwrap(), Version::new(1, 14, 1));
}

#[test]
fn version_test_parse_version_with_whitespace() {
    let result = parse_and_validate_version("  v1.14.1\n");
    assert!(result.is_ok());
    assert_eq!(result.unwrap(), Version::new(1, 14, 1));
}

#[test]
fn version_test_version_meets_minimum() {
    let result = parse_and_validate_version("v1.14.1");
    assert!(result.is_ok());
}

#[test]
fn version_test_version_exceeds_minimum() {
    let result = parse_and_validate_version("v1.15.0");
    assert!(result.is_ok());
}

#[test]
fn version_test_version_below_minimum() {
    let result = parse_and_validate_version("v1.10.0");
    assert!(result.is_err());
    assert!(result.unwrap_err().message().contains("too old"));
}

#[test]
fn version_test_version_exact_minimum() {
    let result = parse_and_validate_version("v1.14.1");
    assert!(result.is_ok());
}

#[test]
fn version_test_invalid_version_format() {
    let result = parse_and_validate_version("invalid");
    assert!(result.is_err());
}

#[test]
fn version_test_parse_version_with_multiline_output() {
    // Real Firecracker output includes exit messages after version
    let output = "Firecracker v1.14.1\n\n2026-02-23T21:05:34.876998360 [anonymous-instance:main] Firecracker exiting successfully. exit_code=0\n";
    let result = parse_and_validate_version(output);
    assert!(result.is_ok());
    assert_eq!(result.unwrap(), Version::new(1, 14, 1));
}

#[test]
fn version_test_parse_version_with_extra_lines() {
    let output = "v1.15.0\nSome other output\nMore lines here";
    let result = parse_and_validate_version(output);
    assert!(result.is_ok());
    assert_eq!(result.unwrap(), Version::new(1, 15, 0));
}

#[test]
fn version_test_parse_version_single_line_still_works() {
    let result = parse_and_validate_version("v1.14.1");
    assert!(result.is_ok());
    assert_eq!(result.unwrap(), Version::new(1, 14, 1));
}

#[test]
fn each_version_error_is_explained() {
    assert_eq!(
        parse_and_validate_version("").unwrap_err().message(),
        "Version output was empty"
    );
    assert_eq!(
        parse_and_validate_version("no number here\nv1.14.1").unwrap_err().message(),
        "No version number found in output: no number here"
    );
    assert_eq!(
        parse_and_validate_version("version").unwrap_err().message(),
        "Failed to parse Firecracker version string"
    );
    assert_eq!(
        parse_and_validate_version("Firecracker v1.10.0").unwrap_err().message(),
        "Firecracker version 1.10.0 is too old. Minimum required: 1.14.1"
    );
}

#[test]
fn pre_release_of_the_minimum_is_too_old() {
    assert_eq!(
        parse_and_validate_version("v1.14.1-rc.1").unwrap_err().message(),
        "Firecracker version 1.14.1-rc.1 is too old. Minimum required: 1.14.1"
    );
    assert!(parse_and_validate_version("v1.14.0").is_err());
    assert!(parse_and_validate_version("v0.99.99").is_err());
}

#[test]
fn build_metadata_does_not_age_a_version() {
    let version = parse_and_validate_version("v1.14.1+0").unwrap();
    assert_eq!(version.build, "0");
    assert_eq!(version.pre, "");
    assert_eq!(version.to_text(), "1.14.1+0");
    let version = parse_and_validate_version("v2.0.0-alpha+b.7").unwrap();
    assert_eq!(version.to_text(), "2.0.0-alpha+b.7");
}

#[test]
fn every_leading_v_is_dropped() {
    assert_eq!(find_version("vv1.15.0").unwrap(), "1.15.0");
    assert_eq!(find_version("Firecracker 1.15.0 v9").unwrap(), "1.15.0");
    assert!(matches!(find_version(""), Err(VersionError::Empty)));
}

#[test]
fn minimum_is_judged_on_what_was_read() {
    assert!(matches!(require_minimum(None), Err(VersionError::Unparsable)));
    assert_eq!(
        require_minimum(Some(Version::new(1, 2, 3))).unwrap_err().message(),
        "Firecracker version 1.2.3 is too old. Minimum required: 1.14.1"
    );
    assert_eq!(require_minimum(Some(Version::new(1, 14, 1))).unwrap(), Version::new(1, 14, 1));
}

#[test]
fn versions_are_compared_with_a_release() {
    let before = |text: &str| {
        let version = parse_and_validate_version(text).unwrap();
        version.is_before_release(2, 5, 7)
    };
    assert!(before("1.99.99"));
    assert!(before("2.4.99"));
    assert!(before("2.5.6"));
    assert!(before("2.5.7-rc.1"));
    assert!(before("2.5.7-rc.1+b"));
    assert!(!before("2.5.7"));
    assert!(!before("2.5.7+b"));
    assert!(!before("2.5.8-rc.1"));
    assert!(!before("2.6.0"));
    assert!(!before("3.0.0-alpha"));
    for text in ["1.99.99", "2.4.99", "2.5.6", "2.5.7-rc.1", "2.5.7+b", "2.5.8-rc.1", "3.0.0-a"] {
        let version = semver::Version::parse(text).unwrap();
        assert_eq!(before(text), version < semver::Version::new(2, 5, 7));
    }
}
