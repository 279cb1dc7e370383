use frum::version::{Semver, Version};

#[test]
fn test_parse_canonical_version() {
    let v = Semver::parse("2.7.1").unwrap();
    assert_eq!(v.major, 2);
    assert_eq!(v.minor, 7);
    assert_eq!(v.patch, 1);
    assert_eq!(v.prerelease, None);
}

#[test]
fn test_parse_prerelease_version() {
    let v = Semver::parse("3.0.0-preview1").unwrap();
    assert_eq!(v.major, 3);
    assert_eq!(v.minor, 0);
    assert_eq!(v.patch, 0);
    assert_eq!(v.prerelease.as_deref(), Some("preview1"));
}

#[test]
fn test_round_trip_format_parse() {
    for s in ["0.0.0", "2.6.4", "2.7.1", "10.20.30", "3.1.0-rc.1", "1.2.3-a-b.c"] {
        let v = Semver::parse(s).unwrap();
        assert_eq!(v.format(), s);
        let again = Semver::parse(&v.format()).unwrap();
        assert_eq!(again, v);
    }
}

#[test]
fn test_parse_rejects_non_canonical() {
    for s in [
        "", "1", "1.2", "1.2.", "01.2.3", "1.02.3", "1.2.03", "1.2.3-", "a.b.c", "1..3",
        "1.2.3-bad space", "-1.2.3",
    ] {
        assert!(Semver::parse(s).is_none(), "should reject {:?}", s);
    }
}

#[test]
fn test_version_parse_system() {
    assert_eq!(Version::parse("system"), Some(Version::System));
    assert_eq!(Version::parse("system").unwrap().format(), "system");
    assert!(Semver::parse("system").is_none());
}

#[test]
fn test_ordering_numeric_components() {
    let a = Semver::parse("2.6.9").unwrap();
    let b = Semver::parse("2.7.0").unwrap();
    let c = Semver::parse("2.7.1").unwrap();
    assert!(a.lt(&b));
    assert!(b.lt(&c));
    assert!(a.lt(&c));
    assert!(!c.lt(&a));
    assert!(!a.lt(&a));
}

#[test]
fn test_ordering_prerelease_below_release() {
    let pre = Semver::parse("3.0.0-rc1").unwrap();
    let rel = Semver::parse("3.0.0").unwrap();
    assert!(pre.lt(&rel));
    assert!(!rel.lt(&pre));
    let pre_a = Semver::parse("3.0.0-alpha").unwrap();
    let pre_b = Semver::parse("3.0.0-beta").unwrap();
    assert!(pre_a.lt(&pre_b));
    assert!(!pre_b.lt(&pre_a));
}

#[test]
fn test_ordering_consistent_with_lexicographic() {
    let mut versions = vec![
        Semver::parse("2.7.1").unwrap(),
        Semver::parse("2.6.9").unwrap(),
        Semver::parse("3.0.0-rc1").unwrap(),
        Semver::parse("3.0.0").unwrap(),
        Semver::parse("2.7.0").unwrap(),
    ];
    versions.sort_by(|a, b| {
        if a.lt(b) {
            std::cmp::Ordering::Less
        } else if b.lt(a) {
            std::cmp::Ordering::Greater
        } else {
            std::cmp::Ordering::Equal
        }
    });
    let formatted: Vec<String> = versions.iter().map(|v| v.format()).collect();
    assert_eq!(formatted, vec!["2.6.9", "2.7.0", "2.7.1", "3.0.0-rc1", "3.0.0"]);
}
