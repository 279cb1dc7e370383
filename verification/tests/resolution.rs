use frum::alias::AliasStore;
use frum::error::FrumError;
use frum::install::Install;
use frum::input_version::InputVersion;
use frum::remote_index::parse_remote_index;
use frum::resolver::{resolve_local, resolve_with_candidates, Resolution};
use frum::version::{Semver, Version};
use frum::version_file::get_user_version_for_directory;

fn sv(s: &str) -> Version {
    Version::Semver(Semver::parse(s).unwrap())
}

#[test]
fn test_input_version_parse_forms() {
    assert_eq!(InputVersion::parse(""), None);
    assert_eq!(InputVersion::parse("system"), Some(InputVersion::Full(Version::System)));
    assert_eq!(InputVersion::parse("2.6.4"), Some(InputVersion::Full(sv("2.6.4"))));
    assert_eq!(InputVersion::parse("3"), Some(InputVersion::Major(3)));
    assert_eq!(InputVersion::parse("2.7"), Some(InputVersion::MajorMinor(2, 7)));
    assert_eq!(InputVersion::parse("lts"), Some(InputVersion::Alias("lts".to_string())));
}

#[test]
fn test_partial_specifier_resolves_to_newest_match() {
    // Input "2.7" against an index holding 2.7.0, 2.7.1 and 2.6.9 picks 2.7.1.
    let input = InputVersion::parse("2.7").unwrap();
    let candidates = vec![sv("2.7.0"), sv("2.7.1"), sv("2.6.9")];
    let got = input.to_version(&candidates).unwrap();
    assert_eq!(got, sv("2.7.1"));
}

#[test]
fn test_major_specifier_resolves_to_newest_match() {
    let input = InputVersion::parse("2").unwrap();
    let candidates = vec![sv("2.7.0"), sv("2.6.9"), sv("3.0.0"), sv("2.7.1")];
    assert_eq!(input.to_version(&candidates).unwrap(), sv("2.7.1"));
}

#[test]
fn test_resolution_fails_with_specifier_not_found() {
    let input = InputVersion::parse("4.9").unwrap();
    let candidates = vec![sv("2.7.0"), sv("2.7.1")];
    match resolve_with_candidates(&input, &candidates) {
        Err(FrumError::SpecifierNotFound { specifier }) => {
            assert_eq!(specifier, InputVersion::MajorMinor(4, 9));
        }
        other => panic!("expected SpecifierNotFound, got {:?}", other),
    }
    let empty: Vec<Version> = vec![];
    assert!(matches!(
        resolve_with_candidates(&input, &empty),
        Err(FrumError::SpecifierNotFound { .. })
    ));
}

#[test]
fn test_resolve_local_full_version_needs_no_network() {
    let requested = Some(InputVersion::Full(sv("2.6.4")));
    match resolve_local(&requested, &None).unwrap() {
        Resolution::Resolved(v) => assert_eq!(v, sv("2.6.4")),
        other => panic!("expected Resolved, got {:?}", other),
    }
}

#[test]
fn test_resolve_local_system_is_uninstallable() {
    let requested = Some(InputVersion::Full(Version::System));
    assert_eq!(
        resolve_local(&requested, &None),
        Err(FrumError::UninstallableSpecifier { specifier: Version::System })
    );
}

#[test]
fn test_resolve_local_without_any_specifier() {
    assert_eq!(resolve_local(&None, &None), Err(FrumError::CannotInferSpecifier));
}

#[test]
fn test_resolve_local_falls_back_to_project_declaration() {
    let project = Some(InputVersion::MajorMinor(2, 7));
    match resolve_local(&None, &project).unwrap() {
        Resolution::NeedsRemote(iv) => assert_eq!(iv, InputVersion::MajorMinor(2, 7)),
        other => panic!("expected NeedsRemote, got {:?}", other),
    }
}

#[test]
fn test_project_declaration_walk_takes_nearest() {
    let decls = vec![
        None,
        Some(" 2.6.4\n".to_string()),
        Some("9.9.9".to_string()),
    ];
    assert_eq!(get_user_version_for_directory(&decls), Some(InputVersion::Full(sv("2.6.4"))));
    let none: Vec<Option<String>> = vec![None, None];
    assert_eq!(get_user_version_for_directory(&none), None);
    let empty_decl = vec![Some("   \n".to_string())];
    assert_eq!(get_user_version_for_directory(&empty_decl), None);
}

#[test]
fn test_install_resolution_plan() {
    let install = Install { version: Some(InputVersion::Full(sv("2.6.4"))) };
    match install.resolve_plan(&None).unwrap() {
        Resolution::Resolved(v) => assert_eq!(v, sv("2.6.4")),
        other => panic!("expected Resolved, got {:?}", other),
    }
    let bare = Install { version: None };
    assert_eq!(bare.resolve_plan(&None), Err(FrumError::CannotInferSpecifier));
    let partial = Install { version: Some(InputVersion::MajorMinor(2, 7)) };
    assert!(matches!(partial.resolve_plan(&None), Ok(Resolution::NeedsRemote(_))));
}

#[test]
fn test_alias_specifier_resolves_through_store() {
    let mut store = AliasStore::new();
    store.create_alias("lts", &sv("2.7.1"), true).unwrap();
    let iv = InputVersion::parse("lts").unwrap();
    assert_eq!(frum::resolver::resolve_alias_specifier(&iv, &store), Ok(sv("2.7.1")));
    let missing = InputVersion::parse("nightly").unwrap();
    assert!(matches!(
        frum::resolver::resolve_alias_specifier(&missing, &store),
        Err(FrumError::SpecifierNotFound { .. })
    ));
}

#[test]
fn test_error_messages() {
    let e = FrumError::SpecifierNotFound { specifier: InputVersion::MajorMinor(4, 9) };
    assert_eq!(e.message(), "Can't find version: 4.9");
    let e = FrumError::AlreadyInstalled { path: "/base/versions/2.6.4".to_string() };
    assert_eq!(e.message(), "Version already installed at /base/versions/2.6.4");
    let e = FrumError::UninstallableSpecifier { specifier: Version::System };
    assert_eq!(e.message(), "The requested version is not installable: system");
    let e = FrumError::BuildFailure {
        stage: frum::error::BuildStage::Make,
        captured_output: "boom".to_string(),
    };
    assert_eq!(e.message(), "Can't build Ruby: make: boom");
    assert_eq!(FrumError::EmptyArchive.message(), "The downloaded archive is empty");
}

#[test]
fn test_remote_index_parses_listing_in_order() {
    let entries =
        parse_remote_index(Some(200), "2.7.0\n2.7.1\nnot-a-version\n2.6.9\n").unwrap();
    let versions: Vec<String> = entries.iter().map(|e| e.version.format()).collect();
    assert_eq!(versions, vec!["2.7.0", "2.7.1", "2.6.9"]);
}

#[test]
fn test_remote_index_rejects_bad_status() {
    match parse_remote_index(Some(500), "2.7.0\n") {
        Err(FrumError::RemoteListingFailure { cause }) => {
            assert_eq!(cause, "unexpected response status");
        }
        other => panic!("expected RemoteListingFailure, got {:?}", other),
    }
}

#[test]
fn test_remote_index_rejects_empty_listing() {
    // A successful response listing no version is a hard failure, never
    // an empty candidate set.
    match parse_remote_index(Some(204), "") {
        Err(FrumError::RemoteListingFailure { cause }) => {
            assert_eq!(cause, "empty version listing");
        }
        other => panic!("expected RemoteListingFailure, got {:?}", other),
    }
    assert!(matches!(
        parse_remote_index(Some(200), "no versions here\n"),
        Err(FrumError::RemoteListingFailure { .. })
    ));
}

#[test]
fn test_remote_index_transport_failure_is_listing_failure() {
    match parse_remote_index(None, "") {
        Err(FrumError::RemoteListingFailure { cause }) => {
            assert_eq!(cause, "transport failure");
        }
        other => panic!("expected RemoteListingFailure, got {:?}", other),
    }
}
