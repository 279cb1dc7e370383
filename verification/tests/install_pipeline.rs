use frum::alias::AliasStore;
use frum::config::{FrumConfig, Platform};
use frum::error::{BuildStage, FrumError};
use frum::install::{
    archive, install_step, number_of_cores_from, package_url, probe_for_uname, start_install,
    CoresProbe, InstallAction, InstallEvent, InstallState,
};
use frum::version::{Semver, Version};

fn config() -> FrumConfig {
    FrumConfig {
        base_dir: "/base".to_string(),
        ruby_build_mirror: "https://mirror.example/ruby/".to_string(),
        platform: Platform::OtherPosix,
    }
}

/// Drives one install run to completion, mirroring symlink effects into
/// the alias store, and returns the final state.
fn run_install(cfg: &FrumConfig, version: &str, store: &mut AliasStore) -> InstallState {
    let v = Semver::parse(version).unwrap();
    let (mut state, mut action) = start_install(cfg, v.clone());
    loop {
        let event = match &action {
            InstallAction::CheckInstallDir { path } => {
                assert_eq!(*path, format!("/base/versions/{}", version));
                InstallEvent::DirChecked { exists: false }
            }
            InstallAction::DownloadArchive { url } => {
                assert!(url.starts_with("https://mirror.example/ruby/"));
                InstallEvent::HttpStatus { status: 200 }
            }
            InstallAction::ExtractInto { dir } => {
                assert_eq!(dir, "/base/versions/.downloads");
                InstallEvent::Extracted { ok: true }
            }
            InstallAction::ListScratch => InstallEvent::Listed {
                entries: vec![format!("ruby-{}", version)],
            },
            InstallAction::RunOpensslProbe => InstallEvent::OpensslDir {
                dir: "/opt/openssl\n".to_string(),
            },
            InstallAction::RunConfigure { prefix, .. } => {
                assert_eq!(*prefix, format!("/base/versions/{}", version));
                InstallEvent::StepDone { success: true, stderr: String::new() }
            }
            InstallAction::RunUname => InstallEvent::UnameText { text: "Linux\n".to_string() },
            InstallAction::RunCoresProbe { .. } => InstallEvent::ProbeOutput {
                ok: true,
                text: "4\n".to_string(),
            },
            InstallAction::RunMake { jobs, .. } => {
                assert_eq!(*jobs, 4);
                InstallEvent::StepDone { success: true, stderr: String::new() }
            }
            InstallAction::RunMakeInstall { .. } => {
                InstallEvent::StepDone { success: true, stderr: String::new() }
            }
            InstallAction::CheckAliasFile { path } => {
                assert_eq!(path, "/base/aliases/default");
                InstallEvent::AliasChecked {
                    exists: store.resolve_alias("default").is_some(),
                }
            }
            InstallAction::CreateDefaultAlias { version } => {
                store
                    .create_alias("default", &Version::Semver(version.clone()), true)
                    .unwrap();
                return state;
            }
            InstallAction::Finish => return state,
            InstallAction::Abort => return state,
        };
        let next = install_step(cfg, state, event);
        state = next.0;
        action = next.1;
    }
}

#[test]
fn test_install_default_version() {
    let cfg = config();
    let mut store = AliasStore::new();
    let state = run_install(&cfg, "2.6.4", &mut store);
    assert!(matches!(state, InstallState::Done { .. }));
    let bound = store.resolve_alias("default").expect("Can't install");
    assert_eq!(bound, Version::Semver(Semver::parse("2.6.4").unwrap()));
}

#[test]
fn test_install_second_version() {
    let cfg = config();
    let mut store = AliasStore::new();
    let first = run_install(&cfg, "2.7.0", &mut store);
    assert!(matches!(first, InstallState::Done { .. }), "Can't install 2.7.0");
    let second = run_install(&cfg, "2.6.4", &mut store);
    assert!(matches!(second, InstallState::Done { .. }), "Can't install 2.6.4");
    // The default alias keeps pointing at the first installed version.
    let bound = store.resolve_alias("default").unwrap();
    assert_eq!(bound, Version::Semver(Semver::parse("2.7.0").unwrap()));
}

#[test]
fn test_already_installed_fails_without_mutation() {
    let cfg = config();
    let v = Semver::parse("2.6.4").unwrap();
    let (state, _action) = start_install(&cfg, v);
    let (state, action) = install_step(&cfg, state, InstallEvent::DirChecked { exists: true });
    match state {
        InstallState::Failed { error: FrumError::AlreadyInstalled { path } } => {
            assert_eq!(path, "/base/versions/2.6.4");
        }
        other => panic!("expected AlreadyInstalled, got {:?}", state_name(&other)),
    }
    assert!(matches!(action, InstallAction::Abort));
}

#[test]
fn test_not_found_archive_is_specifier_not_found() {
    let cfg = config();
    let v = Semver::parse("2.6.4").unwrap();
    let (state, _action) = start_install(&cfg, v);
    let (state, _action) = install_step(&cfg, state, InstallEvent::DirChecked { exists: false });
    let (state, _action) = install_step(&cfg, state, InstallEvent::HttpStatus { status: 404 });
    match state {
        InstallState::Failed { error: FrumError::SpecifierNotFound { .. } } => {}
        other => panic!("expected SpecifierNotFound, got {:?}", state_name(&other)),
    }
}

#[test]
fn test_transport_failure_is_distinct_from_not_found() {
    let cfg = config();
    let v = Semver::parse("2.6.4").unwrap();
    let (state, _action) = start_install(&cfg, v);
    let (state, _action) = install_step(&cfg, state, InstallEvent::DirChecked { exists: false });
    let (state, _action) = install_step(&cfg, state, InstallEvent::TransportFailed);
    assert!(matches!(state, InstallState::Failed { error: FrumError::TransportFailure }));
}

#[test]
fn test_empty_archive_fails() {
    let cfg = config();
    let v = Semver::parse("2.6.4").unwrap();
    let (state, _action) = start_install(&cfg, v);
    let (state, _action) = install_step(&cfg, state, InstallEvent::DirChecked { exists: false });
    let (state, _action) = install_step(&cfg, state, InstallEvent::HttpStatus { status: 200 });
    let (state, _action) = install_step(&cfg, state, InstallEvent::Extracted { ok: true });
    let (state, _action) = install_step(&cfg, state, InstallEvent::Listed { entries: vec![] });
    assert!(matches!(state, InstallState::Failed { error: FrumError::EmptyArchive }));
}

#[test]
fn test_failed_configure_captures_stderr() {
    let cfg = config();
    let v = Semver::parse("2.6.4").unwrap();
    let (state, _action) = start_install(&cfg, v);
    let (state, _action) = install_step(&cfg, state, InstallEvent::DirChecked { exists: false });
    let (state, _action) = install_step(&cfg, state, InstallEvent::HttpStatus { status: 200 });
    let (state, _action) = install_step(&cfg, state, InstallEvent::Extracted { ok: true });
    let (state, _action) = install_step(
        &cfg,
        state,
        InstallEvent::Listed { entries: vec!["ruby-2.6.4".to_string()] },
    );
    let (state, _action) = install_step(
        &cfg,
        state,
        InstallEvent::StepDone { success: false, stderr: "configure: error".to_string() },
    );
    match state {
        InstallState::Failed {
            error: FrumError::BuildFailure { stage, captured_output },
        } => {
            assert_eq!(stage, BuildStage::Configure);
            assert_eq!(captured_output, "configure: error");
        }
        other => panic!("expected BuildFailure, got {:?}", state_name(&other)),
    }
}

#[test]
fn test_cores_probe_selection() {
    assert_eq!(probe_for_uname("Darwin\n"), CoresProbe::Sysctl);
    assert_eq!(probe_for_uname("SunOS\n"), CoresProbe::GetconfOnln);
    assert_eq!(probe_for_uname("Linux\n"), CoresProbe::GetconfUnderscoreOnln);
}

#[test]
fn test_cores_probe_degrades_to_fallback() {
    let cfg = config();
    let v = Semver::parse("2.6.4").unwrap();
    let state = InstallState::ProbeCores {
        version: v,
        build_root: "ruby-2.6.4".to_string(),
        probe: CoresProbe::GetconfUnderscoreOnln,
    };
    // An unparsable first probe retries by counting processor lines.
    let (state, action) = install_step(
        &cfg,
        state,
        InstallEvent::ProbeOutput { ok: false, text: String::new() },
    );
    assert!(matches!(
        action,
        InstallAction::RunCoresProbe { probe: CoresProbe::GrepCpuinfo }
    ));
    // A second failure degrades to the fixed fallback of two jobs.
    let (_state, action) = install_step(
        &cfg,
        state,
        InstallEvent::ProbeOutput { ok: true, text: "garbage".to_string() },
    );
    assert!(matches!(action, InstallAction::RunMake { jobs: 2, .. }));
}

#[test]
fn test_number_of_cores() {
    number_of_cores_from("2\n").unwrap();
    assert_eq!(number_of_cores_from(" 8\n").unwrap(), 8);
    assert!(matches!(
        number_of_cores_from("none"),
        Err(FrumError::ProcessorProbeFailure)
    ));
}

#[test]
fn test_archive_and_package_url() {
    let v = Version::Semver(Semver::parse("2.6.4").unwrap());
    assert_eq!(archive(&v, Platform::OtherPosix), "ruby-2.6.4.tar.xz");
    assert_eq!(archive(&v, Platform::MacOs), "ruby-2.6.4.tar.xz");
    assert_eq!(archive(&v, Platform::Windows), "ruby-2.6.4.zip");
    let sv = Semver::parse("2.6.4").unwrap();
    assert_eq!(
        package_url("https://mirror.example/ruby/", &sv, Platform::OtherPosix),
        "https://mirror.example/ruby/2.6/ruby-2.6.4.tar.xz"
    );
    assert_eq!(
        package_url("https://mirror.example/ruby", &sv, Platform::Windows),
        "https://mirror.example/ruby/2.6/ruby-2.6.4.zip"
    );
}

fn state_name(s: &InstallState) -> &'static str {
    match s {
        InstallState::CheckInstalled { .. } => "CheckInstalled",
        InstallState::Download { .. } => "Download",
        InstallState::Extract { .. } => "Extract",
        InstallState::LocateRoot { .. } => "LocateRoot",
        InstallState::ProbeOpenssl { .. } => "ProbeOpenssl",
        InstallState::Configure { .. } => "Configure",
        InstallState::ProbeUname { .. } => "ProbeUname",
        InstallState::ProbeCores { .. } => "ProbeCores",
        InstallState::Make { .. } => "Make",
        InstallState::MakeInstall { .. } => "MakeInstall",
        InstallState::CheckDefaultAlias { .. } => "CheckDefaultAlias",
        InstallState::Done { .. } => "Done",
        InstallState::Failed { .. } => "Failed",
    }
}
