//! The install pipeline, as an explicit state machine:
//! `CheckNotInstalled -> Download -> Extract -> LocateExtractedRoot ->
//! Compile (configure / make / make install) -> BootstrapDefaultAlias`.
//!
//! The machine decides; the surrounding program performs the filesystem,
//! network and process work and feeds each outcome back as an event. Every
//! stage's failure is terminal, extraction only ever targets the scratch
//! directory, the installation tree is written only by the final install
//! step, and the `default` alias is bound only when none exists yet.

use vstd::prelude::*;
use vstd::string::StrSliceExecFns;
use vstd::string::StringExecFns;

use crate::config::downloads_dir_of;
use crate::config::default_alias_path_of;
use crate::config::versions_dir_of;
use crate::config::FrumConfig;
use crate::config::Platform;
use crate::error::BuildStage;
use crate::error::FrumError;
use crate::input_version::duplicate_semver;
use crate::input_version::InputVersion;
use crate::text::dec_digits;
use crate::text::dec_val;
use crate::text::end_without_char;
use crate::text::num_str;
use crate::text::parse_u64_range;
use crate::text::push_u64;
use crate::text::str_eq;
use crate::text::trim_end_char;
use crate::text::trim_range;
use crate::text::trim_spec;
use crate::version::semver_view_string;
use crate::version::Semver;
use crate::version::SemverView;
use crate::version::Version;
use crate::version::version_string;

verus! {

/// The command the pipeline uses to probe the number of processing units.
#[derive(Debug, Clone, Copy, PartialEq, Eq)]
pub enum CoresProbe {
    /// `sysctl -n hw.ncpu`
    Sysctl,
    /// `getconf NPROCESSORS_ONLN`
    GetconfOnln,
    /// `getconf _NPROCESSORS_ONLN`
    GetconfUnderscoreOnln,
    /// `grep -c ^processor /proc/cpuinfo`
    GrepCpuinfo,
}

/// An install run: the requested specifier, possibly absent.
pub struct Install {
    pub version: Option<InputVersion>,
}

impl Install {
    /// The resolution step that opens an install run: the requested
    /// specifier, or failing that the project declaration, resolved as
    /// far as no network is needed (see `crate::resolver::resolve_local`).
    pub fn resolve_plan(&self, project: &Option<InputVersion>) -> (r: Result<
        crate::resolver::Resolution,
        FrumError,
    >)
        ensures
            crate::resolver::effective_specifier(self.version, *project) is None <==> r == Err::<
                crate::resolver::Resolution,
                FrumError,
            >(FrumError::CannotInferSpecifier),
            crate::resolver::effective_specifier(self.version, *project) matches Some(iv)
                ==> match iv {
                InputVersion::Full(Version::Semver(sv)) => r matches Ok(
                    crate::resolver::Resolution::Resolved(Version::Semver(out)),
                ) && out@ == sv@,
                InputVersion::Full(Version::System) => r == Err::<
                    crate::resolver::Resolution,
                    FrumError,
                >(FrumError::UninstallableSpecifier { specifier: Version::System }),
                _ => r matches Ok(crate::resolver::Resolution::NeedsRemote(out))
                    && crate::input_version::same_specifier(out, iv),
            },
    {
        crate::resolver::resolve_local(&self.version, project)
    }
}

/// Where the pipeline stands; each state awaits one event.
pub enum InstallState {
    CheckInstalled { version: Semver },
    Download { version: Semver },
    Extract { version: Semver },
    LocateRoot { version: Semver },
    ProbeOpenssl { version: Semver, build_root: String },
    Configure { version: Semver, build_root: String },
    ProbeUname { version: Semver, build_root: String },
    ProbeCores { version: Semver, build_root: String, probe: CoresProbe },
    Make { version: Semver, build_root: String },
    MakeInstall { version: Semver, build_root: String },
    CheckDefaultAlias { version: Semver },
    Done { version: Semver },
    Failed { error: FrumError },
}

/// What the outside world reports back to the machine.
pub enum InstallEvent {
    /// Does the target installation directory exist?
    DirChecked { exists: bool },
    /// The archive request completed with this status code.
    HttpStatus { status: u16 },
    /// The archive request could not be carried out at all.
    TransportFailed,
    /// An unexpected filesystem error at the current step.
    FsFailed,
    /// The archive was (or failed to be) unpacked into the scratch space.
    Extracted { ok: bool },
    /// The top-level entries of the extraction directory.
    Listed { entries: Vec<String> },
    /// The probed OpenSSL prefix, as the probe printed it.
    OpensslDir { dir: String },
    /// One external build step finished.
    StepDone { success: bool, stderr: String },
    /// What `uname -s` printed.
    UnameText { text: String },
    /// What the processing-unit probe printed, if it ran.
    ProbeOutput { ok: bool, text: String },
    /// Does the `default` alias exist?
    AliasChecked { exists: bool },
}

/// What the machine asks the outside world to do next.
pub enum InstallAction {
    CheckInstallDir { path: String },
    DownloadArchive { url: String },
    ExtractInto { dir: String },
    ListScratch,
    RunOpensslProbe,
    RunConfigure { build_root: String, prefix: String, openssl_dir: String },
    RunUname,
    RunCoresProbe { probe: CoresProbe },
    RunMake { build_root: String, jobs: u8 },
    RunMakeInstall { build_root: String },
    CheckAliasFile { path: String },
    CreateDefaultAlias { version: Semver },
    Finish,
    Abort,
}

/// The mathematical shape of a specifier.
pub enum InputM {
    Full(Option<SemverView>),
    Major(u64),
    MajorMinor(u64, u64),
    Alias(Seq<char>),
}

/// The mathematical shape of an error.
pub enum ErrorM {
    Transport,
    Filesystem,
    ProcessorProbe,
    Extraction,
    EmptyArchive,
    SpecifierNotFound { specifier: InputM },
    RemoteListing { cause: Seq<char> },
    AlreadyInstalled { path: Seq<char> },
    CannotInfer,
    Uninstallable { k: Option<SemverView> },
    Build { stage: BuildStage, out: Seq<char> },
}

/// The mathematical shape of a pipeline state.
pub enum StateM {
    CheckInstalled { v: SemverView },
    Download { v: SemverView },
    Extract { v: SemverView },
    LocateRoot { v: SemverView },
    ProbeOpenssl { v: SemverView, root: Seq<char> },
    Configure { v: SemverView, root: Seq<char> },
    ProbeUname { v: SemverView, root: Seq<char> },
    ProbeCores { v: SemverView, root: Seq<char>, probe: CoresProbe },
    Make { v: SemverView, root: Seq<char> },
    MakeInstall { v: SemverView, root: Seq<char> },
    CheckDefaultAlias { v: SemverView },
    Done { v: SemverView },
    Failed { e: ErrorM },
}

/// The mathematical shape of an event.
pub enum EventM {
    DirChecked { exists: bool },
    HttpStatus { status: u16 },
    TransportFailed,
    FsFailed,
    Extracted { ok: bool },
    Listed { entries: Seq<Seq<char>> },
    OpensslDir { dir: Seq<char> },
    StepDone { success: bool, stderr: Seq<char> },
    UnameText { text: Seq<char> },
    ProbeOutput { ok: bool, text: Seq<char> },
    AliasChecked { exists: bool },
}

/// The mathematical shape of an action.
pub enum ActionM {
    CheckInstallDir { path: Seq<char> },
    DownloadArchive { url: Seq<char> },
    ExtractInto { dir: Seq<char> },
    ListScratch,
    RunOpensslProbe,
    RunConfigure { root: Seq<char>, prefix: Seq<char>, openssl_dir: Seq<char> },
    RunUname,
    RunCoresProbe { probe: CoresProbe },
    RunMake { root: Seq<char>, jobs: u8 },
    RunMakeInstall { root: Seq<char> },
    CheckAliasFile { path: Seq<char> },
    CreateDefaultAlias { v: SemverView },
    Finish,
    Abort,
}

pub open spec fn input_model(iv: InputVersion) -> InputM {
    match iv {
        InputVersion::Full(v) => InputM::Full(crate::input_version::vkey(v)),
        InputVersion::Major(m) => InputM::Major(m),
        InputVersion::MajorMinor(m, n) => InputM::MajorMinor(m, n),
        InputVersion::Alias(a) => InputM::Alias(a@),
    }
}

pub open spec fn error_model(e: FrumError) -> ErrorM {
    match e {
        FrumError::TransportFailure => ErrorM::Transport,
        FrumError::FilesystemFailure => ErrorM::Filesystem,
        FrumError::ProcessorProbeFailure => ErrorM::ProcessorProbe,
        FrumError::ExtractionFailure => ErrorM::Extraction,
        FrumError::EmptyArchive => ErrorM::EmptyArchive,
        FrumError::SpecifierNotFound { specifier } => ErrorM::SpecifierNotFound {
            specifier: input_model(specifier),
        },
        FrumError::RemoteListingFailure { cause } => ErrorM::RemoteListing { cause: cause@ },
        FrumError::AlreadyInstalled { path } => ErrorM::AlreadyInstalled { path: path@ },
        FrumError::CannotInferSpecifier => ErrorM::CannotInfer,
        FrumError::UninstallableSpecifier { specifier } => ErrorM::Uninstallable {
            k: crate::input_version::vkey(specifier),
        },
        FrumError::BuildFailure { stage, captured_output } => ErrorM::Build {
            stage,
            out: captured_output@,
        },
    }
}

pub open spec fn state_model(s: InstallState) -> StateM {
    match s {
        InstallState::CheckInstalled { version } => StateM::CheckInstalled { v: version@ },
        InstallState::Download { version } => StateM::Download { v: version@ },
        InstallState::Extract { version } => StateM::Extract { v: version@ },
        InstallState::LocateRoot { version } => StateM::LocateRoot { v: version@ },
        InstallState::ProbeOpenssl { version, build_root } => StateM::ProbeOpenssl {
            v: version@,
            root: build_root@,
        },
        InstallState::Configure { version, build_root } => StateM::Configure {
            v: version@,
            root: build_root@,
        },
        InstallState::ProbeUname { version, build_root } => StateM::ProbeUname {
            v: version@,
            root: build_root@,
        },
        InstallState::ProbeCores { version, build_root, probe } => StateM::ProbeCores {
            v: version@,
            root: build_root@,
            probe,
        },
        InstallState::Make { version, build_root } => StateM::Make {
            v: version@,
            root: build_root@,
        },
        InstallState::MakeInstall { version, build_root } => StateM::MakeInstall {
            v: version@,
            root: build_root@,
        },
        InstallState::CheckDefaultAlias { version } => StateM::CheckDefaultAlias { v: version@ },
        InstallState::Done { version } => StateM::Done { v: version@ },
        InstallState::Failed { error } => StateM::Failed { e: error_model(error) },
    }
}

pub open spec fn event_model(e: InstallEvent) -> EventM {
    match e {
        InstallEvent::DirChecked { exists } => EventM::DirChecked { exists },
        InstallEvent::HttpStatus { status } => EventM::HttpStatus { status },
        InstallEvent::TransportFailed => EventM::TransportFailed,
        InstallEvent::FsFailed => EventM::FsFailed,
        InstallEvent::Extracted { ok } => EventM::Extracted { ok },
        InstallEvent::Listed { entries } => EventM::Listed { entries: entries.deep_view() },
        InstallEvent::OpensslDir { dir } => EventM::OpensslDir { dir: dir@ },
        InstallEvent::StepDone { success, stderr } => EventM::StepDone {
            success,
            stderr: stderr@,
        },
        InstallEvent::UnameText { text } => EventM::UnameText { text: text@ },
        InstallEvent::ProbeOutput { ok, text } => EventM::ProbeOutput { ok, text: text@ },
        InstallEvent::AliasChecked { exists } => EventM::AliasChecked { exists },
    }
}

pub open spec fn action_model(a: InstallAction) -> ActionM {
    match a {
        InstallAction::CheckInstallDir { path } => ActionM::CheckInstallDir { path: path@ },
        InstallAction::DownloadArchive { url } => ActionM::DownloadArchive { url: url@ },
        InstallAction::ExtractInto { dir } => ActionM::ExtractInto { dir: dir@ },
        InstallAction::ListScratch => ActionM::ListScratch,
        InstallAction::RunOpensslProbe => ActionM::RunOpensslProbe,
        InstallAction::RunConfigure { build_root, prefix, openssl_dir } => ActionM::RunConfigure {
            root: build_root@,
            prefix: prefix@,
            openssl_dir: openssl_dir@,
        },
        InstallAction::RunUname => ActionM::RunUname,
        InstallAction::RunCoresProbe { probe } => ActionM::RunCoresProbe { probe },
        InstallAction::RunMake { build_root, jobs } => ActionM::RunMake {
            root: build_root@,
            jobs,
        },
        InstallAction::RunMakeInstall { build_root } => ActionM::RunMakeInstall {
            root: build_root@,
        },
        InstallAction::CheckAliasFile { path } => ActionM::CheckAliasFile { path: path@ },
        InstallAction::CreateDefaultAlias { version } => ActionM::CreateDefaultAlias {
            v: version@,
        },
        InstallAction::Finish => ActionM::Finish,
        InstallAction::Abort => ActionM::Abort,
    }
}

/// `<versions dir>/<canonical version string>`: the installation directory
/// of one version.
pub open spec fn install_dir_of(base: Seq<char>, t: SemverView) -> Seq<char> {
    versions_dir_of(base) + seq!['/'] + semver_view_string(t)
}

/// The platform's archive suffix: a compressed tarball on POSIX-like
/// targets, a zip elsewhere.
pub open spec fn archive_ext(p: Platform) -> Seq<char> {
    match p {
        Platform::Windows => ".zip"@,
        _ => ".tar.xz"@,
    }
}

/// `ruby-<version string><suffix>`: the archive file name.
pub open spec fn archive_string(v: Version, p: Platform) -> Seq<char> {
    "ruby-"@ + version_string(v) + archive_ext(p)
}

/// `<mirror>/<major>.<minor>/<archive name>`: the archive URL.
pub open spec fn package_url_spec(mirror: Seq<char>, t: SemverView, p: Platform) -> Seq<char> {
    trim_end_char(mirror, '/') + seq!['/'] + dec_digits(t.0) + seq!['.'] + dec_digits(t.1)
        + seq!['/'] + "ruby-"@ + semver_view_string(t) + archive_ext(p)
}

/// The archive file name for a version.
pub fn archive(version: &Version, platform: Platform) -> (r: String)
    ensures
        r@ == archive_string(*version, platform),
{
    let mut out = String::from_str("ruby-");
    let vs = version.format();
    out.append(vs.as_str());
    match platform {
        Platform::Windows => out.append(".zip"),
        _ => out.append(".tar.xz"),
    }
    out
}

/// The archive URL for a version on a mirror; the mirror's trailing
/// slashes are dropped first.
pub fn package_url(mirror: &str, version: &Semver, platform: Platform) -> (r: String)
    ensures
        r@ == package_url_spec(mirror@, version@, platform),
{
    let e = end_without_char(mirror, '/');
    let mut out = mirror.substring_char(0, e).to_owned();
    proof {
        reveal_strlit("/");
        reveal_strlit(".");
        reveal_strlit("ruby-");
    }
    out.append("/");
    push_u64(&mut out, version.major);
    out.append(".");
    push_u64(&mut out, version.minor);
    out.append("/");
    let ver = Version::Semver(duplicate_semver(version));
    let name = archive(&ver, platform);
    out.append(name.as_str());
    proof {
        assert(out@ =~= package_url_spec(mirror@, version@, platform));
    }
    out
}

/// The installation directory of a version under this configuration.
pub fn install_dir(config: &FrumConfig, version: &Semver) -> (r: String)
    ensures
        r@ == install_dir_of(config.base_dir@, version@),
{
    proof {
        reveal_strlit("/");
    }
    let mut out = config.versions_dir();
    out.append("/");
    let vs = Version::Semver(duplicate_semver(version)).format();
    out.append(vs.as_str());
    proof {
        assert(out@ =~= install_dir_of(config.base_dir@, version@));
    }
    out
}

/// Which probe the pipeline uses for the number of processing units,
/// given what `uname -s` printed.
pub open spec fn probe_for(uname: Seq<char>) -> CoresProbe {
    if uname == "Darwin"@ {
        CoresProbe::Sysctl
    } else if uname == "SunOS"@ {
        CoresProbe::GetconfOnln
    } else {
        CoresProbe::GetconfUnderscoreOnln
    }
}

/// Picks the processing-unit probe from the (untrimmed) `uname -s` output.
pub fn probe_for_uname(text: &str) -> (r: CoresProbe)
    ensures
        r == probe_for(trim_spec(text@)),
{
    let (a, b) = trim_range(text);
    let t = text.substring_char(a, b);
    if str_eq(t, "Darwin") {
        CoresProbe::Sysctl
    } else if str_eq(t, "SunOS") {
        CoresProbe::GetconfOnln
    } else {
        CoresProbe::GetconfUnderscoreOnln
    }
}

/// The number a probe's output denotes: its trimmed text as a canonical
/// number no larger than 255.
pub open spec fn cores_of(text: Seq<char>) -> Option<u8> {
    let t = trim_spec(text);
    if num_str(t) && dec_val(t) <= 255 {
        Some(dec_val(t) as u8)
    } else {
        None
    }
}

/// Parses a probe's output. Fails with `ProcessorProbeFailure` exactly
/// when the trimmed text is not a number up to 255; the pipeline then
/// degrades to a fixed fallback instead of failing the run.
pub fn number_of_cores_from(text: &str) -> (r: Result<u8, FrumError>)
    ensures
        r matches Ok(n) ==> cores_of(text@) == Some(n),
        r is Err ==> r == Err::<u8, FrumError>(FrumError::ProcessorProbeFailure) && cores_of(
            text@,
        ) is None,
{
    let (a, b) = trim_range(text);
    match parse_u64_range(text, a, b) {
        Some(v) => {
            if v <= 255 {
                Ok(v as u8)
            } else {
                Err(FrumError::ProcessorProbeFailure)
            }
        },
        None => Err(FrumError::ProcessorProbeFailure),
    }
}

/// The fallback number of build jobs when the probe fails.
pub const FALLBACK_JOBS: u8 = 2;

/// One transition of the pipeline: from a state and the event it awaited
/// to the next state and the next thing to do. Any event a state does not
/// await, and any unexpected filesystem failure, aborts the run with a
/// filesystem failure.
pub open spec fn step_model(p: Platform, base: Seq<char>, mirror: Seq<char>, s: StateM, e: EventM) -> (
    StateM,
    ActionM,
) {
    match s {
        StateM::CheckInstalled { v } => match e {
            EventM::DirChecked { exists } => {
                if exists {
                    (
                        StateM::Failed {
                            e: ErrorM::AlreadyInstalled { path: install_dir_of(base, v) },
                        },
                        ActionM::Abort,
                    )
                } else {
                    (
                        StateM::Download { v },
                        ActionM::DownloadArchive { url: package_url_spec(mirror, v, p) },
                    )
                }
            },
            _ => (StateM::Failed { e: ErrorM::Filesystem }, ActionM::Abort),
        },
        StateM::Download { v } => match e {
            EventM::HttpStatus { status } => {
                if status == 404 {
                    (
                        StateM::Failed {
                            e: ErrorM::SpecifierNotFound { specifier: InputM::Full(Some(v)) },
                        },
                        ActionM::Abort,
                    )
                } else {
                    (StateM::Extract { v }, ActionM::ExtractInto { dir: downloads_dir_of(base) })
                }
            },
            EventM::TransportFailed => (StateM::Failed { e: ErrorM::Transport }, ActionM::Abort),
            _ => (StateM::Failed { e: ErrorM::Filesystem }, ActionM::Abort),
        },
        StateM::Extract { v } => match e {
            EventM::Extracted { ok } => {
                if ok {
                    (StateM::LocateRoot { v }, ActionM::ListScratch)
                } else {
                    (StateM::Failed { e: ErrorM::Extraction }, ActionM::Abort)
                }
            },
            _ => (StateM::Failed { e: ErrorM::Filesystem }, ActionM::Abort),
        },
        StateM::LocateRoot { v } => match e {
            EventM::Listed { entries } => {
                if entries.len() == 0 {
                    (StateM::Failed { e: ErrorM::EmptyArchive }, ActionM::Abort)
                } else {
                    let root = entries[0];
                    if (p matches Platform::MacOs) {
                        (StateM::ProbeOpenssl { v, root }, ActionM::RunOpensslProbe)
                    } else {
                        (
                            StateM::Configure { v, root },
                            ActionM::RunConfigure {
                                root,
                                prefix: install_dir_of(base, v),
                                openssl_dir: "/usr/local"@,
                            },
                        )
                    }
                }
            },
            _ => (StateM::Failed { e: ErrorM::Filesystem }, ActionM::Abort),
        },
        StateM::ProbeOpenssl { v, root } => match e {
            EventM::OpensslDir { dir } => (
                StateM::Configure { v, root },
                ActionM::RunConfigure {
                    root,
                    prefix: install_dir_of(base, v),
                    openssl_dir: trim_spec(dir),
                },
            ),
            _ => (StateM::Failed { e: ErrorM::Filesystem }, ActionM::Abort),
        },
        StateM::Configure { v, root } => match e {
            EventM::StepDone { success, stderr } => {
                if success {
                    (StateM::ProbeUname { v, root }, ActionM::RunUname)
                } else {
                    (
                        StateM::Failed {
                            e: ErrorM::Build { stage: BuildStage::Configure, out: stderr },
                        },
                        ActionM::Abort,
                    )
                }
            },
            _ => (StateM::Failed { e: ErrorM::Filesystem }, ActionM::Abort),
        },
        StateM::ProbeUname { v, root } => match e {
            EventM::UnameText { text } => {
                let probe = probe_for(trim_spec(text));
                (StateM::ProbeCores { v, root, probe }, ActionM::RunCoresProbe { probe })
            },
            _ => (StateM::Failed { e: ErrorM::Filesystem }, ActionM::Abort),
        },
        StateM::ProbeCores { v, root, probe } => match e {
            EventM::ProbeOutput { ok, text } => {
                if ok && cores_of(text) is Some {
                    (
                        StateM::Make { v, root },
                        ActionM::RunMake { root, jobs: cores_of(text)->Some_0 },
                    )
                } else if (probe matches CoresProbe::GetconfUnderscoreOnln) {
                    (
                        StateM::ProbeCores { v, root, probe: CoresProbe::GrepCpuinfo },
                        ActionM::RunCoresProbe { probe: CoresProbe::GrepCpuinfo },
                    )
                } else {
                    (StateM::Make { v, root }, ActionM::RunMake { root, jobs: FALLBACK_JOBS })
                }
            },
            _ => (StateM::Failed { e: ErrorM::Filesystem }, ActionM::Abort),
        },
        StateM::Make { v, root } => match e {
            EventM::StepDone { success, stderr } => {
                if success {
                    (StateM::MakeInstall { v, root }, ActionM::RunMakeInstall { root })
                } else {
                    (
                        StateM::Failed { e: ErrorM::Build { stage: BuildStage::Make, out: stderr } },
                        ActionM::Abort,
                    )
                }
            },
            _ => (StateM::Failed { e: ErrorM::Filesystem }, ActionM::Abort),
        },
        StateM::MakeInstall { v, root } => match e {
            EventM::StepDone { success, stderr } => {
                if success {
                    (
                        StateM::CheckDefaultAlias { v },
                        ActionM::CheckAliasFile { path: default_alias_path_of(base) },
                    )
                } else {
                    (
                        StateM::Failed {
                            e: ErrorM::Build { stage: BuildStage::MakeInstall, out: stderr },
                        },
                        ActionM::Abort,
                    )
                }
            },
            _ => (StateM::Failed { e: ErrorM::Filesystem }, ActionM::Abort),
        },
        StateM::CheckDefaultAlias { v } => match e {
            EventM::AliasChecked { exists } => {
                if exists {
                    (StateM::Done { v }, ActionM::Finish)
                } else {
                    (StateM::Done { v }, ActionM::CreateDefaultAlias { v })
                }
            },
            _ => (StateM::Failed { e: ErrorM::Filesystem }, ActionM::Abort),
        },
        StateM::Done { v } => (StateM::Done { v }, ActionM::Finish),
        StateM::Failed { e: err } => (StateM::Failed { e: err }, ActionM::Abort),
    }
}

/// Begins an install run for a resolved version: the machine first asks
/// whether the installation directory already exists.
pub fn start_install(config: &FrumConfig, version: Semver) -> (r: (InstallState, InstallAction))
    ensures
        state_model(r.0) == (StateM::CheckInstalled { v: version@ }),
        action_model(r.1) == (ActionM::CheckInstallDir {
            path: install_dir_of(config.base_dir@, version@),
        }),
{
    let path = install_dir(config, &version);
    (InstallState::CheckInstalled { version }, InstallAction::CheckInstallDir { path })
}

/// Performs one transition of the pipeline; the executable twin of
/// `step_model`.
pub fn install_step(config: &FrumConfig, state: InstallState, event: InstallEvent) -> (r: (
    InstallState,
    InstallAction,
))
    ensures
        (state_model(r.0), action_model(r.1)) == step_model(
            config.platform,
            config.base_dir@,
            config.ruby_build_mirror@,
            state_model(state),
            event_model(event),
        ),
{
    match (state, event) {
        (InstallState::CheckInstalled { version }, InstallEvent::DirChecked { exists }) => {
            if exists {
                let path = install_dir(config, &version);
                (
                    InstallState::Failed { error: FrumError::AlreadyInstalled { path } },
                    InstallAction::Abort,
                )
            } else {
                let url = package_url(config.ruby_build_mirror.as_str(), &version, config.platform);
                (InstallState::Download { version }, InstallAction::DownloadArchive { url })
            }
        },
        (InstallState::Download { version }, InstallEvent::HttpStatus { status }) => {
            if status == 404 {
                (
                    InstallState::Failed {
                        error: FrumError::SpecifierNotFound {
                            specifier: InputVersion::Full(Version::Semver(version)),
                        },
                    },
                    InstallAction::Abort,
                )
            } else {
                let dir = config.downloads_dir();
                (InstallState::Extract { version }, InstallAction::ExtractInto { dir })
            }
        },
        (InstallState::Download { version: _ }, InstallEvent::TransportFailed) => (
            InstallState::Failed { error: FrumError::TransportFailure },
            InstallAction::Abort,
        ),
        (InstallState::Extract { version }, InstallEvent::Extracted { ok }) => {
            if ok {
                (InstallState::LocateRoot { version }, InstallAction::ListScratch)
            } else {
                (InstallState::Failed { error: FrumError::ExtractionFailure }, InstallAction::Abort)
            }
        },
        (InstallState::LocateRoot { version }, InstallEvent::Listed { entries }) => {
            if entries.len() == 0 {
                (InstallState::Failed { error: FrumError::EmptyArchive }, InstallAction::Abort)
            } else {
                let root = entries[0].clone();
                proof {
                    assert(entries.deep_view()[0] == entries@[0]@);
                }
                match config.platform {
                    Platform::MacOs => (
                        InstallState::ProbeOpenssl { version, build_root: root },
                        InstallAction::RunOpensslProbe,
                    ),
                    _ => {
                        let prefix = install_dir(config, &version);
                        let openssl_dir = String::from_str("/usr/local");
                        (
                            InstallState::Configure { version, build_root: root.clone() },
                            InstallAction::RunConfigure { build_root: root, prefix, openssl_dir },
                        )
                    },
                }
            }
        },
        (InstallState::ProbeOpenssl { version, build_root }, InstallEvent::OpensslDir { dir }) => {
            let (a, b) = trim_range(dir.as_str());
            let trimmed = dir.as_str().substring_char(a, b).to_owned();
            let prefix = install_dir(config, &version);
            (
                InstallState::Configure { version, build_root: build_root.clone() },
                InstallAction::RunConfigure {
                    build_root,
                    prefix,
                    openssl_dir: trimmed,
                },
            )
        },
        (
            InstallState::Configure { version, build_root },
            InstallEvent::StepDone { success, stderr },
        ) => {
            if success {
                (InstallState::ProbeUname { version, build_root }, InstallAction::RunUname)
            } else {
                (
                    InstallState::Failed {
                        error: FrumError::BuildFailure {
                            stage: BuildStage::Configure,
                            captured_output: stderr,
                        },
                    },
                    InstallAction::Abort,
                )
            }
        },
        (InstallState::ProbeUname { version, build_root }, InstallEvent::UnameText { text }) => {
            let probe = probe_for_uname(text.as_str());
            (
                InstallState::ProbeCores { version, build_root, probe },
                InstallAction::RunCoresProbe { probe },
            )
        },
        (
            InstallState::ProbeCores { version, build_root, probe },
            InstallEvent::ProbeOutput { ok, text },
        ) => {
            let parsed = if ok {
                number_of_cores_from(text.as_str())
            } else {
                Err(FrumError::ProcessorProbeFailure)
            };
            match parsed {
                Ok(jobs) => (
                    InstallState::Make { version, build_root: build_root.clone() },
                    InstallAction::RunMake { build_root, jobs },
                ),
                Err(_) => match probe {
                    CoresProbe::GetconfUnderscoreOnln => (
                        InstallState::ProbeCores {
                            version,
                            build_root,
                            probe: CoresProbe::GrepCpuinfo,
                        },
                        InstallAction::RunCoresProbe { probe: CoresProbe::GrepCpuinfo },
                    ),
                    _ => (
                        InstallState::Make { version, build_root: build_root.clone() },
                        InstallAction::RunMake { build_root, jobs: FALLBACK_JOBS },
                    ),
                },
            }
        },
        (InstallState::Make { version, build_root }, InstallEvent::StepDone { success, stderr }) => {
            if success {
                (
                    InstallState::MakeInstall { version, build_root: build_root.clone() },
                    InstallAction::RunMakeInstall { build_root },
                )
            } else {
                (
                    InstallState::Failed {
                        error: FrumError::BuildFailure {
                            stage: BuildStage::Make,
                            captured_output: stderr,
                        },
                    },
                    InstallAction::Abort,
                )
            }
        },
        (
            InstallState::MakeInstall { version, build_root: _ },
            InstallEvent::StepDone { success, stderr },
        ) => {
            if success {
                let path = config.default_version_dir();
                (
                    InstallState::CheckDefaultAlias { version },
                    InstallAction::CheckAliasFile { path },
                )
            } else {
                (
                    InstallState::Failed {
                        error: FrumError::BuildFailure {
                            stage: BuildStage::MakeInstall,
                            captured_output: stderr,
                        },
                    },
                    InstallAction::Abort,
                )
            }
        },
        (InstallState::CheckDefaultAlias { version }, InstallEvent::AliasChecked { exists }) => {
            if exists {
                (InstallState::Done { version }, InstallAction::Finish)
            } else {
                let copy = duplicate_semver(&version);
                (
                    InstallState::Done { version },
                    InstallAction::CreateDefaultAlias { version: copy },
                )
            }
        },
        (InstallState::Done { version }, _) => (
            InstallState::Done { version },
            InstallAction::Finish,
        ),
        (InstallState::Failed { error }, _) => (
            InstallState::Failed { error },
            InstallAction::Abort,
        ),
        (other, _) => fail_state(other),
    }
}

/// A mismatched event is an unexpected failure of the outside world:
/// the run aborts with a filesystem failure.
fn fail_state(state: InstallState) -> (r: (InstallState, InstallAction))
    ensures
        state_model(r.0) == (StateM::Failed { e: ErrorM::Filesystem }),
        action_model(r.1) == ActionM::Abort,
{
    let _ = state;
    (InstallState::Failed { error: FrumError::FilesystemFailure }, InstallAction::Abort)
}

/// Actions whose execution changes the filesystem.
pub open spec fn action_mutates(a: ActionM) -> bool {
    match a {
        ActionM::ExtractInto { .. } => true,
        ActionM::RunConfigure { .. } => true,
        ActionM::RunMake { .. } => true,
        ActionM::RunMakeInstall { .. } => true,
        ActionM::CreateDefaultAlias { .. } => true,
        _ => false,
    }
}

/// A whole run of the machine: fold the events from a starting state,
/// collecting the emitted actions in order.
pub open spec fn run_model(
    p: Platform,
    base: Seq<char>,
    mirror: Seq<char>,
    s: StateM,
    events: Seq<EventM>,
) -> (StateM, Seq<ActionM>)
    decreases events.len(),
{
    if events.len() == 0 {
        (s, Seq::<ActionM>::empty())
    } else {
        let first = step_model(p, base, mirror, s, events[0]);
        let rest = run_model(p, base, mirror, first.0, events.drop_first());
        (rest.0, seq![first.1] + rest.1)
    }
}

/// A failed run stays failed and only ever asks the outside world to
/// abort.
proof fn lemma_failed_absorbs(
    p: Platform,
    base: Seq<char>,
    mirror: Seq<char>,
    err: ErrorM,
    events: Seq<EventM>,
)
    ensures
        run_model(p, base, mirror, StateM::Failed { e: err }, events).0 == (StateM::Failed {
            e: err,
        }),
        forall|i: int|
            0 <= i < run_model(p, base, mirror, StateM::Failed { e: err }, events).1.len()
                ==> run_model(p, base, mirror, StateM::Failed { e: err }, events).1[i]
                == ActionM::Abort,
    decreases events.len(),
{
    if events.len() > 0 {
        lemma_failed_absorbs(p, base, mirror, err, events.drop_first());
    }
}

/// An install requested for a version whose directory already exists
/// fails with `AlreadyInstalled` naming that directory, and the whole run
/// performs no filesystem mutation at all.
pub proof fn lemma_already_installed_mutates_nothing(
    p: Platform,
    base: Seq<char>,
    mirror: Seq<char>,
    v: SemverView,
    events: Seq<EventM>,
)
    requires
        events.len() > 0,
        events[0] == (EventM::DirChecked { exists: true }),
    ensures
        run_model(p, base, mirror, StateM::CheckInstalled { v }, events).0 == (StateM::Failed {
            e: ErrorM::AlreadyInstalled { path: install_dir_of(base, v) },
        }),
        forall|i: int|
            0 <= i < run_model(p, base, mirror, StateM::CheckInstalled { v }, events).1.len()
                ==> !action_mutates(
                run_model(p, base, mirror, StateM::CheckInstalled { v }, events).1[i],
            ),
{
    let err = ErrorM::AlreadyInstalled { path: install_dir_of(base, v) };
    lemma_failed_absorbs(p, base, mirror, err, events.drop_first());
}

/// A "not found" archive response fails the run with `SpecifierNotFound`
/// for exactly that version — never a generic transport failure — while
/// every other status proceeds to extraction into the scratch directory.
pub proof fn lemma_download_not_found(
    p: Platform,
    base: Seq<char>,
    mirror: Seq<char>,
    v: SemverView,
)
    ensures
        step_model(p, base, mirror, StateM::Download { v }, EventM::HttpStatus { status: 404 })
            == (
            StateM::Failed { e: ErrorM::SpecifierNotFound { specifier: InputM::Full(Some(v)) } },
            ActionM::Abort,
        ),
        forall|status: u16|
            status != 404 ==> step_model(
                p,
                base,
                mirror,
                StateM::Download { v },
                EventM::HttpStatus { status },
            ) == (StateM::Extract { v }, ActionM::ExtractInto { dir: downloads_dir_of(base) }),
{
}

/// Extraction only ever targets the scratch directory under
/// `versions/.downloads`, from every state and on every event.
pub proof fn lemma_extract_targets_scratch(
    p: Platform,
    base: Seq<char>,
    mirror: Seq<char>,
    s: StateM,
    e: EventM,
)
    ensures
        step_model(p, base, mirror, s, e).1 matches ActionM::ExtractInto { dir } ==> dir
            == downloads_dir_of(base),
{
}

/// The installation tree is written only by the final install step, and
/// the machine reaches it only after configure and make both succeeded.
pub proof fn lemma_install_write_only_after_build(
    p: Platform,
    base: Seq<char>,
    mirror: Seq<char>,
    s: StateM,
    e: EventM,
)
    ensures
        (step_model(p, base, mirror, s, e).1 matches ActionM::RunMakeInstall { .. }) ==> (s matches
            StateM::Make { .. }) && (e matches EventM::StepDone { success: true, .. }),
{
}

/// The scratch directory is never any version's installation directory:
/// a failed or partial extraction can never produce a directory that the
/// pre-existence check of a later run would take for an installed
/// version.
pub proof fn lemma_scratch_not_install_dir(base: Seq<char>, v: SemverView)
    ensures
        downloads_dir_of(base) != install_dir_of(base, v),
{
    reveal_strlit("/.downloads");
    crate::text::lemma_dec_digits_shape(v.0);
    let vd = versions_dir_of(base);
    let d = downloads_dir_of(base);
    let ins = install_dir_of(base, v);
    let svs = semver_view_string(v);
    let i = vd.len() as int + 1;
    if d == ins {
        assert(d[i] == "/.downloads"@[1]);
        assert("/.downloads"@[1] == '.');
        assert(ins[i] == svs[0]);
        assert(svs[0] == dec_digits(v.0)[0]);
        assert(crate::text::is_digit(dec_digits(v.0)[0]));
        assert(false);
    }
}

/// Over a whole run: every extraction the machine ever asks for targets
/// the scratch directory.
pub proof fn lemma_run_extracts_only_scratch(
    p: Platform,
    base: Seq<char>,
    mirror: Seq<char>,
    s: StateM,
    events: Seq<EventM>,
)
    ensures
        forall|i: int|
            0 <= i < run_model(p, base, mirror, s, events).1.len() ==> (#[trigger] run_model(
                p,
                base,
                mirror,
                s,
                events,
            ).1[i] matches ActionM::ExtractInto { dir } ==> dir == downloads_dir_of(base)),
    decreases events.len(),
{
    if events.len() > 0 {
        let first = step_model(p, base, mirror, s, events[0]);
        lemma_extract_targets_scratch(p, base, mirror, s, events[0]);
        lemma_run_extracts_only_scratch(p, base, mirror, first.0, events.drop_first());
    }
}

/// Bootstrap of the `default` alias: installing with no `default` alias
/// present binds it to the version just installed; when one already
/// exists the machine finishes without touching it, and binding `default`
/// is the only alias mutation any transition can emit.
pub proof fn lemma_default_alias_bootstrap(
    p: Platform,
    base: Seq<char>,
    mirror: Seq<char>,
    v: SemverView,
    s: StateM,
    e: EventM,
)
    ensures
        step_model(
            p,
            base,
            mirror,
            StateM::CheckDefaultAlias { v },
            EventM::AliasChecked { exists: false },
        ) == (StateM::Done { v }, ActionM::CreateDefaultAlias { v }),
        step_model(
            p,
            base,
            mirror,
            StateM::CheckDefaultAlias { v },
            EventM::AliasChecked { exists: true },
        ) == (StateM::Done { v }, ActionM::Finish),
        step_model(p, base, mirror, s, e).1 matches ActionM::CreateDefaultAlias { v: w } ==> s
            == (StateM::CheckDefaultAlias { v: w }) && e == (EventM::AliasChecked {
            exists: false,
        }),
{
}

} // verus!
