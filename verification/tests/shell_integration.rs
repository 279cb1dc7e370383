use std::collections::HashMap;

use frum::alias::AliasStore;
use frum::config::{FrumConfig, Platform};
use frum::shell::bash::Bash;
use frum::shell::fish::Fish;
use frum::shell::infer::{get_process_map, get_process_tree, infer_shell, ProcessInfo};
use frum::shell::powershell::PowerShell;
use frum::shell::windows_command::WindowsCommand;
use frum::shell::zsh::Zsh;
use frum::shell::ShellKind;
use frum::version::{Semver, Version};

fn config() -> FrumConfig {
    FrumConfig {
        base_dir: "/base".to_string(),
        ruby_build_mirror: "https://mirror.example/ruby/".to_string(),
        platform: Platform::OtherPosix,
    }
}

#[test]
fn test_zsh_path_and_env() {
    let zsh = Zsh;
    assert_eq!(
        zsh.path("/base/versions/2.6.4/bin"),
        "export PATH=\"/base/versions/2.6.4/bin\":$PATH"
    );
    assert_eq!(zsh.set_env_var("FRUM_DIR", "/base"), "export FRUM_DIR=\"/base\"");
}

#[test]
fn test_bash_escapes_quotes_and_backslashes() {
    let bash = Bash;
    assert_eq!(
        bash.set_env_var("X", "a\"b\\c"),
        "export X=\"a\\\"b\\\\c\""
    );
    assert_eq!(bash.path("/tmp/x"), "export PATH=\"/tmp/x\":$PATH");
}

#[test]
fn test_fish_dialect() {
    let fish = Fish;
    assert_eq!(
        fish.path("/base/bin"),
        "set --global --export PATH \"/base/bin\" $PATH;"
    );
    assert_eq!(
        fish.set_env_var("FRUM_DIR", "/base"),
        "set --global --export FRUM_DIR \"/base\";"
    );
}

#[test]
fn test_powershell_dialect() {
    let ps = PowerShell;
    assert_eq!(ps.set_env_var("FRUM_DIR", "C:\\frum"), "$env:FRUM_DIR = \"C:\\frum\"");
    assert_eq!(
        ps.path("C:\\frum\\bin", "C:\\Windows"),
        "$env:PATH = \"C:\\frum\\bin;C:\\Windows\""
    );
}

#[test]
fn test_windows_command_dialect() {
    let cmd = WindowsCommand;
    assert_eq!(cmd.set_env_var("FRUM_DIR", "C:\\frum"), "SET FRUM_DIR=C:\\frum");
    assert_eq!(
        cmd.path("C:\\frum\\bin", "C:\\Windows"),
        "SET PATH=C:\\frum\\bin;C:\\Windows"
    );
}

#[test]
fn test_use_on_cd_snippets() {
    let cfg = config();
    assert!(Zsh.use_on_cd(&cfg).contains("add-zsh-hook chpwd"));
    assert!(Bash.use_on_cd(&cfg).contains("PROMPT_COMMAND"));
    assert!(Fish.use_on_cd(&cfg).contains("--on-variable PWD"));
    assert!(PowerShell.use_on_cd(&cfg).contains("Set-LocationWithFrum"));
}

fn proc(pid: u32, parent: u32, exe: Option<&str>) -> ProcessInfo {
    ProcessInfo {
        executable_path: exe.map(|s| s.to_string()),
        parent_pid: parent,
        pid,
    }
}

#[test]
fn test_get_process_tree_walks_ancestry() {
    let mut map: HashMap<u32, ProcessInfo> = HashMap::new();
    map.insert(10, proc(10, 5, Some("/usr/bin/frum")));
    map.insert(5, proc(5, 1, Some("/bin/zsh")));
    map.insert(1, proc(1, 0, Some("/sbin/init")));
    let tree = get_process_tree(map, 10);
    let pids: Vec<u32> = tree.iter().map(|p| p.pid).collect();
    assert_eq!(pids, vec![10, 5, 1]);
}

#[test]
fn test_get_process_tree_survives_cycles() {
    let mut map: HashMap<u32, ProcessInfo> = HashMap::new();
    map.insert(2, proc(2, 3, None));
    map.insert(3, proc(3, 2, None));
    let tree = get_process_tree(map, 2);
    let pids: Vec<u32> = tree.iter().map(|p| p.pid).collect();
    assert_eq!(pids, vec![2, 3]);
}

#[test]
fn test_infer_shell_recognizes_ancestors() {
    let tree = vec![
        proc(10, 5, Some("/usr/bin/frum")),
        proc(5, 1, Some("/bin/zsh")),
    ];
    assert_eq!(infer_shell(&tree), Some(ShellKind::Zsh));
    let windows_tree = vec![
        proc(10, 5, None),
        proc(5, 1, Some("C:\\Windows\\System32\\cmd.EXE")),
    ];
    assert_eq!(infer_shell(&windows_tree), Some(ShellKind::WindowsCommand));
    let unknown = vec![proc(10, 5, Some("/usr/bin/login"))];
    assert_eq!(infer_shell(&unknown), None);
}

#[test]
fn test_me() {
    // A process listing as the system's table formatter prints it.
    let raw = "Node,ExecutablePath,ParentProcessId,ProcessId\n\
               HOST,C:\\Windows\\System32\\cmd.exe,4,77\n\
               HOST,,0,4\n";
    let map = get_process_map(raw);
    assert!(map.contains_key(&77));
    let entry = map.get(&77).unwrap();
    assert_eq!(entry.parent_pid, 4);
    assert_eq!(entry.executable_path.as_deref(), Some("C:\\Windows\\System32\\cmd.exe"));
    assert_eq!(map.get(&4).unwrap().executable_path, None);
}

#[test]
fn test_process_map_feeds_shell_inference() {
    let raw = "Node,ExecutablePath,ParentProcessId,ProcessId\n\
               HOST,C:\\frum.exe,5,10\n\
               HOST,C:\\Program Files\\PowerShell\\pwsh.EXE,1,5\n";
    let map = get_process_map(raw);
    let tree = get_process_tree(map, 10);
    assert_eq!(infer_shell(&tree), Some(ShellKind::PowerShell));
}

#[test]
fn test_alias_creation_is_idempotent() {
    let mut store = AliasStore::new();
    let v = Version::Semver(Semver::parse("2.6.4").unwrap());
    store.create_alias("default", &v, true).unwrap();
    let first = store.resolve_alias("default");
    store.create_alias("default", &v, true).unwrap();
    let second = store.resolve_alias("default");
    assert_eq!(first, second);
    assert_eq!(second, Some(v));
}

#[test]
fn test_alias_requires_installed_target() {
    let mut store = AliasStore::new();
    let v = Version::Semver(Semver::parse("2.6.4").unwrap());
    assert!(store.create_alias("default", &v, false).is_err());
    assert_eq!(store.resolve_alias("default"), None);
}

#[test]
fn test_alias_rebinding_and_lookup() {
    let mut store = AliasStore::new();
    let a = Version::Semver(Semver::parse("2.6.4").unwrap());
    let b = Version::Semver(Semver::parse("2.7.0").unwrap());
    store.create_alias("default", &a, true).unwrap();
    store.create_alias("stable", &b, true).unwrap();
    store.create_alias("default", &b, true).unwrap();
    assert_eq!(store.resolve_alias("default"), Some(b.clone()));
    assert_eq!(store.resolve_alias("stable"), Some(b));
    assert_eq!(store.resolve_alias("missing"), None);
}
