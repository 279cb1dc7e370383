//! Best-effort inference of the hosting shell: a process table is read
//! once from the system, parsed, and the ancestry of the current process
//! is walked until a known shell executable is recognized. Parsing and
//! the walk are pure over the snapshot handed in.

use vstd::prelude::*;
use vstd::string::StrSliceExecFns;
use vstd::string::StringExecFns;

use std::collections::HashMap;

use crate::shell::ShellKind;
use crate::text::dec_val;
use crate::text::num_str;
use crate::text::parse_u64_range;
use crate::text::str_eq;

verus! {

/// One row of the process snapshot.
pub struct ProcessInfo {
    pub executable_path: Option<String>,
    pub parent_pid: u32,
    pub pid: u32,
}

/// The snapshot: one entry per process id.
pub type ProcessMap = HashMap<u32, ProcessInfo>;

/// The ancestry chain from `cur` upward: each process, then its parent,
/// until a parent is missing from the snapshot; removal makes a cycle
/// terminate.
pub open spec fn chain(m: Map<u32, ProcessInfo>, cur: ProcessInfo) -> Seq<ProcessInfo>
    decreases m.dom().len(),
    when m.dom().finite()
{
    if m.contains_key(cur.parent_pid) {
        seq![cur] + chain(m.remove(cur.parent_pid), m[cur.parent_pid])
    } else {
        seq![cur]
    }
}

/// The ancestry chain of the process `pid` in the snapshot.
pub open spec fn process_tree_spec(m: Map<u32, ProcessInfo>, pid: u32) -> Seq<ProcessInfo> {
    if m.contains_key(pid) {
        chain(m.remove(pid), m[pid])
    } else {
        Seq::empty()
    }
}

/// Walks upward from `cur`, consuming the snapshot.
fn tree_walk(map: &mut ProcessMap, cur: ProcessInfo, out: &mut Vec<ProcessInfo>)
    ensures
        final(out)@ == old(out)@ + chain(old(map)@, cur),
    decreases old(map)@.dom().len(),
{
    let parent = cur.parent_pid;
    let next = map.remove(&parent);
    match next {
        Some(p) => {
            proof {
                assert(map@ == old(map)@.remove(parent));
                broadcast use vstd::set_lib::group_set_properties;
            }
            out.push(cur);
            tree_walk(map, p, out);
        },
        None => {
            out.push(cur);
        },
    }
}

/// The ancestry of `pid` in the snapshot: the process itself, then each
/// parent in turn, until the chain leaves the snapshot.
pub fn get_process_tree(mut process_map: ProcessMap, pid: u32) -> (r: Vec<ProcessInfo>)
    ensures
        r@ == process_tree_spec(process_map@, pid),
{
    let mut out: Vec<ProcessInfo> = Vec::new();
    match process_map.remove(&pid) {
        Some(p) => {
            tree_walk(&mut process_map, p, &mut out);
        },
        None => {},
    }
    out
}

/// Index one past the last path separator: where the file name begins.
pub open spec fn name_start(s: Seq<char>) -> int
    decreases s.len(),
{
    if s.len() == 0 {
        0
    } else if s.last() == '/' || s.last() == '\\' {
        s.len() as int
    } else {
        name_start(s.drop_last())
    }
}

/// The file name of a path: everything after the last separator.
pub open spec fn base_name(s: Seq<char>) -> Seq<char> {
    s.subrange(name_start(s), s.len() as int)
}

/// The file name of a path, as a borrowed slice.
pub fn base_name_of(s: &str) -> (r: &str)
    ensures
        r@ == base_name(s@),
{
    let n = s.unicode_len();
    proof {
        assert(s@.subrange(0, n as int) =~= s@);
    }
    let mut j: usize = n;
    while j > 0
        invariant
            0 <= j <= n == s@.len(),
            name_start(s@) == name_start(s@.subrange(0, j as int)),
            forall|k: int| j <= k < n ==> s@[k] != '/' && s@[k] != '\\',
        decreases j,
    {
        let c = s.get_char(j - 1);
        let ghost pre = s@.subrange(0, j as int);
        proof {
            assert(pre.last() == s@[j - 1]);
            assert(pre.drop_last() =~= s@.subrange(0, j - 1));
        }
        if c == '/' || c == '\\' {
            proof {
                assert(name_start(s@) == j as int);
            }
            return s.substring_char(j, n);
        }
        j = j - 1;
    }
    proof {
        assert(s@.subrange(0, 0) =~= Seq::<char>::empty());
        assert(name_start(s@) == 0);
    }
    s.substring_char(0, n)
}

/// The dialect a shell executable's file name denotes, if any.
pub open spec fn shell_of_exe(name: Seq<char>) -> Option<ShellKind> {
    if name == "cmd.exe"@ || name == "cmd.EXE"@ {
        Some(ShellKind::WindowsCommand)
    } else if name == "bash.exe"@ || name == "bash.EXE"@ || name == "bash"@ {
        Some(ShellKind::Bash)
    } else if name == "zsh"@ {
        Some(ShellKind::Zsh)
    } else if name == "fish"@ {
        Some(ShellKind::Fish)
    } else if name == "powershell.exe"@ || name == "powershell.EXE"@ || name == "pwsh.exe"@
        || name == "pwsh.EXE"@ || name == "pwsh"@ {
        Some(ShellKind::PowerShell)
    } else {
        None
    }
}

/// The first recognizable shell in the ancestry, from position `i` on.
pub open spec fn infer_from(tree: Seq<ProcessInfo>, i: int) -> Option<ShellKind>
    decreases tree.len() - i,
{
    if i < 0 || i >= tree.len() {
        None
    } else {
        let here = match tree[i].executable_path {
            Some(p) => shell_of_exe(base_name(p@)),
            None => None,
        };
        match here {
            Some(k) => Some(k),
            None => infer_from(tree, i + 1),
        }
    }
}

/// The dialect a shell executable's file name denotes, if any.
pub fn shell_of_exe_name(name: &str) -> (r: Option<ShellKind>)
    ensures
        r == shell_of_exe(name@),
{
    if str_eq(name, "cmd.exe") || str_eq(name, "cmd.EXE") {
        Some(ShellKind::WindowsCommand)
    } else if str_eq(name, "bash.exe") || str_eq(name, "bash.EXE") || str_eq(name, "bash") {
        Some(ShellKind::Bash)
    } else if str_eq(name, "zsh") {
        Some(ShellKind::Zsh)
    } else if str_eq(name, "fish") {
        Some(ShellKind::Fish)
    } else if str_eq(name, "powershell.exe") || str_eq(name, "powershell.EXE") || str_eq(
        name,
        "pwsh.exe",
    ) || str_eq(name, "pwsh.EXE") || str_eq(name, "pwsh") {
        Some(ShellKind::PowerShell)
    } else {
        None
    }
}

/// Walks the ancestry until a known shell executable's base name is
/// recognized; unknown ancestry yields no shell rather than a guess.
pub fn infer_shell(tree: &Vec<ProcessInfo>) -> (r: Option<ShellKind>)
    ensures
        r == infer_from(tree@, 0),
{
    let n = tree.len();
    let mut i: usize = 0;
    while i < n
        invariant
            0 <= i <= n == tree@.len(),
            infer_from(tree@, 0) == infer_from(tree@, i as int),
        decreases n - i,
    {
        match &tree[i].executable_path {
            Some(p) => {
                let name = base_name_of(p.as_str());
                match shell_of_exe_name(name) {
                    Some(k) => {
                        return Some(k);
                    },
                    None => {},
                }
            },
            None => {},
        }
        i = i + 1;
    }
    None
}

/// What the comma-separated process listing denotes: its records, each a
/// sequence of fields. The text alone decides the result.
pub uninterp spec fn csv_table_of(s: Seq<char>) -> Seq<Seq<Seq<char>>>;

/// Relies on csv::ReaderBuilder / csv::StringRecord: parses
/// comma-separated text into records of string fields, headers treated as
/// an ordinary first record; records that do not parse are passed over.
#[verifier::external_body]
fn csv_records(text: &str) -> (r: Vec<Vec<String>>)
    ensures
        r.deep_view() == csv_table_of(text@),
{
    let mut rdr = csv::ReaderBuilder::new().has_headers(false).flexible(true).from_reader(
        text.as_bytes(),
    );
    let mut out: Vec<Vec<String>> = Vec::new();
    for rec in rdr.records() {
        if let Ok(rec) = rec {
            out.push(rec.iter().map(|f| f.to_string()).collect());
        }
    }
    out
}

/// The first column carrying this header name; the row length when none
/// does.
pub open spec fn header_col(header: Seq<Seq<char>>, name: Seq<char>, i: int) -> int
    decreases header.len() - i,
{
    if i < 0 || i >= header.len() {
        header.len() as int
    } else if header[i] == name {
        i
    } else {
        header_col(header, name, i + 1)
    }
}

/// The process id a field denotes: a canonical number fitting `u32`.
pub open spec fn pid_of_field(f: Seq<char>) -> Option<u32> {
    if num_str(f) && dec_val(f) <= u32::MAX {
        Some(dec_val(f) as u32)
    } else {
        None
    }
}

/// The (pid, parent pid, executable path) a record denotes, given the
/// column of each; a record without two parseable pids is passed over,
/// and an absent or empty path column means no path.
pub open spec fn row_entry(row: Seq<Seq<char>>, pc: int, qc: int, ec: int) -> Option<
    (u32, u32, Option<Seq<char>>),
> {
    if 0 <= pc < row.len() && 0 <= qc < row.len() {
        match (pid_of_field(row[pc]), pid_of_field(row[qc])) {
            (Some(p), Some(q)) => Some(
                (
                    p,
                    q,
                    if 0 <= ec < row.len() && row[ec].len() > 0 {
                        Some(row[ec])
                    } else {
                        None
                    },
                ),
            ),
            _ => None,
        }
    } else {
        None
    }
}

/// The snapshot the records denote, read top to bottom; a later record
/// for a pid wins. Record 0 is the header and carries no process.
pub open spec fn rows_map(table: Seq<Seq<Seq<char>>>, pc: int, qc: int, ec: int, upto: int) -> Map<
    u32,
    (u32, u32, Option<Seq<char>>),
>
    decreases upto,
{
    if upto <= 1 {
        Map::empty()
    } else {
        let m = rows_map(table, pc, qc, ec, upto - 1);
        if upto - 1 < table.len() {
            match row_entry(table[upto - 1], pc, qc, ec) {
                Some(t) => m.insert(t.0, t),
                None => m,
            }
        } else {
            m
        }
    }
}

/// The shape of one snapshot row.
pub open spec fn info_view(p: ProcessInfo) -> (u32, u32, Option<Seq<char>>) {
    (
        p.pid,
        p.parent_pid,
        match p.executable_path {
            Some(s) => Some(s@),
            None => None,
        },
    )
}

/// Index of the column carrying this header name.
fn find_col(header: &Vec<String>, name: &str) -> (r: usize)
    ensures
        r == header_col(header.deep_view(), name@, 0),
        r <= header@.len(),
{
    let n = header.len();
    let mut i: usize = 0;
    while i < n
        invariant
            0 <= i <= n == header@.len(),
            header.deep_view().len() == n,
            forall|k: int| 0 <= k < n ==> header.deep_view()[k] == header@[k]@,
            header_col(header.deep_view(), name@, 0) == header_col(
                header.deep_view(),
                name@,
                i as int,
            ),
        decreases n - i,
    {
        if str_eq(header[i].as_str(), name) {
            return i;
        }
        i = i + 1;
    }
    n
}

/// Builds the process snapshot from the raw comma-separated listing, the
/// header record naming the pid, parent-pid and executable-path columns.
pub fn get_process_map(raw: &str) -> (r: ProcessMap)
    ensures
        ({
            let table = csv_table_of(raw@);
            if table.len() == 0 {
                r@ == Map::<u32, ProcessInfo>::empty()
            } else {
                let pc = header_col(table[0], "ProcessId"@, 0);
                let qc = header_col(table[0], "ParentProcessId"@, 0);
                let ec = header_col(table[0], "ExecutablePath"@, 0);
                let m = rows_map(table, pc, qc, ec, table.len() as int);
                &&& forall|pid: u32| #[trigger] r@.contains_key(pid) <==> m.contains_key(pid)
                &&& forall|pid: u32|
                    #[trigger] r@.contains_key(pid) ==> info_view(r@[pid]) == m[pid] && r@[pid].pid
                        == pid
            }
        }),
{
    broadcast use vstd::std_specs::hash::group_hash_axioms;

    let rows = csv_records(raw);
    let ghost table = csv_table_of(raw@);
    let mut out: ProcessMap = HashMap::new();
    if rows.len() == 0 {
        return out;
    }
    let pc = find_col(&rows[0], "ProcessId");
    let qc = find_col(&rows[0], "ParentProcessId");
    let ec = find_col(&rows[0], "ExecutablePath");
    proof {
        assert(rows[0].deep_view() == table[0]);
    }
    let n = rows.len();
    let mut i: usize = 1;
    while i < n
        invariant
            1 <= i <= n == rows@.len(),
            rows.deep_view() == table,
            table.len() == n,
            pc == header_col(table[0], "ProcessId"@, 0),
            qc == header_col(table[0], "ParentProcessId"@, 0),
            ec == header_col(table[0], "ExecutablePath"@, 0),
            forall|pid: u32| #[trigger]
                out@.contains_key(pid) <==> rows_map(
                    table,
                    pc as int,
                    qc as int,
                    ec as int,
                    i as int,
                ).contains_key(pid),
            forall|pid: u32| #[trigger]
                out@.contains_key(pid) ==> info_view(out@[pid]) == rows_map(
                    table,
                    pc as int,
                    qc as int,
                    ec as int,
                    i as int,
                )[pid] && out@[pid].pid == pid,
        decreases n - i,
    {
        let row = &rows[i];
        proof {
            assert(row.deep_view() == table[i as int]);
        }
        if pc < row.len() && qc < row.len() {
            let pf = &row[pc];
            let qf = &row[qc];
            let p = parse_u64_range(pf.as_str(), 0, pf.as_str().unicode_len());
            let q = parse_u64_range(qf.as_str(), 0, qf.as_str().unicode_len());
            proof {
                assert(pf@.subrange(0, pf@.len() as int) =~= pf@);
                assert(qf@.subrange(0, qf@.len() as int) =~= qf@);
                assert(table[i as int][pc as int] == pf@);
                assert(table[i as int][qc as int] == qf@);
            }
            match (p, q) {
                (Some(pv), Some(qv)) => {
                    if pv <= 0xffff_ffff && qv <= 0xffff_ffff {
                        let exe: Option<String> = if ec < row.len() {
                            let f = &row[ec];
                            if f.as_str().unicode_len() > 0 {
                                proof {
                                    assert(table[i as int][ec as int] == f@);
                                }
                                Some(f.clone())
                            } else {
                                None
                            }
                        } else {
                            None
                        };
                        let info = ProcessInfo {
                            executable_path: exe,
                            parent_pid: qv as u32,
                            pid: pv as u32,
                        };
                        out.insert(pv as u32, info);
                    }
                },
                _ => {},
            }
        }
        i = i + 1;
    }
    out
}

} // verus!
