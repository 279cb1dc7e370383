//! Shell integration: one closed set of dialects, each with pure text
//! generation for PATH mutation, environment-variable export and the
//! directory-change hook, plus inference of the hosting shell from a
//! process-ancestry snapshot.

use vstd::prelude::*;
use vstd::string::StrSliceExecFns;
use vstd::string::StringExecFns;

pub mod bash;
pub mod fish;
pub mod infer;
pub mod powershell;
pub mod windows_command;
pub mod zsh;

verus! {

/// The closed set of supported shell dialects.
#[derive(Debug, Clone, Copy, PartialEq, Eq)]
pub enum ShellKind {
    Bash,
    Zsh,
    Fish,
    PowerShell,
    WindowsCommand,
}

/// One character under double-quote escaping: quotes and backslashes get
/// a backslash, everything else stands as it is.
pub open spec fn esc_char(c: char) -> Seq<char> {
    if c == '"' || c == '\\' {
        seq!['\\', c]
    } else {
        seq![c]
    }
}

/// A string under double-quote escaping.
pub open spec fn escaped(s: Seq<char>) -> Seq<char>
    decreases s.len(),
{
    if s.len() == 0 {
        Seq::empty()
    } else {
        escaped(s.drop_last()) + esc_char(s.last())
    }
}

/// A string wrapped in double quotes, its quotes and backslashes escaped.
pub open spec fn quoted(s: Seq<char>) -> Seq<char> {
    seq!['"'] + escaped(s) + seq!['"']
}

/// Appends `s` to `out` wrapped in double quotes, escaping quotes and
/// backslashes.
pub fn append_quoted(out: &mut String, s: &str)
    ensures
        final(out)@ == old(out)@ + quoted(s@),
{
    proof {
        reveal_strlit("\"");
        reveal_strlit("\\");
    }
    out.append("\"");
    let n = s.unicode_len();
    let mut i: usize = 0;
    while i < n
        invariant
            0 <= i <= n == s@.len(),
            out@ == old(out)@ + seq!['"'] + escaped(s@.subrange(0, i as int)),
        decreases n - i,
    {
        let c = s.get_char(i);
        let ghost pre = s@.subrange(0, i as int);
        let ghost pre2 = s@.subrange(0, i + 1 as int);
        proof {
            reveal_strlit("\"");
            reveal_strlit("\\");
            assert(pre2.drop_last() =~= pre);
            assert(pre2.last() == s@[i as int]);
        }
        if c == '"' || c == '\\' {
            out.append("\\");
        }
        out.append(s.substring_char(i, i + 1));
        i = i + 1;
        proof {
            assert("\\"@ =~= seq!['\\']);
            assert(escaped(pre2) == escaped(pre) + esc_char(s@[i - 1]));
            assert(out@ =~= old(out)@ + seq!['"'] + escaped(s@.subrange(0, i as int)));
        }
    }
    out.append("\"");
    proof {
        assert(s@.subrange(0, n as int) =~= s@);
        assert(out@ =~= old(out)@ + quoted(s@));
    }
}

} // verus!
