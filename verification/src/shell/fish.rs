//! The Fish dialect: `set --export` statements and a `PWD` hook.

use vstd::prelude::*;
use vstd::string::StringExecFns;

use crate::config::FrumConfig;
use crate::shell::append_quoted;
use crate::shell::quoted;

verus! {

pub struct Fish;

/// `set --global --export <name> <quoted value>;`
pub open spec fn fish_set_env_var_text(name: Seq<char>, value: Seq<char>) -> Seq<char> {
    "set --global --export "@ + name + " "@ + quoted(value) + ";"@
}

/// `set --global --export PATH <quoted dir> $PATH;`
pub open spec fn fish_path_text(dir: Seq<char>) -> Seq<char> {
    "set --global --export PATH "@ + quoted(dir) + " $PATH;"@
}

pub open spec fn fish_use_on_cd_text() -> Seq<char> {
    "function _frum_autoload_hook --on-variable PWD\n    status --is-command-substitution; and return\n    if test -f .ruby-version\n        frum local\n    end\nend\n"@
}

impl Fish {
    /// The snippet prepending a directory to `PATH`.
    pub fn path(&self, path: &str) -> (r: String)
        ensures
            r@ == fish_path_text(path@),
    {
        let mut out = String::from_str("set --global --export PATH ");
        append_quoted(&mut out, path);
        out.append(" $PATH;");
        proof {
            assert(out@ =~= fish_path_text(path@));
        }
        out
    }

    /// The snippet exporting one environment variable.
    pub fn set_env_var(&self, name: &str, value: &str) -> (r: String)
        ensures
            r@ == fish_set_env_var_text(name@, value@),
    {
        let mut out = String::from_str("set --global --export ");
        out.append(name);
        out.append(" ");
        append_quoted(&mut out, value);
        out.append(";");
        proof {
            assert(out@ =~= fish_set_env_var_text(name@, value@));
        }
        out
    }

    /// The snippet re-triggering resolution and activation on directory
    /// change.
    pub fn use_on_cd(&self, _config: &FrumConfig) -> (r: String)
        ensures
            r@ == fish_use_on_cd_text(),
    {
        String::from_str(
            "function _frum_autoload_hook --on-variable PWD\n    status --is-command-substitution; and return\n    if test -f .ruby-version\n        frum local\n    end\nend\n",
        )
    }
}

} // verus!
