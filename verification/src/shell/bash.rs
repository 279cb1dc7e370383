//! The Bash dialect: POSIX `export` statements and a `PROMPT_COMMAND`
//! hook.

use vstd::prelude::*;
use vstd::string::StringExecFns;

use crate::config::FrumConfig;
use crate::shell::append_quoted;
use crate::shell::quoted;

verus! {

pub struct Bash;

/// `export <name>=<quoted value>`
pub open spec fn bash_set_env_var_text(name: Seq<char>, value: Seq<char>) -> Seq<char> {
    "export "@ + name + "="@ + quoted(value)
}

/// `export PATH=<quoted dir>:$PATH`
pub open spec fn bash_path_text(dir: Seq<char>) -> Seq<char> {
    "export PATH="@ + quoted(dir) + ":$PATH"@
}

pub open spec fn bash_use_on_cd_text() -> Seq<char> {
    "__frum_use_on_cd() {\n    if [[ -f .ruby-version ]]; then\n        frum local\n    fi\n}\nPROMPT_COMMAND=\"__frum_use_on_cd; $PROMPT_COMMAND\"\n"@
}

impl Bash {
    /// The snippet prepending a directory to `PATH`.
    pub fn path(&self, path: &str) -> (r: String)
        ensures
            r@ == bash_path_text(path@),
    {
        let mut out = String::from_str("export PATH=");
        append_quoted(&mut out, path);
        out.append(":$PATH");
        proof {
            assert(out@ =~= bash_path_text(path@));
        }
        out
    }

    /// The snippet exporting one environment variable.
    pub fn set_env_var(&self, name: &str, value: &str) -> (r: String)
        ensures
            r@ == bash_set_env_var_text(name@, value@),
    {
        let mut out = String::from_str("export ");
        out.append(name);
        out.append("=");
        append_quoted(&mut out, value);
        proof {
            assert(out@ =~= bash_set_env_var_text(name@, value@));
        }
        out
    }

    /// The snippet re-triggering resolution and activation on directory
    /// change.
    pub fn use_on_cd(&self, _config: &FrumConfig) -> (r: String)
        ensures
            r@ == bash_use_on_cd_text(),
    {
        String::from_str(
            "__frum_use_on_cd() {\n    if [[ -f .ruby-version ]]; then\n        frum local\n    fi\n}\nPROMPT_COMMAND=\"__frum_use_on_cd; $PROMPT_COMMAND\"\n",
        )
    }
}

} // verus!
