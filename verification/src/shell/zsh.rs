//! The Zsh dialect: `export` statements and a `chpwd` hook.

use vstd::prelude::*;
use vstd::string::StringExecFns;

use crate::config::FrumConfig;
use crate::shell::append_quoted;
use crate::shell::quoted;

verus! {

pub struct Zsh;

/// `export <name>=<quoted value>`
pub open spec fn zsh_set_env_var_text(name: Seq<char>, value: Seq<char>) -> Seq<char> {
    "export "@ + name + "="@ + quoted(value)
}

/// `export PATH=<quoted dir>:$PATH`
pub open spec fn zsh_path_text(dir: Seq<char>) -> Seq<char> {
    "export PATH="@ + quoted(dir) + ":$PATH"@
}

pub open spec fn zsh_use_on_cd_text() -> Seq<char> {
    "autoload -U add-zsh-hook\n_frum_autoload_hook () {\n    if [[ -f .ruby-version ]]; then\n        frum local\n    fi\n}\n\nadd-zsh-hook chpwd _frum_autoload_hook \\\n    && _frum_autoload_hook\n"@
}

impl Zsh {
    /// The snippet prepending a directory to `PATH`.
    pub fn path(&self, path: &str) -> (r: String)
        ensures
            r@ == zsh_path_text(path@),
    {
        let mut out = String::from_str("export PATH=");
        append_quoted(&mut out, path);
        out.append(":$PATH");
        proof {
            assert(out@ =~= zsh_path_text(path@));
        }
        out
    }

    /// The snippet exporting one environment variable.
    pub fn set_env_var(&self, name: &str, value: &str) -> (r: String)
        ensures
            r@ == zsh_set_env_var_text(name@, value@),
    {
        let mut out = String::from_str("export ");
        out.append(name);
        out.append("=");
        append_quoted(&mut out, value);
        proof {
            assert(out@ =~= zsh_set_env_var_text(name@, value@));
        }
        out
    }

    /// The snippet re-triggering resolution and activation on directory
    /// change.
    pub fn use_on_cd(&self, _config: &FrumConfig) -> (r: String)
        ensures
            r@ == zsh_use_on_cd_text(),
    {
        String::from_str(
            "autoload -U add-zsh-hook\n_frum_autoload_hook () {\n    if [[ -f .ruby-version ]]; then\n        frum local\n    fi\n}\n\nadd-zsh-hook chpwd _frum_autoload_hook \\\n    && _frum_autoload_hook\n",
        )
    }
}

} // verus!
