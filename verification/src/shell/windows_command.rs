//! The Windows Command Prompt dialect: `SET` statements; the prompt has
//! no directory-change hook.

use vstd::prelude::*;
use vstd::string::StringExecFns;

use crate::config::FrumConfig;

verus! {

pub struct WindowsCommand;

/// `SET <name>=<value>`
pub open spec fn windows_command_set_env_var_text(name: Seq<char>, value: Seq<char>) -> Seq<char> {
    "SET "@ + name + "="@ + value
}

/// `SET PATH=<dir>;<current PATH>`
pub open spec fn windows_command_path_text(dir: Seq<char>, current_path: Seq<char>) -> Seq<char> {
    windows_command_set_env_var_text("PATH"@, dir + ";"@ + current_path)
}

pub open spec fn windows_command_use_on_cd_text() -> Seq<char> {
    "echo Directory-change hooks are not supported in Windows Command Prompt\n"@
}

impl WindowsCommand {
    /// The snippet prepending a directory to `PATH`; the caller hands in
    /// the current `PATH` value.
    pub fn path(&self, path: &str, current_path: &str) -> (r: String)
        ensures
            r@ == windows_command_path_text(path@, current_path@),
    {
        let mut joined = path.to_owned();
        joined.append(";");
        joined.append(current_path);
        let r = self.set_env_var("PATH", joined.as_str());
        proof {
            assert(r@ =~= windows_command_path_text(path@, current_path@));
        }
        r
    }

    /// The snippet setting one environment variable.
    pub fn set_env_var(&self, name: &str, value: &str) -> (r: String)
        ensures
            r@ == windows_command_set_env_var_text(name@, value@),
    {
        let mut out = String::from_str("SET ");
        out.append(name);
        out.append("=");
        out.append(value);
        proof {
            assert(out@ =~= windows_command_set_env_var_text(name@, value@));
        }
        out
    }

    /// There is no hook to install for the command prompt; the snippet
    /// says so.
    pub fn use_on_cd(&self, _config: &FrumConfig) -> (r: String)
        ensures
            r@ == windows_command_use_on_cd_text(),
    {
        String::from_str(
            "echo Directory-change hooks are not supported in Windows Command Prompt\n",
        )
    }
}

} // verus!
