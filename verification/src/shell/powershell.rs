//! The PowerShell dialect: `$env:` assignments and a `cd` wrapper hook.

use vstd::prelude::*;
use vstd::string::StringExecFns;

use crate::config::FrumConfig;

verus! {

pub struct PowerShell;

/// `$env:<name> = "<value>"`
pub open spec fn powershell_set_env_var_text(name: Seq<char>, value: Seq<char>) -> Seq<char> {
    "$env:"@ + name + " = "@ + "\""@ + value + "\""@
}

/// The `PATH` assignment that prepends `dir` to the current value,
/// joined with the platform's `;` separator.
pub open spec fn powershell_path_text(dir: Seq<char>, current_path: Seq<char>) -> Seq<char> {
    powershell_set_env_var_text("PATH"@, dir + ";"@ + current_path)
}

pub open spec fn powershell_use_on_cd_text() -> Seq<char> {
    "function Set-LocationWithFrum {\n    param($path)\n    Set-Location $path\n    If (Test-Path .ruby-version) { & frum local --quiet }\n}\nSet-Alias cd_with_frum Set-LocationWithFrum -Force\nRemove-Item alias:\\cd\nNew-Alias cd Set-LocationWithFrum\n"@
}

impl PowerShell {
    /// The snippet prepending a directory to `PATH`; the caller hands in
    /// the current `PATH` value.
    pub fn path(&self, path: &str, current_path: &str) -> (r: String)
        ensures
            r@ == powershell_path_text(path@, current_path@),
    {
        let mut joined = path.to_owned();
        joined.append(";");
        joined.append(current_path);
        let r = self.set_env_var("PATH", joined.as_str());
        proof {
            assert(r@ =~= powershell_path_text(path@, current_path@));
        }
        r
    }

    /// The snippet setting one environment variable.
    pub fn set_env_var(&self, name: &str, value: &str) -> (r: String)
        ensures
            r@ == powershell_set_env_var_text(name@, value@),
    {
        let mut out = String::from_str("$env:");
        out.append(name);
        out.append(" = ");
        out.append("\"");
        out.append(value);
        out.append("\"");
        proof {
            assert(out@ =~= powershell_set_env_var_text(name@, value@));
        }
        out
    }

    /// The snippet re-triggering resolution and activation on directory
    /// change.
    pub fn use_on_cd(&self, _config: &FrumConfig) -> (r: String)
        ensures
            r@ == powershell_use_on_cd_text(),
    {
        String::from_str(
            "function Set-LocationWithFrum {\n    param($path)\n    Set-Location $path\n    If (Test-Path .ruby-version) { & frum local --quiet }\n}\nSet-Alias cd_with_frum Set-LocationWithFrum -Force\nRemove-Item alias:\\cd\nNew-Alias cd Set-LocationWithFrum\n",
        )
    }
}

} // verus!
