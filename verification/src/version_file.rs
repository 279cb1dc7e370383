//! The project version declaration: the first declaration file found
//! walking from a directory upward names the specifier to use. The engine
//! decides over the contents handed to it, one optional file content per
//! ancestor, nearest first.

use vstd::prelude::*;
use vstd::string::StrSliceExecFns;

use crate::input_version::input_string;
use crate::input_version::mm_split;
use crate::input_version::InputVersion;
use crate::text::dec_val;
use crate::text::num_str;
use crate::text::trim_range;
use crate::text::trim_spec;
use crate::version::parse_semver_spec;
use crate::version::version_string;
use crate::version::Version;

verus! {

/// Index of the first directory that carries a declaration; the length
/// when none does.
pub open spec fn first_declaration(decls: Seq<Option<String>>, i: int) -> int
    decreases decls.len() - i,
{
    if i < 0 || i >= decls.len() {
        decls.len() as int
    } else if decls[i] is Some {
        i
    } else {
        first_declaration(decls, i + 1)
    }
}

/// The specifier declared for a directory: the nearest ancestor's
/// declaration file decides, its content taken trimmed; an empty or
/// missing declaration yields nothing. `decls` holds, nearest first, the
/// content of the declaration file of each ancestor, or `None` where the
/// ancestor has none.
pub fn get_user_version_for_directory(decls: &Vec<Option<String>>) -> (r: Option<InputVersion>)
    ensures
        first_declaration(decls@, 0) == decls@.len() ==> r is None,
        first_declaration(decls@, 0) < decls@.len() ==> {
            let c = trim_spec(decls@[first_declaration(decls@, 0)]->Some_0@);
            &&& c.len() == 0 ==> r is None
            &&& c.len() > 0 ==> (r matches Some(iv) && input_string(iv) == c)
            &&& c == version_string(Version::System) ==> r == Some(
                InputVersion::Full(Version::System),
            )
            &&& c != version_string(Version::System) && parse_semver_spec(c) is Some ==> (
            r matches Some(InputVersion::Full(Version::Semver(sv))) && sv@ == parse_semver_spec(
                c,
            )->Some_0)
            &&& c != version_string(Version::System) && parse_semver_spec(c) is None && num_str(c)
                && dec_val(c) <= u64::MAX ==> r == Some(InputVersion::Major(dec_val(c) as u64))
            &&& c != version_string(Version::System) && parse_semver_spec(c) is None && !(num_str(
                c,
            ) && dec_val(c) <= u64::MAX) && mm_split(c) is Some ==> r == Some(
                InputVersion::MajorMinor(
                    (mm_split(c)->Some_0).0 as u64,
                    (mm_split(c)->Some_0).1 as u64,
                ),
            )
            &&& c != version_string(Version::System) && parse_semver_spec(c) is None && !(num_str(
                c,
            ) && dec_val(c) <= u64::MAX) && mm_split(c) is None && c.len() > 0 ==> (r matches Some(
                InputVersion::Alias(a),
            ) && a@ == c)
        },
{
    let n = decls.len();
    let mut i: usize = 0;
    while i < n
        invariant
            0 <= i <= n == decls@.len(),
            first_declaration(decls@, 0) == first_declaration(decls@, i as int),
        decreases n - i,
    {
        match &decls[i] {
            Some(content) => {
                let (a, b) = trim_range(content.as_str());
                let t = content.as_str().substring_char(a, b);
                return InputVersion::parse(t);
            },
            None => {},
        }
        i = i + 1;
    }
    None
}

} // verus!
