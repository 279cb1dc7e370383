//! The specifier resolver: turns a requested or project-declared
//! specifier into a concrete version, consulting the remote index only
//! when the specifier is partial or symbolic.

use vstd::prelude::*;

use crate::error::FrumError;
use crate::input_version::duplicate_input;
use crate::input_version::duplicate_version;
use crate::input_version::matches_key;
use crate::input_version::key_ge;
use crate::input_version::same_specifier;
use crate::input_version::vkey;
use crate::input_version::InputVersion;
use crate::version::Version;

verus! {

/// The outcome of the local resolution step: either the answer is already
/// known, or the remote index must be consulted for this specifier.
#[derive(Debug, Clone, PartialEq, Eq)]
pub enum Resolution {
    Resolved(Version),
    NeedsRemote(InputVersion),
}

/// The specifier a run works with: the explicit one when given, else the
/// project declaration.
pub open spec fn effective_specifier(
    requested: Option<InputVersion>,
    project: Option<InputVersion>,
) -> Option<InputVersion> {
    match requested {
        Some(iv) => Some(iv),
        None => project,
    }
}

/// Local resolution, needing no network access:
/// - no specifier anywhere is an error;
/// - an exact semantic version is its own answer;
/// - the system pseudo-version can never be installed;
/// - anything partial or symbolic must go to the remote index.
pub fn resolve_local(requested: &Option<InputVersion>, project: &Option<InputVersion>) -> (r:
    Result<Resolution, FrumError>)
    ensures
        effective_specifier(*requested, *project) is None <==> r == Err::<
            Resolution,
            FrumError,
        >(FrumError::CannotInferSpecifier),
        effective_specifier(*requested, *project) matches Some(iv) ==> match iv {
            InputVersion::Full(Version::Semver(sv)) => r matches Ok(
                Resolution::Resolved(Version::Semver(out)),
            ) && out@ == sv@,
            InputVersion::Full(Version::System) => r == Err::<Resolution, FrumError>(
                FrumError::UninstallableSpecifier { specifier: Version::System },
            ),
            _ => r matches Ok(Resolution::NeedsRemote(out)) && same_specifier(out, iv),
        },
{
    let effective: &InputVersion = match requested {
        Some(iv) => iv,
        None => match project {
            Some(iv) => iv,
            None => {
                return Err(FrumError::CannotInferSpecifier);
            },
        },
    };
    match effective {
        InputVersion::Full(Version::Semver(sv)) => Ok(
            Resolution::Resolved(duplicate_version(&Version::Semver(
                crate::input_version::duplicate_semver(sv),
            ))),
        ),
        InputVersion::Full(Version::System) => Err(
            FrumError::UninstallableSpecifier { specifier: Version::System },
        ),
        other => Ok(Resolution::NeedsRemote(duplicate_input(other))),
    }
}

/// Dereferences an alias specifier through the alias store: the bound
/// version when the name is bound, `SpecifierNotFound` when it is not.
/// Non-alias specifiers are resolved against candidates instead
/// (see `resolve_with_candidates`).
pub fn resolve_alias_specifier(iv: &InputVersion, store: &crate::alias::AliasStore) -> (r: Result<
    Version,
    FrumError,
>)
    requires
        store.wf(),
    ensures
        iv matches InputVersion::Alias(name) ==> {
            &&& (store@.contains_key(name@) <==> r is Ok)
            &&& (r matches Ok(v) ==> store@[name@] == vkey(v))
        },
        r matches Err(e) ==> e matches FrumError::SpecifierNotFound { specifier }
            && same_specifier(specifier, *iv),
        !(iv matches InputVersion::Alias(..)) ==> r is Err,
{
    match iv {
        InputVersion::Alias(name) => match store.resolve_alias(name.as_str()) {
            Some(v) => Ok(v),
            None => Err(FrumError::SpecifierNotFound { specifier: duplicate_input(iv) }),
        },
        _ => Err(FrumError::SpecifierNotFound { specifier: duplicate_input(iv) }),
    }
}

/// Remote resolution: the highest-precedence candidate matching the
/// specifier, or `SpecifierNotFound` carrying the specifier when nothing
/// matches. Succeeds exactly when some candidate matches.
pub fn resolve_with_candidates(iv: &InputVersion, candidates: &Vec<Version>) -> (r: Result<
    Version,
    FrumError,
>)
    ensures
        r is Ok <==> exists|i: int|
            0 <= i < candidates@.len() && matches_key(*iv, vkey(#[trigger] candidates@[i])),
        r matches Ok(v) ==> {
            &&& matches_key(*iv, vkey(v))
            &&& exists|i: int|
                0 <= i < candidates@.len() && vkey(#[trigger] candidates@[i]) == vkey(v)
            &&& forall|i: int|
                0 <= i < candidates@.len() && matches_key(*iv, vkey(#[trigger] candidates@[i]))
                    ==> key_ge(vkey(v), vkey(candidates@[i]))
        },
        r matches Err(e) ==> e matches FrumError::SpecifierNotFound { specifier }
            && same_specifier(specifier, *iv),
{
    match iv.to_version(candidates) {
        Some(v) => Ok(v),
        None => Err(FrumError::SpecifierNotFound { specifier: duplicate_input(iv) }),
    }
}

} // verus!
