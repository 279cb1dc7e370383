//! Not-yet-resolved version specifiers: an exact version, a major or
//! major.minor prefix, or an alias name, with their parsing and the
//! matching rules used by resolution.

use vstd::prelude::*;
use vstd::string::StrSliceExecFns;

use crate::text::dec_digits;
use crate::text::dec_val;
use crate::text::find_char_from;
use crate::text::find_from;
use crate::text::lemma_dec_digits_of_dec_val;
use crate::text::lemma_find_from;
use crate::text::num_str;
use crate::text::parse_u64_range;
use crate::text::str_eq;
use crate::version::parse_semver_spec;
use crate::version::lemma_parse_semver_sound;
use crate::version::semver_lt;
use crate::version::Semver;
use crate::version::SemverView;
use crate::version::Version;
use crate::version::version_string;

verus! {

/// A user- or project-supplied specifier, not yet resolved to a concrete
/// version.
#[derive(Debug, Clone, PartialEq, Eq)]
pub enum InputVersion {
    /// An exact version, already known.
    Full(Version),
    /// Only the major component: resolved to the newest match.
    Major(u64),
    /// Major and minor components: resolved to the newest match.
    MajorMinor(u64, u64),
    /// A symbolic name, dereferenced through the alias store.
    Alias(String),
}

/// The canonical text of a specifier.
pub open spec fn input_string(iv: InputVersion) -> Seq<char> {
    match iv {
        InputVersion::Full(v) => version_string(v),
        InputVersion::Major(m) => dec_digits(m as nat),
        InputVersion::MajorMinor(m, n) => dec_digits(m as nat) + seq!['.'] + dec_digits(n as nat),
        InputVersion::Alias(a) => a@,
    }
}

/// The mathematical shape of a version: its semantic-version view, or
/// `None` for the system pseudo-version.
pub open spec fn vkey(v: Version) -> Option<SemverView> {
    match v {
        Version::Semver(sv) => Some(sv@),
        Version::System => None,
    }
}

/// Does a candidate version (by shape) satisfy a specifier?
/// An alias name never matches directly; it is resolved through the alias
/// store instead.
pub open spec fn matches_key(iv: InputVersion, k: Option<SemverView>) -> bool {
    match iv {
        InputVersion::Full(u) => vkey(u) == k,
        InputVersion::Major(m) => k matches Some(t) && t.0 == m as nat,
        InputVersion::MajorMinor(m, n) => k matches Some(t) && t.0 == m as nat && t.1 == n as nat,
        InputVersion::Alias(_) => false,
    }
}

/// `a` ranks at least as high as `b`: equal shapes, or both semantic
/// versions with `b` strictly preceding `a`.
pub open spec fn key_ge(a: Option<SemverView>, b: Option<SemverView>) -> bool {
    a == b || (a matches Some(x) && b matches Some(y) && semver_lt(y, x))
}

/// The `major.minor` split of a specifier string: succeeds when the text
/// is two canonical numbers around a single dot.
pub open spec fn mm_split(s: Seq<char>) -> Option<(nat, nat)> {
    let i = find_from(s, '.', 0);
    if i < s.len() {
        let a = s.subrange(0, i);
        let b = s.subrange(i + 1, s.len() as int);
        if num_str(a) && dec_val(a) <= u64::MAX && num_str(b) && dec_val(b) <= u64::MAX {
            Some((dec_val(a), dec_val(b)))
        } else {
            None
        }
    } else {
        None
    }
}

impl InputVersion {
    /// Parses a specifier: `system`, a canonical full version, a bare
    /// major number, `major.minor`, and otherwise an alias name. Only the
    /// empty string is rejected.
    pub fn parse(s: &str) -> (r: Option<InputVersion>)
        ensures
            r is None <==> s@.len() == 0,
            r matches Some(iv) ==> input_string(iv) == s@,
            s@ == version_string(Version::System) ==> r == Some(
                InputVersion::Full(Version::System),
            ),
            s@ != version_string(Version::System) && parse_semver_spec(s@) is Some ==> (
            r matches Some(InputVersion::Full(Version::Semver(sv))) && sv@ == parse_semver_spec(
                s@,
            )->Some_0),
            s@ != version_string(Version::System) && parse_semver_spec(s@) is None && num_str(s@)
                && dec_val(s@) <= u64::MAX ==> r == Some(
                InputVersion::Major(dec_val(s@) as u64),
            ),
            s@ != version_string(Version::System) && parse_semver_spec(s@) is None && !(num_str(s@)
                && dec_val(s@) <= u64::MAX) && mm_split(s@) is Some ==> r == Some(
                InputVersion::MajorMinor(
                    (mm_split(s@)->Some_0).0 as u64,
                    (mm_split(s@)->Some_0).1 as u64,
                ),
            ),
            s@ != version_string(Version::System) && parse_semver_spec(s@) is None && !(num_str(s@)
                && dec_val(s@) <= u64::MAX) && mm_split(s@) is None && s@.len() > 0 ==> (
            r matches Some(InputVersion::Alias(a)) && a@ == s@),
    {
        proof {
            reveal_strlit("system");
        }
        let n = s.unicode_len();
        if n == 0 {
            proof {
                assert(s@ != version_string(Version::System));
            }
            return None;
        }
        if str_eq(s, "system") {
            proof {
                assert(version_string(Version::System) =~= "system"@);
            }
            return Some(InputVersion::Full(Version::System));
        }
        proof {
            assert(version_string(Version::System) =~= "system"@);
        }
        if let Some(sv) = Semver::parse(s) {
            proof {
                lemma_parse_semver_sound(s@);
            }
            return Some(InputVersion::Full(Version::Semver(sv)));
        }
        if let Some(m) = parse_u64_range(s, 0, n) {
            proof {
                assert(s@.subrange(0, n as int) =~= s@);
                lemma_dec_digits_of_dec_val(s@);
            }
            return Some(InputVersion::Major(m));
        }
        let i = find_char_from(s, '.', 0);
        proof {
            lemma_find_from(s@, '.', 0);
        }
        if i < n {
            let ma = parse_u64_range(s, 0, i);
            let mb = parse_u64_range(s, i + 1, n);
            if ma.is_some() && mb.is_some() {
                let a = ma.unwrap();
                let b = mb.unwrap();
                proof {
                    lemma_dec_digits_of_dec_val(s@.subrange(0, i as int));
                    lemma_dec_digits_of_dec_val(s@.subrange(i + 1, n as int));
                    assert(input_string(InputVersion::MajorMinor(a, b)) =~= s@);
                    assert(s@.subrange(0, n as int) =~= s@);
                }
                return Some(InputVersion::MajorMinor(a, b));
            }
        }
        proof {
            assert(s@.subrange(0, n as int) =~= s@);
            if mm_split(s@) is Some {
                assert(num_str(s@.subrange(0, i as int)) && dec_val(s@.subrange(0, i as int))
                    <= u64::MAX);
                assert(num_str(s@.subrange(i + 1, n as int)) && dec_val(
                    s@.subrange(i + 1, n as int),
                ) <= u64::MAX);
            }
        }
        Some(InputVersion::Alias(s.to_owned()))
    }

    /// Does the candidate satisfy this specifier?
    pub fn matches(&self, v: &Version) -> (r: bool)
        ensures
            r == matches_key(*self, vkey(*v)),
    {
        match (self, v) {
            (InputVersion::Full(u), v) => match (u, v) {
                (Version::System, Version::System) => true,
                (Version::Semver(a), Version::Semver(b)) => semver_eq(a, b),
                _ => false,
            },
            (InputVersion::Major(m), Version::Semver(sv)) => *m == sv.major,
            (InputVersion::MajorMinor(m, n), Version::Semver(sv)) => *m == sv.major && *n
                == sv.minor,
            _ => false,
        }
    }

    /// The best candidate for this specifier: the highest-precedence
    /// matching version, `None` when nothing matches.
    pub fn to_version(&self, versions: &Vec<Version>) -> (r: Option<Version>)
        ensures
            r matches Some(v) ==> {
                &&& matches_key(*self, vkey(v))
                &&& exists|i: int|
                    0 <= i < versions@.len() && vkey(#[trigger] versions@[i]) == vkey(v)
                &&& forall|i: int|
                    0 <= i < versions@.len() && matches_key(*self, vkey(#[trigger] versions@[i]))
                        ==> key_ge(vkey(v), vkey(versions@[i]))
            },
            r is None ==> forall|i: int|
                0 <= i < versions@.len() ==> !matches_key(*self, vkey(#[trigger] versions@[i])),
    {
        let mut best: Option<usize> = None;
        let mut idx: usize = 0;
        while idx < versions.len()
            invariant
                0 <= idx <= versions@.len(),
                best matches Some(b) ==> 0 <= b < idx && matches_key(
                    *self,
                    vkey(versions@[b as int]),
                ) && forall|i: int|
                    0 <= i < idx && matches_key(*self, vkey(#[trigger] versions@[i])) ==> key_ge(
                        vkey(versions@[b as int]),
                        vkey(versions@[i]),
                    ),
                best is None ==> forall|i: int|
                    0 <= i < idx ==> !matches_key(*self, vkey(#[trigger] versions@[i])),
            decreases versions@.len() - idx,
        {
            let cand = &versions[idx];
            if self.matches(cand) {
                match best {
                    None => {
                        best = Some(idx);
                    },
                    Some(b) => {
                        let ghost kb = vkey(versions@[b as int]);
                        let ghost kc = vkey(versions@[idx as int]);
                        let better = match (&versions[b], cand) {
                            (Version::Semver(x), Version::Semver(y)) => x.lt(y),
                            _ => false,
                        };
                        if better {
                            proof {
                                assert forall|i: int|
                                    0 <= i < idx + 1 && matches_key(
                                        *self,
                                        vkey(#[trigger] versions@[i]),
                                    ) implies key_ge(kc, vkey(versions@[i])) by {
                                    let ki = vkey(versions@[i]);
                                    if i < idx {
                                        assert(key_ge(kb, ki));
                                        if kb != ki {
                                            crate::version::lemma_semver_order_total(
                                                ki->Some_0,
                                                kb->Some_0,
                                                kc->Some_0,
                                            );
                                        }
                                    }
                                }
                            }
                            best = Some(idx);
                        } else {
                            proof {
                                assert(key_ge(kb, kc)) by {
                                    match (kb, kc) {
                                        (Some(x), Some(y)) => {
                                            crate::version::lemma_semver_order_total(x, y, x);
                                        },
                                        _ => {
                                            assert(kb is None && kc is None);
                                        },
                                    }
                                }
                            }
                        }
                    },
                }
            }
            idx = idx + 1;
        }
        match best {
            Some(b) => Some(duplicate_version(&versions[b])),
            None => None,
        }
    }
}

/// The canonical text of a specifier, for display.
pub fn format_input(iv: &InputVersion) -> (r: String)
    ensures
        r@ == input_string(*iv),
{
    match iv {
        InputVersion::Full(v) => v.format(),
        InputVersion::Major(m) => {
            let mut out = String::new();
            crate::text::push_u64(&mut out, *m);
            out
        },
        InputVersion::MajorMinor(m, n) => {
            proof {
                reveal_strlit(".");
            }
            let mut out = String::new();
            crate::text::push_u64(&mut out, *m);
            out.append(".");
            crate::text::push_u64(&mut out, *n);
            proof {
                assert(out@ =~= input_string(*iv));
            }
            out
        },
        InputVersion::Alias(a) => a.clone(),
    }
}

/// The two specifiers have the same variant and the same shape.
pub open spec fn same_specifier(a: InputVersion, b: InputVersion) -> bool {
    match (a, b) {
        (InputVersion::Full(x), InputVersion::Full(y)) => vkey(x) == vkey(y),
        (InputVersion::Major(x), InputVersion::Major(y)) => x == y,
        (InputVersion::MajorMinor(x0, x1), InputVersion::MajorMinor(y0, y1)) => x0 == y0 && x1
            == y1,
        (InputVersion::Alias(x), InputVersion::Alias(y)) => x@ == y@,
        _ => false,
    }
}

/// A fresh specifier value with the same shape.
pub fn duplicate_input(iv: &InputVersion) -> (r: InputVersion)
    ensures
        same_specifier(r, *iv),
{
    match iv {
        InputVersion::Full(v) => InputVersion::Full(duplicate_version(v)),
        InputVersion::Major(m) => InputVersion::Major(*m),
        InputVersion::MajorMinor(m, n) => InputVersion::MajorMinor(*m, *n),
        InputVersion::Alias(a) => InputVersion::Alias(a.clone()),
    }
}

/// Structural equality of two semantic versions, at the view level.
pub fn semver_eq(a: &Semver, b: &Semver) -> (r: bool)
    ensures
        r == (a@ == b@),
{
    if a.major != b.major || a.minor != b.minor || a.patch != b.patch {
        return false;
    }
    match (&a.prerelease, &b.prerelease) {
        (None, None) => true,
        (Some(x), Some(y)) => str_eq(x.as_str(), y.as_str()),
        _ => false,
    }
}

/// A fresh version value with the same shape.
pub fn duplicate_version(v: &Version) -> (r: Version)
    ensures
        vkey(r) == vkey(*v),
{
    match v {
        Version::System => Version::System,
        Version::Semver(sv) => Version::Semver(duplicate_semver(sv)),
    }
}

/// A fresh semantic-version value with the same view.
pub fn duplicate_semver(sv: &Semver) -> (r: Semver)
    ensures
        r@ == sv@,
{
    let prerelease = match &sv.prerelease {
        Some(p) => Some(p.clone()),
        None => None,
    };
    Semver { major: sv.major, minor: sv.minor, patch: sv.patch, prerelease }
}

} // verus!
