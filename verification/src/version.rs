//! The version model: semantic versions plus the `system` pseudo-version,
//! their canonical string form, parsing, and total ordering.
//!
//! The canonical form is `major.minor.patch[-prerelease]`. Parsing and
//! formatting are exact inverses on canonical strings, and the ordering is
//! lexicographic on (major, minor, patch, prerelease), a prerelease ranking
//! below the plain release.

use vstd::prelude::*;
use vstd::string::StrSliceExecFns;
use vstd::string::StringExecFns;

use crate::text::all_digits;
use crate::text::char_of_digit;
use crate::text::dec_digits;
use crate::text::dec_val;
use crate::text::digit_val;
use crate::text::find_char_from;
use crate::text::find_from;
use crate::text::is_digit;
use crate::text::lemma_dec_digits_of_dec_val;
use crate::text::lemma_dec_digits_shape;
use crate::text::lemma_dec_val_of_dec_digits;
use crate::text::lemma_find_from_at;
use crate::text::num_str;
use crate::text::parse_u64_range;
use crate::text::push_u64;

verus! {

/// A semantic version. `prerelease` is `None` for a plain release.
#[derive(Debug, Clone, PartialEq, Eq)]
pub struct Semver {
    pub major: u64,
    pub minor: u64,
    pub patch: u64,
    pub prerelease: Option<String>,
}

/// An installed or installable release, or the runtime already on `PATH`.
#[derive(Debug, Clone, PartialEq, Eq)]
pub enum Version {
    Semver(Semver),
    System,
}

/// The mathematical shape of a semantic version:
/// (major, minor, patch, prerelease characters).
pub type SemverView = (nat, nat, nat, Option<Seq<char>>);

impl Semver {
    pub open spec fn view(&self) -> SemverView {
        (
            self.major as nat,
            self.minor as nat,
            self.patch as nat,
            match self.prerelease {
                Some(p) => Some(p@),
                None => None,
            },
        )
    }
}

/// Characters allowed in a prerelease tag.
pub open spec fn is_pre_char(c: char) -> bool {
    ||| is_digit(c)
    ||| 97 <= c as u32 && c as u32 <= 122
    ||| 65 <= c as u32 && c as u32 <= 90
    ||| c == '.'
    ||| c == '-'
}

/// A well-formed prerelease tag: nonempty, allowed characters only.
pub open spec fn valid_pre(p: Seq<char>) -> bool {
    p.len() > 0 && forall|i: int| 0 <= i < p.len() ==> is_pre_char(#[trigger] p[i])
}

/// A well-formed semantic version view: the only demand is on the
/// prerelease tag; the numeric components are bounded by their type.
pub open spec fn wf_semver_view(t: SemverView) -> bool {
    &&& t.0 <= u64::MAX
    &&& t.1 <= u64::MAX
    &&& t.2 <= u64::MAX
    &&& (t.3 matches Some(p) ==> valid_pre(p))
}

pub open spec fn wf_semver(v: Semver) -> bool {
    wf_semver_view(v@)
}

/// Canonical string of a semantic version view.
pub open spec fn semver_view_string(t: SemverView) -> Seq<char> {
    dec_digits(t.0) + seq!['.'] + dec_digits(t.1) + seq!['.'] + dec_digits(t.2) + (match t.3 {
        Some(p) => seq!['-'] + p,
        None => Seq::<char>::empty(),
    })
}

pub open spec fn semver_string(v: Semver) -> Seq<char> {
    semver_view_string(v@)
}

/// Canonical string of a version; the system pseudo-version prints as
/// `system`.
pub open spec fn version_string(v: Version) -> Seq<char> {
    match v {
        Version::Semver(s) => semver_string(s),
        Version::System => seq!['s', 'y', 's', 't', 'e', 'm'],
    }
}

/// The canonical parse of a version string, at the specification level:
/// split at the first dot, the next dot, and the first dash after that;
/// the three numeric parts must be canonical numbers that fit in `u64`,
/// and a present prerelease tag must be well formed.
pub open spec fn parse_semver_spec(s: Seq<char>) -> Option<SemverView> {
    let i = find_from(s, '.', 0);
    if i >= s.len() {
        None
    } else {
        let j = find_from(s, '.', i + 1);
        if j >= s.len() {
            None
        } else {
            let k = find_from(s, '-', j + 1);
            let maj = s.subrange(0, i);
            let min = s.subrange(i + 1, j);
            let pat = s.subrange(j + 1, k);
            let pre = if k < s.len() {
                Some(s.subrange(k + 1, s.len() as int))
            } else {
                None::<Seq<char>>
            };
            if {
                &&& num_str(maj) && dec_val(maj) <= u64::MAX
                &&& num_str(min) && dec_val(min) <= u64::MAX
                &&& num_str(pat) && dec_val(pat) <= u64::MAX
                &&& (pre matches Some(p) ==> valid_pre(p))
            } {
                Some((dec_val(maj), dec_val(min), dec_val(pat), pre))
            } else {
                None
            }
        }
    }
}

/// A valid canonical version string is one that some well-formed semantic
/// version prints to.
pub open spec fn is_canonical_semver_string(s: Seq<char>) -> bool {
    exists|t: SemverView| wf_semver_view(t) && semver_view_string(t) == s
}

/// Digits are never separators.
proof fn lemma_digits_not_sep(s: Seq<char>)
    requires
        all_digits(s),
    ensures
        forall|i: int| 0 <= i < s.len() ==> s[i] != '.' && s[i] != '-',
{
    assert forall|i: int| 0 <= i < s.len() implies s[i] != '.' && s[i] != '-' by {
        assert(is_digit(s[i]));
    }
}

/// Round trip, formatting first: the canonical string of a well-formed
/// semantic version parses back to exactly that version. Together with
/// `lemma_parse_semver_sound` this says that parsing and formatting are
/// inverse bijections between well-formed versions and canonical strings.
pub proof fn lemma_format_parse_round_trip(t: SemverView)
    requires
        wf_semver_view(t),
    ensures
        parse_semver_spec(semver_view_string(t)) == Some(t),
{
    let s = semver_view_string(t);
    let a = dec_digits(t.0);
    let b = dec_digits(t.1);
    let c = dec_digits(t.2);
    lemma_dec_digits_shape(t.0);
    lemma_dec_digits_shape(t.1);
    lemma_dec_digits_shape(t.2);
    lemma_digits_not_sep(a);
    lemma_digits_not_sep(b);
    lemma_digits_not_sep(c);
    let la = a.len() as int;
    let lb = b.len() as int;
    let lc = c.len() as int;
    let i = la;
    let j = la + 1 + lb;
    let k = la + 1 + lb + 1 + lc;
    assert(s[i] == '.');
    assert(s[j] == '.');
    assert forall|x: int| 0 <= x < i implies s[x] != '.' by {
        assert(s[x] == a[x]);
    }
    lemma_find_from_at(s, '.', 0, i);
    assert forall|x: int| i + 1 <= x < j implies s[x] != '.' by {
        assert(s[x] == b[x - (i + 1)]);
    }
    lemma_find_from_at(s, '.', i + 1, j);
    assert forall|x: int| j + 1 <= x < k implies s[x] != '-' by {
        assert(s[x] == c[x - (j + 1)]);
    }
    match t.3 {
        Some(p) => {
            assert(s[k] == '-');
            lemma_find_from_at(s, '-', j + 1, k);
            assert(s.subrange(k + 1, s.len() as int) =~= p);
        },
        None => {
            assert(k == s.len());
            lemma_find_from_at(s, '-', j + 1, k);
        },
    }
    assert(s.subrange(0, i) =~= a);
    assert(s.subrange(i + 1, j) =~= b);
    assert(s.subrange(j + 1, k) =~= c);
    lemma_dec_val_of_dec_digits(t.0);
    lemma_dec_val_of_dec_digits(t.1);
    lemma_dec_val_of_dec_digits(t.2);
}

/// Round trip, parsing first: a string that parses prints back to itself,
/// and the parse is well formed.
pub proof fn lemma_parse_semver_sound(s: Seq<char>)
    requires
        parse_semver_spec(s) is Some,
    ensures
        wf_semver_view(parse_semver_spec(s)->Some_0),
        semver_view_string(parse_semver_spec(s)->Some_0) == s,
{
    let t = parse_semver_spec(s)->Some_0;
    let i = find_from(s, '.', 0);
    let j = find_from(s, '.', i + 1);
    let k = find_from(s, '-', j + 1);
    crate::text::lemma_find_from(s, '.', 0);
    crate::text::lemma_find_from(s, '.', i + 1);
    crate::text::lemma_find_from(s, '-', j + 1);
    let maj = s.subrange(0, i);
    let min = s.subrange(i + 1, j);
    let pat = s.subrange(j + 1, k);
    lemma_dec_digits_of_dec_val(maj);
    lemma_dec_digits_of_dec_val(min);
    lemma_dec_digits_of_dec_val(pat);
    assert(semver_view_string(t) =~= s);
}

/// Every canonical string parses, and parsing succeeds only on canonical
/// strings.
pub proof fn lemma_parse_iff_canonical(s: Seq<char>)
    ensures
        parse_semver_spec(s) is Some <==> is_canonical_semver_string(s),
{
    if parse_semver_spec(s) is Some {
        lemma_parse_semver_sound(s);
        let t = parse_semver_spec(s)->Some_0;
        assert(wf_semver_view(t) && semver_view_string(t) == s);
    }
    if is_canonical_semver_string(s) {
        let t = choose|t: SemverView| wf_semver_view(t) && semver_view_string(t) == s;
        lemma_format_parse_round_trip(t);
    }
}

impl Semver {
    /// Parses a canonical `major.minor.patch[-prerelease]` string.
    /// Succeeds exactly on canonical strings, and then returns the version
    /// the string denotes.
    pub fn parse(s: &str) -> (r: Option<Semver>)
        ensures
            r matches Some(v) ==> parse_semver_spec(s@) == Some(v@) && wf_semver(v),
            r is None ==> parse_semver_spec(s@) is None,
    {
        let n = s.unicode_len();
        let i = find_char_from(s, '.', 0);
        proof {
            crate::text::lemma_find_from(s@, '.', 0);
        }
        if i == n {
            return None;
        }
        let j = find_char_from(s, '.', i + 1);
        proof {
            crate::text::lemma_find_from(s@, '.', i + 1);
        }
        if j == n {
            return None;
        }
        let k = find_char_from(s, '-', j + 1);
        proof {
            crate::text::lemma_find_from(s@, '-', j + 1);
        }
        let major = match parse_u64_range(s, 0, i) {
            Some(v) => v,
            None => {
                return None;
            },
        };
        let minor = match parse_u64_range(s, i + 1, j) {
            Some(v) => v,
            None => {
                return None;
            },
        };
        let patch = match parse_u64_range(s, j + 1, k) {
            Some(v) => v,
            None => {
                return None;
            },
        };
        let prerelease: Option<String> = if k < n {
            let mut m: usize = k + 1;
            if m == n {
                return None;
            }
            while m < n
                invariant
                    k + 1 <= m <= n == s@.len(),
                    i == find_from(s@, '.', 0) && i < n,
                    j == find_from(s@, '.', i + 1) && i < j < n,
                    k == find_from(s@, '-', j + 1) && j < k < n,
                    num_str(s@.subrange(0, i as int)) && dec_val(s@.subrange(0, i as int))
                        <= u64::MAX,
                    num_str(s@.subrange(i + 1, j as int)) && dec_val(
                        s@.subrange(i + 1, j as int),
                    ) <= u64::MAX,
                    num_str(s@.subrange(j + 1, k as int)) && dec_val(
                        s@.subrange(j + 1, k as int),
                    ) <= u64::MAX,
                    forall|x: int| k + 1 <= x < m ==> is_pre_char(#[trigger] s@[x]),
                decreases n - m,
            {
                let c = s.get_char(m);
                let u = c as u32;
                let ok = (48 <= u && u <= 57) || (97 <= u && u <= 122) || (65 <= u && u <= 90)
                    || c == '.' || c == '-';
                proof {
                    if 48 <= u && u <= 57 {
                        assert(is_digit(c)) by {
                            vstd::utf8::char_u32_cast(c, u);
                            if u == 48 {
                                vstd::utf8::char_u32_cast('0', 48);
                                assert(c == '0');
                            } else if u == 49 {
                                vstd::utf8::char_u32_cast('1', 49);
                                assert(c == '1');
                            } else if u == 50 {
                                vstd::utf8::char_u32_cast('2', 50);
                                assert(c == '2');
                            } else if u == 51 {
                                vstd::utf8::char_u32_cast('3', 51);
                                assert(c == '3');
                            } else if u == 52 {
                                vstd::utf8::char_u32_cast('4', 52);
                                assert(c == '4');
                            } else if u == 53 {
                                vstd::utf8::char_u32_cast('5', 53);
                                assert(c == '5');
                            } else if u == 54 {
                                vstd::utf8::char_u32_cast('6', 54);
                                assert(c == '6');
                            } else if u == 55 {
                                vstd::utf8::char_u32_cast('7', 55);
                                assert(c == '7');
                            } else if u == 56 {
                                vstd::utf8::char_u32_cast('8', 56);
                                assert(c == '8');
                            } else {
                                vstd::utf8::char_u32_cast('9', 57);
                                assert(c == '9');
                            }
                        }
                    }
                }
                if !ok {
                    proof {
                        assert(!is_digit(c)) by {
                            if c == '0' {
                                assert(c as u32 == 48);
                            } else if c == '1' {
                                assert(c as u32 == 49);
                            } else if c == '2' {
                                assert(c as u32 == 50);
                            } else if c == '3' {
                                assert(c as u32 == 51);
                            } else if c == '4' {
                                assert(c as u32 == 52);
                            } else if c == '5' {
                                assert(c as u32 == 53);
                            } else if c == '6' {
                                assert(c as u32 == 54);
                            } else if c == '7' {
                                assert(c as u32 == 55);
                            } else if c == '8' {
                                assert(c as u32 == 56);
                            } else if c == '9' {
                                assert(c as u32 == 57);
                            }
                        }
                        assert(!is_pre_char(s@[m as int]));
                        let pre = s@.subrange(k + 1 as int, n as int);
                        assert(pre[m - (k + 1)] == s@[m as int]);
                        assert(!valid_pre(pre));
                    }
                    return None;
                }
                m = m + 1;
            }
            let sub = s.substring_char(k + 1, n);
            proof {
                assert(valid_pre(s@.subrange(k + 1 as int, n as int)));
            }
            Some(sub.to_owned())
        } else {
            None
        };
        let v = Semver { major, minor, patch, prerelease };
        proof {
            assert(v@.3 == parse_semver_spec(s@)->Some_0.3);
            assert(parse_semver_spec(s@) == Some(v@));
        }
        Some(v)
    }
}

/// Appends the canonical form of a semantic version to `out`.
fn push_semver(out: &mut String, v: &Semver)
    ensures
        final(out)@ == old(out)@ + semver_string(*v),
{
    proof {
        reveal_strlit(".");
        reveal_strlit("-");
    }
    push_u64(out, v.major);
    out.append(".");
    push_u64(out, v.minor);
    out.append(".");
    push_u64(out, v.patch);
    match &v.prerelease {
        Some(p) => {
            out.append("-");
            out.append(p.as_str());
        },
        None => {},
    }
    proof {
        assert(out@ =~= old(out)@ + semver_string(*v));
    }
}

impl Semver {
    /// The canonical `major.minor.patch[-prerelease]` form.
    pub fn format(&self) -> (r: String)
        ensures
            r@ == semver_string(*self),
    {
        let mut out = String::new();
        push_semver(&mut out, self);
        out
    }
}

impl Version {
    /// The canonical string form; the system pseudo-version is `system`.
    pub fn format(&self) -> (r: String)
        ensures
            r@ == version_string(*self),
    {
        match self {
            Version::Semver(v) => v.format(),
            Version::System => {
                proof {
                    reveal_strlit("system");
                }
                let r = String::from_str("system");
                proof {
                    assert(r@ =~= version_string(Version::System));
                }
                r
            },
        }
    }

    /// Parses a canonical version string; `system` denotes the runtime
    /// already on `PATH`.
    pub fn parse(s: &str) -> (r: Option<Version>)
        ensures
            r matches Some(v) ==> version_string(v) == s@ && (v matches Version::Semver(sv)
                ==> wf_semver(sv)),
            r is None ==> s@ != version_string(Version::System) && parse_semver_spec(s@) is None,
    {
        proof {
            reveal_strlit("system");
        }
        if crate::text::str_eq(s, "system") {
            proof {
                assert(version_string(Version::System) =~= "system"@);
            }
            return Some(Version::System);
        }
        match Semver::parse(s) {
            Some(v) => {
                proof {
                    lemma_parse_semver_sound(s@);
                }
                Some(Version::Semver(v))
            },
            None => {
                proof {
                    assert(version_string(Version::System) =~= "system"@);
                }
                None
            },
        }
    }
}

/// Lexicographic order on character sequences, by code point.
pub open spec fn seq_lt(a: Seq<char>, b: Seq<char>) -> bool
    decreases a.len(),
{
    if b.len() == 0 {
        false
    } else if a.len() == 0 {
        true
    } else if a[0] as u32 != b[0] as u32 {
        (a[0] as u32) < (b[0] as u32)
    } else {
        seq_lt(a.drop_first(), b.drop_first())
    }
}

/// Prerelease precedence: a prerelease ranks below the plain release;
/// two prereleases compare lexicographically.
pub open spec fn pre_lt(a: Option<Seq<char>>, b: Option<Seq<char>>) -> bool {
    match (a, b) {
        (Some(x), Some(y)) => seq_lt(x, y),
        (Some(_), None) => true,
        (None, _) => false,
    }
}

/// Strict semantic-version precedence: lexicographic on
/// (major, minor, patch, prerelease).
pub open spec fn semver_lt(x: SemverView, y: SemverView) -> bool {
    ||| x.0 < y.0
    ||| (x.0 == y.0 && x.1 < y.1)
    ||| (x.0 == y.0 && x.1 == y.1 && x.2 < y.2)
    ||| (x.0 == y.0 && x.1 == y.1 && x.2 == y.2 && pre_lt(x.3, y.3))
}

proof fn lemma_seq_lt_trans(a: Seq<char>, b: Seq<char>, c: Seq<char>)
    requires
        seq_lt(a, b),
        seq_lt(b, c),
    ensures
        seq_lt(a, c),
    decreases a.len(),
{
    if a.len() > 0 && b.len() > 0 && c.len() > 0 {
        if a[0] as u32 == b[0] as u32 && b[0] as u32 == c[0] as u32 {
            lemma_seq_lt_trans(a.drop_first(), b.drop_first(), c.drop_first());
        }
    }
}

proof fn lemma_seq_lt_connected(a: Seq<char>, b: Seq<char>)
    requires
        !seq_lt(a, b),
        !seq_lt(b, a),
    ensures
        a == b,
    decreases a.len(),
{
    if a.len() == 0 || b.len() == 0 {
        assert(a.len() == 0 && b.len() == 0);
        assert(a =~= b);
    } else {
        assert(a[0] as u32 == b[0] as u32);
        assert(a[0] == b[0]) by {
            vstd::utf8::char_u32_cast(a[0], a[0] as u32);
            vstd::utf8::char_u32_cast(b[0], b[0] as u32);
        }
        lemma_seq_lt_connected(a.drop_first(), b.drop_first());
        assert(a.drop_first() =~= b.drop_first());
        assert forall|i: int| 0 <= i < a.len() implies a[i] == b[i] by {
            if i >= 1 {
                assert(a[i] == a.drop_first()[i - 1]);
                assert(b[i] == b.drop_first()[i - 1]);
            }
        }
        assert(a =~= b);
    }
}

proof fn lemma_seq_lt_irrefl(a: Seq<char>)
    ensures
        !seq_lt(a, a),
    decreases a.len(),
{
    if a.len() > 0 {
        lemma_seq_lt_irrefl(a.drop_first());
    }
}

/// The ordering law: semantic-version precedence is a strict total order —
/// transitive, irreflexive, and any two distinct versions are ordered —
/// and it is by definition lexicographic on (major, minor, patch,
/// prerelease).
pub proof fn lemma_semver_order_total(x: SemverView, y: SemverView, z: SemverView)
    ensures
        semver_lt(x, y) && semver_lt(y, z) ==> semver_lt(x, z),
        !semver_lt(x, x),
        !semver_lt(x, y) && !semver_lt(y, x) ==> x == y,
{
    if semver_lt(x, y) && semver_lt(y, z) {
        match (x.3, y.3, z.3) {
            (Some(a), Some(b), Some(c)) => {
                if x.0 == z.0 && x.1 == z.1 && x.2 == z.2 && seq_lt(a, b) && seq_lt(b, c) {
                    lemma_seq_lt_trans(a, b, c);
                }
            },
            _ => {},
        }
    }
    match x.3 {
        Some(a) => lemma_seq_lt_irrefl(a),
        None => {},
    }
    if !semver_lt(x, y) && !semver_lt(y, x) {
        match (x.3, y.3) {
            (Some(a), Some(b)) => {
                if x.0 == y.0 && x.1 == y.1 && x.2 == y.2 {
                    lemma_seq_lt_connected(a, b);
                }
            },
            _ => {},
        }
    }
}

/// Strict lexicographic comparison of two strings, from position `i` on.
fn str_lt_from(a: &str, b: &str, i: usize) -> (r: bool)
    requires
        i <= a@.len(),
        i <= b@.len(),
    ensures
        r == seq_lt(a@.skip(i as int), b@.skip(i as int)),
    decreases a@.len() - i,
{
    let na = a.unicode_len();
    let nb = b.unicode_len();
    if i == nb {
        return false;
    }
    if i == na {
        return true;
    }
    let ca = a.get_char(i);
    let cb = b.get_char(i);
    proof {
        assert(a@.skip(i as int)[0] == a@[i as int]);
        assert(b@.skip(i as int)[0] == b@[i as int]);
        assert(a@.skip(i as int).drop_first() =~= a@.skip(i + 1));
        assert(b@.skip(i as int).drop_first() =~= b@.skip(i + 1));
    }
    if ca as u32 != cb as u32 {
        (ca as u32) < (cb as u32)
    } else {
        str_lt_from(a, b, i + 1)
    }
}

impl Semver {
    /// Strict precedence: `self` ranks before `other`.
    pub fn lt(&self, other: &Semver) -> (r: bool)
        ensures
            r == semver_lt(self@, other@),
    {
        if self.major != other.major {
            return self.major < other.major;
        }
        if self.minor != other.minor {
            return self.minor < other.minor;
        }
        if self.patch != other.patch {
            return self.patch < other.patch;
        }
        match (&self.prerelease, &other.prerelease) {
            (Some(a), Some(b)) => {
                proof {
                    assert(a@.skip(0) =~= a@);
                    assert(b@.skip(0) =~= b@);
                }
                str_lt_from(a.as_str(), b.as_str(), 0)
            },
            (Some(_), None) => true,
            (None, _) => false,
        }
    }
}

} // verus!
