//! Character and decimal-number helpers shared by the version model, the
//! remote index parser and the shell integration: digit classification,
//! decimal formatting and parsing with their round-trip lemmas, substring
//! search and string equality.

use vstd::prelude::*;
use vstd::string::StrSliceExecFns;
use vstd::string::StringExecFns;

verus! {

/// Decimal value of a digit character; 10 for anything that is not a digit.
pub open spec fn digit_val(c: char) -> nat {
    if c == '0' {
        0
    } else if c == '1' {
        1
    } else if c == '2' {
        2
    } else if c == '3' {
        3
    } else if c == '4' {
        4
    } else if c == '5' {
        5
    } else if c == '6' {
        6
    } else if c == '7' {
        7
    } else if c == '8' {
        8
    } else if c == '9' {
        9
    } else {
        10
    }
}

pub open spec fn is_digit(c: char) -> bool {
    digit_val(c) < 10
}

pub open spec fn char_of_digit(d: nat) -> char {
    if d == 0 {
        '0'
    } else if d == 1 {
        '1'
    } else if d == 2 {
        '2'
    } else if d == 3 {
        '3'
    } else if d == 4 {
        '4'
    } else if d == 5 {
        '5'
    } else if d == 6 {
        '6'
    } else if d == 7 {
        '7'
    } else if d == 8 {
        '8'
    } else {
        '9'
    }
}

/// The canonical decimal digit string of a number: no leading zeros.
pub open spec fn dec_digits(n: nat) -> Seq<char>
    decreases n,
{
    if n < 10 {
        seq![char_of_digit(n)]
    } else {
        dec_digits(n / 10).push(char_of_digit(n % 10))
    }
}

/// Numeric value of a digit string, most significant digit first.
pub open spec fn dec_val(s: Seq<char>) -> nat
    decreases s.len(),
{
    if s.len() == 0 {
        0
    } else {
        dec_val(s.drop_last()) * 10 + digit_val(s.last())
    }
}

pub open spec fn all_digits(s: Seq<char>) -> bool {
    forall|i: int| 0 <= i < s.len() ==> is_digit(#[trigger] s[i])
}

/// A canonical number string: nonempty digits without a leading zero.
pub open spec fn num_str(s: Seq<char>) -> bool {
    &&& s.len() > 0
    &&& all_digits(s)
    &&& (s[0] == '0' ==> s.len() == 1)
}

pub proof fn lemma_dec_digits_shape(n: nat)
    ensures
        dec_digits(n).len() > 0,
        all_digits(dec_digits(n)),
        num_str(dec_digits(n)),
        dec_digits(n)[0] == '0' <==> n == 0,
    decreases n,
{
    if n < 10 {
    } else {
        lemma_dec_digits_shape(n / 10);
        assert(dec_digits(n) == dec_digits(n / 10).push(char_of_digit(n % 10)));
        assert forall|i: int| 0 <= i < dec_digits(n).len() implies is_digit(
            #[trigger] dec_digits(n)[i],
        ) by {
            if i < dec_digits(n / 10).len() {
                assert(dec_digits(n)[i] == dec_digits(n / 10)[i]);
            }
        }
    }
}

/// Parsing the canonical digit string of a number gives the number back.
pub proof fn lemma_dec_val_of_dec_digits(n: nat)
    ensures
        dec_val(dec_digits(n)) == n,
    decreases n,
{
    if n < 10 {
        let s = seq![char_of_digit(n)];
        assert(s.drop_last() =~= Seq::<char>::empty());
        assert(dec_val(s.drop_last()) == 0);
        assert(s.last() == char_of_digit(n));
        assert(dec_val(s) == digit_val(char_of_digit(n)));
    } else {
        lemma_dec_val_of_dec_digits(n / 10);
        let s = dec_digits(n / 10).push(char_of_digit(n % 10));
        assert(s.drop_last() =~= dec_digits(n / 10));
        assert(s.last() == char_of_digit(n % 10));
        assert(digit_val(char_of_digit(n % 10)) == n % 10);
        assert(dec_val(s) == (n / 10) * 10 + n % 10);
    }
}

pub proof fn lemma_dec_val_pos(s: Seq<char>)
    requires
        s.len() > 0,
        all_digits(s),
        s[0] != '0',
    ensures
        dec_val(s) > 0,
    decreases s.len(),
{
    if s.len() == 1 {
        assert(s.last() == s[0]);
    } else {
        assert(s.drop_last()[0] == s[0]);
        assert(all_digits(s.drop_last()));
        lemma_dec_val_pos(s.drop_last());
    }
}

/// Formatting the value of a canonical number string gives the string back.
pub proof fn lemma_dec_digits_of_dec_val(s: Seq<char>)
    requires
        num_str(s),
    ensures
        dec_digits(dec_val(s)) == s,
    decreases s.len(),
{
    if s.len() == 1 {
        assert(s.last() == s[0]);
        assert(s.drop_last() =~= Seq::<char>::empty());
        assert(dec_val(s.drop_last()) == 0);
        assert(dec_val(s) == digit_val(s[0]));
        assert(char_of_digit(digit_val(s[0])) == s[0]);
        assert(dec_digits(dec_val(s)) =~= s);
    } else {
        let s0 = s.drop_last();
        assert(s0[0] == s[0]);
        assert(all_digits(s0)) by {
            assert(forall|i: int|
                0 <= i < s0.len() ==> #[trigger] s0[i] == s[i] && is_digit(s[i]));
        }
        assert(num_str(s0));
        lemma_dec_digits_of_dec_val(s0);
        lemma_dec_val_pos(s0);
        let v = dec_val(s);
        assert(v == dec_val(s0) * 10 + digit_val(s.last()));
        assert(digit_val(s.last()) < 10);
        assert(dec_val(s0) >= 1);
        assert(v >= 10);
        assert(v / 10 == dec_val(s0) && v % 10 == digit_val(s.last())) by {
            let q = dec_val(s0);
            let r = digit_val(s.last());
            assert(v == q * 10 + r && r < 10);
            assert((q * 10 + r) / 10 == q && (q * 10 + r) % 10 == r) by (nonlinear_arith)
                requires
                    r < 10,
                    q >= 0,
            ;
        }
        assert(char_of_digit(digit_val(s.last())) == s.last());
        assert(dec_digits(v) == dec_digits(dec_val(s0)).push(s.last()));
        assert(dec_digits(v) =~= s) by {
            assert(s0.push(s.last()) =~= s);
        }
    }
}

/// A digit prefix never values more than the whole digit string.
pub proof fn lemma_dec_val_prefix_le(s: Seq<char>, i: int)
    requires
        0 <= i <= s.len(),
    ensures
        dec_val(s.subrange(0, i)) <= dec_val(s),
    decreases s.len() - i,
{
    if i == s.len() {
        assert(s.subrange(0, i) =~= s);
    } else {
        lemma_dec_val_prefix_le(s, i + 1);
        let a = s.subrange(0, i);
        let b = s.subrange(0, i + 1);
        assert(b.drop_last() =~= a);
        assert(dec_val(b) == dec_val(a) * 10 + digit_val(b.last()));
        assert(dec_val(a) <= dec_val(a) * 10) by (nonlinear_arith)
            requires
                dec_val(a) >= 0,
        ;
    }
}

/// The digit value of a character, `None` when it is not a decimal digit.
pub fn digit_of_char(c: char) -> (r: Option<u64>)
    ensures
        r matches Some(d) ==> is_digit(c) && d == digit_val(c),
        r is None ==> !is_digit(c),
{
    match c {
        '0' => Some(0),
        '1' => Some(1),
        '2' => Some(2),
        '3' => Some(3),
        '4' => Some(4),
        '5' => Some(5),
        '6' => Some(6),
        '7' => Some(7),
        '8' => Some(8),
        '9' => Some(9),
        _ => None,
    }
}

/// Appends the single decimal digit `d` to `out`.
pub fn push_digit(out: &mut String, d: u64)
    requires
        d < 10,
    ensures
        final(out)@ == old(out)@.push(char_of_digit(d as nat)),
{
    let lit: &str = match d {
        0 => "0",
        1 => "1",
        2 => "2",
        3 => "3",
        4 => "4",
        5 => "5",
        6 => "6",
        7 => "7",
        8 => "8",
        _ => "9",
    };
    proof {
        reveal_strlit("0");
        reveal_strlit("1");
        reveal_strlit("2");
        reveal_strlit("3");
        reveal_strlit("4");
        reveal_strlit("5");
        reveal_strlit("6");
        reveal_strlit("7");
        reveal_strlit("8");
        reveal_strlit("9");
    }
    out.append(lit);
    proof {
        assert(out@ =~= old(out)@.push(char_of_digit(d as nat)));
    }
}

/// Appends the canonical decimal form of `n` to `out`.
pub fn push_u64(out: &mut String, n: u64)
    ensures
        final(out)@ == old(out)@ + dec_digits(n as nat),
    decreases n,
{
    if n >= 10 {
        push_u64(out, n / 10);
        push_digit(out, n % 10);
        proof {
            assert(out@ =~= old(out)@ + dec_digits(n as nat));
        }
    } else {
        push_digit(out, n);
        proof {
            assert(out@ =~= old(out)@ + dec_digits(n as nat));
        }
    }
}

/// Parses `s[from..to]` as a canonical decimal number.
/// Succeeds exactly on nonempty digit runs without a leading zero whose
/// value fits in a `u64`.
pub fn parse_u64_range(s: &str, from: usize, to: usize) -> (r: Option<u64>)
    requires
        from <= to <= s@.len(),
    ensures
        r matches Some(v) ==> {
            &&& num_str(s@.subrange(from as int, to as int))
            &&& v == dec_val(s@.subrange(from as int, to as int))
        },
        r is None ==> !(num_str(s@.subrange(from as int, to as int)) && dec_val(
            s@.subrange(from as int, to as int),
        ) <= u64::MAX),
{
    let ghost sub = s@.subrange(from as int, to as int);
    if from == to {
        return None;
    }
    if s.get_char(from) == '0' && to - from > 1 {
        proof {
            assert(sub[0] == '0' && sub.len() > 1);
        }
        return None;
    }
    let mut acc: u64 = 0;
    let mut i: usize = from;
    while i < to
        invariant
            from <= i <= to <= s@.len(),
            sub == s@.subrange(from as int, to as int),
            sub.len() > 0,
            sub[0] == '0' ==> sub.len() == 1,
            all_digits(s@.subrange(from as int, i as int)),
            acc == dec_val(s@.subrange(from as int, i as int)),
        decreases to - i,
    {
        let c = s.get_char(i);
        let d = match digit_of_char(c) {
            Some(d) => d,
            None => {
                proof {
                    assert(sub[i - from] == s@[i as int]);
                }
                return None;
            },
        };
        let ghost pre = s@.subrange(from as int, i as int);
        let ghost pre2 = s@.subrange(from as int, i + 1 as int);
        proof {
            assert(pre2.drop_last() =~= pre);
            assert(pre2.last() == s@[i as int]);
            assert(dec_val(pre2) == acc * 10 + digit_val(s@[i as int]));
        }
        if acc > (u64::MAX - d) / 10 {
            proof {
                assert(acc * 10 + d > u64::MAX) by (nonlinear_arith)
                    requires
                        acc > (u64::MAX - d) / 10,
                        d < 10,
                        acc >= 0,
                ;
                assert(pre2 =~= sub.subrange(0, i + 1 - from));
                lemma_dec_val_prefix_le(sub, i + 1 - from);
                assert(dec_val(sub) > u64::MAX);
            }
            return None;
        }
        proof {
            assert(acc * 10 + d <= u64::MAX) by (nonlinear_arith)
                requires
                    acc <= (u64::MAX - d) / 10,
                    d < 10,
                    acc >= 0,
            ;
        }
        acc = acc * 10 + d;
        i = i + 1;
        proof {
            assert(forall|k: int|
                0 <= k < i - from ==> #[trigger] s@.subrange(from as int, i as int)[k]
                    == s@[from + k]);
            assert(s@.subrange(from as int, i as int) =~= pre2);
        }
    }
    proof {
        assert(s@.subrange(from as int, i as int) =~= sub);
        assert(num_str(sub));
    }
    Some(acc)
}

/// First position of `c` in `s` at or after `i`; `s.len()` when absent.
pub open spec fn find_from(s: Seq<char>, c: char, i: int) -> int
    decreases s.len() - i,
{
    if i < 0 || i >= s.len() {
        s.len() as int
    } else if s[i] == c {
        i
    } else {
        find_from(s, c, i + 1)
    }
}

pub proof fn lemma_find_from(s: Seq<char>, c: char, i: int)
    requires
        0 <= i <= s.len(),
    ensures
        i <= find_from(s, c, i) <= s.len(),
        find_from(s, c, i) < s.len() ==> s[find_from(s, c, i)] == c,
        forall|k: int| i <= k < find_from(s, c, i) ==> s[k] != c,
    decreases s.len() - i,
{
    if i < s.len() && s[i] != c {
        lemma_find_from(s, c, i + 1);
    }
}

/// `find_from` lands exactly on the first occurrence: if nothing before
/// `idx` is `c`, and `idx` is `c` or the end, the search stops at `idx`.
pub proof fn lemma_find_from_at(s: Seq<char>, c: char, from: int, idx: int)
    requires
        0 <= from <= idx <= s.len(),
        forall|k: int| from <= k < idx ==> s[k] != c,
        idx < s.len() ==> s[idx] == c,
    ensures
        find_from(s, c, from) == idx,
    decreases idx - from,
{
    if from < idx {
        lemma_find_from_at(s, c, from + 1, idx);
    }
}

/// First occurrence of `c` in `s` at or after `from`, as an index;
/// `s@.len()` when there is none.
pub fn find_char_from(s: &str, c: char, from: usize) -> (r: usize)
    requires
        from <= s@.len(),
    ensures
        r == find_from(s@, c, from as int),
{
    let n = s.unicode_len();
    let mut i: usize = from;
    while i < n
        invariant
            from <= i <= n == s@.len(),
            find_from(s@, c, from as int) == find_from(s@, c, i as int),
        decreases n - i,
    {
        if s.get_char(i) == c {
            return i;
        }
        i = i + 1;
    }
    n
}

/// Whitespace as the probes' command output carries it.
pub open spec fn is_space(c: char) -> bool {
    c == ' ' || c == '\n' || c == '\r' || c == '\t'
}

/// The sequence without its leading whitespace.
pub open spec fn trim_front(s: Seq<char>) -> Seq<char>
    decreases s.len(),
{
    if s.len() > 0 && is_space(s[0]) {
        trim_front(s.drop_first())
    } else {
        s
    }
}

/// The sequence without its trailing whitespace.
pub open spec fn trim_back(s: Seq<char>) -> Seq<char>
    decreases s.len(),
{
    if s.len() > 0 && is_space(s.last()) {
        trim_back(s.drop_last())
    } else {
        s
    }
}

/// The sequence without leading and trailing whitespace.
pub open spec fn trim_spec(s: Seq<char>) -> Seq<char> {
    trim_back(trim_front(s))
}

proof fn lemma_trim_front_skip(s: Seq<char>, i: int)
    requires
        0 <= i <= s.len(),
        forall|k: int| 0 <= k < i ==> is_space(#[trigger] s[k]),
        i < s.len() ==> !is_space(s[i]),
    ensures
        trim_front(s) == s.skip(i),
    decreases i,
{
    if i == 0 {
        assert(s.skip(0) =~= s);
    } else {
        let s1 = s.drop_first();
        assert(s1 =~= s.skip(1));
        lemma_trim_front_skip(s1, i - 1);
        assert(s1.skip(i - 1) =~= s.skip(i));
    }
}

proof fn lemma_trim_back_take(s: Seq<char>, j: int)
    requires
        0 <= j <= s.len(),
        forall|k: int| j <= k < s.len() ==> is_space(#[trigger] s[k]),
        j > 0 ==> !is_space(s[j - 1]),
    ensures
        trim_back(s) == s.take(j),
    decreases s.len() - j,
{
    if j == s.len() {
        assert(s.take(j) =~= s);
    } else {
        let s1 = s.drop_last();
        assert(s1 =~= s.take(s.len() - 1));
        assert(is_space(s.last()));
        lemma_trim_back_take(s1, j);
        assert(s1.take(j) =~= s.take(j));
    }
}

/// The index range `[i, j)` of `s` that survives trimming whitespace from
/// both ends.
pub fn trim_range(s: &str) -> (r: (usize, usize))
    ensures
        r.0 <= r.1 <= s@.len(),
        s@.subrange(r.0 as int, r.1 as int) == trim_spec(s@),
{
    let i = first_non_space(s);
    proof {
        lemma_trim_front_skip(s@, i as int);
    }
    let j = last_non_space_end(s, i);
    proof {
        let f = s@.skip(i as int);
        lemma_trim_back_take(f, j - i);
        assert(f.take(j - i) =~= s@.subrange(i as int, j as int));
    }
    (i, j)
}

/// Index of the first character that is not whitespace; the length when
/// all of `s` is whitespace.
fn first_non_space(s: &str) -> (i: usize)
    ensures
        0 <= i <= s@.len(),
        forall|k: int| 0 <= k < i ==> is_space(#[trigger] s@[k]),
        i < s@.len() ==> !is_space(s@[i as int]),
{
    let n = s.unicode_len();
    let mut i: usize = 0;
    while i < n
        invariant
            0 <= i <= n == s@.len(),
            forall|k: int| 0 <= k < i ==> is_space(#[trigger] s@[k]),
        decreases n - i,
    {
        let c = s.get_char(i);
        if !(c == ' ' || c == '\n' || c == '\r' || c == '\t') {
            return i;
        }
        i = i + 1;
    }
    i
}

/// One past the last character at or after `lo` that is not whitespace;
/// `lo` when the whole tail is whitespace.
fn last_non_space_end(s: &str, lo: usize) -> (j: usize)
    requires
        lo <= s@.len(),
    ensures
        lo <= j <= s@.len(),
        forall|k: int| j <= k < s@.len() ==> is_space(#[trigger] s@[k]),
        j > lo ==> !is_space(s@[j - 1]),
{
    let n = s.unicode_len();
    let mut j: usize = n;
    while j > lo
        invariant
            lo <= j <= n == s@.len(),
            forall|k: int| j <= k < n ==> is_space(#[trigger] s@[k]),
        decreases j,
    {
        let c = s.get_char(j - 1);
        if !(c == ' ' || c == '\n' || c == '\r' || c == '\t') {
            return j;
        }
        j = j - 1;
    }
    j
}

/// The sequence without trailing occurrences of `c`.
pub open spec fn trim_end_char(s: Seq<char>, c: char) -> Seq<char>
    decreases s.len(),
{
    if s.len() > 0 && s.last() == c {
        trim_end_char(s.drop_last(), c)
    } else {
        s
    }
}

proof fn lemma_trim_end_char_take(s: Seq<char>, c: char, j: int)
    requires
        0 <= j <= s.len(),
        forall|k: int| j <= k < s.len() ==> s[k] == c,
        j > 0 ==> s[j - 1] != c,
    ensures
        trim_end_char(s, c) == s.take(j),
    decreases s.len() - j,
{
    if j == s.len() {
        assert(s.take(j) =~= s);
    } else {
        let s1 = s.drop_last();
        assert(s1 =~= s.take(s.len() - 1));
        lemma_trim_end_char_take(s1, c, j);
        assert(s1.take(j) =~= s.take(j));
    }
}

/// One past the last character that is not `c`; 0 when `s` is all `c`.
pub fn end_without_char(s: &str, c: char) -> (j: usize)
    ensures
        j <= s@.len(),
        s@.subrange(0, j as int) == trim_end_char(s@, c),
{
    let n = s.unicode_len();
    let mut j: usize = n;
    while j > 0
        invariant
            0 <= j <= n == s@.len(),
            forall|k: int| j <= k < n ==> s@[k] == c,
        decreases j,
    {
        if s.get_char(j - 1) != c {
            proof {
                lemma_trim_end_char_take(s@, c, j as int);
            }
            return j;
        }
        j = j - 1;
    }
    proof {
        lemma_trim_end_char_take(s@, c, 0);
    }
    j
}

/// Character-wise string equality.
pub fn str_eq(a: &str, b: &str) -> (r: bool)
    ensures
        r == (a@ == b@),
{
    let na = a.unicode_len();
    let nb = b.unicode_len();
    if na != nb {
        return false;
    }
    let mut i: usize = 0;
    while i < na
        invariant
            0 <= i <= na,
            na == a@.len() == b@.len(),
            forall|k: int| 0 <= k < i ==> a@[k] == b@[k],
        decreases na - i,
    {
        if a.get_char(i) != b.get_char(i) {
            return false;
        }
        i = i + 1;
    }
    proof {
        assert(a@ =~= b@);
    }
    true
}

} // verus!
