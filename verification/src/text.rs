//! Small verified text utilities the protocol engine is built on: locating
//! delimiters, exact and ASCII-case-insensitive comparison, whitespace
//! trimming, and decimal number parsing.
use vstd::prelude::*;
use vstd::string::StrSliceExecFns;

verus! {

/// Index of the first occurrence of `c` in `s` at or after `from`, if any.
pub open spec fn find_from(s: Seq<char>, c: char, from: int) -> Option<int>
    decreases s.len() - from,
    when 0 <= from <= s.len()
{
    if from >= s.len() {
        None
    } else if s[from] == c {
        Some(from)
    } else {
        find_from(s, c, from + 1)
    }
}

proof fn lemma_find_from_skip(s: Seq<char>, c: char, from: int, i: int)
    requires
        0 <= from <= i <= s.len(),
        forall|j: int| from <= j < i ==> s[j] != c,
    ensures
        find_from(s, c, from) == find_from(s, c, i),
    decreases i - from,
{
    if from < i {
        lemma_find_from_skip(s, c, from + 1, i);
    }
}

/// First index at or after `from` holding `c`, scanning left to right.
pub fn find_char(s: &str, from: usize, c: char) -> (r: Option<usize>)
    requires
        from <= s@.len(),
    ensures
        r matches Some(i) ==> from <= i < s@.len() && s@[i as int] == c && find_from(
            s@,
            c,
            from as int,
        ) == Some(i as int),
        r is None ==> find_from(s@, c, from as int) is None,
{
    let n: usize = s.unicode_len();
    let mut i: usize = from;
    while i < n
        invariant
            from <= i <= n,
            n == s@.len(),
            forall|j: int| from <= j < i ==> s@[j] != c,
        decreases n - i,
    {
        if s.get_char(i) == c {
            proof {
                lemma_find_from_skip(s@, c, from as int, i as int);
            }
            return Some(i);
        }
        i = i + 1;
    }
    proof {
        lemma_find_from_skip(s@, c, from as int, n as int);
    }
    None
}

/// Exact character-for-character equality of two string slices.
pub fn str_eq(a: &str, b: &str) -> (r: bool)
    ensures
        r == (a@ == b@),
{
    let na: usize = a.unicode_len();
    let nb: usize = b.unicode_len();
    if na != nb {
        return false;
    }
    let mut i: usize = 0;
    while i < na
        invariant
            0 <= i <= na,
            na == a@.len(),
            na == b@.len(),
            forall|j: int| 0 <= j < i ==> a@[j] == b@[j],
        decreases na - i,
    {
        if a.get_char(i) != b.get_char(i) {
            return false;
        }
        i = i + 1;
    }
    proof {
        assert(a@ =~= b@);
    }
    true
}

/// ASCII case folding on code points: upper-case letters map to lower case,
/// every other character is left alone.
pub open spec fn fold_code(c: char) -> int {
    if 65 <= c as int <= 90 {
        c as int + 32
    } else {
        c as int
    }
}

/// Equality of two character sequences up to ASCII case.
pub open spec fn seq_eq_ignore_ascii_case(a: Seq<char>, b: Seq<char>) -> bool {
    a.len() == b.len() && forall|i: int| 0 <= i < a.len() ==> fold_code(a[i]) == fold_code(b[i])
}

fn fold_char(c: char) -> (u: u32)
    ensures
        u as int == fold_code(c),
{
    let x: u32 = c as u32;
    if 65 <= x && x <= 90 {
        x + 32
    } else {
        x
    }
}

/// ASCII-case-insensitive equality of two string slices.
pub fn eq_ignore_ascii_case(a: &str, b: &str) -> (r: bool)
    ensures
        r == seq_eq_ignore_ascii_case(a@, b@),
{
    let na: usize = a.unicode_len();
    let nb: usize = b.unicode_len();
    if na != nb {
        return false;
    }
    let mut i: usize = 0;
    while i < na
        invariant
            0 <= i <= na,
            na == a@.len(),
            na == b@.len(),
            forall|j: int| 0 <= j < i ==> fold_code(a@[j]) == fold_code(b@[j]),
        decreases na - i,
    {
        if fold_char(a.get_char(i)) != fold_char(b.get_char(i)) {
            return false;
        }
        i = i + 1;
    }
    true
}

/// The whitespace characters that surround a header value on the wire.
pub open spec fn is_line_space(c: char) -> bool {
    c == ' ' || c == '\t' || c == '\r' || c == '\n'
}

fn is_line_space_exec(c: char) -> (r: bool)
    ensures
        r == is_line_space(c),
{
    c == ' ' || c == '\t' || c == '\r' || c == '\n'
}

/// First index at or after `i` holding a non-space character, or the length.
pub open spec fn skip_space_from(s: Seq<char>, i: int) -> int
    decreases s.len() - i,
    when 0 <= i <= s.len()
{
    if i >= s.len() {
        i
    } else if is_line_space(s[i]) {
        skip_space_from(s, i + 1)
    } else {
        i
    }
}

/// Last index at or before `i` such that everything from it to `i` is space.
pub open spec fn skip_space_back(s: Seq<char>, i: int) -> int
    decreases i,
    when 0 <= i <= s.len()
{
    if i <= 0 {
        i
    } else if is_line_space(s[i - 1]) {
        skip_space_back(s, i - 1)
    } else {
        i
    }
}

/// `s` with leading and trailing whitespace removed.
pub open spec fn trimmed(s: Seq<char>) -> Seq<char> {
    let a = skip_space_from(s, 0);
    let b = skip_space_back(s, s.len() as int);
    if a <= b {
        s.subrange(a, b)
    } else {
        Seq::empty()
    }
}

proof fn lemma_skip_space_from_step(s: Seq<char>, from: int, i: int)
    requires
        0 <= from <= i <= s.len(),
        forall|j: int| from <= j < i ==> is_line_space(s[j]),
    ensures
        skip_space_from(s, from) == skip_space_from(s, i),
    decreases i - from,
{
    if from < i {
        lemma_skip_space_from_step(s, from + 1, i);
    }
}

proof fn lemma_skip_space_back_step(s: Seq<char>, i: int, upto: int)
    requires
        0 <= i <= upto <= s.len(),
        forall|j: int| i <= j < upto ==> is_line_space(s[j]),
    ensures
        skip_space_back(s, upto) == skip_space_back(s, i),
    decreases upto - i,
{
    if i < upto {
        lemma_skip_space_back_step(s, i, upto - 1);
    }
}

/// `s` without its surrounding whitespace, as `str::trim` strips it from an
/// all-ASCII header value.
pub fn trim_spaces<'a>(s: &'a str) -> (r: &'a str)
    ensures
        r@ == trimmed(s@),
{
    let n: usize = s.unicode_len();
    let mut a: usize = 0;
    while a < n && is_line_space_exec(s.get_char(a))
        invariant
            0 <= a <= n,
            n == s@.len(),
            forall|j: int| 0 <= j < a ==> is_line_space(s@[j]),
        decreases n - a,
    {
        a = a + 1;
    }
    proof {
        lemma_skip_space_from_step(s@, 0, a as int);
    }
    let mut b: usize = n;
    while b > a && is_line_space_exec(s.get_char(b - 1))
        invariant
            a <= b <= n,
            n == s@.len(),
            forall|j: int| b <= j < n ==> is_line_space(s@[j]),
        decreases b,
    {
        b = b - 1;
    }
    proof {
        lemma_skip_space_back_step(s@, b as int, n as int);
        if b == a {
            // every character is space: both spec cursors run over the whole string
            lemma_skip_space_from_step(s@, a as int, n as int);
            lemma_skip_space_back_step(s@, 0, b as int);
            assert(trimmed(s@) =~= s@.subrange(a as int, b as int));
        } else {
            assert(!is_line_space(s@[b - 1]));
            assert(skip_space_back(s@, s@.len() as int) == b as int);
            assert(skip_space_from(s@, 0) == a as int);
        }
    }
    s.substring_char(a, b)
}

/// Whether `c` is a decimal digit.
pub open spec fn is_digit(c: char) -> bool {
    48 <= c as int <= 57
}

/// The numeric value of a decimal digit character.
pub open spec fn digit_val(c: char) -> int {
    c as int - 48
}

/// Whether every character of `s` is a decimal digit.
pub open spec fn all_digits(s: Seq<char>) -> bool {
    forall|i: int| 0 <= i < s.len() ==> is_digit(#[trigger] s[i])
}

/// The value of `s` read as a decimal numeral.
pub open spec fn dec_val(s: Seq<char>) -> int
    decreases s.len(),
{
    if s.len() == 0 {
        0
    } else {
        dec_val(s.drop_last()) * 10 + digit_val(s.last())
    }
}

proof fn lemma_dec_val_nonneg(s: Seq<char>)
    requires
        all_digits(s),
    ensures
        dec_val(s) >= 0,
    decreases s.len(),
{
    if s.len() > 0 {
        assert(all_digits(s.drop_last()));
        lemma_dec_val_nonneg(s.drop_last());
    }
}

proof fn lemma_dec_val_prefix(s: Seq<char>, k: int)
    requires
        all_digits(s),
        0 <= k <= s.len(),
    ensures
        dec_val(s.subrange(0, k)) <= dec_val(s),
    decreases s.len(),
{
    if k == s.len() {
        assert(s.subrange(0, k) =~= s);
    } else {
        let head = s.drop_last();
        assert(all_digits(head));
        assert(s.subrange(0, k) =~= head.subrange(0, k));
        lemma_dec_val_prefix(head, k);
        lemma_dec_val_nonneg(head);
    }
}

/// Reads `s` as an unsigned decimal numeral; `None` when `s` is empty,
/// holds a non-digit, or names a value above `u64::MAX`.
pub fn parse_u64(s: &str) -> (r: Option<u64>)
    ensures
        r matches Some(v) ==> s@.len() > 0 && all_digits(s@) && dec_val(s@) == v as int,
        r is None ==> !(s@.len() > 0 && all_digits(s@) && dec_val(s@) <= u64::MAX as int),
{
    let n: usize = s.unicode_len();
    if n == 0 {
        return None;
    }
    let mut acc: u64 = 0;
    let mut i: usize = 0;
    while i < n
        invariant
            0 <= i <= n,
            n == s@.len(),
            all_digits(s@.subrange(0, i as int)),
            acc as int == dec_val(s@.subrange(0, i as int)),
        decreases n - i,
    {
        let c = s.get_char(i);
        let u: u32 = c as u32;
        if u < 48 || u > 57 {
            assert(!is_digit(s@[i as int]));
            return None;
        }
        let d: u64 = (u - 48) as u64;
        proof {
            assert(s@.subrange(0, i + 1).drop_last() =~= s@.subrange(0, i as int));
            assert(s@.subrange(0, i + 1).last() == s@[i as int]);
        }
        if acc > (u64::MAX - d) / 10 {
            proof {
                assert(acc * 10 + d > u64::MAX) by (nonlinear_arith)
                    requires
                        acc > (u64::MAX - d) / 10,
                        0 <= d <= 9,
                        acc >= 0,
                {}
                if all_digits(s@) {
                    lemma_dec_val_prefix(s@, i + 1);
                }
            }
            return None;
        }
        proof {
            assert(acc * 10 + d <= u64::MAX) by (nonlinear_arith)
                requires
                    acc <= (u64::MAX - d) / 10,
                    0 <= d <= 9,
                    acc >= 0,
            {}
        }
        acc = acc * 10 + d;
        i = i + 1;
    }
    proof {
        assert(s@.subrange(0, n as int) =~= s@);
    }
    Some(acc)
}

/// Reads `s` as a decimal TCP port; `None` when `s` is empty, holds a
/// non-digit, or names a value above `u16::MAX`.
pub fn parse_port(s: &str) -> (r: Option<u16>)
    ensures
        r matches Some(v) ==> s@.len() > 0 && all_digits(s@) && dec_val(s@) == v as int,
        r is None ==> !(s@.len() > 0 && all_digits(s@) && dec_val(s@) <= u16::MAX as int),
{
    match parse_u64(s) {
        Some(v) => {
            if v <= 65535 {
                Some(v as u16)
            } else {
                None
            }
        },
        None => None,
    }
}

} // verus!
