//! Character and string primitives shared by the version grammar and the
//! link-flag translator: decimal numbers, first-occurrence search,
//! whitespace tokenization and lexicographic comparison.

use core::cmp::Ordering;
use vstd::prelude::*;

verus! {

/// Decimal digit, `'0'` through `'9'`.
pub open spec fn is_digit_char(c: char) -> bool {
    48 <= c as u32 && c as u32 <= 57
}

/// Numeric value of a decimal digit character.
pub open spec fn digit_val(c: char) -> int {
    c as u32 - 48
}

/// Every character of `s` is a decimal digit.
pub open spec fn all_digits(s: Seq<char>) -> bool {
    forall|i: int| 0 <= i < s.len() ==> is_digit_char(s[i])
}

/// The number denoted by a digit string, most significant digit first.
pub open spec fn digits_value(s: Seq<char>) -> int
    decreases s.len(),
{
    if s.len() == 0 {
        0
    } else {
        digits_value(s.drop_last()) * 10 + digit_val(s.last())
    }
}

/// Why a decimal segment failed to parse as a number.
#[derive(Clone, Copy, Debug, PartialEq, Eq, Structural)]
pub enum NumError {
    /// The segment is empty.
    Empty,
    /// A character of the segment is not a decimal digit.
    InvalidDigit,
    /// The denoted number does not fit in the target integer type.
    PosOverflow,
}

/// What parsing a digit string as a `u16` yields: the digits are validated
/// first, and only an all-digit segment can be reported as an overflow.
pub open spec fn spec_parse_u16(s: Seq<char>) -> Result<u16, NumError> {
    if s.len() == 0 {
        Err(NumError::Empty)
    } else if !all_digits(s) {
        Err(NumError::InvalidDigit)
    } else if digits_value(s) > u16::MAX {
        Err(NumError::PosOverflow)
    } else {
        Ok(digits_value(s) as u16)
    }
}

/// A digit prefix never denotes more than the whole digit string.
proof fn lemma_digits_value_prefix_le(s: Seq<char>, i: int)
    requires
        all_digits(s),
        0 <= i <= s.len(),
    ensures
        digits_value(s.subrange(0, i)) <= digits_value(s),
        digits_value(s) >= 0,
    decreases s.len() - i,
{
    if i == s.len() {
        assert(s.subrange(0, i) =~= s);
        lemma_digits_value_nonneg(s);
    } else {
        lemma_digits_value_prefix_le(s, i + 1);
        let t = s.subrange(0, i + 1);
        assert(t.drop_last() =~= s.subrange(0, i));
        lemma_digits_value_nonneg(s.subrange(0, i));
    }
}

/// An all-digit string denotes a non-negative number.
proof fn lemma_digits_value_nonneg(s: Seq<char>)
    requires
        all_digits(s),
    ensures
        digits_value(s) >= 0,
    decreases s.len(),
{
    if s.len() > 0 {
        assert(all_digits(s.drop_last()));
        lemma_digits_value_nonneg(s.drop_last());
    }
}

/// Whether `c` is a decimal digit.
pub fn is_digit(c: char) -> (r: bool)
    ensures
        r == is_digit_char(c),
{
    let u: u32 = c as u32;
    48 <= u && u <= 57
}

/// Parses `s` as a decimal `u16`: the empty string, a non-digit character
/// and a value above `u16::MAX` are each reported as a distinct error.
pub fn parse_u16(s: &str) -> (r: Result<u16, NumError>)
    ensures
        r == spec_parse_u16(s@),
{
    let len = s.unicode_len();
    if len == 0 {
        return Err(NumError::Empty);
    }
    let mut i: usize = 0;
    while i < len
        invariant
            len == s@.len(),
            0 <= i <= len,
            forall|j: int| 0 <= j < i ==> is_digit_char(s@[j]),
        decreases len - i,
    {
        if !is_digit(s.get_char(i)) {
            return Err(NumError::InvalidDigit);
        }
        i += 1;
    }
    assert(all_digits(s@));
    let mut acc: u32 = 0;
    let mut k: usize = 0;
    while k < len
        invariant
            len == s@.len(),
            all_digits(s@),
            0 <= k <= len,
            acc <= u16::MAX,
            acc == digits_value(s@.subrange(0, k as int)),
        decreases len - k,
    {
        let c = s.get_char(k);
        let d: u32 = c as u32 - 48;
        acc = acc * 10 + d;
        proof {
            assert(s@.subrange(0, k + 1).drop_last() =~= s@.subrange(0, k as int));
            assert(s@.subrange(0, k + 1).last() == s@[k as int]);
        }
        if acc > 65535 {
            proof {
                lemma_digits_value_prefix_le(s@, k + 1);
            }
            return Err(NumError::PosOverflow);
        }
        k += 1;
    }
    proof {
        assert(s@.subrange(0, len as int) =~= s@);
    }
    Ok(acc as u16)
}

/// The character denoting a decimal digit value.
pub open spec fn digit_char(d: int) -> char {
    if d == 0 {
        '0'
    } else if d == 1 {
        '1'
    } else if d == 2 {
        '2'
    } else if d == 3 {
        '3'
    } else if d == 4 {
        '4'
    } else if d == 5 {
        '5'
    } else if d == 6 {
        '6'
    } else if d == 7 {
        '7'
    } else if d == 8 {
        '8'
    } else {
        '9'
    }
}

/// The canonical decimal rendering of a non-negative number: no leading
/// zeros, except that zero itself renders as `"0"`.
pub open spec fn nat_digits(n: int) -> Seq<char>
    decreases n,
{
    if n < 10 {
        seq![digit_char(n)]
    } else {
        nat_digits(n / 10) + seq![digit_char(n % 10)]
    }
}

/// A canonical decimal rendering consists of digits only and is non-empty.
pub proof fn lemma_nat_digits_are_digits(n: int)
    requires
        n >= 0,
    ensures
        all_digits(nat_digits(n)),
        nat_digits(n).len() >= 1,
    decreases n,
{
    if n >= 10 {
        lemma_nat_digits_are_digits(n / 10);
    }
}

/// Parsing undoes rendering: the canonical digits of `n` denote `n`.
pub proof fn lemma_nat_digits_value(n: int)
    requires
        n >= 0,
    ensures
        digits_value(nat_digits(n)) == n,
    decreases n,
{
    lemma_nat_digits_are_digits(n);
    if n < 10 {
        assert(nat_digits(n).drop_last() =~= Seq::<char>::empty());
        assert(digits_value(Seq::<char>::empty()) == 0);
        assert(digits_value(nat_digits(n)) == digits_value(nat_digits(n).drop_last()) * 10
            + digit_val(nat_digits(n).last()));
        assert(digit_val(digit_char(n)) == n);
    } else {
        lemma_nat_digits_value(n / 10);
        vstd::arithmetic::div_mod::lemma_fundamental_div_mod(n, 10);
        assert(nat_digits(n).drop_last() =~= nat_digits(n / 10));
        assert(nat_digits(n).last() == digit_char(n % 10));
        assert(digits_value(nat_digits(n)) == digits_value(nat_digits(n).drop_last()) * 10
            + digit_val(nat_digits(n).last()));
        assert(digit_val(digit_char(n % 10)) == n % 10);
    }
}

/// For a value in `u16` range, parsing the canonical digits returns it.
pub proof fn lemma_parse_u16_of_digits(n: u16)
    ensures
        spec_parse_u16(nat_digits(n as int)) == Ok::<u16, NumError>(n),
{
    lemma_nat_digits_are_digits(n as int);
    lemma_nat_digits_value(n as int);
}

/// A one-character string for a decimal digit value.
pub fn digit_str(d: u16) -> (r: &'static str)
    requires
        d < 10,
    ensures
        r@ == seq![digit_char(d as int)],
{
    proof {
        reveal_strlit("0");
        reveal_strlit("1");
        reveal_strlit("2");
        reveal_strlit("3");
        reveal_strlit("4");
        reveal_strlit("5");
        reveal_strlit("6");
        reveal_strlit("7");
        reveal_strlit("8");
        reveal_strlit("9");
    }
    let r: &'static str = if d == 0 {
        "0"
    } else if d == 1 {
        "1"
    } else if d == 2 {
        "2"
    } else if d == 3 {
        "3"
    } else if d == 4 {
        "4"
    } else if d == 5 {
        "5"
    } else if d == 6 {
        "6"
    } else if d == 7 {
        "7"
    } else if d == 8 {
        "8"
    } else {
        "9"
    };
    proof {
        assert(r@ =~= seq![digit_char(d as int)]);
    }
    r
}

/// Appends the canonical decimal rendering of `n` to `out`.
pub fn push_u16(out: &mut String, n: u16)
    ensures
        final(out)@ == old(out)@ + nat_digits(n as int),
    decreases n,
{
    if n >= 10 {
        push_u16(out, n / 10);
        out.append(digit_str(n % 10));
        proof {
            assert(old(out)@ + nat_digits(n as int)
                =~= old(out)@ + nat_digits(n as int / 10) + seq![digit_char(n as int % 10)]);
        }
    } else {
        out.append(digit_str(n));
    }
}

/// The index of the first occurrence of `c` in `s`, if any.
pub open spec fn find_char(s: Seq<char>, c: char) -> Option<int>
    decreases s.len(),
{
    if s.len() == 0 {
        None
    } else if s[0] == c {
        Some(0)
    } else {
        match find_char(s.drop_first(), c) {
            Some(i) => Some(i + 1),
            None => None,
        }
    }
}

/// `find_char` returns the position of `c` when nothing earlier matches.
pub proof fn lemma_find_char_at(s: Seq<char>, c: char, i: int)
    requires
        0 <= i < s.len(),
        s[i] == c,
        forall|j: int| 0 <= j < i ==> s[j] != c,
    ensures
        find_char(s, c) == Some(i),
    decreases i,
{
    if i > 0 {
        lemma_find_char_at(s.drop_first(), c, i - 1);
    }
}

/// `find_char` returns nothing when no character matches.
pub proof fn lemma_find_char_none(s: Seq<char>, c: char)
    requires
        forall|j: int| 0 <= j < s.len() ==> s[j] != c,
    ensures
        find_char(s, c) is None,
    decreases s.len(),
{
    if s.len() > 0 {
        lemma_find_char_none(s.drop_first(), c);
    }
}

/// What `find_char` returns is a first occurrence.
pub proof fn lemma_find_char_props(s: Seq<char>, c: char)
    ensures
        match find_char(s, c) {
            Some(i) => 0 <= i < s.len() && s[i] == c && (forall|j: int|
                0 <= j < i ==> s[j] != c),
            None => forall|j: int| 0 <= j < s.len() ==> s[j] != c,
        },
    decreases s.len(),
{
    if s.len() > 0 && s[0] != c {
        lemma_find_char_props(s.drop_first(), c);
        match find_char(s.drop_first(), c) {
            Some(i) => {
                assert(s[i + 1] == s.drop_first()[i]);
                assert forall|j: int| 0 <= j < i + 1 implies s[j] != c by {
                    if j > 0 {
                        assert(s.drop_first()[j - 1] != c);
                    }
                }
            },
            None => {
                assert forall|j: int| 0 <= j < s.len() implies s[j] != c by {
                    if j > 0 {
                        assert(s.drop_first()[j - 1] != c);
                    }
                }
            },
        }
    }
}

/// The index of the first occurrence of `c` in `s`, scanning left to right.
pub fn find(s: &str, c: char) -> (r: Option<usize>)
    ensures
        match r {
            Some(i) => i < s@.len() && find_char(s@, c) == Some(i as int),
            None => find_char(s@, c) is None,
        },
{
    let len = s.unicode_len();
    let mut i: usize = 0;
    while i < len
        invariant
            len == s@.len(),
            0 <= i <= len,
            forall|j: int| 0 <= j < i ==> s@[j] != c,
        decreases len - i,
    {
        if s.get_char(i) == c {
            proof {
                lemma_find_char_at(s@, c, i as int);
            }
            return Some(i);
        }
        i += 1;
    }
    proof {
        lemma_find_char_none(s@, c);
    }
    None
}

/// `c` occurs nowhere in `s`.
pub open spec fn absent(s: Seq<char>, c: char) -> bool {
    forall|j: int| 0 <= j < s.len() ==> s[j] != c
}

/// Searching a concatenation whose first part lacks `c` finds the first
/// occurrence in the second part, shifted past the first.
pub proof fn lemma_find_char_concat(a: Seq<char>, b: Seq<char>, c: char)
    requires
        absent(a, c),
    ensures
        find_char(a + b, c) == match find_char(b, c) {
            Some(i) => Some(a.len() + i),
            None => None::<int>,
        },
{
    lemma_find_char_props(b, c);
    match find_char(b, c) {
        Some(i) => {
            assert((a + b)[a.len() + i] == c);
            assert forall|j: int| 0 <= j < a.len() + i implies (a + b)[j] != c by {
                if j >= a.len() {
                    assert((a + b)[j] == b[j - a.len()]);
                }
            }
            lemma_find_char_at(a + b, c, a.len() + i);
        },
        None => {
            assert forall|j: int| 0 <= j < (a + b).len() implies (a + b)[j] != c by {
                if j >= a.len() {
                    assert((a + b)[j] == b[j - a.len()]);
                }
            }
            lemma_find_char_none(a + b, c);
        },
    }
}

/// A character absent from both parts is absent from their concatenation.
pub proof fn lemma_absent_concat(a: Seq<char>, b: Seq<char>, c: char)
    requires
        absent(a, c),
        absent(b, c),
    ensures
        absent(a + b, c),
{
    assert forall|j: int| 0 <= j < (a + b).len() implies (a + b)[j] != c by {
        if j < a.len() {
            assert((a + b)[j] == a[j]);
        } else {
            assert((a + b)[j] == b[j - a.len()]);
        }
    }
}

/// A digit string lacks any non-digit character.
pub proof fn lemma_digits_absent(s: Seq<char>, c: char)
    requires
        all_digits(s),
        !is_digit_char(c),
    ensures
        absent(s, c),
{
}

/// Whether two strings hold the same characters.
pub fn str_eq(a: &str, b: &str) -> (r: bool)
    ensures
        r == (a@ == b@),
{
    let la = a.unicode_len();
    let lb = b.unicode_len();
    if la != lb {
        return false;
    }
    let mut i: usize = 0;
    while i < la
        invariant
            la == a@.len(),
            la == b@.len(),
            0 <= i <= la,
            forall|j: int| 0 <= j < i ==> a@[j] == b@[j],
        decreases la - i,
    {
        if a.get_char(i) != b.get_char(i) {
            return false;
        }
        i += 1;
    }
    proof {
        assert(a@ =~= b@);
    }
    true
}

/// Whether `needle` occurs contiguously somewhere in `hay`.
pub open spec fn contains_seq(hay: Seq<char>, needle: Seq<char>) -> bool {
    exists|i: int|
        0 <= i <= hay.len() - needle.len() && #[trigger] hay.subrange(i, i + needle.len() as int)
            == needle
}

/// Whether `needle` occurs contiguously somewhere in `hay`.
pub fn contains_str(hay: &str, needle: &str) -> (r: bool)
    ensures
        r == contains_seq(hay@, needle@),
{
    let hay_len = hay.unicode_len();
    let needle_len = needle.unicode_len();
    if needle_len > hay_len {
        return false;
    }
    let mut i: usize = 0;
    while i <= hay_len - needle_len
        invariant
            hay_len == hay@.len(),
            needle_len == needle@.len(),
            needle_len <= hay_len,
            0 <= i <= hay_len - needle_len + 1,
            forall|j: int|
                0 <= j < i ==> #[trigger] hay@.subrange(j, j + needle@.len() as int) != needle@,
        decreases hay_len - needle_len + 1 - i,
    {
        let mut k: usize = 0;
        let mut matched = true;
        while k < needle_len
            invariant_except_break
                matched,
            invariant
                hay_len == hay@.len(),
                needle_len == needle@.len(),
                i + needle_len <= hay_len,
                0 <= k <= needle_len,
                forall|m: int| 0 <= m < k ==> hay@[i + m] == needle@[m],
            ensures
                if matched {
                    k == needle_len && forall|m: int| 0 <= m < k ==> hay@[i + m] == needle@[m]
                } else {
                    0 <= k < needle_len && hay@[i + k as int] != needle@[k as int]
                },
            decreases needle_len - k,
        {
            if hay.get_char(i + k) != needle.get_char(k) {
                matched = false;
                break;
            }
            k += 1;
        }
        if matched {
            proof {
                assert(hay@.subrange(i as int, i + needle@.len() as int) =~= needle@);
            }
            return true;
        }
        proof {
            assert(hay@.subrange(i as int, i + needle@.len() as int)[k as int] == hay@[i + k]);
            assert(hay@.subrange(i as int, i + needle@.len() as int) != needle@);
        }
        i += 1;
    }
    proof {
        assert forall|j: int|
            0 <= j <= hay@.len() - needle@.len() implies #[trigger] hay@.subrange(
            j,
            j + needle@.len() as int,
        ) != needle@ by {}
    }
    false
}

/// ASCII whitespace: space, tab, line feed, form feed, carriage return.
pub open spec fn is_space_char(c: char) -> bool {
    c == ' ' || c == '\t' || c == '\n' || c == '\u{000C}' || c == '\r'
}

/// Whether `c` is ASCII whitespace.
pub fn is_space(c: char) -> (r: bool)
    ensures
        r == is_space_char(c),
{
    c == ' ' || c == '\t' || c == '\n' || c == '\u{000C}' || c == '\r'
}

/// Every character of `s` is ASCII whitespace; in particular an empty `s`.
pub open spec fn all_ws(s: Seq<char>) -> bool {
    forall|i: int| 0 <= i < s.len() ==> is_space_char(s[i])
}

/// Whether `s` consists of whitespace only (or is empty).
pub fn all_whitespace(s: &str) -> (r: bool)
    ensures
        r == all_ws(s@),
{
    let len = s.unicode_len();
    let mut i: usize = 0;
    while i < len
        invariant
            len == s@.len(),
            0 <= i <= len,
            forall|j: int| 0 <= j < i ==> is_space_char(s@[j]),
        decreases len - i,
    {
        if !is_space(s.get_char(i)) {
            return false;
        }
        i += 1;
    }
    true
}

/// The length of the leading run of non-whitespace characters.
pub open spec fn token_len(s: Seq<char>) -> nat
    decreases s.len(),
{
    if s.len() == 0 || is_space_char(s[0]) {
        0
    } else {
        1 + token_len(s.drop_first())
    }
}

/// The leading token never runs past the end of the sequence.
pub proof fn lemma_token_len_le(s: Seq<char>)
    ensures
        token_len(s) <= s.len(),
    decreases s.len(),
{
    if s.len() > 0 && !is_space_char(s[0]) {
        lemma_token_len_le(s.drop_first());
    }
}

/// The leading token is the maximal non-whitespace run.
pub proof fn lemma_token_len_run(s: Seq<char>, m: int)
    requires
        0 <= m <= s.len(),
        forall|k: int| 0 <= k < m ==> !is_space_char(s[k]),
        m == s.len() || is_space_char(s[m]),
    ensures
        token_len(s) == m,
    decreases m,
{
    if m == 0 {
    } else {
        assert(!is_space_char(s[0]));
        lemma_token_len_run(s.drop_first(), m - 1);
    }
}

/// The whitespace-separated tokens of `s`, in order, each non-empty.
pub open spec fn ws_tokens(s: Seq<char>) -> Seq<Seq<char>>
    decreases s.len(),
    via ws_tokens_decreases
{
    if s.len() == 0 {
        Seq::empty()
    } else if is_space_char(s[0]) {
        ws_tokens(s.drop_first())
    } else {
        seq![s.subrange(0, token_len(s) as int)] + ws_tokens(
            s.subrange(token_len(s) as int, s.len() as int),
        )
    }
}

#[via_fn]
proof fn ws_tokens_decreases(s: Seq<char>) {
    if s.len() > 0 && !is_space_char(s[0]) {
        lemma_token_len_le(s);
    }
}

/// Splits `s` into its whitespace-separated tokens.
pub fn tokenize(s: &str) -> (r: Vec<String>)
    ensures
        r.deep_view() == ws_tokens(s@),
{
    let len = s.unicode_len();
    let mut out: Vec<String> = Vec::new();
    proof {
        assert(s@.skip(0) =~= s@);
        assert(out.deep_view() =~= Seq::<Seq<char>>::empty());
    }
    let mut i: usize = 0;
    while i < len
        invariant
            len == s@.len(),
            0 <= i <= len,
            ws_tokens(s@) == out.deep_view() + ws_tokens(s@.skip(i as int)),
        decreases len - i,
    {
        if is_space(s.get_char(i)) {
            proof {
                assert(s@.skip(i as int).drop_first() =~= s@.skip(i + 1));
            }
            i += 1;
        } else {
            let start = i;
            let mut j: usize = i + 1;
            while j < len
                invariant
                    len == s@.len(),
                    start < j <= len,
                    start < len,
                    forall|k: int| start <= k < j ==> !is_space_char(s@[k]),
                ensures
                    start < j <= len,
                    forall|k: int| start <= k < j ==> !is_space_char(s@[k]),
                    j == len || is_space_char(s@[j as int]),
                decreases len - j,
            {
                if is_space(s.get_char(j)) {
                    break;
                }
                j += 1;
            }
            let token = s.substring_char(start, j);
            let ghost old_out = out.deep_view();
            out.push(String::from_str(token));
            proof {
                let rest = s@.skip(start as int);
                assert forall|k: int| 0 <= k < j - start implies !is_space_char(rest[k]) by {
                    assert(rest[k] == s@[start + k]);
                }
                if j < len {
                    assert(rest[j - start] == s@[j as int]);
                }
                lemma_token_len_run(rest, j - start);
                assert(rest.subrange(0, token_len(rest) as int) =~= token@);
                assert(rest.subrange(token_len(rest) as int, rest.len() as int) =~= s@.skip(
                    j as int,
                ));
                assert(ws_tokens(rest) == seq![token@] + ws_tokens(s@.skip(j as int)));
                assert(out.deep_view() =~= old_out + seq![token@]);
                assert(out.deep_view() + ws_tokens(s@.skip(j as int)) =~= old_out + (seq![token@]
                    + ws_tokens(s@.skip(j as int))));
            }
            i = j;
        }
    }
    proof {
        assert(s@.skip(len as int) =~= Seq::<char>::empty());
        assert(out.deep_view() + Seq::<Seq<char>>::empty() =~= out.deep_view());
    }
    out
}

/// Lexicographic order on character sequences, by code point, with a proper
/// prefix ordered first.
pub open spec fn lex_cmp(a: Seq<char>, b: Seq<char>) -> Ordering
    decreases a.len(),
{
    if a.len() == 0 && b.len() == 0 {
        Ordering::Equal
    } else if a.len() == 0 {
        Ordering::Less
    } else if b.len() == 0 {
        Ordering::Greater
    } else if a[0] == b[0] {
        lex_cmp(a.drop_first(), b.drop_first())
    } else if (a[0] as u32) < (b[0] as u32) {
        Ordering::Less
    } else {
        Ordering::Greater
    }
}

/// Compares two strings lexicographically by code point.
pub fn str_lex_cmp(a: &str, b: &str) -> (r: Ordering)
    ensures
        r == lex_cmp(a@, b@),
{
    let la = a.unicode_len();
    let lb = b.unicode_len();
    proof {
        assert(a@.skip(0) =~= a@);
        assert(b@.skip(0) =~= b@);
    }
    let mut i: usize = 0;
    while i < la && i < lb
        invariant
            la == a@.len(),
            lb == b@.len(),
            0 <= i <= la,
            0 <= i <= lb,
            lex_cmp(a@, b@) == lex_cmp(a@.skip(i as int), b@.skip(i as int)),
        decreases la - i,
    {
        let ca = a.get_char(i);
        let cb = b.get_char(i);
        if ca == cb {
            proof {
                assert(a@.skip(i as int).drop_first() =~= a@.skip(i + 1));
                assert(b@.skip(i as int).drop_first() =~= b@.skip(i + 1));
            }
            i += 1;
        } else {
            let ua: u32 = ca as u32;
            let ub: u32 = cb as u32;
            if ua < ub {
                return Ordering::Less;
            } else {
                return Ordering::Greater;
            }
        }
    }
    if la == lb {
        Ordering::Equal
    } else if la < lb {
        Ordering::Less
    } else {
        Ordering::Greater
    }
}

} // verus!
