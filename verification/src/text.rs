//! Strings as sequences of characters: the vocabulary in which the rules of
//! this crate are stated, and the calls into `std` that compute them.
//!
//! The functions marked `external_body` are not verified: each one makes a
//! single call into `std`, and its contract restates what the documentation of
//! that call promises.

use vstd::prelude::*;
use vstd::std_specs::iter::IteratorSpec;
use vstd::string::StringExecFns;
use vstd::utf8::{
    encode_utf8, encode_utf8_decode_utf8, is_ascii_chars, is_ascii_chars_encode_utf8,
};

verus! {

/// The lower-case form of an ASCII capital letter; any other character is left as it is.
pub open spec fn ascii_lower(c: char) -> char {
    if 'A' <= c && c <= 'Z' {
        ((c as u32) + 32) as char
    } else {
        c
    }
}

/// `s` with every ASCII capital letter replaced by its lower-case form.
pub open spec fn lowered(s: Seq<char>) -> Seq<char> {
    Seq::new(s.len(), |i: int| ascii_lower(s[i]))
}

/// `p` stands at the start of `s`.
pub open spec fn has_prefix(s: Seq<char>, p: Seq<char>) -> bool {
    p.len() <= s.len() && s.subrange(0, p.len() as int) == p
}

/// `p` stands at the end of `s`.
pub open spec fn has_suffix(s: Seq<char>, p: Seq<char>) -> bool {
    p.len() <= s.len() && s.subrange(s.len() - p.len(), s.len() as int) == p
}

/// `p` stands in `s`, starting at position `at`.
pub open spec fn occurs_at(s: Seq<char>, p: Seq<char>, at: int) -> bool {
    0 <= at && at + p.len() <= s.len() && s.subrange(at, at + p.len()) == p
}

/// `p` stands somewhere in `s`.
pub open spec fn has_substring(s: Seq<char>, p: Seq<char>) -> bool {
    exists|at: int| occurs_at(s, p, at)
}

/// Whether `c` has the Unicode property `White_Space`, as `char::is_whitespace` reports it.
pub uninterp spec fn char_is_whitespace(c: char) -> bool;

/// The words of `s` that come after the word `open`, which is still being
/// read: a word is a longest run of characters that are not white space.
pub open spec fn words_after(s: Seq<char>, open: Seq<char>) -> Seq<Seq<char>>
    decreases s.len(),
{
    let closed = if open.len() == 0 {
        Seq::<Seq<char>>::empty()
    } else {
        seq![open]
    };
    if s.len() == 0 {
        closed
    } else if char_is_whitespace(s[0]) {
        closed + words_after(s.drop_first(), Seq::empty())
    } else {
        words_after(s.drop_first(), open.push(s[0]))
    }
}

/// The words of `s`, in order: its longest runs of characters that are not white space.
pub open spec fn words(s: Seq<char>) -> Seq<Seq<char>> {
    words_after(s, Seq::empty())
}

/// The character sequences that a list of strings holds.
pub open spec fn views(v: Seq<String>) -> Seq<Seq<char>> {
    v.map_values(|s: String| s@)
}

/// `char::is_whitespace`: whether `c` has the Unicode property `White_Space`.
#[verifier::external_body]
pub(crate) fn is_whitespace(c: char) -> (white: bool)
    ensures
        white == char_is_whitespace(c),
{
    c.is_whitespace()
}

/// Whether `s` holds nothing but white space.
pub open spec fn blank(s: Seq<char>) -> bool {
    forall|i: int| 0 <= i < s.len() ==> char_is_whitespace(#[trigger] s[i])
}

/// Whether the two strings hold the same characters. They do exactly when
/// their UTF-8 encodings are the same bytes.
pub(crate) fn str_eq(a: &str, b: &str) -> (same: bool)
    ensures
        same == (a@ == b@),
{
    let x = a.as_bytes();
    let y = b.as_bytes();
    proof {
        encode_utf8_decode_utf8(a@);
        encode_utf8_decode_utf8(b@);
    }
    if x.len() != y.len() {
        return false;
    }
    let mut i: usize = 0;
    while i < x.len()
        invariant
            i <= x.len(),
            x@.len() == y@.len(),
            x@ == encode_utf8(a@),
            y@ == encode_utf8(b@),
            forall|k: int| 0 <= k < i ==> x@[k] == y@[k],
        decreases x.len() - i,
    {
        if x[i] != y[i] {
            return false;
        }
        i += 1;
    }
    assert(x@ =~= y@);
    true
}

/// `str::to_ascii_lowercase`: a copy of `s` in which the ASCII letters 'A' to
/// 'Z' are mapped to 'a' to 'z' and all other characters are unchanged.
#[verifier::external_body]
pub(crate) fn to_ascii_lowercase(s: &str) -> (lower: String)
    ensures
        lower@ == lowered(s@),
{
    s.to_ascii_lowercase()
}

/// The lower-case form of `s` as `str::to_lowercase` gives it: every
/// character replaced by its lower-case equivalent under Unicode's rules,
/// which may be more than one character and may depend on its neighbours.
pub uninterp spec fn lower_cased(s: Seq<char>) -> Seq<char>;

/// `str::to_lowercase`: the lower-case equivalent of `s`. It depends on `s`
/// alone; what it is is left to `std` and the Unicode tables it follows.
#[verifier::external_body]
pub(crate) fn to_lowercase(s: &str) -> (lower: String)
    ensures
        lower@ == lower_cased(s@),
{
    s.to_lowercase()
}

/// `str::contains` with a string pattern: whether `needle` is a substring of `hay`.
#[verifier::external_body]
pub(crate) fn str_contains(hay: &str, needle: &str) -> (found: bool)
    ensures
        found == has_substring(hay@, needle@),
{
    hay.contains(needle)
}

/// `str::ends_with` with a string pattern: whether `suffix` is a suffix of `s`.
#[verifier::external_body]
pub(crate) fn str_ends_with(s: &str, suffix: &str) -> (ends: bool)
    ensures
        ends == has_suffix(s@, suffix@),
{
    s.ends_with(suffix)
}

/// `str::starts_with` with a string pattern: whether `prefix` is a prefix of `s`.
#[verifier::external_body]
pub(crate) fn str_starts_with(s: &str, prefix: &str) -> (starts: bool)
    ensures
        starts == has_prefix(s@, prefix@),
{
    s.starts_with(prefix)
}

/// `str::split_whitespace`: the substrings of `s` between runs of Unicode
/// white space, in order, each copied into a `String`. None of them is empty
/// and none holds a white-space character.
#[verifier::external_body]
pub(crate) fn split_whitespace(s: &str) -> (tokens: Vec<String>)
    ensures
        views(tokens@) == words(s@),
        forall|i: int, j: int|
            0 <= i < tokens@.len() && 0 <= j < tokens@[i]@.len() ==> !char_is_whitespace(
                #[trigger] tokens@[i]@[j],
            ),
{
    s.split_whitespace().map(|t| t.to_string()).collect()
}

/// `s` without the white space at its start.
pub open spec fn trimmed_start(s: Seq<char>) -> Seq<char>
    decreases s.len(),
{
    if s.len() > 0 && char_is_whitespace(s[0]) {
        trimmed_start(s.drop_first())
    } else {
        s
    }
}

/// `s` without the white space at its end.
pub open spec fn trimmed_end(s: Seq<char>) -> Seq<char>
    decreases s.len(),
{
    if s.len() > 0 && char_is_whitespace(s.last()) {
        trimmed_end(s.drop_last())
    } else {
        s
    }
}

/// `s` without the white space at its start and at its end.
pub open spec fn trimmed(s: Seq<char>) -> Seq<char> {
    trimmed_end(trimmed_start(s))
}

/// The fields of `s` that come after the field `open`, which is still being
/// read: fields are what stands between two occurrences of `sep`, before the
/// first and after the last; a field may be empty.
pub open spec fn fields_after(s: Seq<char>, sep: char, open: Seq<char>) -> Seq<Seq<char>>
    decreases s.len(),
{
    if s.len() == 0 {
        seq![open]
    } else if s[0] == sep {
        seq![open] + fields_after(s.drop_first(), sep, Seq::empty())
    } else {
        fields_after(s.drop_first(), sep, open.push(s[0]))
    }
}

/// The fields of `s` when it is cut at every occurrence of `sep`: one more
/// than there are occurrences.
pub open spec fn fields(s: Seq<char>, sep: char) -> Seq<Seq<char>> {
    fields_after(s, sep, Seq::empty())
}

/// `s` after `p` has been taken from its start as often as it stands there.
pub open spec fn without_leading(s: Seq<char>, p: Seq<char>) -> Seq<char>
    decreases s.len(),
{
    if p.len() > 0 && has_prefix(s, p) {
        without_leading(s.skip(p.len() as int), p)
    } else {
        s
    }
}

/// `str::trim`: the part of `s` that is left when the white space at its
/// start and at its end is removed.
#[verifier::external_body]
pub(crate) fn str_trim(s: &str) -> (inner: &str)
    ensures
        inner@ == trimmed(s@),
{
    s.trim()
}

/// `str::split` with a character as separator: the substrings of `s`
/// between the occurrences of `sep`, in order, each copied into a `String`.
/// There is one more than there are occurrences; some may be empty.
#[verifier::external_body]
pub(crate) fn str_split(s: &str, sep: char) -> (parts: Vec<String>)
    ensures
        views(parts@) == fields(s@, sep),
{
    s.split(sep).map(|part| part.to_string()).collect()
}

/// `str::trim_start_matches` with a string pattern that is not empty: `s`
/// with all repeated occurrences of `prefix` removed from its start.
#[verifier::external_body]
pub(crate) fn str_trim_start_matches<'a>(s: &'a str, prefix: &str) -> (rest: &'a str)
    requires
        prefix@.len() > 0,
    ensures
        rest@ == without_leading(s@, prefix@),
{
    s.trim_start_matches(prefix)
}

/// Whether `s` holds nothing but white space.
pub fn is_blank(s: &str) -> (all_white: bool)
    ensures
        all_white == blank(s@),
{
    let mut rest = s.chars();
    let ghost mut seen: int = 0;
    loop
        invariant
            0 <= seen <= s@.len(),
            rest.remaining() == s@.skip(seen),
            forall|k: int| 0 <= k < seen ==> char_is_whitespace(#[trigger] s@[k]),
        decreases s@.len() - seen,
    {
        match rest.next() {
            Some(c) => {
                assert(c == s@[seen]);
                if !is_whitespace(c) {
                    return false;
                }
                proof {
                    assert(s@.skip(seen).drop_first() == s@.skip(seen + 1));
                    seen = seen + 1;
                }
            },
            None => {
                return true;
            },
        }
    }
}

/// The character of the decimal digit `d`.
pub open spec fn digit_char(d: int) -> char {
    (48 + d) as char
}

/// The decimal digits of a natural number, most significant first, without leading zeros.
pub open spec fn decimal_digits(n: nat) -> Seq<char>
    decreases n,
{
    if n < 10 {
        seq![digit_char(n as int)]
    } else {
        decimal_digits(n / 10).push(digit_char((n % 10) as int))
    }
}

/// The decimal notation of an integer: its digits, after a minus sign where it is negative.
pub open spec fn decimal(n: int) -> Seq<char> {
    if n < 0 {
        seq!['-'] + decimal_digits((-n) as nat)
    } else {
        decimal_digits(n as nat)
    }
}

/// The one-character string of the digit `d`.
fn digit_str(d: u64) -> (s: &'static str)
    requires
        d < 10,
    ensures
        s@ == seq![digit_char(d as int)],
{
    proof {
        reveal_strlit("0");
        reveal_strlit("1");
        reveal_strlit("2");
        reveal_strlit("3");
        reveal_strlit("4");
        reveal_strlit("5");
        reveal_strlit("6");
        reveal_strlit("7");
        reveal_strlit("8");
        reveal_strlit("9");
    }
    let s = if d == 0 {
        "0"
    } else if d == 1 {
        "1"
    } else if d == 2 {
        "2"
    } else if d == 3 {
        "3"
    } else if d == 4 {
        "4"
    } else if d == 5 {
        "5"
    } else if d == 6 {
        "6"
    } else if d == 7 {
        "7"
    } else if d == 8 {
        "8"
    } else {
        "9"
    };
    assert(s@ =~= seq![digit_char(d as int)]);
    s
}

/// Appends the decimal digits of `n` to `out`.
fn push_digits(out: &mut String, n: u128)
    ensures
        final(out)@ == old(out)@ + decimal_digits(n as nat),
    decreases n,
{
    if n >= 10 {
        push_digits(out, n / 10);
    }
    out.append(digit_str((n % 10) as u64));
}

/// Appends the decimal notation of `n` to `out`.
pub fn push_decimal(out: &mut String, n: i64)
    ensures
        final(out)@ == old(out)@ + decimal(n as int),
{
    if n < 0 {
        out.append("-");
        proof {
            reveal_strlit("-");
        }
        push_digits(out, (-(n as i128)) as u128);
        assert(out@ == old(out)@ + decimal(n as int));
    } else {
        push_digits(out, n as u128);
    }
}

/// Appends the decimal notation of `n` to `out`.
pub fn push_decimal_u64(out: &mut String, n: u64)
    ensures
        final(out)@ == old(out)@ + decimal(n as int),
{
    push_digits(out, n as u128);
}

/// Whether `c` is one of the digits '0' to '9'.
pub open spec fn is_digit(c: char) -> bool {
    '0' <= c && c <= '9'
}

/// Whether `s` holds digits only.
pub open spec fn all_digits(s: Seq<char>) -> bool {
    forall|i: int| 0 <= i < s.len() ==> is_digit(#[trigger] s[i])
}

/// The number that the digits of `s` denote in decimal notation.
pub open spec fn digits_number(s: Seq<char>) -> nat
    decreases s.len(),
{
    if s.len() == 0 {
        0
    } else {
        10 * digits_number(s.drop_last()) + (s.last() as nat - 48) as nat
    }
}

/// The number that `s` denotes where it is one or more digits.
pub open spec fn plain_number(s: Seq<char>) -> Option<nat> {
    if s.len() > 0 && all_digits(s) {
        Some(digits_number(s))
    } else {
        None
    }
}

/// The number that `s` denotes where it is one or more digits, after a plus
/// sign or not.
pub open spec fn unsigned_number(s: Seq<char>) -> Option<nat> {
    if s.len() > 0 && s[0] == '+' {
        plain_number(s.drop_first())
    } else {
        plain_number(s)
    }
}

/// The number that `s` denotes where it is one or more digits, after a plus
/// or minus sign or not.
pub open spec fn signed_number(s: Seq<char>) -> Option<int> {
    if s.len() > 0 && s[0] == '-' {
        match plain_number(s.drop_first()) {
            Some(n) => Some(-(n as int)),
            None => None,
        }
    } else {
        match unsigned_number(s) {
            Some(n) => Some(n as int),
            None => None,
        }
    }
}

/// The `u64` that `s` denotes, if any.
pub open spec fn u64_of(s: Seq<char>) -> Option<u64> {
    match unsigned_number(s) {
        Some(v) if v <= u64::MAX => Some(v as u64),
        _ => None,
    }
}

/// The `u32` that `s` denotes, if any.
pub open spec fn u32_of(s: Seq<char>) -> Option<u32> {
    match unsigned_number(s) {
        Some(v) if v <= u32::MAX => Some(v as u32),
        _ => None,
    }
}

/// The `i64` that `s` denotes, if any.
pub open spec fn i64_of(s: Seq<char>) -> Option<i64> {
    match signed_number(s) {
        Some(v) if i64::MIN <= v <= i64::MAX => Some(v as i64),
        _ => None,
    }
}

/// A longer run of digits denotes no smaller number.
proof fn lemma_number_grows(s: Seq<char>, k: int)
    requires
        all_digits(s),
        0 <= k <= s.len(),
    ensures
        digits_number(s.take(k)) <= digits_number(s),
    decreases s.len() - k,
{
    if k == s.len() {
        assert(s.take(k) == s);
    } else {
        lemma_number_grows(s, k + 1);
        assert(s.take(k + 1).drop_last() == s.take(k));
        assert(is_digit(s.take(k + 1).last()));
    }
}

/// The number that the characters of `s` from position `from` on denote,
/// where they are one or more digits and the number is at most `max`.
fn magnitude(s: &str, from: usize, max: u128) -> (m: Option<u128>)
    requires
        is_ascii_chars(s@),
        from <= s@.len(),
    ensures
        m == match plain_number(s@.skip(from as int)) {
            Some(n) if n <= max => Some(n as u128),
            _ => None,
        },
{
    let bytes = s.as_bytes();
    proof {
        is_ascii_chars_encode_utf8(s@);
    }
    let n = bytes.len();
    let ghost tail = s@.skip(from as int);
    if from >= n {
        return None;
    }
    let mut acc: u128 = 0;
    let mut i: usize = from;
    while i < n
        invariant
            from <= i <= n,
            n == s@.len(),
            n == bytes@.len(),
            tail == s@.skip(from as int),
            forall|k: int| 0 <= k < n ==> s@[k] as u8 == #[trigger] bytes@[k],
            forall|k: int| 0 <= k < n ==> '\0' <= #[trigger] s@[k] <= '\u{7f}',
            all_digits(tail.take(i - from)),
            acc == digits_number(tail.take(i - from)),
            acc <= max,
        decreases n - i,
    {
        let b = bytes[i];
        let ghost c = s@[i as int];
        assert(c == tail[i - from]);
        assert(c as u8 == b);
        if b < 48 || b > 57 {
            assert(!is_digit(tail[i - from]));
            return None;
        }
        let d = (b - 48) as u128;
        let ghost longer = tail.take(i - from + 1);
        assert(longer.drop_last() == tail.take(i - from));
        assert(longer.last() == c);
        assert(all_digits(longer));
        if d > max || acc > (max - d) / 10 {
            proof {
                assert(digits_number(longer) > max);
                if all_digits(tail) {
                    lemma_number_grows(tail, i - from + 1);
                }
            }
            return None;
        }
        acc = acc * 10 + d;
        i += 1;
    }
    assert(tail.take(n - from) == tail);
    Some(acc)
}

/// Whether `s` starts with the ASCII character of code `sign`.
fn starts_with_sign(s: &str, sign: u8) -> (starts: bool)
    requires
        is_ascii_chars(s@),
        sign < 128,
    ensures
        starts == (s@.len() > 0 && s@[0] as u8 == sign),
{
    let bytes = s.as_bytes();
    proof {
        is_ascii_chars_encode_utf8(s@);
    }
    bytes.len() > 0 && bytes[0] == sign
}

/// A string with a character that is not ASCII denotes no number.
proof fn lemma_numbers_are_ascii(s: Seq<char>)
    requires
        !is_ascii_chars(s),
    ensures
        unsigned_number(s) is None,
        signed_number(s) is None,
{
    let i = choose|i: int| 0 <= i < s.len() && !('\0' <= #[trigger] s[i] <= '\u{7f}');
    assert(!is_digit(s[i]));
    if i > 0 {
        assert(s.drop_first()[i - 1] == s[i]);
    }
}

/// The number that `s` denotes, where it is one written in decimal notation
/// without a sign or after a plus sign and is at most `max`.
fn parse_unsigned(s: &str, max: u128) -> (n: Option<u128>)
    ensures
        n == match unsigned_number(s@) {
            Some(v) if v <= max => Some(v as u128),
            _ => None,
        },
{
    if !s.is_ascii() {
        proof {
            lemma_numbers_are_ascii(s@);
        }
        return None;
    }
    if starts_with_sign(s, 43) {
        assert(s@.drop_first() == s@.skip(1));
        magnitude(s, 1, max)
    } else {
        assert(s@.skip(0) == s@);
        magnitude(s, 0, max)
    }
}

/// The `u64` that `s` denotes: one or more decimal digits, after a plus sign
/// or not, and nothing else. Anything else, and a number too large for the
/// type, gives `None`.
pub fn parse_u64(s: &str) -> (n: Option<u64>)
    ensures
        n == u64_of(s@),
{
    match parse_unsigned(s, 0xffff_ffff_ffff_ffff) {
        Some(v) => Some(v as u64),
        None => None,
    }
}

/// The `u32` that `s` denotes: one or more decimal digits, after a plus sign
/// or not, and nothing else. Anything else, and a number too large for the
/// type, gives `None`.
pub fn parse_u32(s: &str) -> (n: Option<u32>)
    ensures
        n == u32_of(s@),
{
    match parse_unsigned(s, 0xffff_ffff) {
        Some(v) => Some(v as u32),
        None => None,
    }
}

/// The `i64` that `s` denotes: one or more decimal digits, after a plus or
/// minus sign or not, and nothing else. Anything else, and a number outside
/// the type, gives `None`.
pub fn parse_i64(s: &str) -> (n: Option<i64>)
    ensures
        n == i64_of(s@),
{
    if !s.is_ascii() {
        proof {
            lemma_numbers_are_ascii(s@);
        }
        return None;
    }
    if starts_with_sign(s, 45) {
        assert(s@.drop_first() == s@.skip(1));
        match magnitude(s, 1, 0x8000_0000_0000_0000) {
            Some(v) => Some((-(v as i128)) as i64),
            None => None,
        }
    } else {
        match parse_unsigned(s, 0x7fff_ffff_ffff_ffff) {
            Some(v) => Some(v as i64),
            None => None,
        }
    }
}

/// The decimal digits of a number are one or more digits that denote it.
pub proof fn lemma_digits_denote(n: nat)
    ensures
        decimal_digits(n).len() > 0,
        all_digits(decimal_digits(n)),
        digits_number(decimal_digits(n)) == n,
    decreases n,
{
    let d = decimal_digits(n);
    if n < 10 {
        assert(d.drop_last() == Seq::<char>::empty());
        assert(digits_number(Seq::<char>::empty()) == 0);
        assert(d.last() == digit_char(n as int));
    } else {
        lemma_digits_denote(n / 10);
        assert(d.drop_last() == decimal_digits(n / 10));
        assert(d.last() == digit_char((n % 10) as int));
        assert forall|i: int| 0 <= i < d.len() implies is_digit(#[trigger] d[i]) by {
            if i < d.len() - 1 {
                assert(d[i] == decimal_digits(n / 10)[i]);
            }
        }
    }
}

/// Decimal notation holds nothing but digits and, in front, a minus sign.
pub proof fn lemma_decimal_is_plain(n: int)
    ensures
        decimal(n).len() > 0,
        forall|i: int|
            0 <= i < decimal(n).len() ==> is_digit(#[trigger] decimal(n)[i]) || decimal(n)[i]
                == '-',
{
    if n < 0 {
        lemma_digits_denote((-n) as nat);
        let d = decimal_digits((-n) as nat);
        assert forall|i: int| 0 <= i < decimal(n).len() implies is_digit(#[trigger] decimal(n)[i])
            || decimal(n)[i] == '-' by {
            if i > 0 {
                assert(decimal(n)[i] == d[i - 1]);
            }
        }
    } else {
        lemma_digits_denote(n as nat);
    }
}

/// What is written is read back: the decimal notation of an `i64` denotes it.
pub proof fn law_decimal_reads_back_i64(n: i64)
    ensures
        i64_of(decimal(n as int)) == Some(n),
{
    let s = decimal(n as int);
    if n < 0 {
        let m = (-n) as nat;
        lemma_digits_denote(m);
        assert(s[0] == '-');
        assert(s.drop_first() == decimal_digits(m));
    } else {
        lemma_digits_denote(n as nat);
        assert(is_digit(s[0]));
    }
}

/// What is written is read back: the decimal notation of a `u64` denotes it.
pub proof fn law_decimal_reads_back_u64(n: u64)
    ensures
        u64_of(decimal(n as int)) == Some(n),
{
    let s = decimal(n as int);
    lemma_digits_denote(n as nat);
    assert(is_digit(s[0]));
}

/// A text without the separator is one field.
pub proof fn lemma_fields_of_plain(s: Seq<char>, sep: char, open: Seq<char>)
    requires
        forall|i: int| 0 <= i < s.len() ==> s[i] != sep,
    ensures
        fields_after(s, sep, open) == seq![open + s],
    decreases s.len(),
{
    if s.len() == 0 {
        assert(open + s == open);
    } else {
        lemma_fields_of_plain(s.drop_first(), sep, open.push(s[0]));
        assert(open.push(s[0]) + s.drop_first() == open + s);
    }
}

/// The first separator ends the first field: where `a` is without the
/// separator, the fields of `a`, the separator and `b` are `a` and the
/// fields of `b`.
pub proof fn lemma_fields_cut(a: Seq<char>, sep: char, b: Seq<char>, open: Seq<char>)
    requires
        forall|i: int| 0 <= i < a.len() ==> a[i] != sep,
    ensures
        fields_after(a + seq![sep] + b, sep, open) == seq![open + a] + fields(b, sep),
    decreases a.len(),
{
    let s = a + seq![sep] + b;
    if a.len() == 0 {
        assert(s[0] == sep);
        assert(s.drop_first() == b);
        assert(open + a == open);
    } else {
        assert(s[0] == a[0]);
        assert(s.drop_first() == a.drop_first() + seq![sep] + b);
        lemma_fields_cut(a.drop_first(), sep, b, open.push(a[0]));
        assert(open.push(a[0]) + a.drop_first() == open + a);
    }
}

} // verus!
