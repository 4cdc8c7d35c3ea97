use vstd::prelude::*;
use vstd::string::*;

verus! {

/// Whether `c` is an ASCII decimal digit.
pub open spec fn is_digit_spec(c: char) -> bool {
    '0' <= c && c <= '9'
}

/// `char::is_ascii_digit`, written out.
pub fn is_ascii_digit(c: char) -> (r: bool)
    ensures
        r == is_digit_spec(c),
{
    c >= '0' && c <= '9'
}

/// The Unicode `White_Space` property, which `char::is_whitespace` tests: the
/// controls U+0009 to U+000D, the space, U+0085, U+00A0, U+1680, U+2000 to
/// U+200A, the line and paragraph separators U+2028 and U+2029, U+202F, U+205F
/// and U+3000.
pub open spec fn char_is_whitespace(c: char) -> bool {
    ||| '\u{9}' <= c && c <= '\u{d}'
    ||| c == ' '
    ||| c == '\u{85}'
    ||| c == '\u{a0}'
    ||| c == '\u{1680}'
    ||| '\u{2000}' <= c && c <= '\u{200a}'
    ||| c == '\u{2028}'
    ||| c == '\u{2029}'
    ||| c == '\u{202f}'
    ||| c == '\u{205f}'
    ||| c == '\u{3000}'
}

/// The Unicode `Alphabetic` property, as `char::is_alphabetic` decides it.
pub uninterp spec fn char_is_alphabetic(c: char) -> bool;

/// `Alphabetic` or `Numeric`, as `char::is_alphanumeric` decides it.
pub uninterp spec fn char_is_alphanumeric(c: char) -> bool;

/// Whether `c` has the `White_Space` property, as `char::is_whitespace` tells.
pub fn is_whitespace(c: char) -> (r: bool)
    ensures
        r == char_is_whitespace(c),
{
    ('\u{9}' <= c && c <= '\u{d}') || c == ' ' || c == '\u{85}' || c == '\u{a0}' || c
        == '\u{1680}' || ('\u{2000}' <= c && c <= '\u{200a}') || c == '\u{2028}' || c
        == '\u{2029}' || c == '\u{202f}' || c == '\u{205f}' || c == '\u{3000}'
}

/// Calls `char::is_alphabetic`; the result is named `char_is_alphabetic`. Among
/// the ASCII characters exactly the letters are alphabetic; which other
/// characters are is left to the name.
#[verifier::external_body]
pub(crate) fn is_alphabetic(c: char) -> (r: bool)
    ensures
        r == char_is_alphabetic(c),
        c < '\u{80}' ==> (r <==> (('a' <= c && c <= 'z') || ('A' <= c && c <= 'Z'))),
{
    c.is_alphabetic()
}

/// Calls `char::is_alphanumeric`; the result is named `char_is_alphanumeric`.
/// Its documentation says that a character is alphanumeric where it is
/// alphabetic or numeric; among the ASCII characters exactly the letters and
/// digits are. Which other characters are numeric is left to the name.
#[verifier::external_body]
pub(crate) fn is_alphanumeric(c: char) -> (r: bool)
    ensures
        r == char_is_alphanumeric(c),
        char_is_alphabetic(c) ==> r,
        is_digit_spec(c) ==> r,
        c < '\u{80}' ==> (r <==> (('a' <= c && c <= 'z') || ('A' <= c && c <= 'Z') || is_digit_spec(
            c,
        ))),
{
    c.is_alphanumeric()
}

/// Calls `String::push`, which appends one character.
#[verifier::external_body]
pub(crate) fn push_char(s: &mut String, c: char)
    ensures
        final(s)@ == old(s)@.push(c),
{
    s.push(c)
}

/// Whether two strings hold the same characters.
pub fn str_eq(a: &str, b: &str) -> (r: bool)
    ensures
        r == (a@ == b@),
{
    let n = a.unicode_len();
    if n != b.unicode_len() {
        return false;
    }
    let mut i: usize = 0;
    while i < n
        invariant
            n == a@.len(),
            n == b@.len(),
            i <= n,
            forall|j: int| 0 <= j < i ==> a@[j] == b@[j],
        decreases n - i,
    {
        if a.get_char(i) != b.get_char(i) {
            return false;
        }
        i = i + 1;
    }
    assert(a@ =~= b@);
    true
}

/// The first index from `i` on whose character is not an ASCII digit, or the end.
pub open spec fn digits_end(s: Seq<char>, i: int) -> int
    decreases s.len() - i,
{
    if i < 0 || i >= s.len() || !is_digit_spec(s[i]) {
        i
    } else {
        digits_end(s, i + 1)
    }
}

pub proof fn lemma_digits_end_bounds(s: Seq<char>, i: int)
    requires
        0 <= i <= s.len(),
    ensures
        i <= digits_end(s, i) <= s.len(),
        forall|j: int| i <= j < digits_end(s, i) ==> is_digit_spec(#[trigger] s[j]),
    decreases s.len() - i,
{
    if i < s.len() && is_digit_spec(s[i]) {
        lemma_digits_end_bounds(s, i + 1);
    }
}

/// The index past the ASCII digits that start at `i`.
pub fn skip_digits(s: &str, i: usize) -> (r: usize)
    requires
        i <= s@.len(),
    ensures
        r == digits_end(s@, i as int),
{
    let n = s.unicode_len();
    let mut j = i;
    while j < n && is_ascii_digit(s.get_char(j))
        invariant
            n == s@.len(),
            i <= j <= n,
            digits_end(s@, j as int) == digits_end(s@, i as int),
        decreases n - j,
    {
        j = j + 1;
    }
    j
}

/// Whether `c` is the lower-case ASCII letter `l` in either case.
pub open spec fn same_letter(c: char, l: char) -> bool {
    c == l || c as u32 + 32 == l as u32
}

/// Whether `s` is `w` (given in lower-case ASCII letters) up to case.
pub open spec fn eq_ignore_case(s: Seq<char>, w: Seq<char>) -> bool {
    s.len() == w.len() && forall|i: int| 0 <= i < s.len() ==> same_letter(#[trigger] s[i], w[i])
}

/// Digit runs in a suffix of `s` end where they end in `s`.
pub proof fn lemma_digits_end_subrange(s: Seq<char>, a: int, k: int)
    requires
        0 <= a <= s.len(),
        0 <= k <= s.len() - a,
    ensures
        digits_end(s.subrange(a, s.len() as int), k) == digits_end(s, a + k) - a,
    decreases s.len() - a - k,
{
    let t = s.subrange(a, s.len() as int);
    if k < t.len() {
        assert(t[k] == s[a + k]);
        if is_digit_spec(t[k]) {
            lemma_digits_end_subrange(s, a, k + 1);
        }
    }
}

/// Whether the characters of `s` from `start` on are `w` (lower-case ASCII
/// letters) up to case.
fn matches_ignore_case(s: &str, start: usize, w: &str) -> (r: bool)
    requires
        start <= s@.len(),
    ensures
        r == eq_ignore_case(s@.subrange(start as int, s@.len() as int), w@),
{
    let ghost t = s@.subrange(start as int, s@.len() as int);
    let n = s.unicode_len();
    let m = w.unicode_len();
    if n - start != m {
        return false;
    }
    let mut i: usize = 0;
    while i < m
        invariant
            n == s@.len(),
            m == w@.len(),
            n - start == m,
            t == s@.subrange(start as int, s@.len() as int),
            i <= m,
            forall|j: int| 0 <= j < i ==> same_letter(#[trigger] t[j], w@[j]),
        decreases m - i,
    {
        let c = s.get_char(start + i);
        let l = w.get_char(i);
        assert(t[i as int] == c);
        if !(c == l || (c as u32) + 32 == l as u32) {
            return false;
        }
        i = i + 1;
    }
    true
}

/// Whether `str::parse::<f32>` (or `f64`) accepts `s`, by the grammar of
/// `float_syntax`.
pub fn is_float_literal(s: &str) -> (r: bool)
    ensures
        r == float_syntax(s@),
{
    proof {
        reveal_strlit("inf");
        reveal_strlit("infinity");
        reveal_strlit("nan");
        assert("inf"@ =~= seq!['i', 'n', 'f']);
        assert("infinity"@ =~= seq!['i', 'n', 'f', 'i', 'n', 'i', 't', 'y']);
        assert("nan"@ =~= seq!['n', 'a', 'n']);
    }
    let n = s.unicode_len();
    let start: usize = if n > 0 && (s.get_char(0) == '+' || s.get_char(0) == '-') { 1 } else { 0 };
    let ghost t = s@.subrange(start as int, n as int);
    assert(t =~= if s@.len() > 0 && (s@[0] == '+' || s@[0] == '-') { s@.drop_first() } else { s@ });
    if matches_ignore_case(s, start, "inf") || matches_ignore_case(s, start, "infinity")
        || matches_ignore_case(s, start, "nan") {
        return true;
    }
    let i1 = skip_digits(s, start);
    proof {
        lemma_digits_end_subrange(s@, start as int, 0);
        lemma_digits_end_bounds(s@, start as int);
    }
    let has_dot = i1 < n && s.get_char(i1) == '.';
    let i2 = if has_dot {
        proof {
            lemma_digits_end_subrange(s@, start as int, i1 - start + 1);
            lemma_digits_end_bounds(s@, i1 + 1);
        }
        skip_digits(s, i1 + 1)
    } else {
        i1
    };
    let ndigits = if has_dot { i2 - start - 1 } else { i1 - start };
    if ndigits < 1 {
        return false;
    }
    if i2 == n {
        return true;
    }
    // an exponent must follow
    let ghost e = s@.subrange(i2 as int, n as int);
    assert(t.subrange(i2 - start, t.len() as int) =~= e);
    if n - i2 < 2 {
        return false;
    }
    let c0 = s.get_char(i2);
    if c0 != 'e' && c0 != 'E' {
        return false;
    }
    let c1 = s.get_char(i2 + 1);
    let d: usize = if c1 == '+' || c1 == '-' { 2 } else { 1 };
    assert(e[0] == c0 && e[1] == c1);
    if i2 + d >= n {
        return false;
    }
    let j = skip_digits(s, i2 + d);
    proof {
        lemma_digits_end_subrange(s@, i2 as int, d as int);
    }
    j == n
}

/// An exponent: `e` or `E`, an optional sign, then at least one digit, up to the end.
pub open spec fn exponent_syntax(t: Seq<char>) -> bool {
    t.len() >= 2 && (t[0] == 'e' || t[0] == 'E') && {
        let d = if t[1] == '+' || t[1] == '-' { 2int } else { 1int };
        d < t.len() && digits_end(t, d) == t.len()
    }
}

/// A decimal number: digits, optionally a `.` and digits, with a digit on at
/// least one side of the dot, then an optional exponent.
pub open spec fn number_syntax(t: Seq<char>) -> bool {
    let i1 = digits_end(t, 0);
    let has_dot = i1 < t.len() && t[i1] == '.';
    let i2 = if has_dot { digits_end(t, i1 + 1) } else { i1 };
    let ndigits = if has_dot { i1 + (i2 - i1 - 1) } else { i1 };
    ndigits >= 1 && (i2 == t.len() || exponent_syntax(t.subrange(i2, t.len() as int)))
}

/// The strings that `str::parse::<f32>` and `str::parse::<f64>` accept, by the
/// grammar that their documentation gives: an optional sign, then `inf`,
/// `infinity`, `nan` (in any case) or a decimal number.
pub open spec fn float_syntax(s: Seq<char>) -> bool {
    let t = if s.len() > 0 && (s[0] == '+' || s[0] == '-') { s.drop_first() } else { s };
    ||| eq_ignore_case(t, seq!['i', 'n', 'f'])
    ||| eq_ignore_case(t, seq!['i', 'n', 'f', 'i', 'n', 'i', 't', 'y'])
    ||| eq_ignore_case(t, seq!['n', 'a', 'n'])
    ||| number_syntax(t)
}

/// The value of a string of decimal digits.
pub open spec fn digits_value(d: Seq<char>) -> int
    decreases d.len(),
{
    if d.len() == 0 {
        0
    } else {
        digits_value(d.drop_last()) * 10 + (d.last() as int - '0' as int)
    }
}

/// Every character of `d` is an ASCII digit.
pub open spec fn all_digits(d: Seq<char>) -> bool {
    forall|i: int| 0 <= i < d.len() ==> is_digit_spec(#[trigger] d[i])
}

/// What `str::parse` gives for an integer type whose values are `lo..=hi`:
/// an optional sign (`-` only where the type has negative values), then one or
/// more ASCII digits, whose value must lie in the range.
pub open spec fn parse_int_spec(s: Seq<char>, lo: int, hi: int) -> Option<int> {
    if s.len() == 0 {
        None
    } else {
        let neg = s[0] == '-' && lo < 0;
        let d = if s[0] == '+' || neg { s.drop_first() } else { s };
        if d.len() == 0 || !all_digits(d) {
            None
        } else {
            let v = if neg { -digits_value(d) } else { digits_value(d) };
            if lo <= v && v <= hi { Some(v) } else { None }
        }
    }
}

proof fn lemma_digits_value_nonneg(d: Seq<char>)
    requires
        all_digits(d),
    ensures
        digits_value(d) >= 0,
    decreases d.len(),
{
    if d.len() > 0 {
        assert(is_digit_spec(d[d.len() - 1]));
        lemma_digits_value_nonneg(d.drop_last());
    }
}

/// The value of a digit string is at least that of each of its prefixes.
proof fn lemma_digits_value_prefix(d: Seq<char>, i: int)
    requires
        all_digits(d),
        0 <= i <= d.len(),
    ensures
        digits_value(d.take(i)) <= digits_value(d),
    decreases d.len() - i,
{
    if i < d.len() {
        lemma_digits_value_prefix(d, i + 1);
        let t = d.take(i + 1);
        assert(t.drop_last() =~= d.take(i));
        assert(is_digit_spec(d[i]));
        assert(all_digits(d.take(i))) by {
            assert forall|j: int| 0 <= j < i implies is_digit_spec(#[trigger] d.take(i)[j]) by {
                assert(d.take(i)[j] == d[j]);
            }
        }
        lemma_digits_value_nonneg(d.take(i));
    } else {
        assert(d.take(i) =~= d);
    }
}

/// `str::parse` for an integer type whose values are `lo..=hi`.
pub fn parse_int(s: &str, lo: i128, hi: i128) -> (r: Option<i128>)
    requires
        -0x1_0000_0000_0000_0000 <= lo <= 0 <= hi <= 0xffff_ffff_ffff_ffff,
    ensures
        r is Some <==> parse_int_spec(s@, lo as int, hi as int) is Some,
        r matches Some(v) ==> parse_int_spec(s@, lo as int, hi as int) == Some(v as int),
{
    let n = s.unicode_len();
    if n == 0 {
        return None;
    }
    let first = s.get_char(0);
    assert(first == s@[0]);
    let neg = first == '-' && lo < 0;
    let start: usize = if first == '+' || neg { 1 } else { 0 };
    let ghost d = if first == '+' || neg { s@.drop_first() } else { s@ };
    assert(d =~= s@.subrange(start as int, n as int));
    if start == n {
        return None;
    }
    let limit: u128 = if neg { (0 - lo) as u128 } else { hi as u128 };
    let mut acc: u128 = 0;
    let mut i: usize = start;
    while i < n
        invariant
            n == s@.len(),
            start <= i <= n,
            d =~= s@.subrange(start as int, n as int),
            s@.len() > 0,
            neg == (s@[0] == '-' && lo < 0),
            d == (if s@[0] == '+' || neg { s@.drop_first() } else { s@ }),
            -0x1_0000_0000_0000_0000 <= lo <= 0 <= hi <= 0xffff_ffff_ffff_ffff,
            limit == (if neg { -lo } else { hi as int }),
            limit <= 0x1_0000_0000_0000_0000,
            acc <= limit,
            all_digits(d.take(i - start)),
            acc as int == digits_value(d.take(i - start)),
        decreases n - i,
    {
        let c = s.get_char(i);
        let ghost k: int = i - start;
        assert(d[k] == c);
        if !is_ascii_digit(c) {
            assert(!is_digit_spec(d[k]));
            assert(!all_digits(d));
            return None;
        }
        let dg: u8 = if c == '0' { 0 } else if c == '1' { 1 } else if c == '2' { 2 } else if c
            == '3' { 3 } else if c == '4' { 4 } else if c == '5' { 5 } else if c == '6' { 6 } else if c
            == '7' { 7 } else if c == '8' { 8 } else { 9 };
        assert(dg as int == c as int - '0' as int);
        let next = acc * 10 + dg as u128;
        proof {
            let t = d.take(k + 1);
            assert(t.drop_last() =~= d.take(k));
            assert(t.last() == c);
            assert(all_digits(t)) by {
                assert forall|j: int| 0 <= j < t.len() implies is_digit_spec(#[trigger] t[j]) by {
                    if j < k {
                        assert(t[j] == d.take(k)[j]);
                    }
                }
            }
        }
        if next > limit {
            proof {
                if all_digits(d) {
                    lemma_digits_value_prefix(d, k + 1);
                    assert(next as int == digits_value(d.take(k + 1)));
                }
            }
            return None;
        }
        acc = next;
        i = i + 1;
    }
    assert(d.take(n - start) =~= d);
    if neg {
        Some(0 - acc as i128)
    } else {
        Some(acc as i128)
    }
}

/// The decimal digits of `n`, most significant first, without leading zeros.
pub open spec fn nat_decimal(n: nat) -> Seq<char>
    decreases n,
{
    if n < 10 {
        seq![((n + 48) as u8) as char]
    } else {
        nat_decimal(n / 10).push((((n % 10) + 48) as u8) as char)
    }
}

/// How `to_string` writes an integer: a `-` for negative values, then the digits.
pub open spec fn int_decimal(v: int) -> Seq<char> {
    if v < 0 {
        seq!['-'] + nat_decimal((-v) as nat)
    } else {
        nat_decimal(v as nat)
    }
}

/// The decimal digits of `n` are digits, at least one, and have the value `n`.
pub proof fn lemma_nat_decimal(n: nat)
    ensures
        nat_decimal(n).len() >= 1,
        all_digits(nat_decimal(n)),
        digits_value(nat_decimal(n)) == n,
    decreases n,
{
    let s = nat_decimal(n);
    if n < 10 {
        let c = ((n + 48) as u8) as char;
        assert(c as int == n + 48);
        assert(s.drop_last() =~= Seq::<char>::empty());
        assert(s.last() == c);
        assert(digits_value(s) == digits_value(s.drop_last()) * 10 + (c as int - '0' as int));
        assert(is_digit_spec(s[0]));
    } else {
        lemma_nat_decimal(n / 10);
        let p = nat_decimal(n / 10);
        let c = (((n % 10) + 48) as u8) as char;
        assert(c as int == n % 10 + 48);
        assert(s.drop_last() =~= p);
        assert(s.last() == c);
        assert(digits_value(s) == digits_value(p) * 10 + (c as int - '0' as int));
        assert(n == (n / 10) * 10 + n % 10);
        assert forall|i: int| 0 <= i < s.len() implies is_digit_spec(#[trigger] s[i]) by {
            if i < p.len() {
                assert(s[i] == p[i]);
            }
        }
    }
}

/// Parsing the decimal text of `v` at a type whose values are `lo..=hi`, where
/// `v` is one of them, gives `v` back.
pub proof fn lemma_int_decimal_parses(v: int, lo: int, hi: int)
    requires
        lo <= v <= hi,
        lo <= 0 <= hi,
    ensures
        parse_int_spec(int_decimal(v), lo, hi) == Some(v),
{
    let s = int_decimal(v);
    if v < 0 {
        let m = (-v) as nat;
        lemma_nat_decimal(m);
        assert(s[0] == '-');
        assert(s.drop_first() =~= nat_decimal(m));
    } else {
        lemma_nat_decimal(v as nat);
        assert(is_digit_spec(s[0]));
    }
}

pub(crate) fn push_decimal(s: &mut String, n: u128)
    ensures
        final(s)@ == old(s)@ + nat_decimal(n as nat),
    decreases n,
{
    if n >= 10 {
        push_decimal(s, n / 10);
    }
    let dg: u8 = (n % 10) as u8;
    push_char(s, (dg + 48) as char);
    proof {
        if n < 10 {
            assert(old(s)@.push(((n + 48) as u8) as char) =~= old(s)@ + nat_decimal(n as nat));
        } else {
            assert(nat_decimal(n as nat) == nat_decimal((n / 10) as nat).push(
                (((n % 10) + 48) as u8) as char,
            ));
        }
    }
}

/// The decimal text of an integer, as `to_string` writes it.
pub fn decimal_string(v: i128) -> (s: String)
    requires
        v > i128::MIN,
    ensures
        s@ == int_decimal(v as int),
{
    let mut s = String::new();
    if v < 0 {
        push_char(&mut s, '-');
        push_decimal(&mut s, (0 - v) as u128);
    } else {
        push_decimal(&mut s, v as u128);
    }
    s
}

} // verus!
