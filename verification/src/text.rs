//! Character-level helpers on strings, stated over `Seq<char>`.

use vstd::prelude::*;
use vstd::string::*;

verus! {

/// `p` is a prefix of `s`.
pub open spec fn seq_starts_with(s: Seq<char>, p: Seq<char>) -> bool {
    p.len() <= s.len() && s.subrange(0, p.len() as int) == p
}

/// `p` occurs somewhere in `s`.
pub open spec fn seq_contains(s: Seq<char>, p: Seq<char>) -> bool {
    exists|i: int| 0 <= i && i + p.len() <= s.len() && #[trigger] s.subrange(i, i + p.len()) == p
}

/// Every character of `s` is ASCII.
pub open spec fn is_ascii_seq(s: Seq<char>) -> bool {
    forall|i: int| 0 <= i < s.len() ==> (#[trigger] s[i] as u32) < 128
}

/// The ASCII lower-case form of one character; other characters are kept.
pub open spec fn ascii_lower_char(c: char) -> char {
    if 'A' <= c && c <= 'Z' {
        ((c as u32) + 32) as char
    } else {
        c
    }
}

/// The ASCII lower-case form of a character sequence.
pub open spec fn ascii_lower(s: Seq<char>) -> Seq<char> {
    s.map_values(|c: char| ascii_lower_char(c))
}

/// What `str::to_lowercase` returns for `s`.
pub uninterp spec fn unicode_lowercase(s: Seq<char>) -> Seq<char>;

/// Calls `str::to_lowercase`. Its result is named `unicode_lowercase`; on
/// ASCII input it maps `A`..`Z` to `a`..`z` and keeps every other character,
/// as the Unicode lower-case mapping does for the ASCII range.
#[verifier::external_body]
pub fn to_lowercase(s: &str) -> (r: String)
    ensures
        r@ == unicode_lowercase(s@),
        is_ascii_seq(s@) ==> r@ == ascii_lower(s@),
{
    s.to_lowercase()
}

/// Builds a `String` from its characters with `Iterator::collect`.
#[verifier::external_body]
pub fn string_from_chars(v: &[char]) -> (r: String)
    ensures
        r@ == v@,
{
    v.iter().collect()
}

/// The characters of `s`, in order.
pub fn chars_of(s: &str) -> (r: Vec<char>)
    ensures
        r@ == s@,
{
    let n = s.unicode_len();
    let mut v: Vec<char> = Vec::new();
    let mut i: usize = 0;
    while i < n
        invariant
            n == s@.len(),
            i <= n,
            v@ == s@.subrange(0, i as int),
        decreases n - i,
    {
        v.push(s.get_char(i));
        i += 1;
    }
    v
}

/// `p` is a prefix of `s`, on character vectors.
pub fn chars_start_with(s: &[char], p: &[char]) -> (r: bool)
    ensures
        r == seq_starts_with(s@, p@),
{
    if p.len() > s.len() {
        return false;
    }
    let mut i: usize = 0;
    while i < p.len()
        invariant
            p@.len() <= s@.len(),
            i <= p@.len(),
            forall|j: int| 0 <= j < i ==> s@[j] == p@[j],
        decreases p.len() - i,
    {
        if s[i] != p[i] {
            assert(s@.subrange(0, p@.len() as int)[i as int] != p@[i as int]);
            return false;
        }
        i += 1;
    }
    assert(s@.subrange(0, p@.len() as int) =~= p@);
    true
}

/// `p` occurs in `s` at position `at`, on character vectors.
pub fn chars_match_at(s: &[char], p: &[char], at: usize) -> (r: bool)
    requires
        at + p@.len() <= s@.len(),
    ensures
        r == (s@.subrange(at as int, at + p@.len()) == p@),
{
    let n = s.len();
    let mut i: usize = 0;
    while i < p.len()
        invariant
            n == s@.len(),
            at + p@.len() <= s@.len(),
            i <= p@.len(),
            forall|j: int| 0 <= j < i ==> s@[at + j] == p@[j],
        decreases p.len() - i,
    {
        if s[at + i] != p[i] {
            assert(s@.subrange(at as int, at + p@.len())[i as int] != p@[i as int]);
            return false;
        }
        i += 1;
    }
    assert(s@.subrange(at as int, at + p@.len()) =~= p@);
    true
}

/// `s` starts with `p`.
pub fn starts_with(s: &str, p: &str) -> (r: bool)
    ensures
        r == seq_starts_with(s@, p@),
{
    let sv = chars_of(s);
    let pv = chars_of(p);
    chars_start_with(sv.as_slice(), pv.as_slice())
}

/// `p` occurs somewhere in `s`.
pub fn contains(s: &str, p: &str) -> (r: bool)
    ensures
        r == seq_contains(s@, p@),
{
    let sv = chars_of(s);
    let pv = chars_of(p);
    if pv.len() > sv.len() {
        assert forall|i: int| 0 <= i && i + p@.len() <= s@.len() implies
            #[trigger] s@.subrange(i, i + p@.len()) != p@ by {}
        return false;
    }
    let last = sv.len() - pv.len();
    let mut i: usize = 0;
    loop
        invariant
            sv@ == s@,
            pv@ == p@,
            last == s@.len() - p@.len(),
            p@.len() <= s@.len(),
            i <= last,
            forall|j: int| 0 <= j < i ==> #[trigger] s@.subrange(j, j + p@.len()) != p@,
        decreases last - i,
    {
        if chars_match_at(sv.as_slice(), pv.as_slice(), i) {
            return true;
        }
        if i == last {
            assert forall|j: int| 0 <= j && j + p@.len() <= s@.len() implies
                #[trigger] s@.subrange(j, j + p@.len()) != p@ by {
                if j < i {
                } else {
                    assert(j == i);
                }
            }
            return false;
        }
        i += 1;
    }
}

/// `a` and `b` hold the same characters.
pub fn str_eq(a: &str, b: &str) -> (r: bool)
    ensures
        r == (a@ == b@),
{
    let x = String::from_str(a);
    let y = String::from_str(b);
    x == y
}

/// A copy of `s` as an owned `String`.
pub fn owned(s: &str) -> (r: String)
    ensures
        r@ == s@,
{
    String::from_str(s)
}

/// `a` followed by `b`.
pub fn concat(a: &str, b: &str) -> (r: String)
    ensures
        r@ == a@ + b@,
{
    let mut x = String::from_str(a);
    x.append(b);
    x
}

/// The characters of `s` from position `from` on.
pub fn suffix_from(s: &str, from: usize) -> (r: &str)
    requires
        from <= s@.len(),
    ensures
        r@ == s@.subrange(from as int, s@.len() as int),
{
    let n = s.unicode_len();
    s.substring_char(from, n)
}

/// The decimal digit for `d`.
pub open spec fn digit_char(d: nat) -> char {
    (('0' as u32) + d) as char
}

/// The decimal representation of `n`, without leading zeros (`"0"` for zero).
pub open spec fn decimal(n: nat) -> Seq<char>
    decreases n,
{
    if n < 10 {
        seq![digit_char(n)]
    } else {
        decimal(n / 10).push(digit_char(n % 10))
    }
}

/// Appends the decimal representation of `n` to `out`.
fn push_decimal(n: u64, out: &mut Vec<char>)
    ensures
        final(out)@ == old(out)@ + decimal(n as nat),
    decreases n,
{
    if n >= 10 {
        push_decimal(n / 10, out);
    }
    out.push(char_of_digit(n % 10));
    proof {
        if n >= 10 {
            assert(old(out)@ + decimal(n as nat) =~= old(out)@ + decimal((n / 10) as nat) + seq![digit_char((n % 10) as nat)]);
        }
    }
}

/// The decimal representation of `n`, as `Display` writes it.
pub fn u64_to_decimal(n: u64) -> (r: String)
    ensures
        r@ == decimal(n as nat),
{
    let mut out: Vec<char> = Vec::new();
    push_decimal(n, &mut out);
    assert(out@ =~= decimal(n as nat));
    string_from_chars(out.as_slice())
}

/// The character for the decimal digit `d`.
fn char_of_digit(d: u64) -> (c: char)
    requires
        d < 10,
    ensures
        c == digit_char(d as nat),
{
    if d == 0 { '0' } else if d == 1 { '1' } else if d == 2 { '2' } else if d == 3 { '3' }
    else if d == 4 { '4' } else if d == 5 { '5' } else if d == 6 { '6' } else if d == 7 { '7' }
    else if d == 8 { '8' } else { '9' }
}

/// The pieces of `s` between occurrences of `sep`, as `str::split` yields them.
pub open spec fn split_spec(s: Seq<char>, sep: char) -> Seq<Seq<char>>
    decreases s.len(),
{
    if s.len() == 0 {
        seq![Seq::<char>::empty()]
    } else {
        let parts = split_spec(s.drop_last(), sep);
        if s.last() == sep {
            parts.push(Seq::<char>::empty())
        } else {
            parts.update(parts.len() - 1, parts.last().push(s.last()))
        }
    }
}

/// Splitting always yields at least one piece.
pub proof fn lemma_split_nonempty(s: Seq<char>, sep: char)
    ensures
        split_spec(s, sep).len() >= 1,
    decreases s.len(),
{
    if s.len() > 0 {
        lemma_split_nonempty(s.drop_last(), sep);
    }
}

/// The pieces of `s` between occurrences of `sep`, as character vectors.
pub fn split_chars(s: &str, sep: char) -> (r: Vec<Vec<char>>)
    ensures
        r@.len() == split_spec(s@, sep).len(),
        forall|i: int| 0 <= i < r@.len() ==> #[trigger] r@[i]@ == split_spec(s@, sep)[i],
{
    let cs = chars_of(s);
    let mut parts: Vec<Vec<char>> = Vec::new();
    parts.push(Vec::new());
    let mut i: usize = 0;
    proof {
        assert(s@.subrange(0, 0) =~= Seq::<char>::empty());
    }
    while i < cs.len()
        invariant
            cs@ == s@,
            i <= cs@.len(),
            parts@.len() == split_spec(s@.subrange(0, i as int), sep).len(),
            parts@.len() >= 1,
            forall|k: int| 0 <= k < parts@.len() ==> #[trigger] parts@[k]@ == split_spec(s@.subrange(0, i as int), sep)[k],
        decreases cs.len() - i,
    {
        let c = cs[i];
        let ghost prev = s@.subrange(0, i as int);
        proof {
            assert(s@.subrange(0, i + 1).drop_last() =~= prev);
            lemma_split_nonempty(prev, sep);
        }
        if c == sep {
            parts.push(Vec::new());
        } else {
            let last = parts.len() - 1;
            let mut piece = parts.pop().unwrap();
            piece.push(c);
            parts.push(piece);
            proof {
                assert forall|k: int| 0 <= k < parts@.len() implies
                    #[trigger] parts@[k]@ == split_spec(s@.subrange(0, i + 1), sep)[k] by {
                    if k == last as int {
                        assert(parts@[k]@ =~= split_spec(prev, sep).last().push(c));
                    }
                }
            }
        }
        i += 1;
    }
    proof {
        assert(s@.subrange(0, s@.len() as int) =~= s@);
    }
    parts
}

/// The piece of `s` before the first `sep` (all of `s` if there is none).
pub fn first_piece(s: &str, sep: char) -> (r: String)
    ensures
        r@ == split_spec(s@, sep)[0],
{
    let parts = split_chars(s, sep);
    proof {
        lemma_split_nonempty(s@, sep);
    }
    string_from_chars(parts[0].as_slice())
}

/// Whether the character `c` occurs in `s`.
pub fn has_char(s: &str, c: char) -> (r: bool)
    ensures
        r == s@.contains(c),
{
    let cs = chars_of(s);
    let mut i: usize = 0;
    while i < cs.len()
        invariant
            cs@ == s@,
            i <= cs@.len(),
            forall|j: int| 0 <= j < i ==> cs@[j] != c,
        decreases cs.len() - i,
    {
        if cs[i] == c {
            return true;
        }
        i += 1;
    }
    false
}

/// `c` has the Unicode `White_Space` property, as `char::is_whitespace`
/// documents it.
pub open spec fn is_white_space(c: char) -> bool {
    ('\u{9}' <= c && c <= '\u{d}') || c == ' ' || c == '\u{85}' || c == '\u{a0}' || c == '\u{1680}'
        || ('\u{2000}' <= c && c <= '\u{200a}') || c == '\u{2028}' || c == '\u{2029}' || c == '\u{202f}'
        || c == '\u{205f}' || c == '\u{3000}'
}

/// `s` without its leading white space.
pub open spec fn trim_start_spec(s: Seq<char>) -> Seq<char>
    decreases s.len(),
{
    if s.len() > 0 && is_white_space(s[0]) { trim_start_spec(s.drop_first()) } else { s }
}

/// `s` without its trailing white space.
pub open spec fn trim_end_spec(s: Seq<char>) -> Seq<char>
    decreases s.len(),
{
    if s.len() > 0 && is_white_space(s.last()) { trim_end_spec(s.drop_last()) } else { s }
}

/// `s` without leading and trailing white space, as `str::trim` gives it.
pub open spec fn trim_spec(s: Seq<char>) -> Seq<char> {
    trim_end_spec(trim_start_spec(s))
}

/// Whether `c` is white space.
fn white_space(c: char) -> (r: bool)
    ensures
        r == is_white_space(c),
{
    ('\u{9}' <= c && c <= '\u{d}') || c == ' ' || c == '\u{85}' || c == '\u{a0}' || c == '\u{1680}'
        || ('\u{2000}' <= c && c <= '\u{200a}') || c == '\u{2028}' || c == '\u{2029}' || c == '\u{202f}'
        || c == '\u{205f}' || c == '\u{3000}'
}

/// `s` without leading and trailing white space.
pub fn trim(s: &str) -> (r: String)
    ensures
        r@ == trim_spec(s@),
{
    let cs = chars_of(s);
    let mut start: usize = 0;
    proof {
        assert(s@.subrange(0, s@.len() as int) =~= s@);
    }
    while start < cs.len() && white_space(cs[start])
        invariant
            cs@ == s@,
            start <= cs@.len(),
            trim_start_spec(s@) == trim_start_spec(s@.subrange(start as int, s@.len() as int)),
        decreases cs.len() - start,
    {
        proof {
            let t = s@.subrange(start as int, s@.len() as int);
            assert(t.drop_first() =~= s@.subrange(start + 1, s@.len() as int));
        }
        start += 1;
    }
    let ghost mid = s@.subrange(start as int, s@.len() as int);
    proof {
        assert(trim_start_spec(mid) == mid);
    }
    let mut end: usize = cs.len();
    while end > start && white_space(cs[end - 1])
        invariant
            cs@ == s@,
            start <= end <= cs@.len(),
            mid == s@.subrange(start as int, s@.len() as int),
            trim_end_spec(mid) == trim_end_spec(s@.subrange(start as int, end as int)),
        decreases end,
    {
        proof {
            let t = s@.subrange(start as int, end as int);
            assert(t.drop_last() =~= s@.subrange(start as int, end - 1));
        }
        end -= 1;
    }
    proof {
        let t = s@.subrange(start as int, end as int);
        assert(trim_end_spec(t) == t);
    }
    let piece = slice_chars(&cs, start, end);
    string_from_chars(piece.as_slice())
}

/// The characters of `v` from `start` up to `end`.
fn slice_chars(v: &Vec<char>, start: usize, end: usize) -> (r: Vec<char>)
    requires
        start <= end <= v@.len(),
    ensures
        r@ == v@.subrange(start as int, end as int),
{
    let mut out: Vec<char> = Vec::new();
    let mut i: usize = start;
    while i < end
        invariant
            start <= i <= end,
            end <= v@.len(),
            out@ == v@.subrange(start as int, i as int),
        decreases end - i,
    {
        out.push(v[i]);
        proof {
            assert(out@ =~= v@.subrange(start as int, i + 1));
        }
        i += 1;
    }
    out
}

/// Whether `a` and `b` are equal when ASCII letters are compared without
/// regard to case, as `str::eq_ignore_ascii_case` decides it.
pub fn eq_ignore_ascii_case(a: &str, b: &str) -> (r: bool)
    ensures
        r == (ascii_lower(a@) == ascii_lower(b@)),
{
    let ca = chars_of(a);
    let cb = chars_of(b);
    if ca.len() != cb.len() {
        proof {
            assert(ascii_lower(a@).len() != ascii_lower(b@).len());
        }
        return false;
    }
    let mut i: usize = 0;
    while i < ca.len()
        invariant
            ca@ == a@,
            cb@ == b@,
            ca@.len() == cb@.len(),
            i <= ca@.len(),
            forall|j: int| 0 <= j < i ==> ascii_lower_char(a@[j]) == ascii_lower_char(b@[j]),
        decreases ca.len() - i,
    {
        if lower_ascii_char(ca[i]) != lower_ascii_char(cb[i]) {
            proof {
                assert(ascii_lower(a@)[i as int] != ascii_lower(b@)[i as int]);
            }
            return false;
        }
        i += 1;
    }
    proof {
        assert(ascii_lower(a@) =~= ascii_lower(b@));
    }
    true
}

/// The ASCII lower-case form of `c`.
fn lower_ascii_char(c: char) -> (r: char)
    ensures
        r == ascii_lower_char(c),
{
    if 'A' <= c && c <= 'Z' {
        ((c as u32) + 32) as u8 as char
    } else {
        c
    }
}

/// The value of a string of decimal digits.
pub open spec fn digits_value(s: Seq<char>) -> nat
    decreases s.len(),
{
    if s.len() == 0 {
        0
    } else {
        digits_value(s.drop_last()) * 10 + ((s.last() as u32) - ('0' as u32)) as nat
    }
}

/// `c` is a decimal digit.
pub open spec fn is_digit(c: char) -> bool {
    '0' <= c && c <= '9'
}

/// `s` without one leading `+`.
pub open spec fn digit_part(s: Seq<char>) -> Seq<char> {
    if s.len() > 0 && s[0] == '+' {
        s.drop_first()
    } else {
        s
    }
}

/// The unsigned number that `s` spells, as `u64::from_str` reads it: an
/// optional `+` and then one or more decimal digits, with a value that fits.
pub open spec fn parse_unsigned(s: Seq<char>, max: nat) -> Option<nat> {
    let digits = digit_part(s);
    if digits.len() > 0 && (forall|i: int| 0 <= i < digits.len() ==> #[trigger] is_digit(digits[i]))
        && digits_value(digits) <= max {
        Some(digits_value(digits))
    } else {
        None
    }
}

/// A character that is no digit makes the parse fail.
proof fn lemma_parse_rejects_non_digit(s: Seq<char>, max: nat, k: int)
    requires
        0 <= k < digit_part(s).len(),
        !is_digit(digit_part(s)[k]),
    ensures
        parse_unsigned(s, max) is None,
{
}

/// A value above `max` makes the parse fail.
proof fn lemma_parse_rejects_large(s: Seq<char>, max: nat)
    requires
        (forall|k: int| 0 <= k < digit_part(s).len() ==> #[trigger] is_digit(digit_part(s)[k]))
            ==> digits_value(digit_part(s)) > max,
    ensures
        parse_unsigned(s, max) is None,
{
}

/// Adding digits never lowers the value.
proof fn lemma_digits_value_grows(s: Seq<char>, i: int)
    requires
        0 <= i <= s.len(),
        forall|k: int| 0 <= k < s.len() ==> #[trigger] is_digit(s[k]),
    ensures
        digits_value(s.subrange(0, i)) <= digits_value(s),
    decreases s.len() - i,
{
    if i < s.len() {
        lemma_digits_value_grows(s, i + 1);
        assert(s.subrange(0, i + 1).drop_last() =~= s.subrange(0, i));
    } else {
        assert(s.subrange(0, i) =~= s);
    }
}

/// Reads a `u64` written in decimal, as `u64::from_str` does.
pub fn parse_u64(s: &str) -> (r: Option<u64>)
    ensures
        match r {
            Some(v) => parse_unsigned(s@, u64::MAX as nat) == Some(v as nat),
            None => parse_unsigned(s@, u64::MAX as nat) is None,
        },
{
    let cs = chars_of(s);
    let start: usize = if cs.len() > 0 && cs[0] == '+' { 1 } else { 0 };
    let ghost digits = digit_part(s@);
    proof {
        assert(digits =~= s@.subrange(start as int, s@.len() as int));
    }
    if start >= cs.len() {
        return None;
    }
    let mut value: u64 = 0;
    let mut i: usize = start;
    while i < cs.len()
        invariant
            cs@ == s@,
            start <= i <= cs@.len(),
            digits == s@.subrange(start as int, s@.len() as int),
            digits == digit_part(s@),
            forall|k: int| start <= k < i ==> #[trigger] is_digit(s@[k]),
            value as nat == digits_value(s@.subrange(start as int, i as int)),
        decreases cs.len() - i,
    {
        let c = cs[i];
        if !('0' <= c && c <= '9') {
            proof {
                assert(digits[i - start] == s@[i as int]);
                assert(!is_digit(digits[i - start]));
                lemma_parse_rejects_non_digit(s@, u64::MAX as nat, i - start);
            }
            return None;
        }
        let d: u64 = ((c as u32) - ('0' as u32)) as u64;
        let ghost pre = s@.subrange(start as int, i + 1);
        proof {
            assert(pre.drop_last() =~= s@.subrange(start as int, i as int));
            assert(pre.last() == c);
            assert(digits_value(pre) == value * 10 + d);
        }
        if value > (u64::MAX - d) / 10 {
            proof {
                assert(value * 10 + d > u64::MAX) by (nonlinear_arith)
                    requires value > (u64::MAX - d) / 10, d <= 9;
                if forall|k: int| 0 <= k < digits.len() ==> #[trigger] is_digit(digits[k]) {
                    lemma_digits_value_grows(digits, i + 1 - start);
                    assert(digits.subrange(0, i + 1 - start) =~= pre);
                    assert(digits_value(digits) > u64::MAX);
                }
                lemma_parse_rejects_large(s@, u64::MAX as nat);
            }
            return None;
        }
        proof {
            assert(value * 10 + d <= u64::MAX) by (nonlinear_arith)
                requires value <= (u64::MAX - d) / 10, d <= 9;
        }
        value = value * 10 + d;
        i += 1;
    }
    proof {
        assert(s@.subrange(start as int, i as int) =~= digits);
        assert forall|k: int| 0 <= k < digits.len() implies #[trigger] is_digit(digits[k]) by {
            assert(digits[k] == s@[start + k]);
        }
    }
    Some(value)
}

} // verus!
