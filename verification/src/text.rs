//! Character-sequence utilities the engine is built on: substring
//! search, ASCII case folding, whitespace tokenization, and decimal
//! conversion in both directions.

use vstd::prelude::*;

verus! {

broadcast use vstd::string::group_string_axioms;

// ---------------------------------------------------------------------
// Substring search
// ---------------------------------------------------------------------

/// `needle` occurs in `hay` starting exactly at index `i`.
pub open spec fn occurs_at(hay: Seq<char>, needle: Seq<char>, i: int) -> bool {
    0 <= i && i + needle.len() <= hay.len() && hay.subrange(i, i + needle.len()) == needle
}

/// `needle` occurs somewhere in `hay` at an index `>= from`.
pub open spec fn contains_from(hay: Seq<char>, needle: Seq<char>, from: int) -> bool {
    exists|i: int| from <= i && occurs_at(hay, needle, i)
}

/// `needle` occurs somewhere in `hay`.
pub open spec fn contains_seq(hay: Seq<char>, needle: Seq<char>) -> bool {
    contains_from(hay, needle, 0)
}

/// Whether `needle` occurs in `s` starting exactly at `i`.
fn match_at(s: &str, needle: &str, i: usize, s_len: usize, n_len: usize) -> (r: bool)
    requires
        s_len == s@.len(),
        n_len == needle@.len(),
        i + n_len <= s_len,
    ensures
        r == occurs_at(s@, needle@, i as int),
{
    let mut j: usize = 0;
    while j < n_len
        invariant
            s_len == s@.len(),
            n_len == needle@.len(),
            i + n_len <= s_len,
            j <= n_len,
            forall|k: int| 0 <= k < j ==> s@[i + k] == needle@[k],
        decreases n_len - j,
    {
        if s.get_char(i + j) != needle.get_char(j) {
            assert(s@.subrange(i as int, i + n_len) != needle@) by {
                assert(s@.subrange(i as int, i + n_len)[j as int] == s@[i + j]);
            }
            return false;
        }
        j += 1;
    }
    assert(s@.subrange(i as int, i + n_len) =~= needle@);
    true
}

/// First index `>= from` at which `needle` occurs in `s`, if any.
pub fn find_from(s: &str, needle: &str, from: usize) -> (r: Option<usize>)
    ensures
        match r {
            Some(i) => {
                &&& from <= i
                &&& occurs_at(s@, needle@, i as int)
                &&& forall|j: int| from <= j < i ==> !occurs_at(s@, needle@, j)
            },
            None => !contains_from(s@, needle@, from as int),
        },
{
    let s_len = s.unicode_len();
    let n_len = needle.unicode_len();
    if n_len > s_len || from > s_len - n_len {
        assert(forall|i: int| from <= i ==> !occurs_at(s@, needle@, i));
        return None;
    }
    let end = s_len - n_len;
    let mut i: usize = from;
    loop
        invariant
            s_len == s@.len(),
            n_len == needle@.len(),
            n_len <= s_len,
            end == s_len - n_len,
            from <= i <= end,
            forall|j: int| from <= j < i ==> !occurs_at(s@, needle@, j),
        ensures
            forall|j: int| from <= j <= end ==> !occurs_at(s@, needle@, j),
        decreases end - i,
    {
        if match_at(s, needle, i, s_len, n_len) {
            return Some(i);
        }
        if i == end {
            break;
        }
        i += 1;
    }
    assert(forall|j: int| j > end ==> !occurs_at(s@, needle@, j));
    None
}

/// Whether `s` begins with `prefix`.
pub fn str_starts_with(s: &str, prefix: &str) -> (r: bool)
    ensures
        r == occurs_at(s@, prefix@, 0),
{
    let s_len = s.unicode_len();
    let p_len = prefix.unicode_len();
    if p_len > s_len {
        return false;
    }
    match_at(s, prefix, 0, s_len, p_len)
}

// ---------------------------------------------------------------------
// ASCII case folding
// ---------------------------------------------------------------------

/// `c` with an ASCII upper-case letter folded to lower case; any other
/// character is left alone.
pub open spec fn lower_char(c: char) -> char {
    if 65 <= c as u32 && c as u32 <= 90 {
        ((c as u8) + 32) as char
    } else {
        c
    }
}

/// `s` folded character by character to ASCII lower case.
pub open spec fn lower_seq(s: Seq<char>) -> Seq<char> {
    Seq::new(s.len(), |i: int| lower_char(s[i]))
}

/// Executable ASCII case folding of one character.
fn to_lower_char(c: char) -> (r: char)
    ensures
        r == lower_char(c),
{
    let n = c as u32;
    if 65 <= n && n <= 90 {
        ((c as u8) + 32) as char
    } else {
        c
    }
}

/// Whether `needle` (given already in lower case) occurs in `s` under
/// ASCII case folding.
pub fn contains_ci(s: &str, needle: &str) -> (r: bool)
    ensures
        r == contains_seq(lower_seq(s@), needle@),
{
    let s_len = s.unicode_len();
    let n_len = needle.unicode_len();
    if n_len > s_len {
        assert(forall|i: int| !occurs_at(lower_seq(s@), needle@, i));
        return false;
    }
    let end = s_len - n_len;
    let mut i: usize = 0;
    loop
        invariant
            s_len == s@.len(),
            n_len == needle@.len(),
            n_len <= s_len,
            end == s_len - n_len,
            i <= end,
            forall|j: int| 0 <= j < i ==> !occurs_at(lower_seq(s@), needle@, j),
        ensures
            forall|j: int| 0 <= j <= end ==> !occurs_at(lower_seq(s@), needle@, j),
        decreases end - i,
    {
        if match_at_ci(s, needle, i, s_len, n_len) {
            return true;
        }
        if i == end {
            break;
        }
        i += 1;
    }
    assert(forall|j: int| j > end ==> !occurs_at(lower_seq(s@), needle@, j));
    false
}

/// Whether `needle` occurs at index `i` of the case-folded `s`.
fn match_at_ci(s: &str, needle: &str, i: usize, s_len: usize, n_len: usize) -> (r: bool)
    requires
        s_len == s@.len(),
        n_len == needle@.len(),
        i + n_len <= s_len,
    ensures
        r == occurs_at(lower_seq(s@), needle@, i as int),
{
    let mut j: usize = 0;
    while j < n_len
        invariant
            s_len == s@.len(),
            n_len == needle@.len(),
            i + n_len <= s_len,
            j <= n_len,
            forall|k: int| 0 <= k < j ==> lower_seq(s@)[i + k] == needle@[k],
        decreases n_len - j,
    {
        if to_lower_char(s.get_char(i + j)) != needle.get_char(j) {
            assert(lower_seq(s@).subrange(i as int, i + n_len) != needle@) by {
                assert(lower_seq(s@).subrange(i as int, i + n_len)[j as int]
                    == lower_seq(s@)[i + j]);
            }
            return false;
        }
        j += 1;
    }
    assert(lower_seq(s@).subrange(i as int, i + n_len) =~= needle@);
    true
}

// ---------------------------------------------------------------------
// Whitespace tokenization
// ---------------------------------------------------------------------

/// ASCII whitespace: space, tab, line feed, form feed, carriage return.
pub open spec fn is_space(c: char) -> bool {
    c == ' ' || c == '\t' || c == '\n' || c == '\u{c}' || c == '\r'
}

/// Executable whitespace test.
pub fn char_is_space(c: char) -> (r: bool)
    ensures
        r == is_space(c),
{
    c == ' ' || c == '\t' || c == '\n' || c == '\u{c}' || c == '\r'
}

/// Index just past the token starting at `i`: the first index `>= i`
/// that is out of range or holds whitespace.
pub open spec fn token_end(s: Seq<char>, i: int) -> int
    decreases s.len() - i,
{
    if i >= s.len() || is_space(s[i]) {
        i
    } else {
        token_end(s, i + 1)
    }
}

pub proof fn lemma_token_end_bounds(s: Seq<char>, i: int)
    requires
        0 <= i <= s.len(),
    ensures
        i <= token_end(s, i) <= s.len(),
    decreases s.len() - i,
{
    if i < s.len() && !is_space(s[i]) {
        lemma_token_end_bounds(s, i + 1);
    }
}

/// The whitespace-separated tokens of `s` at indices `>= i`, in order.
pub open spec fn spec_tokens_from(s: Seq<char>, i: int) -> Seq<Seq<char>>
    decreases s.len() - i,
        when 0 <= i
    via spec_tokens_from_decreases
{
    if i >= s.len() {
        Seq::empty()
    } else if is_space(s[i]) {
        spec_tokens_from(s, i + 1)
    } else {
        seq![s.subrange(i, token_end(s, i))] + spec_tokens_from(s, token_end(s, i))
    }
}

#[via_fn]
proof fn spec_tokens_from_decreases(s: Seq<char>, i: int) {
    if 0 <= i < s.len() && !is_space(s[i]) {
        lemma_token_end_bounds(s, i + 1);
    }
}

/// The whitespace-separated tokens of `s`, in order.
pub open spec fn spec_tokens(s: Seq<char>) -> Seq<Seq<char>> {
    spec_tokens_from(s, 0)
}

/// Split `s` on runs of whitespace into its tokens.
pub fn tokenize(s: &str) -> (r: Vec<String>)
    ensures
        r.deep_view() == spec_tokens(s@),
{
    let s_len = s.unicode_len();
    let mut r: Vec<String> = Vec::new();
    let mut i: usize = 0;
    while i < s_len
        invariant
            s_len == s@.len(),
            i <= s_len,
            r.deep_view() + spec_tokens_from(s@, i as int) =~~= spec_tokens(s@),
        decreases s_len - i,
    {
        if char_is_space(s.get_char(i)) {
            i += 1;
        } else {
            let mut j: usize = i;
            while j < s_len && !char_is_space(s.get_char(j))
                invariant
                    s_len == s@.len(),
                    i <= j <= s_len,
                    token_end(s@, i as int) == token_end(s@, j as int),
                decreases s_len - j,
            {
                j += 1;
            }
            assert(token_end(s@, j as int) == j);
            proof {
                lemma_token_end_bounds(s@, i + 1);
            }
            let token = String::from_str(s.substring_char(i, j));
            r.push(token);
            assert(r.deep_view() + spec_tokens_from(s@, j as int) =~~= spec_tokens(s@));
            i = j;
        }
    }
    assert(r.deep_view() =~~= spec_tokens(s@));
    r
}

// ---------------------------------------------------------------------
// Joining tokens
// ---------------------------------------------------------------------

/// The pieces of `ts` joined with a single space between consecutive
/// pieces.
pub open spec fn spec_join(ts: Seq<Seq<char>>) -> Seq<char>
    decreases ts.len(),
{
    if ts.len() == 0 {
        Seq::empty()
    } else if ts.len() == 1 {
        ts[0]
    } else {
        spec_join(ts.drop_last()) + seq![' '] + ts.last()
    }
}

/// Join the tokens of `parts` at indices `>= from` with single spaces.
pub fn join_from(parts: &Vec<String>, from: usize) -> (r: String)
    requires
        from <= parts@.len(),
    ensures
        r@ == spec_join(parts.deep_view().skip(from as int)),
{
    let ghost ts = parts.deep_view().skip(from as int);
    let mut r = String::new();
    let mut k: usize = from;
    while k < parts.len()
        invariant
            from <= k <= parts@.len(),
            ts == parts.deep_view().skip(from as int),
            r@ == spec_join(ts.take(k - from)),
        decreases parts@.len() - k,
    {
        if k > from {
            r.append(" ");
            proof {
                reveal_strlit(" ");
            }
        }
        r.append(parts[k].as_str());
        proof {
            assert(ts.take(k + 1 - from).drop_last() =~~= ts.take(k - from));
            assert(ts.take(k + 1 - from).last() == parts.deep_view()[k as int]);
            if k > from {
                assert(r@ == spec_join(ts.take(k - from)) + seq![' ']
                    + parts.deep_view()[k as int]);
            }
        }
        k += 1;
    }
    assert(ts.take(parts@.len() - from) =~~= ts);
    r
}

/// Whether two string slices hold the same characters.
pub fn str_eq(a: &str, b: &str) -> (r: bool)
    ensures
        r == (a@ == b@),
{
    let sa = String::from_str(a);
    let sb = String::from_str(b);
    sa.eq(&sb)
}

/// Append one line to a transcript, tracked at the view level.
pub fn push_line(lines: &mut Vec<String>, line: String)
    ensures
        final(lines).deep_view() == old(lines).deep_view().push(line@),
{
    let ghost before = lines.deep_view();
    let ghost l = line@;
    lines.push(line);
    proof {
        assert forall|k: int| 0 <= k < before.len() + 1 implies lines.deep_view()[k]
            == before.push(l)[k] by {
            if k < before.len() {
                assert(lines@[k] == old(lines)@[k]);
            }
        }
        assert(lines.deep_view() =~~= before.push(l));
    }
}

// ---------------------------------------------------------------------
// Decimal numbers
// ---------------------------------------------------------------------

/// ASCII decimal digit.
pub open spec fn is_digit(c: char) -> bool {
    48 <= c as u32 && c as u32 <= 57
}

/// Numeric value of a decimal digit character.
pub open spec fn digit_val(c: char) -> nat {
    (c as u32 - 48) as nat
}

pub open spec fn all_digits(s: Seq<char>) -> bool {
    forall|i: int| 0 <= i < s.len() ==> is_digit(#[trigger] s[i])
}

/// Value of a digit string read in base 10.
pub open spec fn dec_value(s: Seq<char>) -> nat
    decreases s.len(),
{
    if s.len() == 0 {
        0
    } else {
        dec_value(s.drop_last()) * 10 + digit_val(s.last())
    }
}

/// `s` without one optional leading plus sign.
pub open spec fn strip_plus(s: Seq<char>) -> Seq<char> {
    if s.len() > 0 && s[0] == '+' {
        s.drop_first()
    } else {
        s
    }
}

/// What parsing `s` as an unsigned 64-bit decimal yields: the numeric
/// value if `s` is an optional plus sign followed by one or more digits
/// and the value fits, nothing otherwise.
pub open spec fn parse_u64_spec(s: Seq<char>) -> Option<u64> {
    let t = strip_plus(s);
    if t.len() > 0 && all_digits(t) && dec_value(t) <= u64::MAX {
        Some(dec_value(t) as u64)
    } else {
        None
    }
}

/// A longer digit prefix never has a smaller value.
proof fn lemma_dec_value_prefix_monotone(t: Seq<char>, a: int, b: int)
    requires
        0 <= a <= b <= t.len(),
    ensures
        dec_value(t.take(a)) <= dec_value(t.take(b)),
    decreases b - a,
{
    if a < b {
        lemma_dec_value_prefix_monotone(t, a, b - 1);
        assert(t.take(b).drop_last() =~= t.take(b - 1));
        assert(dec_value(t.take(b)) == dec_value(t.take(b - 1)) * 10 + digit_val(
            t.take(b).last(),
        ));
    }
}

/// Parse `s` as an unsigned 64-bit decimal number.
pub fn parse_u64(s: &str) -> (r: Option<u64>)
    ensures
        r == parse_u64_spec(s@),
{
    let s_len = s.unicode_len();
    let start: usize = if s_len > 0 && s.get_char(0) == '+' {
        1
    } else {
        0
    };
    let ghost t = strip_plus(s@);
    proof {
        assert(t =~= s@.skip(start as int));
    }
    if s_len == start {
        return None;
    }
    let mut acc: u64 = 0;
    let mut k: usize = start;
    while k < s_len
        invariant
            s_len == s@.len(),
            start <= k <= s_len,
            start <= 1,
            t == s@.skip(start as int),
            t == strip_plus(s@),
            all_digits(t.take(k - start)),
            acc == dec_value(t.take(k - start)),
        decreases s_len - k,
    {
        let c = s.get_char(k);
        proof {
            assert(t[k - start] == s@[k as int]);
        }
        let n = c as u32;
        if n < 48 || n > 57 {
            assert(!is_digit(t[k - start]));
            assert(!all_digits(t));
            return None;
        }
        let d = (n - 48) as u64;
        proof {
            assert(t.take(k + 1 - start).drop_last() =~= t.take(k - start));
            assert(t.take(k + 1 - start).last() == t[k - start]);
        }
        let next = match acc.checked_mul(10) {
            Some(m) => m.checked_add(d),
            None => None,
        };
        match next {
            Some(v) => {
                acc = v;
            },
            None => {
                proof {
                    assert(dec_value(t.take(k + 1 - start)) > u64::MAX);
                    lemma_dec_value_prefix_monotone(t, k + 1 - start, t.len() as int);
                    assert(t.take(t.len() as int) =~= t);
                }
                return None;
            },
        }
        k += 1;
    }
    proof {
        assert(t.take(s_len - start) =~= t);
    }
    Some(acc)
}

/// The decimal rendering of `n`, most significant digit first, with no
/// sign and no leading zeros (a single zero renders as "0").
pub open spec fn dec_of(n: nat) -> Seq<char>
    decreases n,
{
    if n < 10 {
        seq![digit_char(n % 10)]
    } else {
        dec_of(n / 10).push(digit_char(n % 10))
    }
}

/// The digit character for a value below ten.
pub open spec fn digit_char(d: nat) -> char {
    if d == 0 {
        '0'
    } else if d == 1 {
        '1'
    } else if d == 2 {
        '2'
    } else if d == 3 {
        '3'
    } else if d == 4 {
        '4'
    } else if d == 5 {
        '5'
    } else if d == 6 {
        '6'
    } else if d == 7 {
        '7'
    } else if d == 8 {
        '8'
    } else {
        '9'
    }
}

/// One-character string for a digit value.
fn digit_str(d: u64) -> (r: &'static str)
    requires
        d < 10,
    ensures
        r@ =~= seq![digit_char(d as nat)],
{
    proof {
        reveal_strlit("0");
        reveal_strlit("1");
        reveal_strlit("2");
        reveal_strlit("3");
        reveal_strlit("4");
        reveal_strlit("5");
        reveal_strlit("6");
        reveal_strlit("7");
        reveal_strlit("8");
        reveal_strlit("9");
    }
    if d == 0 {
        "0"
    } else if d == 1 {
        "1"
    } else if d == 2 {
        "2"
    } else if d == 3 {
        "3"
    } else if d == 4 {
        "4"
    } else if d == 5 {
        "5"
    } else if d == 6 {
        "6"
    } else if d == 7 {
        "7"
    } else if d == 8 {
        "8"
    } else {
        "9"
    }
}

/// Render `n` in decimal.
pub fn u64_to_dec(n: u64) -> (r: String)
    ensures
        r@ == dec_of(n as nat),
    decreases n,
{
    if n < 10 {
        String::from_str(digit_str(n))
    } else {
        let high = u64_to_dec(n / 10);
        let low = digit_str(n % 10);
        let r = high.concat(low);
        assert(r@ =~= dec_of((n / 10) as nat).push(digit_char((n % 10) as nat)));
        r
    }
}

// ---------------------------------------------------------------------
// Lexicographic order on character sequences
// ---------------------------------------------------------------------

/// Strict lexicographic order by character code; a proper prefix comes
/// first.
pub open spec fn lex_lt(a: Seq<char>, b: Seq<char>) -> bool
    decreases a.len(),
{
    if b.len() == 0 {
        false
    } else if a.len() == 0 {
        true
    } else if a.first() == b.first() {
        lex_lt(a.drop_first(), b.drop_first())
    } else {
        (a.first() as u32) < (b.first() as u32)
    }
}

/// Every earlier element is strictly below every later one: sorted and
/// free of duplicates at once.
pub open spec fn strictly_sorted(v: Seq<Seq<char>>) -> bool {
    forall|i: int, j: int| 0 <= i < j < v.len() ==> lex_lt(#[trigger] v[i], #[trigger] v[j])
}

/// Distinct characters have distinct code points.
proof fn lemma_char_cast_injective(c1: char, c2: char)
    ensures
        c1 as u32 == c2 as u32 ==> c1 == c2,
{
}

/// Exactly one of `lex_lt(a, b)`, `a == b`, `lex_lt(b, a)` holds.
pub proof fn lemma_lex_trichotomy(a: Seq<char>, b: Seq<char>)
    ensures
        lex_lt(a, b) || a == b || lex_lt(b, a),
        lex_lt(a, b) ==> a != b && !lex_lt(b, a),
        a == b ==> !lex_lt(a, b) && !lex_lt(b, a),
    decreases a.len(),
{
    if a.len() > 0 && b.len() > 0 && a.first() == b.first() {
        lemma_lex_trichotomy(a.drop_first(), b.drop_first());
        if a.drop_first() == b.drop_first() {
            assert forall|i: int| 0 <= i < a.len() implies a[i] == b[i] by {
                if i > 0 {
                    assert(a.drop_first()[i - 1] == a[i]);
                    assert(b.drop_first()[i - 1] == b[i]);
                }
            }
            assert(a =~= b);
        }
        if a == b {
            assert(a.drop_first() =~= b.drop_first());
        }
    } else if a.len() == 0 && b.len() == 0 {
        assert(a =~= b);
    } else if a.len() == 0 {
        assert(lex_lt(a, b));
    } else if b.len() == 0 {
        assert(lex_lt(b, a));
    } else {
        lemma_char_cast_injective(a.first(), b.first());
        if (a.first() as u32) < (b.first() as u32) {
            assert(lex_lt(a, b));
        } else {
            assert(lex_lt(b, a));
        }
    }
}

/// Strict lexicographic order is transitive.
pub proof fn lemma_lex_transitive(a: Seq<char>, b: Seq<char>, c: Seq<char>)
    requires
        lex_lt(a, b),
        lex_lt(b, c),
    ensures
        lex_lt(a, c),
    decreases a.len() + b.len() + c.len(),
{
    if a.len() > 0 && b.len() > 0 && c.len() > 0 && a.first() == b.first() && b.first()
        == c.first() {
        lemma_lex_transitive(a.drop_first(), b.drop_first(), c.drop_first());
    }
}

/// Compare two strings in strict lexicographic order.
pub fn str_lex_lt(a: &str, b: &str) -> (r: bool)
    ensures
        r == lex_lt(a@, b@),
{
    let a_len = a.unicode_len();
    let b_len = b.unicode_len();
    let mut k: usize = 0;
    proof {
        assert(a@.skip(0) =~= a@);
        assert(b@.skip(0) =~= b@);
    }
    while k < a_len && k < b_len
        invariant
            a_len == a@.len(),
            b_len == b@.len(),
            k <= a_len,
            k <= b_len,
            lex_lt(a@, b@) == lex_lt(a@.skip(k as int), b@.skip(k as int)),
            forall|m: int| 0 <= m < k ==> a@[m] == b@[m],
        decreases a_len - k,
    {
        let ca = a.get_char(k);
        let cb = b.get_char(k);
        proof {
            assert(a@.skip(k as int).first() == a@[k as int]);
            assert(b@.skip(k as int).first() == b@[k as int]);
            assert(a@.skip(k as int).drop_first() =~= a@.skip(k + 1));
            assert(b@.skip(k as int).drop_first() =~= b@.skip(k + 1));
        }
        if ca != cb {
            return (ca as u32) < (cb as u32);
        }
        k += 1;
    }
    proof {
        if k >= b_len {
            assert(b@.skip(k as int).len() == 0);
        } else {
            assert(a@.skip(k as int).len() == 0);
            assert(b@.skip(k as int).len() > 0);
        }
    }
    a_len < b_len
}

/// Folding to lower case cannot erase an occurrence of a needle that is
/// already lower case: matching stays case-insensitive.
pub proof fn lemma_lower_preserves_occurrence(hay: Seq<char>, needle: Seq<char>, i: int)
    requires
        occurs_at(hay, needle, i),
        forall|k: int| 0 <= k < needle.len() ==> lower_char(#[trigger] needle[k]) == needle[k],
    ensures
        occurs_at(lower_seq(hay), needle, i),
{
    assert forall|k: int| 0 <= k < needle.len() implies lower_seq(hay).subrange(
        i,
        i + needle.len(),
    )[k] == needle[k] by {
        assert(hay.subrange(i, i + needle.len())[k] == needle[k]);
    }
    assert(lower_seq(hay).subrange(i, i + needle.len()) =~= needle);
}

} // verus!
