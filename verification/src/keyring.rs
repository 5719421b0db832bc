//! Keyring listings: the pure parsing of the crypto tool's
//! colon-delimited key listings.
//!
//! The tool itself runs outside the library; callers hand its textual
//! output in and get structured keys back.

use vstd::prelude::*;

use crate::text::{
    char_is_space, is_space, lemma_lex_transitive, lemma_lex_trichotomy, lex_lt, occurs_at,
    push_line, str_lex_lt, str_starts_with, strictly_sorted,
};

verus! {

broadcast use vstd::string::group_string_axioms;

// ---------------------------------------------------------------------
// Lines, fields and trimming of the colon-delimited listing format
// ---------------------------------------------------------------------

/// First index `>= i` that holds `sep`, or the end of `s`.
pub open spec fn scan_to(s: Seq<char>, sep: char, i: int) -> int
    decreases s.len() - i,
{
    if i >= s.len() || s[i] == sep {
        i
    } else {
        scan_to(s, sep, i + 1)
    }
}

pub proof fn lemma_scan_to_bounds(s: Seq<char>, sep: char, i: int)
    requires
        0 <= i <= s.len(),
    ensures
        i <= scan_to(s, sep, i) <= s.len(),
    decreases s.len() - i,
{
    if i < s.len() && s[i] != sep {
        lemma_scan_to_bounds(s, sep, i + 1);
    }
}

/// The lines of `s` at indices `>= i`: split at every line feed, one
/// carriage return stripped from the end of each terminated line, and
/// no empty line after a final terminator.
pub open spec fn spec_lines_from(s: Seq<char>, i: int) -> Seq<Seq<char>>
    decreases s.len() - i + 1,
        when 0 <= i
    via spec_lines_from_decreases
{
    if i >= s.len() {
        Seq::empty()
    } else {
        let j = scan_to(s, '\n', i);
        let l = s.subrange(i, j);
        let stripped = if j < s.len() && l.len() > 0 && l.last() == '\r' {
            l.drop_last()
        } else {
            l
        };
        seq![stripped] + spec_lines_from(s, j + 1)
    }
}

#[via_fn]
proof fn spec_lines_from_decreases(s: Seq<char>, i: int) {
    if 0 <= i < s.len() {
        lemma_scan_to_bounds(s, '\n', i);
    }
}

/// The lines of `s`.
pub open spec fn spec_lines(s: Seq<char>) -> Seq<Seq<char>> {
    spec_lines_from(s, 0)
}

/// The colon-separated fields of `s` at indices `>= i`: one more field
/// than there are separators, empty fields kept.
pub open spec fn spec_fields_from(s: Seq<char>, i: int) -> Seq<Seq<char>>
    decreases s.len() - i,
        when 0 <= i <= s.len()
    via spec_fields_from_decreases
{
    let j = scan_to(s, ':', i);
    if j >= s.len() {
        seq![s.subrange(i, s.len() as int)]
    } else {
        seq![s.subrange(i, j)] + spec_fields_from(s, j + 1)
    }
}

#[via_fn]
proof fn spec_fields_from_decreases(s: Seq<char>, i: int) {
    if 0 <= i <= s.len() {
        lemma_scan_to_bounds(s, ':', i);
    }
}

/// The colon-separated fields of `s`.
pub open spec fn spec_fields(s: Seq<char>) -> Seq<Seq<char>> {
    spec_fields_from(s, 0)
}

/// `s` without leading whitespace.
pub open spec fn trim_front(s: Seq<char>) -> Seq<char>
    decreases s.len(),
{
    if s.len() > 0 && is_space(s.first()) {
        trim_front(s.drop_first())
    } else {
        s
    }
}

/// `s` without trailing whitespace.
pub open spec fn trim_back(s: Seq<char>) -> Seq<char>
    decreases s.len(),
{
    if s.len() > 0 && is_space(s.last()) {
        trim_back(s.drop_last())
    } else {
        s
    }
}

/// `s` without leading and trailing whitespace.
pub open spec fn spec_trim(s: Seq<char>) -> Seq<char> {
    trim_back(trim_front(s))
}

/// Split `s` into its lines.
fn split_lines(s: &str) -> (r: Vec<String>)
    ensures
        r.deep_view() == spec_lines(s@),
{
    let n = s.unicode_len();
    let mut r: Vec<String> = Vec::new();
    let mut i: usize = 0;
    loop
        invariant_except_break
            r.deep_view() + spec_lines_from(s@, i as int) =~~= spec_lines(s@),
        invariant
            n == s@.len(),
            i <= n,
        ensures
            r.deep_view() =~~= spec_lines(s@),
        decreases n - i,
    {
        if i >= n {
            proof {
                assert(spec_lines_from(s@, i as int) =~~= Seq::<Seq<char>>::empty());
            }
            break;
        }
        let mut j: usize = i;
        while j < n && s.get_char(j) != '\n'
            invariant
                n == s@.len(),
                i <= j <= n,
                scan_to(s@, '\n', i as int) == scan_to(s@, '\n', j as int),
            decreases n - j,
        {
            j += 1;
        }
        assert(scan_to(s@, '\n', i as int) == j);
        let line = if j < n && j > i && s.get_char(j - 1) == '\r' {
            String::from_str(s.substring_char(i, j - 1))
        } else {
            String::from_str(s.substring_char(i, j))
        };
        proof {
            let l = s@.subrange(i as int, j as int);
            if j < n && l.len() > 0 && l.last() == '\r' {
                assert(line@ =~= l.drop_last());
            } else {
                assert(line@ =~= l);
            }
        }
        push_line(&mut r, line);
        assert(r.deep_view() + spec_lines_from(s@, j + 1) =~~= spec_lines(s@));
        if j == n {
            proof {
                assert(spec_lines_from(s@, j + 1) =~~= Seq::<Seq<char>>::empty());
            }
            break;
        }
        i = j + 1;
    }
    r
}

/// Trim whitespace from both ends of `s`.
fn str_trim(s: &str) -> (r: String)
    ensures
        r@ == spec_trim(s@),
{
    let n = s.unicode_len();
    let mut a: usize = 0;
    proof {
        assert(s@.skip(0) =~= s@);
    }
    while a < n && char_is_space(s.get_char(a))
        invariant
            n == s@.len(),
            a <= n,
            trim_front(s@) == trim_front(s@.skip(a as int)),
        decreases n - a,
    {
        proof {
            assert(s@.skip(a as int).first() == s@[a as int]);
            assert(s@.skip(a as int).drop_first() =~= s@.skip(a + 1));
        }
        a += 1;
    }
    proof {
        if a < n {
            assert(s@.skip(a as int).first() == s@[a as int]);
        }
        assert(trim_front(s@) == s@.skip(a as int));
    }
    let ghost t = s@.skip(a as int);
    let mut b: usize = n;
    proof {
        assert(t.take(n - a) =~= t);
    }
    while b > a && char_is_space(s.get_char(b - 1))
        invariant
            n == s@.len(),
            a <= b <= n,
            t == s@.skip(a as int),
            trim_back(t) == trim_back(t.take(b - a)),
        decreases b,
    {
        proof {
            assert(t.take(b - a).last() == s@[b - 1]);
            assert(t.take(b - a).drop_last() =~= t.take(b - 1 - a));
        }
        b -= 1;
    }
    proof {
        if b > a {
            assert(t.take(b - a).last() == s@[b - 1]);
        }
        assert(trim_back(t.take(b - a)) == t.take(b - a));
        assert(t.take(b - a) =~= s@.subrange(a as int, b as int));
    }
    String::from_str(s.substring_char(a, b))
}

/// The tenth colon field of `l`, trimmed, when `l` has more than nine
/// fields.
fn colon_field9(l: &str) -> (r: Option<String>)
    ensures
        match r {
            Some(f) => spec_fields(l@).len() > 9 && f@ == spec_trim(spec_fields(l@)[9]),
            None => spec_fields(l@).len() <= 9,
        },
{
    let n = l.unicode_len();
    let mut c: usize = 0;
    let mut k: usize = 0;
    proof {
        assert(spec_fields(l@).skip(0) =~~= spec_fields(l@));
    }
    while k < 9
        invariant
            n == l@.len(),
            c <= n,
            k <= 9,
            k <= spec_fields(l@).len(),
            spec_fields_from(l@, c as int) =~~= spec_fields(l@).skip(k as int),
        decreases 9 - k,
    {
        let mut j: usize = c;
        while j < n && l.get_char(j) != ':'
            invariant
                n == l@.len(),
                c <= j <= n,
                scan_to(l@, ':', c as int) == scan_to(l@, ':', j as int),
            decreases n - j,
        {
            j += 1;
        }
        assert(scan_to(l@, ':', c as int) == j);
        if j == n {
            proof {
                assert(spec_fields_from(l@, c as int) =~~= seq![
                    l@.subrange(c as int, l@.len() as int),
                ]);
                assert(spec_fields(l@).skip(k as int).len() == 1);
                assert(spec_fields(l@).skip(k as int).len() == spec_fields(l@).len() - k);
                assert(spec_fields(l@).len() == k + 1);
            }
            return None;
        }
        proof {
            assert(spec_fields_from(l@, c as int) =~~= seq![l@.subrange(c as int, j as int)]
                + spec_fields_from(l@, j + 1));
            assert(spec_fields(l@).skip(k as int).len() >= 1);
            assert(k + 1 <= spec_fields(l@).len());
            assert(spec_fields_from(l@, c as int).drop_first() =~~= spec_fields_from(l@, j + 1));
            assert(spec_fields(l@).skip(k as int).drop_first() =~~= spec_fields(l@).skip(k + 1));
            assert(spec_fields_from(l@, j + 1) =~~= spec_fields(l@).skip(k + 1));
        }
        c = j + 1;
        k += 1;
    }
    let mut j: usize = c;
    while j < n && l.get_char(j) != ':'
        invariant
            n == l@.len(),
            c <= j <= n,
            scan_to(l@, ':', c as int) == scan_to(l@, ':', j as int),
        decreases n - j,
    {
        j += 1;
    }
    assert(scan_to(l@, ':', c as int) == j);
    proof {
        if j == n {
            assert(spec_fields_from(l@, c as int) =~~= seq![
                l@.subrange(c as int, l@.len() as int),
            ]);
        } else {
            assert(spec_fields_from(l@, c as int) =~~= seq![l@.subrange(c as int, j as int)]
                + spec_fields_from(l@, j + 1));
        }
        assert(spec_fields_from(l@, c as int).len() >= 1);
        assert(spec_fields(l@).skip(9).len() >= 1);
        assert(spec_fields(l@).len() >= 10);
        assert(spec_fields_from(l@, c as int)[0] == l@.subrange(c as int, j as int));
        assert(spec_fields(l@)[9] == l@.subrange(c as int, j as int));
    }
    Some(str_trim(l.substring_char(c, j)))
}

/// Model of one public key: the primary fingerprint and, when one was
/// listed, the first user-id line seen for the key.
pub struct PublicKeyModel {
    pub fpr: Seq<char>,
    pub uid: Option<Seq<char>>,
}

/// One public key from the keyring listing.
#[derive(Debug)]
pub struct PublicKey {
    pub fpr: String,
    pub uid: Option<String>,
}

impl View for PublicKey {
    type V = PublicKeyModel;

    open spec fn view(&self) -> PublicKeyModel {
        PublicKeyModel {
            fpr: self.fpr@,
            uid: match self.uid {
                Some(ref u) => Some(u@),
                None => None,
            },
        }
    }
}

/// The models of a sequence of public keys, in order.
pub open spec fn key_views_of(s: Seq<PublicKey>) -> Seq<PublicKeyModel> {
    Seq::new(s.len(), |i: int| s[i]@)
}

/// Append one key, tracked at the view level.
fn push_key(v: &mut Vec<PublicKey>, k: PublicKey)
    ensures
        key_views_of(final(v)@) == key_views_of(old(v)@).push(k@),
{
    let ghost before = v@;
    let ghost km = k@;
    v.push(k);
    proof {
        assert forall|m: int| 0 <= m < before.len() + 1 implies key_views_of(v@)[m]
            == key_views_of(before).push(km)[m] by {
            if m < before.len() {
                assert(v@[m] == before[m]);
            }
        }
        assert(key_views_of(v@) =~~= key_views_of(before).push(km));
    }
}

// ---------------------------------------------------------------------
// The public-key listing
// ---------------------------------------------------------------------

/// Scan state while reading the public-key listing: whether a primary
/// key header was seen, the first user id captured for it, and the keys
/// finished so far.
pub struct KeyScanModel {
    pub saw_pub: bool,
    pub pending_uid: Option<Seq<char>>,
    pub keys: Seq<PublicKeyModel>,
}

/// One line of the listing applied to the scan state: a key header
/// opens a key and clears the pending user id; between a header and its
/// fingerprint line, the first non-empty user id is held; a non-empty
/// fingerprint line closes the key.
pub open spec fn spec_scan_key_line(st: KeyScanModel, l: Seq<char>) -> KeyScanModel {
    if occurs_at(l, "pub:"@, 0) {
        KeyScanModel { saw_pub: true, pending_uid: None, ..st }
    } else if !st.saw_pub {
        st
    } else {
        let st1 = if occurs_at(l, "uid:"@, 0) && st.pending_uid is None && spec_fields(l).len() > 9
            && spec_trim(spec_fields(l)[9]).len() > 0 {
            KeyScanModel { pending_uid: Some(spec_trim(spec_fields(l)[9])), ..st }
        } else {
            st
        };
        if occurs_at(l, "fpr:"@, 0) && spec_fields(l).len() > 9 && spec_trim(
            spec_fields(l)[9],
        ).len() > 0 {
            KeyScanModel {
                saw_pub: false,
                pending_uid: None,
                keys: st1.keys.push(
                    PublicKeyModel { fpr: spec_trim(spec_fields(l)[9]), uid: st1.pending_uid },
                ),
            }
        } else {
            st1
        }
    }
}

/// The scan folded over a sequence of lines.
pub open spec fn spec_scan_keys(lines: Seq<Seq<char>>, st: KeyScanModel) -> Seq<PublicKeyModel>
    decreases lines.len(),
{
    if lines.len() == 0 {
        st.keys
    } else {
        spec_scan_keys(lines.drop_first(), spec_scan_key_line(st, lines.first()))
    }
}

/// The public keys listed in the colon-delimited listing `s`.
pub open spec fn spec_public_keys(s: Seq<char>) -> Seq<PublicKeyModel> {
    spec_scan_keys(
        spec_lines(s),
        KeyScanModel { saw_pub: false, pending_uid: None, keys: Seq::empty() },
    )
}

/// Model of an optional owned user id.
pub open spec fn opt_view(o: Option<String>) -> Option<Seq<char>> {
    match o {
        Some(u) => Some(u@),
        None => None,
    }
}

/// Parse the colon-delimited public-key listing: each key's primary
/// fingerprint, paired with the first user id listed for it.
pub fn parse_public_keys(colons: &str) -> (r: Vec<PublicKey>)
    ensures
        key_views_of(r@) == spec_public_keys(colons@),
{
    let lines = split_lines(colons);
    let ghost lv = lines.deep_view();
    let mut saw_pub = false;
    let mut pending_uid: Option<String> = None;
    let mut res: Vec<PublicKey> = Vec::new();
    let n = lines.len();
    let mut i: usize = 0;
    proof {
        assert(lv.skip(0) =~~= lv);
        assert(key_views_of(res@) =~~= Seq::<PublicKeyModel>::empty());
    }
    while i < n
        invariant
            n == lines@.len(),
            i <= n,
            lv == lines.deep_view(),
            spec_scan_keys(
                lv.skip(i as int),
                KeyScanModel {
                    saw_pub: saw_pub,
                    pending_uid: opt_view(pending_uid),
                    keys: key_views_of(res@),
                },
            ) == spec_public_keys(colons@),
        decreases n - i,
    {
        let ghost st0 = KeyScanModel {
            saw_pub: saw_pub,
            pending_uid: opt_view(pending_uid),
            keys: key_views_of(res@),
        };
        proof {
            assert(lv.skip(i as int).first() == lv[i as int]);
            assert(lv.skip(i as int).drop_first() =~~= lv.skip(i + 1));
            assert(lv[i as int] == lines@[i as int]@);
        }
        let l = lines[i].as_str();
        if str_starts_with(l, "pub:") {
            saw_pub = true;
            pending_uid = None;
        } else if !saw_pub {
            // outside a key: the line is ignored
        } else {
            if str_starts_with(l, "uid:") && pending_uid.is_none() {
                match colon_field9(l) {
                    Some(u) => {
                        if !u.as_str().is_empty() {
                            pending_uid = Some(u);
                        }
                    },
                    None => {},
                }
            }
            if str_starts_with(l, "fpr:") {
                match colon_field9(l) {
                    Some(f) => {
                        if !f.as_str().is_empty() {
                            let uid = pending_uid;
                            pending_uid = None;
                            push_key(&mut res, PublicKey { fpr: f, uid });
                            saw_pub = false;
                        }
                    },
                    None => {},
                }
            }
        }
        proof {
            let st1 = KeyScanModel {
                saw_pub: saw_pub,
                pending_uid: opt_view(pending_uid),
                keys: key_views_of(res@),
            };
            assert(st1 == spec_scan_key_line(st0, lv[i as int]));
        }
        i += 1;
    }
    proof {
        assert(lv.skip(n as int) =~~= Seq::<Seq<char>>::empty());
    }
    res
}

// ---------------------------------------------------------------------
// The secret-key fingerprint listing
// ---------------------------------------------------------------------

/// The fingerprint carried by one line of the listing: the trimmed
/// tenth field of a fingerprint line, when present and non-empty.
pub open spec fn spec_fpr_of_line(l: Seq<char>) -> Option<Seq<char>> {
    if occurs_at(l, "fpr:"@, 0) && spec_fields(l).len() > 9 && spec_trim(
        spec_fields(l)[9],
    ).len() > 0 {
        Some(spec_trim(spec_fields(l)[9]))
    } else {
        None
    }
}

/// Every fingerprint the lines carry, in line order, duplicates kept.
pub open spec fn spec_fprs(lines: Seq<Seq<char>>) -> Seq<Seq<char>>
    decreases lines.len(),
{
    if lines.len() == 0 {
        Seq::empty()
    } else {
        match spec_fpr_of_line(lines.first()) {
            Some(f) => seq![f] + spec_fprs(lines.drop_first()),
            None => spec_fprs(lines.drop_first()),
        }
    }
}

/// An element sits in a concatenation exactly when it sits in one of
/// the parts.
proof fn lemma_concat_contains<A>(a: Seq<A>, b: Seq<A>, x: A)
    ensures
        (a + b).contains(x) <==> a.contains(x) || b.contains(x),
{
    if a.contains(x) {
        let i = choose|i: int| 0 <= i < a.len() && a[i] == x;
        assert((a + b)[i] == x);
    }
    if b.contains(x) {
        let i = choose|i: int| 0 <= i < b.len() && b[i] == x;
        assert((a + b)[a.len() + i] == x);
    }
    if (a + b).contains(x) {
        let i = choose|i: int| 0 <= i < (a + b).len() && (a + b)[i] == x;
        if i < a.len() {
            assert(a[i] == x);
        } else {
            assert(b[i - a.len()] == x);
        }
    }
}

/// The fingerprint of one line, when the line carries one.
fn fpr_of_line(l: &str) -> (r: Option<String>)
    ensures
        match r {
            Some(f) => spec_fpr_of_line(l@) == Some(f@),
            None => spec_fpr_of_line(l@) is None,
        },
{
    if !str_starts_with(l, "fpr:") {
        return None;
    }
    match colon_field9(l) {
        Some(f) => {
            if f.as_str().is_empty() {
                None
            } else {
                Some(f)
            }
        },
        None => None,
    }
}

/// Insert `x` into a strictly sorted vector, keeping it strictly
/// sorted; inserting a value already present changes nothing.
fn insert_sorted(v: &mut Vec<String>, x: String)
    requires
        strictly_sorted(old(v).deep_view()),
    ensures
        strictly_sorted(final(v).deep_view()),
        forall|y: Seq<char>|
            final(v).deep_view().contains(y) <==> (old(v).deep_view().contains(y) || y == x@),
{
    let ghost dv = v.deep_view();
    let n = v.len();
    let mut p: usize = 0;
    while p < n && str_lex_lt(v[p].as_str(), x.as_str())
        invariant
            n == v@.len(),
            dv == v.deep_view(),
            p <= n,
            forall|m: int| 0 <= m < p ==> lex_lt(#[trigger] dv[m], x@),
        decreases n - p,
    {
        proof {
            assert(v@[p as int]@ == dv[p as int]);
        }
        p += 1;
    }
    if p < n {
        proof {
            assert(v@[p as int]@ == dv[p as int]);
        }
        if !str_lex_lt(x.as_str(), v[p].as_str()) {
            proof {
                lemma_lex_trichotomy(dv[p as int], x@);
                assert(dv[p as int] == x@);
                assert(v.deep_view().contains(x@)) by {
                    assert(v.deep_view()[p as int] == x@);
                }
            }
            return;
        }
    }
    let ghost xm = x@;
    v.insert(p, x);
    proof {
        assert forall|m: int| 0 <= m < v@.len() implies v.deep_view()[m] == (
            if m < p {
                dv[m]
            } else if m == p {
                xm
            } else {
                dv[m - 1]
            }
        ) by {
            if m < p {
                assert(v@[m] == old(v)@[m]);
            } else if m > p {
                assert(v@[m] == old(v)@[m - 1]);
            }
        }
        assert forall|i: int, j: int|
            0 <= i < j < v.deep_view().len() implies lex_lt(
            #[trigger] v.deep_view()[i],
            #[trigger] v.deep_view()[j],
        ) by {
            let a = v.deep_view()[i];
            let b = v.deep_view()[j];
            if i < p && j < p {
                assert(lex_lt(dv[i], dv[j]));
            } else if i < p && j == p {
                assert(lex_lt(dv[i], xm));
            } else if i < p && j > p {
                assert(lex_lt(dv[i], dv[j - 1]));
            } else if i == p && j > p {
                if j - 1 > p {
                    assert(lex_lt(dv[p as int], dv[j - 1]));
                    lemma_lex_transitive(xm, dv[p as int], dv[j - 1]);
                }
            } else {
                assert(lex_lt(dv[i - 1], dv[j - 1]));
            }
        }
        assert forall|y: Seq<char>| #[trigger]
            v.deep_view().contains(y) <==> (dv.contains(y) || y == xm) by {
            if v.deep_view().contains(y) {
                let m = choose|m: int| 0 <= m < v.deep_view().len() && v.deep_view()[m] == y;
                if m < p {
                    assert(dv[m] == y);
                } else if m > p {
                    assert(dv[m - 1] == y);
                }
            }
            if dv.contains(y) {
                let m = choose|m: int| 0 <= m < dv.len() && dv[m] == y;
                if m < p {
                    assert(v.deep_view()[m] == y);
                } else {
                    assert(v.deep_view()[m + 1] == y);
                }
            }
            if y == xm {
                assert(v.deep_view().contains(y)) by {
                    assert(v.deep_view()[p as int] == y);
                }
            }
            if dv.contains(y) || y == xm {
                assert(v.deep_view().contains(y));
            }
        }
        assert(forall|y: Seq<char>|
            #[trigger] v.deep_view().contains(y) <==> (dv.contains(y) || y == xm));
    }
}

/// Parse the colon-delimited secret-key listing into the fingerprints
/// it carries, sorted and with duplicates removed: the result is
/// strictly sorted and holds exactly the fingerprints of the listing's
/// fingerprint lines.
pub fn parse_colons_fprs(colons: &str) -> (r: Vec<String>)
    ensures
        strictly_sorted(r.deep_view()),
        forall|x: Seq<char>|
            r.deep_view().contains(x) <==> spec_fprs(spec_lines(colons@)).contains(x),
{
    let lines = split_lines(colons);
    let ghost lv = lines.deep_view();
    let mut res: Vec<String> = Vec::new();
    let n = lines.len();
    let mut i: usize = 0;
    proof {
        assert(lv.skip(0) =~~= lv);
    }
    while i < n
        invariant
            n == lines@.len(),
            i <= n,
            lv == lines.deep_view(),
            strictly_sorted(res.deep_view()),
            forall|x: Seq<char>|
                (res.deep_view().contains(x) || spec_fprs(lv.skip(i as int)).contains(x))
                    <==> spec_fprs(lv).contains(x),
        decreases n - i,
    {
        proof {
            assert(lv.skip(i as int).first() == lv[i as int]);
            assert(lv.skip(i as int).drop_first() =~~= lv.skip(i + 1));
            assert(lv[i as int] == lines@[i as int]@);
        }
        let l = lines[i].as_str();
        match fpr_of_line(l) {
            Some(f) => {
                let ghost fm = f@;
                let ghost rest = spec_fprs(lv.skip(i + 1));
                proof {
                    assert(spec_fprs(lv.skip(i as int)) == seq![fm] + rest);
                    lemma_concat_contains_all(seq![fm], rest);
                    assert(seq![fm].contains(fm)) by {
                        assert(seq![fm][0] == fm);
                    }
                    assert forall|x: Seq<char>| #[trigger] seq![fm].contains(x) implies x
                        == fm by {
                        let k = choose|k: int| 0 <= k < seq![fm].len() && seq![fm][k] == x;
                    }
                }
                insert_sorted(&mut res, f);
                proof {
                    assert forall|x: Seq<char>|
                        (res.deep_view().contains(x) || spec_fprs(lv.skip(i + 1)).contains(x))
                            <==> spec_fprs(lv).contains(x) by {
                        assert(seq![fm].contains(x) <==> x == fm);
                    }
                }
            },
            None => {},
        }
        i += 1;
    }
    proof {
        assert(lv.skip(n as int) =~~= Seq::<Seq<char>>::empty());
        assert forall|x: Seq<char>|
            res.deep_view().contains(x) <==> spec_fprs(lv).contains(x) by {
            assert(!spec_fprs(lv.skip(n as int)).contains(x));
        }
    }
    res
}

/// Concatenation membership, stated for every element at once.
proof fn lemma_concat_contains_all(a: Seq<Seq<char>>, b: Seq<Seq<char>>)
    ensures
        forall|x: Seq<char>| #[trigger] (a + b).contains(x) <==> a.contains(x) || b.contains(x),
{
    assert forall|x: Seq<char>| #[trigger]
        (a + b).contains(x) <==> a.contains(x) || b.contains(x) by {
        lemma_concat_contains(a, b, x);
    }
}

} // verus!
