//! Substring search, trimming and tokenising over character sequences.
//!
//! Every heuristic in this crate — reply completion, state inference,
//! location extraction — is a predicate over the characters of a command or
//! of a response line.  This module gives those predicates their spec-level
//! vocabulary (`matches_at`, `contains_seq`, `find_seq`, `trim_seq`,
//! `first_token_seq`) and the executable functions proved against it.

use vstd::prelude::*;

verus! {

/// `pat` occurs in `text` starting at index `i`.
pub open spec fn matches_at(text: Seq<char>, pat: Seq<char>, i: int) -> bool {
    0 <= i && i + pat.len() <= text.len() && text.subrange(i, i + pat.len() as int) == pat
}

/// `pat` occurs somewhere in `text`.
pub open spec fn contains_seq(text: Seq<char>, pat: Seq<char>) -> bool {
    exists|i: int| matches_at(text, pat, i)
}

/// `text` begins with `pat`.
pub open spec fn starts_with_seq(text: Seq<char>, pat: Seq<char>) -> bool {
    matches_at(text, pat, 0)
}

/// Index of the first occurrence of `pat` in `text`, if there is one.
pub open spec fn find_seq(text: Seq<char>, pat: Seq<char>) -> Option<int>
    decreases text.len(),
{
    if pat.len() <= text.len() && text.subrange(0, pat.len() as int) == pat {
        Some(0)
    } else if text.len() == 0 {
        None
    } else {
        match find_seq(text.drop_first(), pat) {
            Some(i) => Some(i + 1),
            None => None,
        }
    }
}

/// Occurrences in the tail of a sequence are occurrences in the whole,
/// shifted by one.
proof fn lemma_matches_at_shift(text: Seq<char>, pat: Seq<char>, k: int)
    requires
        text.len() > 0,
        0 <= k,
    ensures
        matches_at(text.drop_first(), pat, k) <==> matches_at(text, pat, k + 1),
{
    if 0 <= k && k + pat.len() <= text.drop_first().len() {
        assert(text.drop_first().subrange(k, k + pat.len() as int) =~= text.subrange(
            k + 1,
            k + 1 + pat.len() as int,
        ));
    }
}

/// `find_seq` returns the first occurrence: a match at the index it gives,
/// none at any earlier index, and none at all when it gives nothing.
pub proof fn lemma_find_seq_first(text: Seq<char>, pat: Seq<char>)
    ensures
        find_seq(text, pat) matches Some(i) ==> 0 <= i && i + pat.len() <= text.len()
            && matches_at(text, pat, i) && (forall|j: int|
            0 <= j < i ==> !matches_at(text, pat, j)),
        find_seq(text, pat) is None ==> forall|j: int| !matches_at(text, pat, j),
    decreases text.len(),
{
    if pat.len() <= text.len() && text.subrange(0, pat.len() as int) == pat {
        // Some(0): a match at 0 and nothing before it.
    } else if text.len() == 0 {
        assert forall|j: int| !matches_at(text, pat, j) by {}
    } else {
        lemma_find_seq_first(text.drop_first(), pat);
        assert forall|k: int| 0 <= k implies (matches_at(text.drop_first(), pat, k) <==> matches_at(
            text,
            pat,
            k + 1,
        )) by {
            lemma_matches_at_shift(text, pat, k);
        }
        assert(!matches_at(text, pat, 0));
        match find_seq(text.drop_first(), pat) {
            Some(i) => {
                assert(matches_at(text.drop_first(), pat, i));
                assert forall|j: int| 0 <= j < i + 1 implies !matches_at(text, pat, j) by {
                    if j > 0 {
                        lemma_matches_at_shift(text, pat, j - 1);
                    }
                }
            },
            None => {
                assert forall|j: int| !matches_at(text, pat, j) by {
                    if j > 0 {
                        lemma_matches_at_shift(text, pat, j - 1);
                    }
                }
            },
        }
    }
}

/// A first occurrence determines the value of `find_seq`.
proof fn lemma_first_match_find(text: Seq<char>, pat: Seq<char>, i: int)
    requires
        matches_at(text, pat, i),
        forall|j: int| 0 <= j < i ==> !matches_at(text, pat, j),
    ensures
        find_seq(text, pat) == Some(i),
{
    lemma_find_seq_first(text, pat);
    match find_seq(text, pat) {
        Some(k) => {
            if k < i {
                assert(matches_at(text, pat, k));
                assert(false);
            } else if i < k {
                assert(!matches_at(text, pat, i));
                assert(false);
            }
        },
        None => {
            assert(!matches_at(text, pat, i));
            assert(false);
        },
    }
}

/// Absence of any occurrence determines the value of `find_seq`.
proof fn lemma_no_match_find(text: Seq<char>, pat: Seq<char>)
    requires
        forall|j: int| !matches_at(text, pat, j),
    ensures
        find_seq(text, pat) is None,
{
    lemma_find_seq_first(text, pat);
    match find_seq(text, pat) {
        Some(i) => {
            assert(matches_at(text, pat, i));
            assert(false);
        },
        None => {},
    }
}

/// Compares `pat` against `text` at position `i`, character by character.
fn check_match_at(text: &str, pat: &str, i: usize) -> (b: bool)
    requires
        i + pat@.len() <= text@.len(),
    ensures
        b == matches_at(text@, pat@, i as int),
{
    let tlen = text.unicode_len();
    let plen = pat.unicode_len();
    let mut j: usize = 0;
    while j < plen
        invariant
            j <= plen,
            tlen == text@.len(),
            plen == pat@.len(),
            i + plen <= tlen,
            forall|m: int| 0 <= m < j ==> text@[i + m] == pat@[m],
        decreases plen - j,
    {
        if text.get_char(i + j) != pat.get_char(j) {
            assert(!matches_at(text@, pat@, i as int)) by {
                if matches_at(text@, pat@, i as int) {
                    assert(text@.subrange(i as int, i + plen as int)[j as int] == pat@[j as int]);
                }
            }
            return false;
        }
        j += 1;
    }
    assert(text@.subrange(i as int, i + plen as int) =~= pat@);
    true
}

/// Index of the first occurrence of `pat` in `text`, if there is one.
pub fn find_sub(text: &str, pat: &str) -> (r: Option<usize>)
    ensures
        r matches Some(i) ==> find_seq(text@, pat@) == Some(i as int),
        r is None ==> find_seq(text@, pat@) is None,
{
    let tlen = text.unicode_len();
    let plen = pat.unicode_len();
    if plen == 0 {
        proof {
            assert(text@.subrange(0, 0) =~= pat@);
            lemma_first_match_find(text@, pat@, 0);
        }
        return Some(0);
    }
    if plen > tlen {
        proof {
            lemma_no_match_find(text@, pat@);
        }
        return None;
    }
    let bound = tlen - plen;
    let mut i: usize = 0;
    while i <= bound
        invariant
            tlen == text@.len(),
            plen == pat@.len(),
            0 < plen <= tlen,
            bound == tlen - plen,
            i <= bound + 1,
            forall|j: int| 0 <= j < i ==> !matches_at(text@, pat@, j),
        decreases bound + 1 - i,
    {
        if check_match_at(text, pat, i) {
            proof {
                lemma_first_match_find(text@, pat@, i as int);
            }
            return Some(i);
        }
        i += 1;
    }
    proof {
        assert forall|j: int| !matches_at(text@, pat@, j) by {
            if j > bound {
                assert(!(j + pat@.len() <= text@.len()));
            }
        }
        lemma_no_match_find(text@, pat@);
    }
    None
}

/// Whether `text` contains `pat`.
pub fn contains_sub(text: &str, pat: &str) -> (b: bool)
    ensures
        b == contains_seq(text@, pat@),
{
    let r = find_sub(text, pat);
    proof {
        lemma_find_seq_first(text@, pat@);
    }
    match r {
        Some(i) => {
            assert(matches_at(text@, pat@, i as int));
            true
        },
        None => {
            assert(!contains_seq(text@, pat@));
            false
        },
    }
}

/// Whether `text` begins with `pat`.
pub fn starts_with_sub(text: &str, pat: &str) -> (b: bool)
    ensures
        b == starts_with_seq(text@, pat@),
{
    let tlen = text.unicode_len();
    let plen = pat.unicode_len();
    if plen > tlen {
        false
    } else {
        check_match_at(text, pat, 0)
    }
}

/// Whether two strings hold the same characters.
pub fn str_eq(a: &str, b: &str) -> (r: bool)
    ensures
        r == (a@ == b@),
{
    let al = a.unicode_len();
    let bl = b.unicode_len();
    if al != bl {
        return false;
    }
    let mut i: usize = 0;
    while i < al
        invariant
            al == a@.len(),
            bl == b@.len(),
            al == bl,
            i <= al,
            forall|k: int| 0 <= k < i ==> a@[k] == b@[k],
        decreases al - i,
    {
        if a.get_char(i) != b.get_char(i) {
            return false;
        }
        i += 1;
    }
    assert(a@ =~= b@);
    true
}

/// ASCII whitespace — the only whitespace the debugger vocabulary produces.
pub open spec fn is_ws(c: char) -> bool {
    c == ' ' || c == '\t' || c == '\n' || c == '\r' || c == '\u{b}' || c == '\u{c}'
}

/// Executable check for [`is_ws`].
pub fn is_ws_char(c: char) -> (b: bool)
    ensures
        b == is_ws(c),
{
    c == ' ' || c == '\t' || c == '\n' || c == '\r' || c == '\u{b}' || c == '\u{c}'
}

/// `s` without its leading whitespace.
pub open spec fn trim_start_seq(s: Seq<char>) -> Seq<char>
    decreases s.len(),
{
    if s.len() > 0 && is_ws(s[0]) {
        trim_start_seq(s.drop_first())
    } else {
        s
    }
}

/// `s` without its trailing whitespace.
pub open spec fn trim_end_seq(s: Seq<char>) -> Seq<char>
    decreases s.len(),
{
    if s.len() > 0 && is_ws(s[s.len() - 1]) {
        trim_end_seq(s.drop_last())
    } else {
        s
    }
}

/// `s` without leading and trailing whitespace.
pub open spec fn trim_seq(s: Seq<char>) -> Seq<char> {
    trim_end_seq(trim_start_seq(s))
}

/// The maximal whitespace-free prefix of `s`.
pub open spec fn take_until_ws(s: Seq<char>) -> Seq<char>
    decreases s.len(),
{
    if s.len() > 0 && !is_ws(s[0]) {
        seq![s[0]] + take_until_ws(s.drop_first())
    } else {
        Seq::empty()
    }
}

/// The first whitespace-delimited token of `s`, if there is one.
pub open spec fn first_token_seq(s: Seq<char>) -> Option<Seq<char>> {
    let r = trim_start_seq(s);
    if r.len() == 0 {
        None
    } else {
        Some(take_until_ws(r))
    }
}

/// When the first `a` characters are whitespace and the one after them (if
/// any) is not, trimming the start removes exactly those `a` characters.
proof fn lemma_trim_start_at(s: Seq<char>, a: int)
    requires
        0 <= a <= s.len(),
        forall|k: int| 0 <= k < a ==> is_ws(s[k]),
        a < s.len() ==> !is_ws(s[a]),
    ensures
        trim_start_seq(s) == s.subrange(a, s.len() as int),
    decreases s.len(),
{
    if a == 0 {
        assert(s.subrange(0, s.len() as int) =~= s);
    } else {
        lemma_trim_start_at(s.drop_first(), a - 1);
        assert(s.drop_first().subrange(a - 1, s.drop_first().len() as int) =~= s.subrange(
            a,
            s.len() as int,
        ));
    }
}

/// When the last characters from `b` on are whitespace and the one before
/// them (if any) is not, trimming the end keeps exactly the first `b`.
proof fn lemma_trim_end_at(s: Seq<char>, b: int)
    requires
        0 <= b <= s.len(),
        forall|k: int| b <= k < s.len() ==> is_ws(s[k]),
        b > 0 ==> !is_ws(s[b - 1]),
    ensures
        trim_end_seq(s) == s.subrange(0, b),
    decreases s.len(),
{
    if b == s.len() {
        if s.len() == 0 || !is_ws(s[s.len() - 1]) {
            assert(s.subrange(0, s.len() as int) =~= s);
        } else {
            assert(false);
        }
    } else {
        lemma_trim_end_at(s.drop_last(), b);
        assert(s.drop_last().subrange(0, b) =~= s.subrange(0, b));
    }
}

/// When the first `m` characters are not whitespace and the one after them
/// (if any) is, the whitespace-free prefix is exactly those `m` characters.
proof fn lemma_take_until_ws_at(s: Seq<char>, m: int)
    requires
        0 <= m <= s.len(),
        forall|k: int| 0 <= k < m ==> !is_ws(s[k]),
        m < s.len() ==> is_ws(s[m]),
    ensures
        take_until_ws(s) == s.subrange(0, m),
    decreases s.len(),
{
    if m == 0 {
        assert(s.subrange(0, 0) =~= Seq::<char>::empty());
    } else {
        lemma_take_until_ws_at(s.drop_first(), m - 1);
        assert(seq![s[0]] + s.drop_first().subrange(0, m - 1) =~= s.subrange(0, m));
    }
}

/// `s` with leading and trailing whitespace removed.
pub fn trim_sub<'a>(s: &'a str) -> (r: &'a str)
    ensures
        r@ == trim_seq(s@),
{
    let n = s.unicode_len();
    let mut a: usize = 0;
    while a < n && is_ws_char(s.get_char(a))
        invariant
            n == s@.len(),
            a <= n,
            forall|k: int| 0 <= k < a ==> is_ws(s@[k]),
        decreases n - a,
    {
        a += 1;
    }
    proof {
        lemma_trim_start_at(s@, a as int);
    }
    if a == n {
        proof {
            lemma_trim_end_at(s@.subrange(a as int, n as int), 0);
            assert(s@.subrange(n as int, n as int).subrange(0, 0) =~= s@.subrange(
                n as int,
                n as int,
            ));
        }
        return s.substring_char(n, n);
    }
    let mut b: usize = n;
    while b > a && is_ws_char(s.get_char(b - 1))
        invariant
            n == s@.len(),
            a < n,
            a <= b <= n,
            !is_ws(s@[a as int]),
            forall|k: int| b <= k < n ==> is_ws(s@[k]),
        decreases b,
    {
        b -= 1;
    }
    assert(b > a) by {
        if b == a {
            assert(is_ws(s@[a as int]));
        }
    }
    proof {
        let t = s@.subrange(a as int, n as int);
        lemma_trim_end_at(t, b - a);
        assert(t.subrange(0, b - a) =~= s@.subrange(a as int, b as int));
    }
    s.substring_char(a, b)
}

/// The first whitespace-delimited token of `s`, if there is one.
pub fn first_token(s: &str) -> (r: Option<String>)
    ensures
        r is Some <==> first_token_seq(s@) is Some,
        r matches Some(t) ==> first_token_seq(s@) == Some(t@),
{
    let n = s.unicode_len();
    let mut a: usize = 0;
    while a < n && is_ws_char(s.get_char(a))
        invariant
            n == s@.len(),
            a <= n,
            forall|k: int| 0 <= k < a ==> is_ws(s@[k]),
        decreases n - a,
    {
        a += 1;
    }
    proof {
        lemma_trim_start_at(s@, a as int);
    }
    if a == n {
        return None;
    }
    let mut e: usize = a;
    while e < n && !is_ws_char(s.get_char(e))
        invariant
            n == s@.len(),
            a <= e <= n,
            forall|k: int| a <= k < e ==> !is_ws(s@[k]),
        decreases n - e,
    {
        e += 1;
    }
    proof {
        let t = s@.subrange(a as int, n as int);
        lemma_take_until_ws_at(t, e - a);
        assert(t.subrange(0, e - a) =~= s@.subrange(a as int, e as int));
    }
    let tok = s.substring_char(a, e);
    Some(tok.to_owned())
}

} // verus!
