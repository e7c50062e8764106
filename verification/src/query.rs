//! Lookup of one key in a URL query string of the shape
//! `?key=value&key=value&...`, as the logger setup uses to read a log level
//! from the page address.
//!
//! The string must start with `?`. Pairs are separated by `&`; within a
//! pair, the key is everything before the first `=` and the value is
//! everything between the first and second `=` (or the end of the pair). The
//! value of the first pair whose key matches is returned; a pair without `=`
//! fails the whole lookup, whether or not a later pair would match.

use vstd::prelude::*;

verus! {

/// The position of the first occurrence of `c` in `s`, if any.
pub open spec fn find_char(s: Seq<char>, c: char) -> Option<int>
    decreases s.len(),
{
    if s.len() == 0 {
        None
    } else if s[0] == c {
        Some(0)
    } else {
        match find_char(s.skip(1), c) {
            Some(i) => Some(i + 1),
            None => None,
        }
    }
}

/// `find_char` returns the first occurrence: an in-range position holding
/// `c` with nothing equal to `c` before it, or nothing when `c` does not
/// occur at all.
pub proof fn lemma_find_char(s: Seq<char>, c: char)
    ensures
        match find_char(s, c) {
            Some(i) => 0 <= i < s.len() && s[i] == c && (forall|j: int| 0 <= j < i ==> s[j] != c),
            None => forall|j: int| 0 <= j < s.len() ==> s[j] != c,
        },
    decreases s.len(),
{
    if s.len() == 0 {
    } else if s[0] == c {
    } else {
        lemma_find_char(s.skip(1), c);
        match find_char(s.skip(1), c) {
            Some(i) => {
                assert(s[i + 1] == s.skip(1)[i]);
                assert forall|j: int| 0 <= j < i + 1 implies s[j] != c by {
                    if j > 0 {
                        assert(s[j] == s.skip(1)[j - 1]);
                    }
                }
            },
            None => {
                assert forall|j: int| 0 <= j < s.len() implies s[j] != c by {
                    if j > 0 {
                        assert(s[j] == s.skip(1)[j - 1]);
                    }
                }
            },
        }
    }
}

/// Scan the pairs of `s` (the query string after `?`) left to right for
/// `key`. Nothing is returned as soon as a pair has no `=`; otherwise the
/// value of the first pair whose key equals `key`, if any.
pub open spec fn pairs_lookup(s: Seq<char>, key: Seq<char>) -> Option<Seq<char>>
    decreases s.len(),
    via pairs_lookup_decreases
{
    let pair_end = match find_char(s, '&') {
        Some(i) => i,
        None => s.len() as int,
    };
    let pair = s.take(pair_end);
    match find_char(pair, '=') {
        None => None,
        Some(eq) => {
            let rest = pair.skip(eq + 1);
            let value_end = match find_char(rest, '=') {
                Some(i) => i,
                None => rest.len() as int,
            };
            if pair.take(eq) == key {
                Some(rest.take(value_end))
            } else if find_char(s, '&') is Some {
                pairs_lookup(s.skip(pair_end + 1), key)
            } else {
                None
            }
        },
    }
}

#[via_fn]
proof fn pairs_lookup_decreases(s: Seq<char>, key: Seq<char>) {
    lemma_find_char(s, '&');
}

/// The value under `key` in the full query string `query`, which must start
/// with `?` for anything to be found.
pub open spec fn query_value(query: Seq<char>, key: Seq<char>) -> Option<Seq<char>> {
    if query.len() == 0 || query[0] != '?' {
        None
    } else {
        pairs_lookup(query.skip(1), key)
    }
}

/// `find_char` on the window `q[lo..hi]`, read off from a left-to-right
/// scan of that window: `r` is the first position in `[lo, hi)` holding
/// `c`, or `hi` when there is none.
proof fn lemma_find_char_in_window(q: Seq<char>, lo: int, hi: int, c: char, r: int)
    requires
        0 <= lo <= hi <= q.len(),
        lo <= r <= hi,
        r < hi ==> q[r] == c,
        forall|j: int| lo <= j < r ==> q[j] != c,
    ensures
        find_char(q.subrange(lo, hi), c) == (if r < hi {
            Some(r - lo)
        } else {
            Option::<int>::None
        }),
{
    let w = q.subrange(lo, hi);
    lemma_find_char(w, c);
    if r < hi {
        assert(w[r - lo] == q[r]);
        match find_char(w, c) {
            None => {
                assert(w[r - lo] != c);
            },
            Some(i) => {
                if i < r - lo {
                    assert(q[lo + i] == w[i]);
                    assert(q[lo + i] != c);
                } else if i > r - lo {
                    assert(w[r - lo] != c);
                }
            },
        }
    } else {
        match find_char(w, c) {
            None => {},
            Some(i) => {
                assert(q[lo + i] == w[i]);
                assert(q[lo + i] != c);
            },
        }
    }
}

/// The first position in `[from, to)` of `s` holding `c`, or `to` when
/// there is none.
fn find_char_in(s: &str, from: usize, to: usize, c: char) -> (r: usize)
    requires
        from <= to,
        to <= s@.len(),
    ensures
        from <= r <= to,
        r < to ==> s@[r as int] == c,
        forall|j: int| from <= j < r ==> s@[j] != c,
{
    let mut i = from;
    while i < to
        invariant
            from <= i <= to,
            to <= s@.len(),
            forall|j: int| from <= j < i ==> s@[j] != c,
        decreases to - i,
    {
        if s.get_char(i) == c {
            return i;
        }
        i = i + 1;
    }
    to
}

/// Whether the characters of `s` in `[from, to)` are exactly `t`.
fn str_eq_range(s: &str, from: usize, to: usize, t: &str) -> (r: bool)
    requires
        from <= to,
        to <= s@.len(),
    ensures
        r == (s@.subrange(from as int, to as int) == t@),
{
    let t_len = t.unicode_len();
    if to - from != t_len {
        assert(s@.subrange(from as int, to as int).len() != t@.len());
        return false;
    }
    let mut i: usize = 0;
    while i < t_len
        invariant
            0 <= i <= t_len,
            t_len == t@.len(),
            from + t_len == to,
            to <= s@.len(),
            forall|j: int| 0 <= j < i ==> s@[from + j] == t@[j],
        decreases t_len - i,
    {
        if s.get_char(from + i) != t.get_char(i) {
            assert(s@.subrange(from as int, to as int)[i as int] != t@[i as int]);
            return false;
        }
        i = i + 1;
    }
    assert(s@.subrange(from as int, to as int) =~= t@);
    true
}

/// Parse a URL query string of the shape `?key=value&key=value&...` and
/// return the value under `search_key`, if the string is well formed up to
/// and including the first matching pair.
pub fn parse_url_query_string<'a>(query: &'a str, search_key: &str) -> (r: Option<&'a str>)
    ensures
        match r {
            Some(v) => query_value(query@, search_key@) == Some(v@),
            None => query_value(query@, search_key@) is None,
        },
{
    let n = query.unicode_len();
    if n == 0 {
        return None;
    }
    if query.get_char(0) != '?' {
        return None;
    }
    let mut start: usize = 1;
    loop
        invariant
            1 <= start <= n,
            n == query@.len(),
            query@[0] == '?',
            pairs_lookup(query@.skip(1), search_key@) == pairs_lookup(
                query@.skip(start as int),
                search_key@,
            ),
        decreases n - start,
    {
        let ghost q = query@;
        let ghost s = q.skip(start as int);
        let amp = find_char_in(query, start, n, '&');
        let eq = find_char_in(query, start, amp, '=');
        let ghost pair = q.subrange(start as int, amp as int);

        proof {
            assert(s =~= q.subrange(start as int, n as int));
            lemma_find_char_in_window(q, start as int, n as int, '&', amp as int);
            lemma_find_char_in_window(q, start as int, amp as int, '=', eq as int);
            assert(pair =~= s.take(
                match find_char(s, '&') {
                    Some(i) => i,
                    None => s.len() as int,
                },
            ));
        }

        if eq == amp {
            // The pair has no `=`: the whole lookup fails.
            return None;
        }

        let value_end = find_char_in(query, eq + 1, amp, '=');
        proof {
            lemma_find_char_in_window(q, eq + 1, amp as int, '=', value_end as int);
            assert(q.subrange(eq + 1, amp as int) =~= pair.skip(eq - start + 1));
            assert(q.subrange(eq + 1, value_end as int) =~= pair.skip(eq - start + 1).take(
                match find_char(pair.skip(eq - start + 1), '=') {
                    Some(i) => i,
                    None => pair.skip(eq - start + 1).len() as int,
                },
            ));
            assert(q.subrange(start as int, eq as int) =~= pair.take(eq - start));
        }

        if str_eq_range(query, start, eq, search_key) {
            let value = query.substring_char(eq + 1, value_end);
            return Some(value);
        }

        if amp == n {
            return None;
        }
        proof {
            assert(q.skip(amp + 1) =~= s.skip(amp - start + 1));
        }
        start = amp + 1;
    }
}

} // verus!
