//! The query-string extractor: locates a named parameter's value in a raw URL
//! query component.
//!
//! The semantics are deliberately explicit rather than delegated to a generic
//! URL library helper, because they are a load-bearing contract: the query is
//! split on `&`, each segment is split on its *first* `=`, the first segment
//! whose key equals the target wins, and no URL-decoding is applied — the
//! caller receives the value exactly as it appeared in the query string.

use vstd::prelude::*;

use crate::error::AuthError;

verus! {

/// The index of the first occurrence of `c` in `s`, if any.
pub open spec fn find_char(s: Seq<char>, c: char) -> Option<int>
    decreases s.len(),
{
    if s.len() == 0 {
        None
    } else if s[0] == c {
        Some(0int)
    } else {
        match find_char(s.drop_first(), c) {
            Some(i) => Some(i + 1),
            None => None,
        }
    }
}

/// A found index lies in range, holds `c`, and nothing before it does; a miss
/// means no position holds `c`.
pub proof fn lemma_find_char_bounds(s: Seq<char>, c: char)
    ensures
        match find_char(s, c) {
            Some(i) => 0 <= i < s.len() && s[i] == c && (forall|k: int| 0 <= k < i ==> s[k] != c),
            None => forall|k: int| 0 <= k < s.len() ==> s[k] != c,
        },
    decreases s.len(),
{
    if s.len() > 0 && s[0] != c {
        lemma_find_char_bounds(s.drop_first(), c);
        assert forall|k: int| 1 <= k < s.len() implies s[k] == s.drop_first()[k - 1] by {}
    }
}

/// `find_char` is determined by a scan: if nothing before `i` is `c`, and `i`
/// is either the end or a position holding `c`, then `i` is the answer.
pub proof fn lemma_find_char_from_scan(s: Seq<char>, c: char, i: int)
    requires
        0 <= i <= s.len(),
        forall|k: int| 0 <= k < i ==> s[k] != c,
        i == s.len() || s[i] == c,
    ensures
        find_char(s, c) == if i == s.len() {
            None::<int>
        } else {
            Some(i)
        },
    decreases i,
{
    if s.len() == 0 {
    } else if i == 0 {
    } else {
        lemma_find_char_from_scan(s.drop_first(), c, i - 1);
    }
}

/// The segments of `q`: `q` split on every occurrence of `sep`. An empty `q`
/// yields one empty segment; adjacent separators yield empty segments.
pub open spec fn split_on(q: Seq<char>, sep: char) -> Seq<Seq<char>>
    decreases q.len(),
{
    match find_char(q, sep) {
        None => seq![q],
        Some(i) => {
            proof {
                lemma_find_char_bounds(q, sep);
            }
            seq![q.subrange(0, i)] + split_on(q.subrange(i + 1, q.len() as int), sep)
        },
    }
}

/// The key of a query segment: the characters before its first `=`, or the
/// whole segment when it has none.
pub open spec fn seg_key(seg: Seq<char>) -> Seq<char> {
    match find_char(seg, '=') {
        Some(i) => seg.subrange(0, i),
        None => seg,
    }
}

/// The value of a query segment: the characters after its first `=`, absent
/// when the segment cannot be split into a key/value pair (it has no `=`).
pub open spec fn seg_value(seg: Seq<char>) -> Option<Seq<char>> {
    match find_char(seg, '=') {
        Some(i) => Some(seg.subrange(i + 1, seg.len() as int)),
        None => None,
    }
}

/// A malformed segment: it has an `=` but lacks a key (nothing stands before
/// the `=`), so no key/value pair can be formed from it. A wholly empty
/// segment (as arises between adjacent `&`) has no `=` and is not malformed.
pub open spec fn seg_malformed(seg: Seq<char>) -> bool {
    seg_key(seg).len() == 0 && seg_value(seg) is Some
}

/// The left-to-right scan over segments. `None`: no segment's key equals
/// `key`. `Some(None)`: the scan aborted on a malformed segment — one lacking
/// a key reached before any match, or a first matching segment that has no
/// `=`, so no value can be returned. `Some(Some(v))`: the first matching
/// segment's value is `v`; later duplicates are ignored.
pub open spec fn lookup_segments(segs: Seq<Seq<char>>, key: Seq<char>) -> Option<Option<Seq<char>>>
    decreases segs.len(),
{
    if segs.len() == 0 {
        None
    } else if seg_malformed(segs[0]) {
        Some(None)
    } else if seg_key(segs[0]) == key {
        Some(seg_value(segs[0]))
    } else {
        lookup_segments(segs.drop_first(), key)
    }
}

/// What the query-string extractor returns for raw query `q` and target `key`.
pub open spec fn lookup_param(q: Seq<char>, key: Seq<char>) -> Option<Option<Seq<char>>> {
    lookup_segments(split_on(q, '&'), key)
}

/// Scanning a non-empty segment list looks at the head first.
proof fn lemma_lookup_segments_cons(head: Seq<char>, rest: Seq<Seq<char>>, key: Seq<char>)
    ensures
        lookup_segments(seq![head] + rest, key) == if seg_malformed(head) {
            Some(None::<Seq<char>>)
        } else if seg_key(head) == key {
            Some(seg_value(head))
        } else {
            lookup_segments(rest, key)
        },
{
    let segs = seq![head] + rest;
    assert(segs[0] == head);
    assert(segs.drop_first() =~= rest);
}

/// First-match law: if segment `i` is the first whose key equals `key`, and
/// no segment up to it is malformed, the scan returns exactly that segment's
/// value outcome — later occurrences of the key are ignored.
pub proof fn lemma_first_match_wins(segs: Seq<Seq<char>>, key: Seq<char>, i: int)
    requires
        0 <= i < segs.len(),
        seg_key(segs[i]) == key,
        forall|j: int| 0 <= j < i ==> seg_key(segs[j]) != key,
        forall|j: int| 0 <= j <= i ==> !seg_malformed(segs[j]),
    ensures
        lookup_segments(segs, key) == Some(seg_value(segs[i])),
    decreases i,
{
    if i > 0 {
        lemma_first_match_wins(segs.drop_first(), key, i - 1);
    }
}

/// Unique-occurrence law: when exactly one segment of the query carries `key`,
/// that segment holds `key=<v>`, and no segment up to it is malformed, the
/// extractor returns `v` unchanged — no decoding or escaping is applied.
pub proof fn lemma_unique_key_value(q: Seq<char>, key: Seq<char>, v: Seq<char>, i: int)
    requires
        0 <= i < split_on(q, '&').len(),
        seg_key(split_on(q, '&')[i]) == key,
        seg_value(split_on(q, '&')[i]) == Some(v),
        forall|j: int|
            0 <= j < split_on(q, '&').len() && j != i ==> seg_key(split_on(q, '&')[j]) != key,
        forall|j: int| 0 <= j <= i ==> !seg_malformed(split_on(q, '&')[j]),
    ensures
        lookup_param(q, key) == Some(Some(v)),
{
    lemma_first_match_wins(split_on(q, '&'), key, i);
}

/// Scans the raw query string `query` for the first segment whose key equals
/// `key` and returns that segment's raw value. First occurrence wins; no
/// URL-decoding is performed. Fails with `ParameterNotFound` when no segment
/// matches after scanning all of them, and with `MalformedParameter` when the
/// scan reaches a malformed segment first: one lacking a key (empty before
/// its `=`), or a matching segment that has no `=` at all.
pub fn find_query_param(query: &str, key: &str) -> (r: Result<String, AuthError>)
    requires
        key@.len() > 0,
    ensures
        match lookup_param(query@, key@) {
            Some(Some(v)) => r matches Ok(code) && code@ == v,
            Some(None) => r == Err::<String, AuthError>(AuthError::MalformedParameter),
            None => r == Err::<String, AuthError>(AuthError::ParameterNotFound),
        },
{
    let n: usize = query.unicode_len();
    let klen: usize = key.unicode_len();
    let mut pos: usize = 0;
    proof {
        assert(query@.subrange(0, n as int) =~= query@);
    }
    loop
        invariant
            pos <= n,
            n == query@.len(),
            klen == key@.len(),
            klen > 0,
            lookup_param(query@, key@) == lookup_segments(
                split_on(query@.subrange(pos as int, n as int), '&'),
                key@,
            ),
        decreases n - pos,
    {
        let ghost suffix = query@.subrange(pos as int, n as int);

        // End of the current segment: the first `&` at or after `pos`.
        let mut j: usize = pos;
        while j < n && query.get_char(j) != '&'
            invariant
                pos <= j <= n,
                n == query@.len(),
                forall|k: int| pos <= k < j ==> query@[k] != '&',
            decreases n - j,
        {
            j = j + 1;
        }
        proof {
            assert forall|k: int| 0 <= k < j - pos implies suffix[k] != '&' by {
                assert(suffix[k] == query@[pos + k]);
            }
            if j < n {
                assert(suffix[j - pos] == query@[j as int]);
            }
            lemma_find_char_from_scan(suffix, '&', j - pos);
        }
        let ghost seg = query@.subrange(pos as int, j as int);
        let ghost rest = query@.subrange(if j < n { j + 1 } else { j as int }, n as int);
        proof {
            if j < n {
                assert(suffix.subrange(0, j - pos) =~= seg);
                assert(suffix.subrange(j - pos + 1, suffix.len() as int) =~= rest);
                assert(split_on(suffix, '&') == seq![seg] + split_on(rest, '&'));
                lemma_lookup_segments_cons(seg, split_on(rest, '&'), key@);
            } else {
                assert(suffix =~= seg);
                assert(split_on(suffix, '&') == seq![seg]);
                lemma_lookup_segments_cons(seg, Seq::<Seq<char>>::empty(), key@);
                assert(seq![seg] =~= seq![seg] + Seq::<Seq<char>>::empty());
            }
        }

        // The first `=` inside the segment, if any.
        let mut e: usize = pos;
        while e < j && query.get_char(e) != '='
            invariant
                pos <= e <= j <= n,
                n == query@.len(),
                forall|k: int| pos <= k < e ==> query@[k] != '=',
            decreases j - e,
        {
            e = e + 1;
        }
        proof {
            assert forall|k: int| 0 <= k < e - pos implies seg[k] != '=' by {
                assert(seg[k] == query@[pos + k]);
            }
            if e < j {
                assert(seg[e - pos] == query@[e as int]);
            }
            lemma_find_char_from_scan(seg, '=', e - pos);
            if e < j {
                assert(seg_key(seg) =~= query@.subrange(pos as int, e as int));
            } else {
                assert(seg_key(seg) =~= query@.subrange(pos as int, j as int));
            }
        }

        if e == pos && e < j {
            // The segment has an `=` with nothing before it: it lacks a key,
            // and no key/value pair can be formed.
            proof {
                assert(seg_key(seg).len() == 0);
                assert(seg_malformed(seg));
            }
            return Err(AuthError::MalformedParameter);
        }
        proof {
            if e < j {
                assert(seg_key(seg).len() == e - pos);
            }
            assert(!seg_malformed(seg));
        }

        // Does the segment's key equal the target key?
        let key_len: usize = e - pos;
        let mut matched: bool = key_len == klen;
        proof {
            if key_len != klen {
                assert(seg_key(seg).len() == key_len);
                assert(seg_key(seg) != key@);
            }
        }
        if matched {
            let mut t: usize = 0;
            while t < klen
                invariant
                    t <= klen,
                    klen == key@.len(),
                    n == query@.len(),
                    pos + klen == e <= n,
                    matched ==> forall|k: int| 0 <= k < t ==> query@[pos + k] == key@[k],
                    !matched ==> seg_key(seg) != key@,
                    seg_key(seg) == query@.subrange(pos as int, e as int),
                decreases klen - t,
            {
                if query.get_char(pos + t) != key.get_char(t) {
                    proof {
                        assert(seg_key(seg)[t as int] == query@[pos + t]);
                    }
                    matched = false;
                    t = klen;
                } else {
                    t = t + 1;
                }
            }
            proof {
                if matched {
                    assert forall|k: int| 0 <= k < klen implies seg_key(seg)[k] == key@[k] by {
                        assert(seg_key(seg)[k] == query@[pos + k]);
                    }
                    assert(seg_key(seg) =~= key@);
                }
            }
        }

        if matched {
            if e < j {
                // `key=value`: hand the raw value back, exactly as written.
                let value = query.substring_char(e + 1, j);
                proof {
                    assert(seg_value(seg) == Some(seg.subrange(e - pos + 1, seg.len() as int)));
                    assert(seg.subrange(e - pos + 1, seg.len() as int) =~= query@.subrange(
                        e + 1,
                        j as int,
                    ));
                }
                return Ok(value.to_owned());
            } else {
                // The matching segment has no `=`: no key/value pair exists.
                return Err(AuthError::MalformedParameter);
            }
        }
        if j < n {
            pos = j + 1;
        } else {
            // Every segment was scanned and none matched.
            return Err(AuthError::ParameterNotFound);
        }
    }
}

} // verus!
