//! Image URI validation: an `http` or `https` URL with a dotted host
//! whose last label is alphabetic with at least two characters, optionally
//! followed by a `/` path free of whitespace.
//!
//! The grammar is stated declaratively (`url_matches`) and the checker is
//! proved to decide exactly that grammar.

use vstd::prelude::*;
use crate::errors::AppError;

verus! {

/// A character the host part may contain: letters, digits, dots and
/// hyphens.
pub open spec fn is_host_char(c: char) -> bool {
    ('a' <= c && c <= 'z') || ('A' <= c && c <= 'Z') || ('0' <= c && c <= '9') || c == '.' || c
        == '-'
}

/// An ASCII letter.
pub open spec fn is_alpha_char(c: char) -> bool {
    ('a' <= c && c <= 'z') || ('A' <= c && c <= 'Z')
}

/// A Unicode whitespace character, which the path part may not contain:
/// the characters with the White_Space property.
pub open spec fn is_space_char(c: char) -> bool {
    ||| c == ' ' || c == '\t' || c == '\n' || c == '\r' || c == '\u{b}' || c == '\u{c}'
    ||| c == '\u{85}' || c == '\u{a0}' || c == '\u{1680}'
    ||| '\u{2000}' <= c && c <= '\u{200a}'
    ||| c == '\u{2028}' || c == '\u{2029}' || c == '\u{202f}' || c == '\u{205f}'
    ||| c == '\u{3000}'
}

/// Whether `c` is whitespace.
pub(crate) fn space_char(c: char) -> (r: bool)
    ensures
        r == is_space_char(c),
{
    c == ' ' || c == '\t' || c == '\n' || c == '\r' || c == '\u{b}' || c == '\u{c}'
        || c == '\u{85}' || c == '\u{a0}' || c == '\u{1680}' || ('\u{2000}' <= c && c
        <= '\u{200a}') || c == '\u{2028}' || c == '\u{2029}' || c == '\u{202f}' || c == '\u{205f}'
        || c == '\u{3000}'
}

/// All characters of `r` in `[from, to)` are host characters.
pub open spec fn all_host(r: Seq<char>, from: int, to: int) -> bool {
    forall|k: int| from <= k < to ==> is_host_char(r[k])
}

/// All characters of `r` in `[from, to)` are letters.
pub open spec fn all_alpha(r: Seq<char>, from: int, to: int) -> bool {
    forall|k: int| from <= k < to ==> is_alpha_char(r[k])
}

/// No character of `r` in `[from, to)` is whitespace.
pub open spec fn no_space(r: Seq<char>, from: int, to: int) -> bool {
    forall|k: int| from <= k < to ==> !is_space_char(r[k])
}

/// The part after the scheme splits at `i` (the dot before the last host
/// label) and `j` (the end of the host): a non-empty run of host
/// characters, a dot, a final label of at least two letters, and then
/// either the end or a `/` path without whitespace.
pub open spec fn host_tail_split(r: Seq<char>, i: int, j: int) -> bool {
    &&& 1 <= i
    &&& i + 3 <= j <= r.len()
    &&& all_host(r, 0, i)
    &&& r[i] == '.'
    &&& all_alpha(r, i + 1, j)
    &&& (j == r.len() || (r[j] == '/' && no_space(r, j + 1, r.len() as int)))
}

/// The part after the scheme is a well-formed host with an optional path.
pub open spec fn host_tail_matches(r: Seq<char>) -> bool {
    exists|i: int, j: int| host_tail_split(r, i, j)
}

/// A well-formed image URI: `http://` or `https://`, then a host and
/// optional path as `host_tail_matches` demands.
pub open spec fn url_matches(s: Seq<char>) -> bool {
    ||| (s.len() >= 7 && s.subrange(0, 7) == "http://"@ && host_tail_matches(s.skip(7)))
    ||| (s.len() >= 8 && s.subrange(0, 8) == "https://"@ && host_tail_matches(s.skip(8)))
}

/// Whether `c` may appear in the host part.
fn host_char(c: char) -> (r: bool)
    ensures
        r == is_host_char(c),
{
    ('a' <= c && c <= 'z') || ('A' <= c && c <= 'Z') || ('0' <= c && c <= '9') || c == '.' || c
        == '-'
}

/// The length of the longest host-character prefix of `t`.
fn host_prefix_len(t: &str) -> (h: usize)
    ensures
        h <= t@.len(),
        all_host(t@, 0, h as int),
        h < t@.len() ==> !is_host_char(t@[h as int]),
{
    let len = t.unicode_len();
    let mut h: usize = 0;
    while h < len
        invariant
            h <= len,
            len == t@.len(),
            all_host(t@, 0, h as int),
        decreases len - h,
    {
        if !host_char(t.get_char(h)) {
            return h;
        }
        h += 1;
    }
    h
}

/// The position of the last dot of `t` before `h`, if any.
fn last_dot_before(t: &str, h: usize) -> (d: Option<usize>)
    requires
        h <= t@.len(),
    ensures
        match d {
            Some(i) => i < h && t@[i as int] == '.' && (forall|k: int|
                i < k < h ==> t@[k] != '.'),
            None => forall|k: int| 0 <= k < h ==> t@[k] != '.',
        },
{
    let mut i: usize = h;
    while i > 0
        invariant
            i <= h <= t@.len(),
            forall|k: int| i <= k < h ==> t@[k] != '.',
        decreases i,
    {
        i -= 1;
        if t.get_char(i) == '.' {
            return Some(i);
        }
    }
    None
}

/// Whether every character of `t` in `[from, to)` is a letter.
fn alpha_range(t: &str, from: usize, to: usize) -> (r: bool)
    requires
        from <= to <= t@.len(),
    ensures
        r == all_alpha(t@, from as int, to as int),
{
    let mut k = from;
    while k < to
        invariant
            from <= k <= to <= t@.len(),
            all_alpha(t@, from as int, k as int),
        decreases to - k,
    {
        let c = t.get_char(k);
        if !(('a' <= c && c <= 'z') || ('A' <= c && c <= 'Z')) {
            assert(!is_alpha_char(t@[k as int]));
            return false;
        }
        k += 1;
    }
    true
}

/// Whether no character of `t` in `[from, to)` is whitespace.
fn space_free_range(t: &str, from: usize, to: usize) -> (r: bool)
    requires
        from <= to <= t@.len(),
    ensures
        r == no_space(t@, from as int, to as int),
{
    let mut k = from;
    while k < to
        invariant
            from <= k <= to <= t@.len(),
            no_space(t@, from as int, k as int),
        decreases to - k,
    {
        if space_char(t.get_char(k)) {
            assert(is_space_char(t@[k as int]));
            return false;
        }
        k += 1;
    }
    true
}

/// Any split of `r` is pinned down: the host must end exactly at the
/// longest host-character prefix, and the dot must be the last dot before
/// that end.
proof fn lemma_split_determined(r: Seq<char>, i: int, j: int, h: int)
    requires
        host_tail_split(r, i, j),
        0 <= h <= r.len(),
        all_host(r, 0, h),
        h < r.len() ==> !is_host_char(r[h]),
    ensures
        j == h,
        i < h,
        r[i] == '.',
        forall|k: int| i < k < h ==> r[k] != '.',
{
    assert(all_host(r, 0, j)) by {
        assert forall|k: int| 0 <= k < j implies is_host_char(r[k]) by {
            if k < i {
            } else if k == i {
                assert(r[k] == '.');
            } else {
                assert(is_alpha_char(r[k]));
            }
        }
    }
    if j > h {
        assert(h < r.len());
        assert(is_host_char(r[h]));
        assert(false);
    }
    if j < h {
        assert(j < r.len());
        assert(r[j] == '/');
        assert(is_host_char(r[j]));
        assert(false);
    }
    assert forall|k: int| i < k < h implies r[k] != '.' by {
        assert(is_alpha_char(r[k]));
    }
}

/// Decides `host_tail_matches` for the part after the scheme.
fn check_host_tail(t: &str) -> (r: bool)
    ensures
        r == host_tail_matches(t@),
{
    let len = t.unicode_len();
    let h = host_prefix_len(t);
    if h == 0 {
        assert(!host_tail_matches(t@)) by {
            if host_tail_matches(t@) {
                let (i, j) = choose|i: int, j: int| host_tail_split(t@, i, j);
                lemma_split_determined(t@, i, j, 0);
                assert(false);
            }
        }
        return false;
    }
    if h < len {
        let c = t.get_char(h);
        if c != '/' {
            assert(!host_tail_matches(t@)) by {
                if host_tail_matches(t@) {
                    let (i, j) = choose|i: int, j: int| host_tail_split(t@, i, j);
                    lemma_split_determined(t@, i, j, h as int);
                    assert(false);
                }
            }
            return false;
        }
        if !space_free_range(t, h + 1, len) {
            assert(!host_tail_matches(t@)) by {
                if host_tail_matches(t@) {
                    let (i, j) = choose|i: int, j: int| host_tail_split(t@, i, j);
                    lemma_split_determined(t@, i, j, h as int);
                    assert(false);
                }
            }
            return false;
        }
    }
    let d = match last_dot_before(t, h) {
        None => {
            assert(!host_tail_matches(t@)) by {
                if host_tail_matches(t@) {
                    let (i, j) = choose|i: int, j: int| host_tail_split(t@, i, j);
                    lemma_split_determined(t@, i, j, h as int);
                    assert(false);
                }
            }
            return false;
        },
        Some(d) => d,
    };
    if d == 0 || h - d < 3 || !alpha_range(t, d + 1, h) {
        assert(!host_tail_matches(t@)) by {
            if host_tail_matches(t@) {
                let (i, j) = choose|i: int, j: int| host_tail_split(t@, i, j);
                lemma_split_determined(t@, i, j, h as int);
                assert(i == d) by {
                    if i < d {
                        assert(t@[d as int] != '.');
                    }
                    if i > d {
                        assert(t@[i] != '.');
                    }
                }
                assert(false);
            }
        }
        return false;
    }
    assert(host_tail_matches(t@)) by {
        assert(host_tail_split(t@, d as int, h as int));
    }
    true
}

/// Checks whether `s` is a well-formed image URI.
pub fn check_url(s: &str) -> (r: bool)
    ensures
        r == url_matches(s@),
{
    proof {
        reveal_strlit("http://");
        reveal_strlit("https://");
    }
    let len = s.unicode_len();
    if str_has_prefix(s, "http://", 7) {
        assert(s@.subrange(0, 7)[4] == s@[4]);
        assert(s@.len() >= 8 ==> s@.subrange(0, 8)[4] == s@[4]);
        let tail = s.substring_char(7, len);
        let r = check_host_tail(tail);
        assert(tail@ == s@.skip(7));
        return r;
    }
    if str_has_prefix(s, "https://", 8) {
        assert(s@.subrange(0, 7)[4] == s@[4]);
        assert(s@.subrange(0, 8)[4] == s@[4]);
        let tail = s.substring_char(8, len);
        let r = check_host_tail(tail);
        assert(tail@ == s@.skip(8));
        return r;
    }
    false
}

/// Whether the first `n` characters of `s` are exactly `p`, where `p` has
/// `n` characters.
fn str_has_prefix(s: &str, p: &str, n: usize) -> (r: bool)
    requires
        p@.len() == n,
    ensures
        r <==> (s@.len() >= n && s@.subrange(0, n as int) == p@),
{
    let slen = s.unicode_len();
    if slen < n {
        return false;
    }
    let mut i: usize = 0;
    while i < n
        invariant
            i <= n,
            n <= slen == s@.len(),
            n == p@.len(),
            forall|j: int| 0 <= j < i ==> s@[j] == p@[j],
        decreases n - i,
    {
        if s.get_char(i) != p.get_char(i) {
            assert(s@.subrange(0, n as int)[i as int] != p@[i as int]);
            return false;
        }
        i += 1;
    }
    assert(s@.subrange(0, n as int) =~= p@);
    true
}

/// Accepts exactly the well-formed image URIs.
pub fn validate_url(uri: &str) -> (r: Result<(), AppError>)
    ensures
        r is Ok <==> url_matches(uri@),
        r matches Err(e) ==> e is BadRequest && e.msg_view() == "Invalid URI. It should be URI"@,
{
    if check_url(uri) {
        Ok(())
    } else {
        Err(AppError::BadRequest(String::from_str("Invalid URI. It should be URI")))
    }
}

} // verus!
