//! Filename sanitization and the best-effort video-id extraction used for
//! response filenames.

use vstd::prelude::*;

use crate::text::push_char;

verus! {

/// Characters kept by `sanitize_filename_component`: ASCII alphanumerics,
/// `-`, `_` and `.`.
pub open spec fn keeps(c: char) -> bool {
    (97 <= c as int <= 122) || (65 <= c as int <= 90) || (48 <= c as int <= 57) || c == '-' || c
        == '_' || c == '.'
}

/// The subsequence of characters that survive sanitization, in order.
pub open spec fn sanitized(s: Seq<char>) -> Seq<char>
    decreases s.len(),
{
    if s.len() == 0 {
        Seq::empty()
    } else if keeps(s.last()) {
        sanitized(s.drop_last()).push(s.last())
    } else {
        sanitized(s.drop_last())
    }
}

/// Keep only characters safe for a response filename: ASCII alphanumerics,
/// `-`, `_` and `.`; everything else (path separators included) is dropped.
pub fn sanitize_filename_component(s: &str) -> (r: String)
    ensures
        r@ == sanitized(s@),
{
    let n = s.unicode_len();
    let mut out = String::new();
    let mut i: usize = 0;
    while i < n
        invariant
            n == s@.len(),
            i <= n,
            out@ == sanitized(s@.subrange(0, i as int)),
        decreases n - i,
    {
        let c = s.get_char(i);
        let u = c as u32;
        let keep = (97 <= u && u <= 122) || (65 <= u && u <= 90) || (48 <= u && u <= 57) || c == '-'
            || c == '_' || c == '.';
        if keep {
            push_char(&mut out, c);
        }
        proof {
            let pre = s@.subrange(0, i + 1);
            assert(pre.drop_last() =~= s@.subrange(0, i as int));
            assert(pre.last() == s@[i as int]);
        }
        i = i + 1;
    }
    proof {
        assert(s@.subrange(0, n as int) =~= s@);
    }
    out
}

/// The pattern occurs in `s` at position `i`.
pub open spec fn match_at(s: Seq<char>, pat: Seq<char>, i: int) -> bool {
    0 <= i && i + pat.len() <= s.len() && s.subrange(i, i + pat.len()) == pat
}

/// The pattern's first occurrence in `s` is at position `i`.
pub open spec fn found_at(s: Seq<char>, pat: Seq<char>, i: int) -> bool {
    match_at(s, pat, i) && forall|j: int| 0 <= j < i ==> !match_at(s, pat, j)
}

/// Position of the first occurrence of `pat` in `s`, if any.
fn find_first(s: &str, pat: &str) -> (r: Option<usize>)
    ensures
        match r {
            Some(i) => found_at(s@, pat@, i as int),
            None => forall|i: int| !match_at(s@, pat@, i),
        },
{
    let n = s.unicode_len();
    let m = pat.unicode_len();
    if m > n {
        return None;
    }
    if m == 0 {
        proof {
            assert(s@.subrange(0, 0) =~= pat@);
        }
        return Some(0);
    }
    let mut i: usize = 0;
    while i <= n - m
        invariant
            n == s@.len(),
            m == pat@.len(),
            1 <= m <= n,
            i <= n - m + 1,
            forall|j: int| 0 <= j < i ==> !match_at(s@, pat@, j),
        decreases n - i,
    {
        let piece = s.substring_char(i, i + m);
        if crate::text::str_eq(piece, pat) {
            return Some(i);
        }
        i = i + 1;
    }
    proof {
        assert forall|j: int| !match_at(s@, pat@, j) by {
            if 0 <= j && j + pat@.len() <= s@.len() {
                assert(j < i);
            }
        }
    }
    None
}

/// The prefix of `s` up to (not including) the first occurrence of `stop`;
/// the whole of `s` when `stop` does not occur.
pub open spec fn cut(s: Seq<char>, stop: char) -> Seq<char>
    decreases s.len(),
{
    if s.len() == 0 {
        s
    } else if s[0] == stop {
        Seq::empty()
    } else {
        seq![s[0]] + cut(s.drop_first(), stop)
    }
}

proof fn lemma_cut_range(s: Seq<char>, stop: char, k: int)
    requires
        0 <= k <= s.len(),
        forall|j: int| 0 <= j < k ==> s[j] != stop,
        k < s.len() ==> s[k] == stop,
    ensures
        cut(s, stop) == s.subrange(0, k),
    decreases s.len(),
{
    if s.len() == 0 {
        assert(cut(s, stop) =~= s.subrange(0, k));
    } else if s[0] == stop {
        assert(cut(s, stop) =~= s.subrange(0, k));
    } else {
        let t = s.drop_first();
        lemma_cut_range(t, stop, k - 1);
        assert(seq![s[0]] + t.subrange(0, k - 1) =~= s.subrange(0, k));
    }
}

/// The prefix of `s` before the first `stop` character.
fn cut_prefix<'a>(s: &'a str, stop: char) -> (r: &'a str)
    ensures
        r@ == cut(s@, stop),
{
    let n = s.unicode_len();
    let mut k: usize = 0;
    while k < n && s.get_char(k) != stop
        invariant
            n == s@.len(),
            k <= n,
            forall|j: int| 0 <= j < k ==> s@[j] != stop,
        decreases n - k,
    {
        k = k + 1;
    }
    proof {
        lemma_cut_range(s@, stop, k as int);
    }
    s.substring_char(0, k)
}

/// The candidate id taken after a marker found at `i` of length `plen`:
/// the rest of the URL, cut at `stop`, then sanitized.
pub open spec fn id_after(url: Seq<char>, i: int, plen: int, stop: char) -> Seq<char> {
    sanitized(cut(url.subrange(i + plen, url.len() as int), stop))
}

/// `id` is the id the extraction rules yield for this URL: the (non-empty,
/// sanitized) text after the first `v=` marker cut at `&`; failing that, the
/// text after the first `youtu.be/` marker cut at `?`.
pub open spec fn video_id_ok(u: Seq<char>, id: Seq<char>) -> bool {
    let vp = "v="@;
    let bp = "youtu.be/"@;
    ||| (exists|i: int|
        #[trigger] found_at(u, vp, i) && id == id_after(u, i, vp.len() as int, '&') && id.len() > 0)
    ||| ((forall|i: int|
        #[trigger] found_at(u, vp, i) ==> id_after(u, i, vp.len() as int, '&').len() == 0) && (
    exists|i: int|
        #[trigger] found_at(u, bp, i) && id == id_after(u, i, bp.len() as int, '?') && id.len()
            > 0))
}

/// Neither extraction rule yields a non-empty id for this URL.
pub open spec fn video_id_none(u: Seq<char>) -> bool {
    let vp = "v="@;
    let bp = "youtu.be/"@;
    &&& (forall|i: int|
        #[trigger] found_at(u, vp, i) ==> id_after(u, i, vp.len() as int, '&').len() == 0)
    &&& (forall|i: int|
        #[trigger] found_at(u, bp, i) ==> id_after(u, i, bp.len() as int, '?').len() == 0)
}

/// Best-effort extraction of a video id from a URL, for use as a filename
/// stem. The text after the first `v=` marker, cut at `&`, sanitized, is
/// preferred; failing that, the text after the first `youtu.be/` marker,
/// cut at `?`, sanitized. An empty candidate counts as failure.
pub fn video_id_from_url(url: &str) -> (r: Option<String>)
    ensures
        match r {
            Some(id) => video_id_ok(url@, id@),
            None => video_id_none(url@),
        },
{
    let n = url.unicode_len();
    let vpat = "v=";
    let vlen = vpat.unicode_len();
    if let Some(i) = find_first(url, vpat) {
        let rest = url.substring_char(i + vlen, n);
        let head = cut_prefix(rest, '&');
        let id = sanitize_filename_component(head);
        if !id.as_str().is_empty() {
            return Some(id);
        }
    }
    let bpat = "youtu.be/";
    let blen = bpat.unicode_len();
    if let Some(i) = find_first(url, bpat) {
        let rest = url.substring_char(i + blen, n);
        let head = cut_prefix(rest, '?');
        let id = sanitize_filename_component(head);
        if !id.as_str().is_empty() {
            return Some(id);
        }
    }
    None
}

} // verus!
