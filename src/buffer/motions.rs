//! Bigword motions in the manner of vi's `W` and `B`.
use super::graphemes::{
    bytes_before, byte_len, grapheme_clusters, graphemes, lemma_bytes_before_bounded,
    lemma_bytes_before_step, views_of,
};
use vstd::prelude::*;
use vstd::utf8::{decode_utf8, encode_utf8, encode_utf8_decode_utf8, encode_utf8_valid_utf8};

verus! {

/// The Unicode `White_Space` property, the set that `char::is_whitespace` tests.
pub open spec fn is_white_space(c: char) -> bool {
    let u = c as u32;
    ||| 0x09 <= u <= 0x0d
    ||| u == 0x20
    ||| u == 0x85
    ||| u == 0xa0
    ||| u == 0x1680
    ||| 0x2000 <= u <= 0x200a
    ||| u == 0x2028
    ||| u == 0x2029
    ||| u == 0x202f
    ||| u == 0x205f
    ||| u == 0x3000
}

/// Every character of `s` is white space (so the empty text is blank).
pub open spec fn is_blank(s: Seq<char>) -> bool {
    forall|j: int| 0 <= j < s.len() ==> is_white_space(#[trigger] s[j])
}

/// Whether `c` has the Unicode `White_Space` property.
pub fn is_whitespace_char(c: char) -> (r: bool)
    ensures
        r == is_white_space(c),
{
    let u = c as u32;
    (0x09 <= u && u <= 0x0d) || u == 0x20 || u == 0x85 || u == 0xa0 || u == 0x1680 || (0x2000
        <= u && u <= 0x200a) || u == 0x2028 || u == 0x2029 || u == 0x202f || u == 0x205f || u
        == 0x3000
}

/// Whether every character of `s` is white space.
pub fn is_whitespace_str(s: &str) -> (r: bool)
    ensures
        r == is_blank(s@),
{
    for c in it: s.chars()
        invariant
            it.seq() == s@,
            forall|k: int| 0 <= k < it.index() ==> is_white_space(#[trigger] s@[k]),
    {
        if !is_whitespace_char(c) {
            return false;
        }
    }
    true
}

/// The cluster on which a forward bigword motion that starts on cluster `k` of
/// `gs` stops: the first cluster that is not blank and follows a blank one, or
/// the last cluster when no such cluster comes before the end.
pub open spec fn forward_stop(gs: Seq<Seq<char>>, k: int) -> int
    decreases gs.len() - k,
{
    if k + 1 >= gs.len() {
        k
    } else if is_blank(gs[k]) && !is_blank(gs[k + 1]) {
        k + 1
    } else {
        forward_stop(gs, k + 1)
    }
}

/// How many of the first `k` clusters of `gs` are left once the blank clusters
/// at their end are dropped.
pub open spec fn skip_blank_back(gs: Seq<Seq<char>>, k: int) -> int
    decreases k,
{
    if k > 0 && is_blank(gs[k - 1]) {
        skip_blank_back(gs, k - 1)
    } else {
        k
    }
}

/// How many of the first `k` clusters of `gs` are left once the clusters that
/// are not blank at their end are dropped.
pub open spec fn skip_word_back(gs: Seq<Seq<char>>, k: int) -> int
    decreases k,
{
    if k > 0 && !is_blank(gs[k - 1]) {
        skip_word_back(gs, k - 1)
    } else {
        k
    }
}

/// The cluster on which a backward bigword motion from before cluster `k` of
/// `gs` stops: it passes the blank clusters right before `k`, then the bigword
/// before them, and lands on that bigword's first cluster.
pub open spec fn backward_stop(gs: Seq<Seq<char>>, k: int) -> int {
    skip_word_back(gs, skip_blank_back(gs, k))
}

/// The text that follows byte offset `i` of `s`.
pub open spec fn text_after(s: Seq<char>, i: int) -> Seq<char> {
    decode_utf8(encode_utf8(s).subrange(i, encode_utf8(s).len() as int))
}

/// The text that precedes byte offset `i` of `s`.
pub open spec fn text_before(s: Seq<char>, i: int) -> Seq<char> {
    decode_utf8(encode_utf8(s).subrange(0, i))
}

/// The byte offset that a forward bigword motion from byte offset `i` of `s`
/// reaches, over the clusters of the text after `i`.
pub open spec fn forwards_target(s: Seq<char>, i: int) -> int {
    let gs = grapheme_clusters(text_after(s, i));
    i + bytes_before(gs, forward_stop(gs, 0))
}

/// The byte offset that a backward bigword motion from byte offset `i` of `s`
/// reaches, over the clusters of the text before `i`.
pub open spec fn backwards_target(s: Seq<char>, i: int) -> int {
    let gs = grapheme_clusters(text_before(s, i));
    bytes_before(gs, backward_stop(gs, gs.len() as int)) as int
}

/// The index of the cluster on which a forward motion from cluster `start`
/// stops.
pub(crate) fn forward_stop_index(gs: &Vec<&str>, start: usize) -> (r: usize)
    requires
        start <= gs.len(),
    ensures
        r == forward_stop(views_of(gs@), start as int),
        start <= r <= gs.len(),
{
    let ghost v = views_of(gs@);
    let mut k = start;
    while gs.len() - k > 1
        invariant
            start <= k <= gs.len(),
            v == views_of(gs@),
            forward_stop(v, k as int) == forward_stop(v, start as int),
        decreases gs.len() - k,
    {
        if is_whitespace_str(gs[k]) && !is_whitespace_str(gs[k + 1]) {
            return k + 1;
        }
        k = k + 1;
    }
    k
}

/// The index of the cluster on which a backward motion from before cluster
/// `end` stops.
pub(crate) fn backward_stop_index(gs: &Vec<&str>, end: usize) -> (r: usize)
    requires
        end <= gs.len(),
    ensures
        r == backward_stop(views_of(gs@), end as int),
        r <= end,
{
    let ghost v = views_of(gs@);
    let mut k = end;
    while k > 0 && is_whitespace_str(gs[k - 1])
        invariant
            k <= end <= gs.len(),
            v == views_of(gs@),
            skip_blank_back(v, k as int) == skip_blank_back(v, end as int),
        decreases k,
    {
        k = k - 1;
    }
    let ghost mid = k;
    while k > 0 && !is_whitespace_str(gs[k - 1])
        invariant
            k <= mid <= end <= gs.len(),
            v == views_of(gs@),
            mid == skip_blank_back(v, end as int),
            skip_word_back(v, k as int) == skip_word_back(v, mid as int),
        decreases k,
    {
        k = k - 1;
    }
    k
}

/// The number of bytes that the first `k` clusters take.
pub(crate) fn bytes_before_index(gs: &Vec<&str>, k: usize) -> (r: usize)
    requires
        k <= gs.len(),
        byte_len(views_of(gs@).flatten()) <= usize::MAX,
    ensures
        r == bytes_before(views_of(gs@), k as int),
{
    let ghost v = views_of(gs@);
    let mut total: usize = 0;
    for j in 0..k
        invariant
            k <= gs.len(),
            v == views_of(gs@),
            byte_len(v.flatten()) <= usize::MAX,
            total == bytes_before(v, j as int),
    {
        proof {
            lemma_bytes_before_step(v, j as int);
            lemma_bytes_before_bounded(v, j + 1);
        }
        let g: &str = gs[j];
        total = total + g.len();
    }
    total
}

/// Moves one bigword forwards from byte offset `i` of `s`, as vi's `W` does,
/// and returns the byte offset reached; `i` must fall on a character
/// boundary. The scan goes over grapheme clusters: it passes the rest of the
/// current bigword and the blank run after it, and stops on the first cluster
/// of the next bigword; with no next bigword it stops on the last cluster. At
/// the end of the text it stays where it is.
pub fn big_word_forwards(s: &str, i: usize) -> (r: usize)
    requires
        s.is_char_boundary(i),
    ensures
        r == forwards_target(s@, i as int),
        i <= r <= s.len(),
        i == s.len() ==> r == i,
{
    let n = s.as_bytes().len();
    proof {
        encode_utf8_valid_utf8(s@);
    }
    let (_, tail) = s.split_at(i);
    proof {
        encode_utf8_decode_utf8(tail@);
        assert(byte_len(tail@) == n - i);
    }
    let gs = graphemes(tail);
    let ghost v = views_of(gs@);
    let stop = forward_stop_index(&gs, 0);
    proof {
        lemma_bytes_before_bounded(v, stop as int);
    }
    let off = bytes_before_index(&gs, stop);
    i + off
}

/// Moves one bigword backwards from byte offset `i` of `s`, as vi's `B` does,
/// and returns the byte offset reached; `i` must fall on a character
/// boundary. The scan goes over the grapheme clusters before `i`: it passes
/// the blank run right before `i`, then the bigword before it, and stops on
/// that bigword's first cluster. At the start of the text it stays where it
/// is.
pub fn big_word_backwards(s: &str, i: usize) -> (r: usize)
    requires
        s.is_char_boundary(i),
    ensures
        r == backwards_target(s@, i as int),
        r <= i,
        i == 0 ==> r == 0,
{
    proof {
        encode_utf8_valid_utf8(s@);
    }
    let (head, _) = s.split_at(i);
    proof {
        encode_utf8_decode_utf8(head@);
        assert(byte_len(head@) == i);
    }
    let gs = graphemes(head);
    let ghost v = views_of(gs@);
    let stop = backward_stop_index(&gs, gs.len());
    proof {
        lemma_bytes_before_bounded(v, stop as int);
    }
    bytes_before_index(&gs, stop)
}

} // verus!
