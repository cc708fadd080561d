//! Grapheme clusters, as the `unicode-segmentation` crate finds them.
use unicode_segmentation::UnicodeSegmentation;
use vstd::prelude::*;
use vstd::seq_lib::lemma_flatten_concat;
use vstd::utf8::encode_utf8;

verus! {

/// The extended grapheme clusters of a text, in order, as Unicode's text
/// segmentation rules (UAX #29) define them.
pub uninterp spec fn grapheme_clusters(s: Seq<char>) -> Seq<Seq<char>>;

/// The characters of each slice of `gs`.
pub open spec fn views_of(gs: Seq<&str>) -> Seq<Seq<char>> {
    gs.map_values(|g: &str| g@)
}

/// The number of bytes that `s` takes in UTF-8.
pub open spec fn byte_len(s: Seq<char>) -> nat {
    encode_utf8(s).len()
}

/// The number of bytes that the first `k` clusters of `gs` take together.
pub open spec fn bytes_before(gs: Seq<Seq<char>>, k: int) -> nat {
    byte_len(gs.take(k).flatten())
}

/// Relies on `UnicodeSegmentation::graphemes` with extended clusters: it hands
/// out consecutive, non-empty slices of `s` that together make up `s`.
#[verifier::external_body]
pub(crate) fn graphemes(s: &str) -> (r: Vec<&str>)
    ensures
        views_of(r@) == grapheme_clusters(s@),
        views_of(r@).flatten() == s@,
        forall|k: int| 0 <= k < r@.len() ==> (#[trigger] r@[k])@.len() > 0,
{
    s.graphemes(true).collect()
}

/// UTF-8 encoding distributes over concatenation.
pub proof fn lemma_encode_utf8_concat(a: Seq<char>, b: Seq<char>)
    ensures
        encode_utf8(a + b) == encode_utf8(a) + encode_utf8(b),
    decreases a.len(),
{
    if a.len() == 0 {
        assert(a + b =~= b);
        assert(encode_utf8(a) + encode_utf8(b) =~= encode_utf8(b));
    } else {
        assert((a + b).drop_first() =~= a.drop_first() + b);
        lemma_encode_utf8_concat(a.drop_first(), b);
        assert(encode_utf8(a + b) =~= encode_utf8(a) + encode_utf8(b));
    }
}

/// The bytes of the first `k` clusters, then those of cluster `k`.
pub proof fn lemma_bytes_before_step(gs: Seq<Seq<char>>, k: int)
    requires
        0 <= k < gs.len(),
    ensures
        bytes_before(gs, k + 1) == bytes_before(gs, k) + byte_len(gs[k]),
{
    assert(gs.take(k + 1) =~= gs.take(k).push(gs[k]));
    gs.take(k).lemma_flatten_push(gs[k]);
    lemma_encode_utf8_concat(gs.take(k).flatten(), gs[k]);
}

/// The first `k` clusters never take more bytes than all of them.
pub proof fn lemma_bytes_before_bounded(gs: Seq<Seq<char>>, k: int)
    requires
        0 <= k <= gs.len(),
    ensures
        bytes_before(gs, k) <= byte_len(gs.flatten()),
{
    assert(gs =~= gs.take(k) + gs.skip(k));
    lemma_flatten_concat(gs.take(k), gs.skip(k));
    lemma_encode_utf8_concat(gs.take(k).flatten(), gs.skip(k).flatten());
}

} // verus!
