//! The text of the document and its cursor.
pub mod graphemes;
pub mod motions;

pub use self::motions::is_whitespace_str;

use self::graphemes::{
    grapheme_clusters, graphemes, lemma_bytes_before_bounded, lemma_encode_utf8_concat, views_of,
};
use self::motions::{
    backward_stop, backward_stop_index, bytes_before_index, forward_stop, forward_stop_index,
    forwards_target, text_after, text_before,
};
use vstd::prelude::*;
use vstd::utf8::{encode_utf8, encode_utf8_decode_utf8};

verus! {

/// Relies on `String::push`, which appends one character.
#[verifier::external_body]
pub(crate) fn push_char(s: &mut String, c: char)
    ensures
        final(s)@ == old(s)@.push(c),
{
    s.push(c);
}

/// A text never has more characters than it has bytes in UTF-8.
proof fn lemma_chars_within_bytes(s: Seq<char>)
    ensures
        s.len() <= encode_utf8(s).len(),
    decreases s.len(),
{
    if s.len() > 0 {
        lemma_chars_within_bytes(s.drop_first());
    }
}

/// The document text, with a cursor that counts grapheme clusters from the
/// start of the text.
pub struct Buffer {
    pub text: String,
    pub grapheme_index: usize,
}

impl Default for Buffer {
    fn default() -> (r: Buffer)
        ensures
            r.text@ == Seq::<char>::empty(),
            r.grapheme_index == 0,
            r.wf(),
    {
        Buffer { text: String::new(), grapheme_index: 0 }
    }
}

impl Buffer {
    /// The grapheme clusters of the text.
    pub open spec fn clusters(&self) -> Seq<Seq<char>> {
        grapheme_clusters(self.text@)
    }

    /// The cursor lies within the text: at a cluster, or just past the last.
    pub open spec fn wf(&self) -> bool {
        self.grapheme_index <= self.clusters().len()
    }

    /// The cursor, brought back to the end of the text when it lies beyond.
    /// The methods below accept such a cursor: the fields are public, and a
    /// character that joins the cluster before it (a combining accent) leaves
    /// the text with fewer clusters than the cursor counts.
    pub open spec fn cursor(&self) -> int {
        if self.grapheme_index <= self.clusters().len() {
            self.grapheme_index as int
        } else {
            self.clusters().len() as int
        }
    }

    /// The number of characters in the clusters before the cursor.
    pub open spec fn cursor_chars(&self) -> int {
        self.clusters().take(self.cursor()).flatten().len() as int
    }

    /// The number of grapheme clusters in the text.
    pub fn grapheme_count(&self) -> (r: usize)
        ensures
            r == self.clusters().len(),
    {
        graphemes(self.text.as_str()).len()
    }

    /// Appends `c` at the end of the text and moves the cursor one cluster on.
    pub fn append(&mut self, c: char)
        requires
            old(self).grapheme_index < usize::MAX,
        ensures
            final(self).text@ == old(self).text@.push(c),
            final(self).grapheme_index == old(self).grapheme_index + 1,
    {
        push_char(&mut self.text, c);
        self.grapheme_index = self.grapheme_index + 1;
    }

    /// Inserts `c` where the cursor stands, at the start of its cluster, and
    /// moves the cursor one cluster on. A cursor beyond the end inserts at
    /// the end.
    pub fn insert(&mut self, c: char)
        requires
            old(self).grapheme_index < usize::MAX,
        ensures
            final(self).text@ == old(self).text@.insert(old(self).cursor_chars(), c),
            final(self).grapheme_index == old(self).cursor() + 1,
    {
        let gs = graphemes(self.text.as_str());
        let ghost v = views_of(gs@);
        let k = if self.grapheme_index <= gs.len() {
            self.grapheme_index
        } else {
            gs.len()
        };
        let mut text = String::new();
        for j in 0..k
            invariant
                k <= gs.len(),
                v == views_of(gs@),
                text@ == v.take(j as int).flatten(),
        {
            proof {
                assert(v.take(j + 1) =~= v.take(j as int).push(v[j as int]));
                v.take(j as int).lemma_flatten_push(v[j as int]);
            }
            text.append(gs[j]);
        }
        push_char(&mut text, c);
        let ghost front = v.take(k as int).flatten();
        for j in k..gs.len()
            invariant
                k <= gs.len(),
                v == views_of(gs@),
                text@ == front.push(c) + v.subrange(k as int, j as int).flatten(),
        {
            proof {
                assert(v.subrange(k as int, j + 1) =~= v.subrange(k as int, j as int).push(
                    v[j as int],
                ));
                v.subrange(k as int, j as int).lemma_flatten_push(v[j as int]);
            }
            text.append(gs[j]);
        }
        proof {
            let back = v.subrange(k as int, v.len() as int);
            assert(v =~= v.take(k as int) + back);
            vstd::seq_lib::lemma_flatten_concat(v.take(k as int), back);
            assert(text@ =~= self.text@.insert(front.len() as int, c));
        }
        self.text = text;
        self.grapheme_index = k + 1;
    }

    /// Moves the cursor one bigword forwards, as vi's `W` does, over the
    /// clusters of the text.
    pub fn move_big_word_forwards(&mut self)
        ensures
            final(self).text@ == old(self).text@,
            final(self).grapheme_index == forward_stop(old(self).clusters(), old(self).cursor()),
            old(self).cursor() <= final(self).grapheme_index <= old(self).clusters().len(),
            final(self).wf(),
    {
        let gs = graphemes(self.text.as_str());
        let k = if self.grapheme_index <= gs.len() {
            self.grapheme_index
        } else {
            gs.len()
        };
        self.grapheme_index = forward_stop_index(&gs, k);
    }

    /// Moves the cursor one bigword backwards, as vi's `B` does, over the
    /// clusters of the text.
    pub fn move_big_word_backwards(&mut self)
        ensures
            final(self).text@ == old(self).text@,
            final(self).grapheme_index == backward_stop(old(self).clusters(), old(self).cursor()),
            final(self).grapheme_index <= old(self).cursor(),
            final(self).wf(),
    {
        let gs = graphemes(self.text.as_str());
        let k = if self.grapheme_index <= gs.len() {
            self.grapheme_index
        } else {
            gs.len()
        };
        self.grapheme_index = backward_stop_index(&gs, k);
    }

    /// The first bigword of the text with the blank run after it: the byte
    /// offset that a forward bigword motion from the start reaches, and the
    /// text before that offset.
    pub fn big_word(&self) -> (r: (usize, &str))
        ensures
            r.0 == forwards_target(self.text@, 0),
            r.1@ == text_before(self.text@, r.0 as int),
    {
        let s = self.text.as_str();
        let n = s.as_bytes().len();
        let gs = graphemes(s);
        let ghost v = views_of(gs@);
        let stop = forward_stop_index(&gs, 0);
        proof {
            lemma_bytes_before_bounded(v, stop as int);
        }
        let bytes = bytes_before_index(&gs, stop);
        proof {
            lemma_chars_within_bytes(s@);
        }
        let mut chars: usize = 0;
        for j in 0..stop
            invariant
                stop <= gs.len(),
                v == views_of(gs@),
                v.flatten() == s@,
                chars == v.take(j as int).flatten().len(),
                s@.len() <= usize::MAX,
        {
            proof {
                assert(v.take(j + 1) =~= v.take(j as int).push(v[j as int]));
                v.take(j as int).lemma_flatten_push(v[j as int]);
                assert(v =~= v.take(j + 1) + v.skip(j + 1));
                vstd::seq_lib::lemma_flatten_concat(v.take(j + 1), v.skip(j + 1));
            }
            chars = chars + gs[j].unicode_len();
        }
        proof {
            let front = v.take(stop as int).flatten();
            let back = v.skip(stop as int).flatten();
            assert(v =~= v.take(stop as int) + v.skip(stop as int));
            vstd::seq_lib::lemma_flatten_concat(v.take(stop as int), v.skip(stop as int));
            lemma_encode_utf8_concat(front, back);
            assert(encode_utf8(s@).subrange(0, encode_utf8(s@).len() as int) =~= encode_utf8(
                s@,
            ));
            encode_utf8_decode_utf8(s@);
            assert(text_after(s@, 0) == s@);
            assert(encode_utf8(s@).subrange(0, bytes as int) =~= encode_utf8(front));
            encode_utf8_decode_utf8(front);
        }
        let head = s.substring_char(0, chars);
        proof {
            assert(head@ =~= v.take(stop as int).flatten());
        }
        (bytes, head)
    }
}

} // verus!
