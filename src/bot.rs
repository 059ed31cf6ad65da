//! Splitting a source text into fragments, and collecting a comment from them.
use vstd::prelude::*;
use vstd::string::StringExecFns;
use unicode_segmentation::UnicodeSegmentation;
use crate::id::Error;
use crate::token::Token;
use crate::vocabulary::Vocabulary;

verus! {

/// The fragments of `text` at its Unicode word boundaries.
pub uninterp spec fn word_bounds_of(text: Seq<char>) -> Seq<Seq<char>>;

/// The fragments written one after another.
pub open spec fn joined(pieces: Seq<Seq<char>>) -> Seq<char>
    decreases pieces.len(),
{
    if pieces.len() == 0 {
        Seq::empty()
    } else {
        joined(pieces.drop_last()) + pieces.last()
    }
}

pub open spec fn texts(v: Seq<String>) -> Seq<Seq<char>> {
    v.map_values(|s: String| s@)
}

/// Relies on `UnicodeSegmentation::split_word_bounds`: the pieces between
/// UAX #29 word boundaries, which depend on the text alone and, written one
/// after another, give the text back.
#[verifier::external_body]
fn split_word_bounds(text: &str) -> (r: Vec<String>)
    ensures
        texts(r@) == word_bounds_of(text@),
        joined(texts(r@)) == text@,
{
    text.split_word_bounds().map(String::from).collect()
}

/// The fragments of a source text, in order.
pub fn fragments(text: &str) -> (r: Vec<String>)
    ensures
        texts(r@) == word_bounds_of(text@),
        joined(texts(r@)) == text@,
{
    split_word_bounds(text)
}

/// The tokenizer's state that outlives one fragment: its vocabulary.
#[derive(Debug)]
pub struct Bot {
    pub vocab: Vocabulary,
}

impl Bot {
    /// The place of the first fragment at or after `i` that ends a comment,
    /// or the number of fragments where none does.
    pub open spec fn comment_stop(&self, pieces: Seq<Seq<char>>, i: int) -> int
        decreases pieces.len() - i,
    {
        if i < 0 || i >= pieces.len() {
            pieces.len() as int
        } else if self.vocab.comment_end.accepts(pieces[i]) {
            i
        } else {
            self.comment_stop(pieces, i + 1)
        }
    }

    /// Collects the fragments from `cursor` on into one comment token, up to
    /// the first fragment that ends a comment. That fragment is consumed but
    /// not kept; the end of the fragments closes the comment too.
    pub fn collect_comment(&self, pieces: &Vec<String>, cursor: &mut usize, tokens: &mut Vec<Token>) -> (r:
        Result<(), Error>)
        requires
            *old(cursor) <= pieces@.len(),
        ensures
            r is Ok,
            ({
                let stop = self.comment_stop(texts(pieces@), *old(cursor) as int);
                &&& *final(cursor) == if stop < pieces@.len() { stop + 1 } else { stop }
                &&& final(tokens)@.len() == old(tokens)@.len() + 1
                &&& final(tokens)@.take(old(tokens)@.len() as int) == old(tokens)@
                &&& final(tokens)@.last() matches Token::Comment(c)
                &&& c@ == joined(texts(pieces@).subrange(*old(cursor) as int, stop))
            }),
    {
        let ghost start = *cursor as int;
        let ghost pv = texts(pieces@);
        let n = pieces.len();
        let mut comment = String::new();
        let mut done = false;
        while !done && *cursor < n
            invariant
                n == pieces@.len(),
                pv == texts(pieces@),
                pv.len() == n,
                0 <= start <= *cursor <= n,
                !done ==> comment@ == joined(pv.subrange(start, *cursor as int)),
                !done ==> self.comment_stop(pv, start) == self.comment_stop(pv, *cursor as int),
                done ==> *cursor > start && self.comment_stop(pv, start) == *cursor - 1
                    && comment@ == joined(pv.subrange(start, *cursor - 1)),
            decreases n - *cursor,
        {
            let piece = pieces[*cursor].as_str();
            assert(piece@ == pv[*cursor as int]);
            if self.vocab.comment_end(piece) {
                done = true;
            } else {
                proof {
                    let sub = pv.subrange(start, *cursor as int + 1);
                    assert(sub.drop_last() =~= pv.subrange(start, *cursor as int));
                }
                comment.append(piece);
            }
            *cursor = *cursor + 1;
        }
        proof {
            if !done {
                assert(self.comment_stop(pv, n as int) == n);
            }
        }
        tokens.push(Token::Comment(comment));
        Ok(())
    }
}

} // verus!
