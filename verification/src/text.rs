//! Bounded extraction of text: the longest prefix of a string whose UTF-8
//! encoding fits a byte limit, cut between characters.

use vstd::prelude::*;
use vstd::string::*;
use vstd::utf8::*;

verus! {

/// The size in bytes of the buffer that a query extracts text into. One byte
/// of it is the terminator.
pub const BUFFER_SIZE: usize = 1024;

/// The most bytes of UTF-8 text that fit the buffer beside its terminator.
pub const TEXT_LIMIT: usize = BUFFER_SIZE - 1;

/// The number of bytes that the UTF-8 encoding of `text` takes.
pub open spec fn utf8_len(text: Seq<char>) -> nat {
    encode_utf8(text).len()
}

/// How many leading characters of `text` fit into `limit` bytes of UTF-8.
pub open spec fn fitting_chars(text: Seq<char>, limit: int) -> nat
    decreases text.len(),
{
    if text.len() == 0 {
        0
    } else {
        let width = encode_scalar(text[0] as u32).len();
        if width <= limit {
            1 + fitting_chars(text.drop_first(), limit - width)
        } else {
            0
        }
    }
}

/// The longest prefix of `text` whose UTF-8 encoding fits into `limit` bytes.
pub open spec fn bounded_prefix(text: Seq<char>, limit: int) -> Seq<char> {
    text.subrange(0, fitting_chars(text, limit) as int)
}

proof fn lemma_fitting_chars_in_range(text: Seq<char>, limit: int)
    ensures
        fitting_chars(text, limit) <= text.len(),
    decreases text.len(),
{
    if text.len() > 0 {
        let width = encode_scalar(text[0] as u32).len();
        if width <= limit {
            lemma_fitting_chars_in_range(text.drop_first(), limit - width);
        }
    }
}

proof fn lemma_encode_prefix_step(text: Seq<char>, k: int)
    requires
        0 <= k < text.len(),
    ensures
        encode_utf8(text.subrange(0, k + 1)) == encode_scalar(text[0] as u32) + encode_utf8(
            text.drop_first().subrange(0, k),
        ),
{
    let prefix = text.subrange(0, k + 1);
    assert(prefix.drop_first() =~= text.drop_first().subrange(0, k));
}

/// The prefix that [`bounded_prefix`] keeps fits the limit, and no longer
/// prefix does: either the whole text is kept or one more character would
/// exceed the limit.
pub proof fn lemma_bounded_prefix_is_longest_fit(text: Seq<char>, limit: int)
    requires
        0 <= limit,
    ensures
        bounded_prefix(text, limit).is_prefix_of(text),
        utf8_len(bounded_prefix(text, limit)) <= limit,
        utf8_len(text) <= limit ==> bounded_prefix(text, limit) == text,
        fitting_chars(text, limit) < text.len() ==> utf8_len(
            text.subrange(0, fitting_chars(text, limit) as int + 1),
        ) > limit,
    decreases text.len(),
{
    lemma_fitting_chars_in_range(text, limit);
    if text.len() == 0 {
        assert(bounded_prefix(text, limit) =~= text);
    } else {
        let width = encode_scalar(text[0] as u32).len();
        let rest = text.drop_first();
        char_is_scalar(text[0]);
        if width <= limit {
            lemma_bounded_prefix_is_longest_fit(rest, limit - width);
            lemma_fitting_chars_in_range(rest, limit - width);
            let k = fitting_chars(rest, limit - width) as int;
            lemma_encode_prefix_step(text, k);
            if k < rest.len() {
                lemma_encode_prefix_step(text, k + 1);
            }
            if utf8_len(text) <= limit {
                assert(bounded_prefix(text, limit) =~= text);
            }
        } else {
            assert(text.subrange(0, 1).drop_first() =~= Seq::<char>::empty());
            assert(bounded_prefix(text, limit) =~= Seq::<char>::empty());
        }
    }
}

/// A cut of the encoded text at the last character boundary that the limit
/// allows keeps exactly the characters that fit.
proof fn lemma_cut_keeps_fitting_chars(text: Seq<char>, limit: int, cut: int)
    requires
        0 <= cut <= limit,
        cut <= encode_utf8(text).len(),
        is_char_boundary(encode_utf8(text), cut),
        forall|j: int| cut < j <= limit ==> !is_char_boundary(encode_utf8(text), j),
    ensures
        encode_utf8(text).subrange(0, cut) == encode_utf8(bounded_prefix(text, limit)),
    decreases text.len(),
{
    let bytes = encode_utf8(text);
    encode_utf8_valid_utf8(text);
    lemma_fitting_chars_in_range(text, limit);
    if text.len() == 0 {
        assert(bytes.subrange(0, cut) =~= encode_utf8(bounded_prefix(text, limit)));
    } else {
        let rest = text.drop_first();
        let width = encode_scalar(text[0] as u32).len() as int;
        let tail = pop_first_scalar(bytes);
        encode_utf8_first_scalar(text);
        encode_utf8_valid_utf8(rest);
        assert(tail =~= encode_utf8(rest));
        // The boundaries of `bytes` behind its first character are those of
        // `tail`, moved by the width of that character.
        assert(forall|j: int|
            j != 0 && 0 <= j <= bytes.len() ==> is_char_boundary(bytes, j) == is_char_boundary(
                tail,
                j - width,
            ));
        if width > limit {
            // The first character does not fit, so no boundary but 0 lies
            // within the limit.
            assert(bounded_prefix(text, limit) =~= Seq::<char>::empty());
        } else {
            // The first character fits, so the cut lies behind it, and is the
            // last boundary of `tail` within what is left of the limit.
            assert(is_char_boundary(bytes, width));
            assert(cut >= width);
            assert forall|j: int| cut - width < j <= limit - width implies !is_char_boundary(
                tail,
                j,
            ) by {
                if j <= tail.len() {
                    assert(is_char_boundary(bytes, j + width) == is_char_boundary(tail, j));
                }
            }
            lemma_cut_keeps_fitting_chars(rest, limit - width, cut - width);
            lemma_fitting_chars_in_range(rest, limit - width);
            let kept = fitting_chars(rest, limit - width) as int;
            lemma_encode_prefix_step(text, kept);
            assert(bytes.subrange(0, cut) =~= encode_scalar(text[0] as u32) + tail.subrange(
                0,
                cut - width,
            ));
        }
    }
}

proof fn lemma_no_boundary_past_end(bytes: Seq<u8>, index: int)
    requires
        valid_utf8(bytes),
        bytes.len() < index,
    ensures
        !is_char_boundary(bytes, index),
{
}

/// Copies `text`, keeping only the longest prefix whose UTF-8 encoding takes
/// at most `limit` bytes. The cut never falls inside a character.
pub fn truncate_to_bytes(text: &str, limit: usize) -> (kept: String)
    ensures
        kept@ == bounded_prefix(text@, limit as int),
{
    proof {
        encode_utf8_valid_utf8(text@);
        is_char_boundary_start_end_of_seq(text.spec_bytes());
    }
    let mut cut: usize = text.as_bytes().len();
    proof {
        assert forall|j: int| cut < j <= limit implies !is_char_boundary(
            text.spec_bytes(),
            j,
        ) by {
            lemma_no_boundary_past_end(text.spec_bytes(), j);
        }
    }
    if cut > limit {
        cut = limit;
        let mut at_boundary = text.is_char_boundary(cut);
        while !at_boundary
            invariant
                cut <= limit,
                cut <= text.spec_bytes().len(),
                valid_utf8(text.spec_bytes()),
                is_char_boundary(text.spec_bytes(), 0),
                at_boundary == is_char_boundary(text.spec_bytes(), cut as int),
                forall|j: int| cut < j <= limit ==> !is_char_boundary(text.spec_bytes(), j),
            decreases cut,
        {
            cut = cut - 1;
            at_boundary = text.is_char_boundary(cut);
        }
    }
    let (head, _) = text.split_at(cut);
    let kept = String::from_str(head);
    proof {
        lemma_cut_keeps_fitting_chars(text@, limit as int, cut as int);
        encode_utf8_decode_utf8(kept@);
        encode_utf8_decode_utf8(bounded_prefix(text@, limit as int));
    }
    kept
}

} // verus!
