//! Joining a fixed number of text pieces into one `String`.
//!
//! Every function here adds up the byte lengths of its pieces, reserves a
//! buffer of exactly that size and appends the pieces in argument order, so
//! the buffer is allocated once and never grows.
//!
//! No `String` holds more than `isize::MAX` bytes. Pieces that together take
//! more are not refused here: nothing is reserved for them, and the first
//! append that outgrows the limit ends as any allocation of that size does,
//! in the allocator's own failure. Callers who can rule that out beforehand
//! find entry points without the test in [`crate::string_concat_unsafe`].
//!
//! The model is [`joined`]: the pieces put one after another, starting from
//! nothing. It is stated over any element type, so the same definition
//! describes the result as characters and as UTF-8 bytes.

use vstd::prelude::*;
use vstd::string::*;
use vstd::utf8::*;

verus! {

/// Whether a single allocation may hold `bytes` bytes.
pub open spec fn fits_one_allocation(bytes: nat) -> bool {
    bytes <= isize::MAX
}

/// The pieces joined from left to right: begin with nothing, then append
/// one piece after another.
pub open spec fn joined<T>(pieces: Seq<Seq<T>>) -> Seq<T>
    decreases pieces.len(),
{
    if pieces.len() == 0 {
        Seq::empty()
    } else {
        joined(pieces.drop_last()) + pieces.last()
    }
}

/// The lengths of the pieces added up.
pub open spec fn total_len<T>(pieces: Seq<Seq<T>>) -> nat
    decreases pieces.len(),
{
    if pieces.len() == 0 {
        0
    } else {
        total_len(pieces.drop_last()) + pieces.last().len()
    }
}

/// Each piece of text as its UTF-8 bytes.
pub open spec fn encoded(pieces: Seq<Seq<char>>) -> Seq<Seq<u8>> {
    pieces.map_values(|piece: Seq<char>| encode_utf8(piece))
}

/// Joining one more piece appends it to what was joined before.
pub proof fn lemma_joined_push<T>(pieces: Seq<Seq<T>>, piece: Seq<T>)
    ensures
        joined(pieces.push(piece)) == joined(pieces) + piece,
        total_len(pieces.push(piece)) == total_len(pieces) + piece.len(),
{
    assert(pieces.push(piece).drop_last() =~= pieces);
}

/// The joined pieces are as long as all the pieces together.
pub proof fn lemma_joined_len<T>(pieces: Seq<Seq<T>>)
    ensures
        joined(pieces).len() == total_len(pieces),
    decreases pieces.len(),
{
    if pieces.len() > 0 {
        lemma_joined_len(pieces.drop_last());
    }
}

/// An empty piece adds nothing: the pieces without it join to the same
/// result.
pub proof fn lemma_joined_skips_empty<T>(pieces: Seq<Seq<T>>, at: int)
    requires
        0 <= at < pieces.len(),
        pieces[at].len() == 0,
    ensures
        joined(pieces.remove(at)) == joined(pieces),
    decreases pieces.len(),
{
    let rest = pieces.remove(at);
    if at == pieces.len() - 1 {
        assert(rest =~= pieces.drop_last());
        assert(joined(pieces.drop_last()) + pieces.last() =~= joined(pieces.drop_last()));
    } else {
        assert(rest.drop_last() =~= pieces.drop_last().remove(at));
        assert(rest.last() == pieces.last());
        lemma_joined_skips_empty(pieces.drop_last(), at);
    }
}

/// However many pieces are empty, the others alone join to the same result.
pub proof fn lemma_joined_ignores_empty<T>(pieces: Seq<Seq<T>>)
    ensures
        joined(pieces.filter(|piece: Seq<T>| piece.len() > 0)) == joined(pieces),
    decreases pieces.len(),
{
    reveal(Seq::filter);
    if pieces.len() > 0 {
        let kept = pieces.drop_last().filter(|piece: Seq<T>| piece.len() > 0);
        lemma_joined_ignores_empty(pieces.drop_last());
        if pieces.last().len() > 0 {
            lemma_joined_push(kept, pieces.last());
        } else {
            assert(joined(pieces.drop_last()) + pieces.last() =~= joined(pieces.drop_last()));
        }
    }
}

/// The UTF-8 bytes of two texts in a row are the bytes of the first
/// followed by the bytes of the second.
pub proof fn lemma_encode_utf8_concat(front: Seq<char>, back: Seq<char>)
    ensures
        encode_utf8(front + back) == encode_utf8(front) + encode_utf8(back),
    decreases front.len(),
{
    if front.len() == 0 {
        assert(front + back =~= back);
        assert(encode_utf8(front) + encode_utf8(back) =~= encode_utf8(back));
    } else {
        let first = encode_scalar(front[0] as u32);
        assert((front + back).drop_first() =~= front.drop_first() + back);
        lemma_encode_utf8_concat(front.drop_first(), back);
        assert(first + (encode_utf8(front.drop_first()) + encode_utf8(back)) =~= (first
            + encode_utf8(front.drop_first())) + encode_utf8(back));
    }
}

/// Byte for byte, the joined text is the join of the pieces' bytes.
pub proof fn lemma_encode_joined(pieces: Seq<Seq<char>>)
    ensures
        encode_utf8(joined(pieces)) == joined(encoded(pieces)),
        encode_utf8(joined(pieces)).len() == total_len(encoded(pieces)),
    decreases pieces.len(),
{
    if pieces.len() > 0 {
        lemma_encode_joined(pieces.drop_last());
        lemma_encode_utf8_concat(joined(pieces.drop_last()), pieces.last());
        assert(encoded(pieces).drop_last() =~= encoded(pieces.drop_last()));
    }
    lemma_joined_len(encoded(pieces));
}

/// Five pieces joined are the five in a row, as text and as bytes.
pub proof fn lemma_joined_5(
    s1: Seq<char>,
    s2: Seq<char>,
    s3: Seq<char>,
    s4: Seq<char>,
    s5: Seq<char>,
)
    ensures
        joined(seq![s1, s2, s3, s4, s5]) == s1 + s2 + s3 + s4 + s5,
        encode_utf8(s1 + s2 + s3 + s4 + s5) == encode_utf8(s1) + encode_utf8(s2) + encode_utf8(s3)
            + encode_utf8(s4) + encode_utf8(s5),
{
    lemma_joined_4(s1, s2, s3, s4);
    lemma_joined_push(seq![s1, s2, s3, s4], s5);
    assert(seq![s1, s2, s3, s4].push(s5) =~= seq![s1, s2, s3, s4, s5]);
    lemma_encode_utf8_concat(s1 + s2 + s3 + s4, s5);
}

/// Four pieces joined are the four in a row, as text and as bytes.
pub proof fn lemma_joined_4(s1: Seq<char>, s2: Seq<char>, s3: Seq<char>, s4: Seq<char>)
    ensures
        joined(seq![s1, s2, s3, s4]) == s1 + s2 + s3 + s4,
        encode_utf8(s1 + s2 + s3 + s4) == encode_utf8(s1) + encode_utf8(s2) + encode_utf8(s3)
            + encode_utf8(s4),
{
    lemma_joined_3(s1, s2, s3);
    lemma_joined_push(seq![s1, s2, s3], s4);
    assert(seq![s1, s2, s3].push(s4) =~= seq![s1, s2, s3, s4]);
    lemma_encode_utf8_concat(s1 + s2 + s3, s4);
}

/// Three pieces joined are the three in a row, as text and as bytes.
pub proof fn lemma_joined_3(s1: Seq<char>, s2: Seq<char>, s3: Seq<char>)
    ensures
        joined(seq![s1, s2, s3]) == s1 + s2 + s3,
        encode_utf8(s1 + s2 + s3) == encode_utf8(s1) + encode_utf8(s2) + encode_utf8(s3),
{
    lemma_joined_2(s1, s2);
    lemma_joined_push(seq![s1, s2], s3);
    assert(seq![s1, s2].push(s3) =~= seq![s1, s2, s3]);
    lemma_encode_utf8_concat(s1 + s2, s3);
}

/// Two pieces joined are the two in a row, as text and as bytes.
pub proof fn lemma_joined_2(s1: Seq<char>, s2: Seq<char>)
    ensures
        joined(seq![s1, s2]) == s1 + s2,
        encode_utf8(s1 + s2) == encode_utf8(s1) + encode_utf8(s2),
{
    lemma_joined_push(Seq::<Seq<char>>::empty(), s1);
    lemma_joined_push(seq![s1], s2);
    assert(Seq::<Seq<char>>::empty().push(s1) =~= seq![s1]);
    assert(seq![s1].push(s2) =~= seq![s1, s2]);
    assert(Seq::<char>::empty() + s1 =~= s1);
    lemma_encode_utf8_concat(s1, s2);
}

/// `String::with_capacity` of the standard library: the string it returns
/// is empty. The capacity is kept within what one allocation may hold; the
/// standard library panics beyond that.
pub assume_specification[ String::with_capacity ](capacity: usize) -> (s: String)
    requires
        fits_one_allocation(capacity as nat),
    ensures
        s@ == Seq::<char>::empty(),
;

/// The length of a piece in bytes.
fn byte_len(piece: &str) -> (len: usize)
    ensures
        len == piece.spec_bytes().len(),
{
    piece.as_bytes().len()
}

/// Adds the length of the next piece to the length gathered so far, as long
/// as one allocation can still hold the sum.
fn add_length(so_far: Option<usize>, next: usize) -> (sum: Option<usize>)
    ensures
        sum == match so_far {
            Some(n) if fits_one_allocation((n + next) as nat) => Some((n + next) as usize),
            _ => None::<usize>,
        },
{
    match so_far {
        Some(n) => {
            let limit: usize = isize::MAX as usize;
            if n <= limit && next <= limit - n {
                Some(n + next)
            } else {
                None
            }
        },
        None => None,
    }
}

/// An empty buffer for the pieces. Where their total length is given, room
/// for exactly that many bytes is reserved, so that appending the pieces
/// never grows the buffer. Where it is not, nothing is reserved, and it is
/// the appends that meet the allocator's refusal.
fn empty_buffer(total: Option<usize>) -> (buffer: String)
    requires
        total matches Some(n) ==> fits_one_allocation(n as nat),
    ensures
        buffer@ == Seq::<char>::empty(),
{
    match total {
        Some(n) => String::with_capacity(n),
        None => String::new(),
    }
}

/// Concatenates five strings into one newly allocated `String`.
///
/// The result is `s1`, `s2`, `s3`, `s4` and `s5` in a row, character for
/// character and byte for byte, and so as long as the five together.
pub fn concat_5(s1: &str, s2: &str, s3: &str, s4: &str, s5: &str) -> (out: String)
    ensures
        out@ == s1@ + s2@ + s3@ + s4@ + s5@,
        out@ == joined(seq![s1@, s2@, s3@, s4@, s5@]),
        encode_utf8(out@) == s1.spec_bytes() + s2.spec_bytes() + s3.spec_bytes() + s4.spec_bytes()
            + s5.spec_bytes(),
        encode_utf8(out@).len() == s1.spec_bytes().len() + s2.spec_bytes().len()
            + s3.spec_bytes().len() + s4.spec_bytes().len() + s5.spec_bytes().len(),
{
    let total = add_length(
        add_length(
            add_length(add_length(Some(byte_len(s1)), byte_len(s2)), byte_len(s3)),
            byte_len(s4),
        ),
        byte_len(s5),
    );
    let mut out = empty_buffer(total);
    out.append(s1);
    out.append(s2);
    out.append(s3);
    out.append(s4);
    out.append(s5);
    proof {
        lemma_joined_5(s1@, s2@, s3@, s4@, s5@);
    }
    out
}

/// Concatenates four strings into one newly allocated `String`.
///
/// The result is `s1`, `s2`, `s3` and `s4` in a row, character for character
/// and byte for byte, and so as long as the four together.
pub fn concat_4(s1: &str, s2: &str, s3: &str, s4: &str) -> (out: String)
    ensures
        out@ == s1@ + s2@ + s3@ + s4@,
        out@ == joined(seq![s1@, s2@, s3@, s4@]),
        encode_utf8(out@) == s1.spec_bytes() + s2.spec_bytes() + s3.spec_bytes() + s4.spec_bytes(),
        encode_utf8(out@).len() == s1.spec_bytes().len() + s2.spec_bytes().len()
            + s3.spec_bytes().len() + s4.spec_bytes().len(),
{
    let total = add_length(
        add_length(add_length(Some(byte_len(s1)), byte_len(s2)), byte_len(s3)),
        byte_len(s4),
    );
    let mut out = empty_buffer(total);
    out.append(s1);
    out.append(s2);
    out.append(s3);
    out.append(s4);
    proof {
        lemma_joined_4(s1@, s2@, s3@, s4@);
    }
    out
}

/// Concatenates three strings into one newly allocated `String`.
///
/// The result is `base`, `middle` and `end` in a row, character for
/// character and byte for byte, and so as long as the three together.
pub fn concat_3(base: &str, middle: &str, end: &str) -> (out: String)
    ensures
        out@ == base@ + middle@ + end@,
        out@ == joined(seq![base@, middle@, end@]),
        encode_utf8(out@) == base.spec_bytes() + middle.spec_bytes() + end.spec_bytes(),
        encode_utf8(out@).len() == base.spec_bytes().len() + middle.spec_bytes().len()
            + end.spec_bytes().len(),
{
    let total = add_length(add_length(Some(byte_len(base)), byte_len(middle)), byte_len(end));
    let mut out = empty_buffer(total);
    out.append(base);
    out.append(middle);
    out.append(end);
    proof {
        lemma_joined_3(base@, middle@, end@);
    }
    out
}

/// Concatenates two strings into one newly allocated `String`.
///
/// The result is `base` and `text` in a row, character for character and
/// byte for byte, and so as long as the two together.
pub fn concat_2(base: &str, text: &str) -> (out: String)
    ensures
        out@ == base@ + text@,
        out@ == joined(seq![base@, text@]),
        encode_utf8(out@) == base.spec_bytes() + text.spec_bytes(),
        encode_utf8(out@).len() == base.spec_bytes().len() + text.spec_bytes().len(),
{
    let total = add_length(Some(byte_len(base)), byte_len(text));
    let mut out = empty_buffer(total);
    out.append(base);
    out.append(text);
    proof {
        lemma_joined_2(base@, text@);
    }
    out
}

/// Calling `concat_5` again on the same five pieces gives the same text
/// again, character for character and byte for byte.
pub proof fn lemma_concat_5_deterministic(
    s1: &str,
    s2: &str,
    s3: &str,
    s4: &str,
    s5: &str,
    first: String,
    second: String,
)
    requires
        call_ensures(concat_5, (s1, s2, s3, s4, s5), first),
        call_ensures(concat_5, (s1, s2, s3, s4, s5), second),
    ensures
        first@ == second@,
        encode_utf8(first@) == encode_utf8(second@),
{
}

/// Calling `concat_4` again on the same four pieces gives the same text
/// again, character for character and byte for byte.
pub proof fn lemma_concat_4_deterministic(
    s1: &str,
    s2: &str,
    s3: &str,
    s4: &str,
    first: String,
    second: String,
)
    requires
        call_ensures(concat_4, (s1, s2, s3, s4), first),
        call_ensures(concat_4, (s1, s2, s3, s4), second),
    ensures
        first@ == second@,
        encode_utf8(first@) == encode_utf8(second@),
{
}

/// Calling `concat_3` again on the same three pieces gives the same text
/// again, character for character and byte for byte.
pub proof fn lemma_concat_3_deterministic(
    base: &str,
    middle: &str,
    end: &str,
    first: String,
    second: String,
)
    requires
        call_ensures(concat_3, (base, middle, end), first),
        call_ensures(concat_3, (base, middle, end), second),
    ensures
        first@ == second@,
        encode_utf8(first@) == encode_utf8(second@),
{
}

/// Calling `concat_2` again on the same two pieces gives the same text
/// again, character for character and byte for byte.
pub proof fn lemma_concat_2_deterministic(
    base: &str,
    text: &str,
    first: String,
    second: String,
)
    requires
        call_ensures(concat_2, (base, text), first),
        call_ensures(concat_2, (base, text), second),
    ensures
        first@ == second@,
        encode_utf8(first@) == encode_utf8(second@),
{
}

} // verus!
