//! Concatenation for callers who know that their pieces fit one allocation.
//!
//! These entry points return what those of [`crate::string_concat`] return,
//! and leave out the test of the total length: that the pieces together take
//! no more than `isize::MAX` bytes is a precondition, which the caller has to
//! prove.

use crate::string_concat::{
    concat_2, concat_3, concat_4, concat_5, fits_one_allocation, joined, lemma_joined_2,
    lemma_joined_3, lemma_joined_4, lemma_joined_5,
};
use vstd::prelude::*;
use vstd::string::*;
use vstd::utf8::*;

verus! {

/// Concatenates five strings whose combined length does not exceed
/// `isize::MAX` bytes.
///
/// The result is `s1`, `s2`, `s3`, `s4` and `s5` in a row, character for
/// character and byte for byte, and so as long as the five together.
pub fn concat_5_no_overflow(s1: &str, s2: &str, s3: &str, s4: &str, s5: &str) -> (out: String)
    requires
        fits_one_allocation(
            s1.spec_bytes().len() + s2.spec_bytes().len() + s3.spec_bytes().len()
                + s4.spec_bytes().len() + s5.spec_bytes().len(),
        ),
    ensures
        out@ == s1@ + s2@ + s3@ + s4@ + s5@,
        out@ == joined(seq![s1@, s2@, s3@, s4@, s5@]),
        encode_utf8(out@) == s1.spec_bytes() + s2.spec_bytes() + s3.spec_bytes() + s4.spec_bytes()
            + s5.spec_bytes(),
        encode_utf8(out@).len() == s1.spec_bytes().len() + s2.spec_bytes().len()
            + s3.spec_bytes().len() + s4.spec_bytes().len() + s5.spec_bytes().len(),
{
    let total_length: usize = s1.len() + s2.len() + s3.len() + s4.len() + s5.len();
    let mut out = String::with_capacity(total_length);
    out.append(s1);
    out.append(s2);
    out.append(s3);
    out.append(s4);
    out.append(s5);
    proof {
        lemma_joined_5(s1@, s2@, s3@, s4@, s5@);
    }
    out
}

/// Concatenates four strings whose combined length does not exceed
/// `isize::MAX` bytes.
///
/// The result is `s1`, `s2`, `s3` and `s4` in a row, character for character
/// and byte for byte, and so as long as the four together.
pub fn concat_4_no_overflow(s1: &str, s2: &str, s3: &str, s4: &str) -> (out: String)
    requires
        fits_one_allocation(
            s1.spec_bytes().len() + s2.spec_bytes().len() + s3.spec_bytes().len()
                + s4.spec_bytes().len(),
        ),
    ensures
        out@ == s1@ + s2@ + s3@ + s4@,
        out@ == joined(seq![s1@, s2@, s3@, s4@]),
        encode_utf8(out@) == s1.spec_bytes() + s2.spec_bytes() + s3.spec_bytes() + s4.spec_bytes(),
        encode_utf8(out@).len() == s1.spec_bytes().len() + s2.spec_bytes().len()
            + s3.spec_bytes().len() + s4.spec_bytes().len(),
{
    let total_length: usize = s1.len() + s2.len() + s3.len() + s4.len();
    let mut out = String::with_capacity(total_length);
    out.append(s1);
    out.append(s2);
    out.append(s3);
    out.append(s4);
    proof {
        lemma_joined_4(s1@, s2@, s3@, s4@);
    }
    out
}

/// Concatenates three strings whose combined length does not exceed
/// `isize::MAX` bytes.
///
/// The result is `base`, `middle` and `end` in a row, character for
/// character and byte for byte, and so as long as the three together.
pub fn concat_3_no_overflow(base: &str, middle: &str, end: &str) -> (out: String)
    requires
        fits_one_allocation(
            base.spec_bytes().len() + middle.spec_bytes().len() + end.spec_bytes().len(),
        ),
    ensures
        out@ == base@ + middle@ + end@,
        out@ == joined(seq![base@, middle@, end@]),
        encode_utf8(out@) == base.spec_bytes() + middle.spec_bytes() + end.spec_bytes(),
        encode_utf8(out@).len() == base.spec_bytes().len() + middle.spec_bytes().len()
            + end.spec_bytes().len(),
{
    let total_length: usize = base.len() + middle.len() + end.len();
    let mut out = String::with_capacity(total_length);
    out.append(base);
    out.append(middle);
    out.append(end);
    proof {
        lemma_joined_3(base@, middle@, end@);
    }
    out
}

/// Concatenates two strings whose combined length does not exceed
/// `isize::MAX` bytes.
///
/// The result is `base` and `text` in a row, character for character and
/// byte for byte, and so as long as the two together.
pub fn concat_2_no_overflow(base: &str, text: &str) -> (out: String)
    requires
        fits_one_allocation(base.spec_bytes().len() + text.spec_bytes().len()),
    ensures
        out@ == base@ + text@,
        out@ == joined(seq![base@, text@]),
        encode_utf8(out@) == base.spec_bytes() + text.spec_bytes(),
        encode_utf8(out@).len() == base.spec_bytes().len() + text.spec_bytes().len(),
{
    let total_length: usize = base.len() + text.len();
    let mut out = String::with_capacity(total_length);
    out.append(base);
    out.append(text);
    proof {
        lemma_joined_2(base@, text@);
    }
    out
}

/// On pieces that fit one allocation, `concat_5_no_overflow` returns the
/// text that `concat_5` returns.
pub proof fn lemma_concat_5_no_overflow_agrees(
    s1: &str,
    s2: &str,
    s3: &str,
    s4: &str,
    s5: &str,
    checked: String,
    trusting: String,
)
    requires
        fits_one_allocation(
            s1.spec_bytes().len() + s2.spec_bytes().len() + s3.spec_bytes().len()
                + s4.spec_bytes().len() + s5.spec_bytes().len(),
        ),
        call_ensures(concat_5, (s1, s2, s3, s4, s5), checked),
        call_ensures(concat_5_no_overflow, (s1, s2, s3, s4, s5), trusting),
    ensures
        trusting@ == checked@,
        encode_utf8(trusting@) == encode_utf8(checked@),
{
}

/// Calling `concat_5_no_overflow` again on the same five pieces gives the
/// same text again, character for character and byte for byte.
pub proof fn lemma_concat_5_no_overflow_deterministic(
    s1: &str,
    s2: &str,
    s3: &str,
    s4: &str,
    s5: &str,
    first: String,
    second: String,
)
    requires
        call_ensures(concat_5_no_overflow, (s1, s2, s3, s4, s5), first),
        call_ensures(concat_5_no_overflow, (s1, s2, s3, s4, s5), second),
    ensures
        first@ == second@,
        encode_utf8(first@) == encode_utf8(second@),
{
}

/// On pieces that fit one allocation, `concat_4_no_overflow` returns the
/// text that `concat_4` returns.
pub proof fn lemma_concat_4_no_overflow_agrees(
    s1: &str,
    s2: &str,
    s3: &str,
    s4: &str,
    checked: String,
    trusting: String,
)
    requires
        fits_one_allocation(
            s1.spec_bytes().len() + s2.spec_bytes().len() + s3.spec_bytes().len()
                + s4.spec_bytes().len(),
        ),
        call_ensures(concat_4, (s1, s2, s3, s4), checked),
        call_ensures(concat_4_no_overflow, (s1, s2, s3, s4), trusting),
    ensures
        trusting@ == checked@,
        encode_utf8(trusting@) == encode_utf8(checked@),
{
}

/// Calling `concat_4_no_overflow` again on the same four pieces gives the
/// same text again, character for character and byte for byte.
pub proof fn lemma_concat_4_no_overflow_deterministic(
    s1: &str,
    s2: &str,
    s3: &str,
    s4: &str,
    first: String,
    second: String,
)
    requires
        call_ensures(concat_4_no_overflow, (s1, s2, s3, s4), first),
        call_ensures(concat_4_no_overflow, (s1, s2, s3, s4), second),
    ensures
        first@ == second@,
        encode_utf8(first@) == encode_utf8(second@),
{
}

/// On pieces that fit one allocation, `concat_3_no_overflow` returns the
/// text that `concat_3` returns.
pub proof fn lemma_concat_3_no_overflow_agrees(
    base: &str,
    middle: &str,
    end: &str,
    checked: String,
    trusting: String,
)
    requires
        fits_one_allocation(
            base.spec_bytes().len() + middle.spec_bytes().len() + end.spec_bytes().len(),
        ),
        call_ensures(concat_3, (base, middle, end), checked),
        call_ensures(concat_3_no_overflow, (base, middle, end), trusting),
    ensures
        trusting@ == checked@,
        encode_utf8(trusting@) == encode_utf8(checked@),
{
}

/// Calling `concat_3_no_overflow` again on the same three pieces gives the
/// same text again, character for character and byte for byte.
pub proof fn lemma_concat_3_no_overflow_deterministic(
    base: &str,
    middle: &str,
    end: &str,
    first: String,
    second: String,
)
    requires
        call_ensures(concat_3_no_overflow, (base, middle, end), first),
        call_ensures(concat_3_no_overflow, (base, middle, end), second),
    ensures
        first@ == second@,
        encode_utf8(first@) == encode_utf8(second@),
{
}

/// On pieces that fit one allocation, `concat_2_no_overflow` returns the
/// text that `concat_2` returns.
pub proof fn lemma_concat_2_no_overflow_agrees(
    base: &str,
    text: &str,
    checked: String,
    trusting: String,
)
    requires
        fits_one_allocation(base.spec_bytes().len() + text.spec_bytes().len()),
        call_ensures(concat_2, (base, text), checked),
        call_ensures(concat_2_no_overflow, (base, text), trusting),
    ensures
        trusting@ == checked@,
        encode_utf8(trusting@) == encode_utf8(checked@),
{
}

/// Calling `concat_2_no_overflow` again on the same two pieces gives the
/// same text again, character for character and byte for byte.
pub proof fn lemma_concat_2_no_overflow_deterministic(
    base: &str,
    text: &str,
    first: String,
    second: String,
)
    requires
        call_ensures(concat_2_no_overflow, (base, text), first),
        call_ensures(concat_2_no_overflow, (base, text), second),
    ensures
        first@ == second@,
        encode_utf8(first@) == encode_utf8(second@),
{
}

} // verus!
