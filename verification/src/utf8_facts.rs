//! Facts about UTF-8 byte sequences: where characters begin, and how the
//! encoding of joined texts joins.

use vstd::prelude::*;
use vstd::utf8::{
    encode_scalar, encode_utf8, encode_utf8_first_scalar, is_char_boundary,
    is_char_boundary_iff_not_is_continuation_byte, is_char_boundary_start_end_of_seq,
    length_of_first_scalar, pop_first_scalar, valid_first_scalar, valid_utf8, valid_utf8_split,
};

verus! {

/// From a character start, the next character start is one character on.
pub proof fn lemma_boundary_step(b: Seq<u8>, j: int)
    requires
        valid_utf8(b),
        is_char_boundary(b, j),
        0 <= j < b.len(),
    ensures
        valid_first_scalar(b.subrange(j, b.len() as int)),
        is_char_boundary(b, j + length_of_first_scalar(b.subrange(j, b.len() as int))),
    decreases b.len(),
{
    let l1 = length_of_first_scalar(b);
    let pop = pop_first_scalar(b);
    if j == 0 {
        assert(b.subrange(0, b.len() as int) =~= b);
        assert(is_char_boundary(pop, 0));
    } else {
        assert(is_char_boundary(pop, j - l1));
        assert(j - l1 >= 0);
        lemma_boundary_step(pop, j - l1);
        assert(pop.subrange(j - l1, pop.len() as int) =~= b.subrange(j, b.len() as int));
        let w = length_of_first_scalar(b.subrange(j, b.len() as int));
        assert(is_char_boundary(pop, j - l1 + w));
    }
}

/// The byte after an ASCII byte begins a character.
pub proof fn lemma_boundary_after_ascii(b: Seq<u8>, k: int)
    requires
        valid_utf8(b),
        1 <= k <= b.len(),
        b[k - 1] <= 0x7f,
    ensures
        is_char_boundary(b, k),
{
    is_char_boundary_iff_not_is_continuation_byte(b, k - 1);
    lemma_boundary_step(b, k - 1);
    assert(b.subrange(k - 1, b.len() as int)[0] == b[k - 1]);
}

/// Every character has an encoding of at least one byte.
pub proof fn lemma_encode_scalar_nonempty(c: char)
    ensures
        encode_scalar(c as u32).len() >= 1,
{
}

/// After the encoding of a text that starts at a character start comes
/// another character start.
pub proof fn lemma_boundary_after_encoded(b: Seq<u8>, s: int, c: Seq<char>)
    requires
        valid_utf8(b),
        is_char_boundary(b, s),
        0 <= s,
        s + encode_utf8(c).len() <= b.len(),
        b.subrange(s, s + encode_utf8(c).len()) == encode_utf8(c),
    ensures
        is_char_boundary(b, s + encode_utf8(c).len()),
    decreases c.len(),
{
    if c.len() > 0 {
        let e = encode_utf8(c);
        let w = encode_scalar(c[0] as u32).len() as int;
        encode_utf8_first_scalar(c);
        lemma_encode_scalar_nonempty(c[0]);
        assert(e =~= encode_scalar(c[0] as u32) + encode_utf8(c.drop_first()));
        lemma_boundary_step(b, s);
        let t = b.subrange(s, b.len() as int);
        assert(t[0] == e[0]);
        assert(length_of_first_scalar(t) == length_of_first_scalar(e));
        let rest = encode_utf8(c.drop_first());
        assert(e.subrange(w, e.len() as int) =~= rest);
        assert(b.subrange(s + w, s + e.len()) =~= b.subrange(s, s + e.len()).subrange(
            w,
            e.len() as int,
        ));
        assert(b.subrange(s + w, s + e.len()) =~= rest);
        lemma_boundary_after_encoded(b, s + w, c.drop_first());
    }
}

/// A character start of the whole is one of the part that follows an
/// earlier character start.
pub proof fn lemma_boundary_in_suffix(b: Seq<u8>, p: int, k: int)
    requires
        valid_utf8(b),
        is_char_boundary(b, p),
        is_char_boundary(b, k),
        0 <= p <= k <= b.len(),
    ensures
        valid_utf8(b.subrange(p, b.len() as int)),
        is_char_boundary(b.subrange(p, b.len() as int), k - p),
{
    valid_utf8_split(b, p);
    let t = b.subrange(p, b.len() as int);
    if k == b.len() {
        is_char_boundary_start_end_of_seq(t);
        assert(t.len() == k - p);
    } else {
        is_char_boundary_iff_not_is_continuation_byte(b, k);
        is_char_boundary_iff_not_is_continuation_byte(t, k - p);
        assert(t[k - p] == b[k]);
    }
}

/// The encoding of joined texts is the join of their encodings.
pub proof fn lemma_encode_concat(a: Seq<char>, c: Seq<char>)
    ensures
        encode_utf8(a + c) == encode_utf8(a) + encode_utf8(c),
    decreases a.len(),
{
    if a.len() > 0 {
        lemma_encode_concat(a.drop_first(), c);
        assert((a + c).drop_first() =~= a.drop_first() + c);
        assert((a + c)[0] == a[0]);
        assert(encode_utf8(a + c) =~= encode_utf8(a) + encode_utf8(c));
    } else {
        assert(a + c =~= c);
        assert(encode_utf8(a) =~= Seq::<u8>::empty());
        assert(encode_utf8(a) + encode_utf8(c) =~= encode_utf8(c));
    }
}

} // verus!
