//! Editing a string at a byte position, the way `String::insert` and
//! `String::remove` do.
use vstd::prelude::*;
use vstd::utf8::{encode_utf8, decode_utf8, is_char_boundary, length_of_first_scalar};

verus! {

/// The length in bytes of the UTF-8 encoding of `s`.
pub open spec fn byte_len(s: Seq<char>) -> nat {
    encode_utf8(s).len()
}

/// Whether byte offset `i` of the encoding of `s` starts a character or is its end.
pub open spec fn at_boundary(s: Seq<char>, i: int) -> bool {
    is_char_boundary(encode_utf8(s), i)
}

/// `s` with `c` inserted at byte offset `i` of its encoding.
pub open spec fn insert_at(s: Seq<char>, i: int, c: char) -> Seq<char> {
    let b = encode_utf8(s);
    decode_utf8(b.take(i) + encode_utf8(seq![c]) + b.skip(i))
}

/// `s` with the character that starts at byte offset `i` of its encoding removed.
pub open spec fn remove_at(s: Seq<char>, i: int) -> Seq<char> {
    let b = encode_utf8(s);
    decode_utf8(b.take(i) + b.skip(i + length_of_first_scalar(b.skip(i))))
}

/// Inserts a character at a byte position (`String::insert`), which must be a
/// character boundary (the call panics otherwise).
#[verifier::external_body]
pub fn string_insert(s: &mut String, idx: usize, c: char)
    requires
        at_boundary(old(s)@, idx as int),
    ensures
        final(s)@ == insert_at(old(s)@, idx as int, c),
{
    s.insert(idx, c);
}

/// Removes the character that starts at a byte position (`String::remove`);
/// the position must be a character boundary before the end (the call panics
/// otherwise).
#[verifier::external_body]
pub fn string_remove(s: &mut String, idx: usize)
    requires
        at_boundary(old(s)@, idx as int),
        idx < byte_len(old(s)@),
    ensures
        final(s)@ == remove_at(old(s)@, idx as int),
{
    s.remove(idx);
}

/// The length of a string in bytes (`String::len`).
#[verifier::external_body]
pub fn string_byte_len(s: &String) -> (n: usize)
    ensures
        n == byte_len(s@),
{
    s.len()
}

/// Whether a byte position of a string is a character boundary.
pub fn string_at_boundary(s: &String, idx: usize) -> (b: bool)
    ensures
        b == at_boundary(s@, idx as int),
{
    s.as_str().is_char_boundary(idx)
}

} // verus!

verus! {

/// A single character takes between one and four bytes.
pub proof fn lemma_char_bytes(c: char)
    ensures
        1 <= encode_utf8(seq![c]).len() <= 4,
        byte_len(seq![c]) == encode_utf8(seq![c]).len(),
        encode_utf8(seq![c]) == vstd::utf8::encode_scalar(c as u32),
{
    assert(seq![c].drop_first() =~= Seq::<char>::empty());
    assert(encode_utf8(Seq::<char>::empty()) =~= Seq::<u8>::empty());
    assert(encode_utf8(seq![c]) == vstd::utf8::encode_scalar(seq![c][0] as u32) + encode_utf8(
        seq![c].drop_first(),
    ));
    assert(encode_utf8(seq![c]) =~= vstd::utf8::encode_scalar(c as u32));
}

/// Inserting a character at a boundary lengthens the text by the character's bytes.
pub proof fn lemma_insert_at_len(s: Seq<char>, i: int, c: char)
    requires
        at_boundary(s, i),
    ensures
        0 <= i <= byte_len(s),
        byte_len(insert_at(s, i, c)) == byte_len(s) + byte_len(seq![c]),
        byte_len(seq![c]) >= 1,
{
    let b = encode_utf8(s);
    vstd::utf8::encode_utf8_valid_utf8(s);
    vstd::utf8::encode_utf8_valid_utf8(seq![c]);
    lemma_char_bytes(c);
    vstd::utf8::valid_utf8_split(b, i);
    let e = encode_utf8(seq![c]);
    let lo = b.subrange(0, i);
    let hi = b.subrange(i, b.len() as int);
    assert(b.take(i) =~= lo);
    assert(b.skip(i) =~= hi);
    vstd::utf8::valid_utf8_concat(lo, e);
    vstd::utf8::valid_utf8_concat(lo + e, hi);
    vstd::utf8::decode_utf8_encode_utf8(lo + e + hi);
}

/// Removing the character at a boundary before the end shortens the text by
/// that character's bytes, which lie within the text.
pub proof fn lemma_remove_at_len(s: Seq<char>, i: int)
    requires
        at_boundary(s, i),
        i < byte_len(s),
    ensures
        0 <= i,
        1 <= length_of_first_scalar(encode_utf8(s).skip(i)),
        i + length_of_first_scalar(encode_utf8(s).skip(i)) <= byte_len(s),
        byte_len(remove_at(s, i)) == byte_len(s) - length_of_first_scalar(encode_utf8(s).skip(i)),
{
    let b = encode_utf8(s);
    vstd::utf8::encode_utf8_valid_utf8(s);
    vstd::utf8::valid_utf8_split(b, i);
    let lo = b.subrange(0, i);
    let hi = b.subrange(i, b.len() as int);
    assert(b.take(i) =~= lo);
    assert(b.skip(i) =~= hi);
    assert(hi.len() > 0);
    assert(vstd::utf8::valid_first_scalar(hi));
    let w = length_of_first_scalar(hi);
    assert(1 <= w <= hi.len());
    let rest = vstd::utf8::pop_first_scalar(hi);
    assert(rest =~= b.skip(i + w));
    vstd::utf8::valid_utf8_concat(lo, rest);
    vstd::utf8::decode_utf8_encode_utf8(lo + rest);
    assert(b.take(i) + b.skip(i + w) =~= lo + rest);
}


/// A byte offset at the end of a valid prefix is a character boundary of any
/// valid text that continues it.
proof fn lemma_boundary_after_prefix(lo: Seq<u8>, hi: Seq<u8>)
    requires
        vstd::utf8::valid_utf8(lo),
        vstd::utf8::valid_utf8(hi),
    ensures
        vstd::utf8::valid_utf8(lo + hi),
        is_char_boundary(lo + hi, lo.len() as int),
    decreases lo.len(),
{
    vstd::utf8::valid_utf8_concat(lo, hi);
    if lo.len() > 0 {
        let w = length_of_first_scalar(lo);
        let rest = vstd::utf8::pop_first_scalar(lo);
        assert(1 <= w <= lo.len());
        assert(length_of_first_scalar(lo + hi) == w);
        assert(vstd::utf8::pop_first_scalar(lo + hi) =~= rest + hi);
        lemma_boundary_after_prefix(rest, hi);
    } else {
        assert(lo + hi =~= hi);
    }
}

/// Removing the character at a byte offset right after inserting one there
/// gives back the text; the offset is a boundary before the end of the new text.
pub proof fn lemma_insert_then_remove(s: Seq<char>, i: int, c: char)
    requires
        at_boundary(s, i),
    ensures
        at_boundary(insert_at(s, i, c), i),
        i < byte_len(insert_at(s, i, c)),
        remove_at(insert_at(s, i, c), i) == s,
{
    let b = encode_utf8(s);
    vstd::utf8::encode_utf8_valid_utf8(s);
    vstd::utf8::encode_utf8_valid_utf8(seq![c]);
    lemma_char_bytes(c);
    vstd::utf8::valid_utf8_split(b, i);
    let e = encode_utf8(seq![c]);
    let lo = b.subrange(0, i);
    let hi = b.subrange(i, b.len() as int);
    assert(b.take(i) =~= lo);
    assert(b.skip(i) =~= hi);
    vstd::utf8::valid_utf8_concat(e, hi);
    lemma_boundary_after_prefix(lo, e + hi);
    let nb = lo + (e + hi);
    assert(lo + e + hi =~= nb);
    vstd::utf8::decode_utf8_encode_utf8(nb);
    let t = insert_at(s, i, c);
    assert(encode_utf8(t) == nb);
    // The first character of the bytes after the offset is `c`.
    let chars = seq![c] + decode_utf8(hi);
    vstd::utf8::decode_utf8_encode_utf8(hi);
    assert(chars.drop_first() =~= decode_utf8(hi));
    assert(encode_utf8(chars) == vstd::utf8::encode_scalar(chars[0] as u32) + encode_utf8(
        chars.drop_first(),
    ));
    assert(encode_utf8(chars) =~= e + hi);
    vstd::utf8::encode_utf8_first_scalar(chars);
    assert(length_of_first_scalar(e + hi) == e.len());
    assert(nb.take(i) =~= lo);
    assert(nb.skip(i) =~= e + hi);
    assert(nb.skip(i + e.len()) =~= hi);
    assert(lo + hi =~= b);
    vstd::utf8::encode_utf8_decode_utf8(s);
}

} // verus!
