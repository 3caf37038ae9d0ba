//! Decisions of the screen drawing that do not depend on the terminal.
use vstd::prelude::*;
use vstd::utf8::{decode_utf8, encode_utf8};
use crate::textbuf::{at_boundary, byte_len, lemma_char_bytes};

verus! {

/// The frame of the activity spinner shown at a tick.
pub open spec fn spinner_at(tick: u64) -> Seq<char> {
    let k = tick % 4;
    if k == 0 {
        "|"@
    } else if k == 1 {
        "/"@
    } else if k == 2 {
        "-"@
    } else {
        "\\"@
    }
}

/// The frame of the activity spinner shown at a tick: the four frames
/// `|`, `/`, `-`, `\` in turn.
pub fn spinner_frame(tick: u64) -> (r: &'static str)
    ensures
        r@ == spinner_at(tick),
{
    let k = tick % 4;
    if k == 0 {
        "|"
    } else if k == 1 {
        "/"
    } else if k == 2 {
        "-"
    } else {
        "\\"
    }
}

/// The name of a view in the header.
pub open spec fn view_title(v: crate::view::View) -> Seq<char> {
    match v {
        crate::view::View::Docker => "Docker"@,
        crate::view::View::System => "System"@,
        crate::view::View::Network => "Network"@,
        crate::view::View::Help => "Help"@,
    }
}

/// The name of a view in the header.
pub fn view_name(v: crate::view::View) -> (r: &'static str)
    ensures
        r@ == view_title(v),
{
    match v {
        crate::view::View::Docker => "Docker",
        crate::view::View::System => "System",
        crate::view::View::Network => "Network",
        crate::view::View::Help => "Help",
    }
}

/// The item of the console list to bring into sight: none in an empty list;
/// the last item (the input line) at scroll offset 0; otherwise the item
/// `offset` places above it, stopping at the first.
pub open spec fn console_focus(total: nat, offset: nat) -> Option<nat> {
    if total == 0 {
        None
    } else if offset == 0 {
        Some((total - 1) as nat)
    } else if total > offset + 1 {
        Some((total - offset - 1) as nat)
    } else {
        Some(0)
    }
}

/// The item of the console list to bring into sight, as `console_focus` says.
pub fn console_selection(total: usize, offset: usize) -> (r: Option<usize>)
    requires
        offset < usize::MAX,
    ensures
        match r {
            Some(i) => console_focus(total as nat, offset as nat) == Some(i as nat),
            None => console_focus(total as nat, offset as nat) is None,
        },
{
    if total == 0 {
        None
    } else if offset == 0 {
        Some(total - 1)
    } else {
        let up = total.saturating_sub(offset + 1);
        Some(if up < total - 1 {
            up
        } else {
            total - 1
        })
    }
}

} // verus!

verus! {

/// Whether names are in the order of strings (equal names may neighbour).
pub open spec fn names_sorted(s: Seq<String>) -> bool {
    forall|i: int, j: int|
        0 <= i < j < s.len() ==> !crate::metrics::lex_lt(#[trigger] s[j]@, #[trigger] s[i]@)
}

/// Inserting a name after every name it does not come before, and before a
/// name that comes after it, keeps the names sorted.
proof fn lemma_insert_sorted(before: Seq<String>, p: int, x: String)
    requires
        names_sorted(before),
        0 <= p <= before.len(),
        forall|k: int| 0 <= k < p ==> !crate::metrics::lex_lt(x@, #[trigger] before[k]@),
        p < before.len() ==> crate::metrics::lex_lt(x@, before[p]@),
    ensures
        names_sorted(before.insert(p, x)),
{
    let out = before.insert(p, x);
    before.insert_ensures(p, x);
    assert forall|a: int, b: int| 0 <= a < b < out.len() implies !crate::metrics::lex_lt(
        #[trigger] out[b]@,
        #[trigger] out[a]@,
    ) by {
        if b == p {
            assert(out[a] == before[a]);
        } else if a == p {
            assert(out[b] == before[b - 1]);
            crate::metrics::lemma_lex_total(x@, before[p]@);
            if b - 1 > p {
                assert(!crate::metrics::lex_lt(before[b - 1]@, before[p]@));
                crate::metrics::lemma_lex_total(before[b - 1]@, before[p]@);
                if crate::metrics::lex_lt(before[b - 1]@, x@) {
                    if before[b - 1]@ != before[p]@ {
                        crate::metrics::lemma_lex_trans(before[p]@, before[b - 1]@, x@);
                    }
                }
            } else {
                crate::metrics::lemma_lex_total(before[p]@, x@);
            }
        } else if a < p && b > p {
            assert(out[a] == before[a]);
            assert(out[b] == before[b - 1]);
        } else if a > p {
            assert(out[a] == before[a - 1]);
            assert(out[b] == before[b - 1]);
        } else {
            assert(out[a] == before[a]);
            assert(out[b] == before[b]);
        }
    }
}

/// Inserting a name adds it once to the names.
proof fn lemma_insert_multiset(before: Seq<String>, p: int, x: String)
    requires
        0 <= p <= before.len(),
    ensures
        before.insert(p, x).to_multiset() == before.to_multiset().insert(x),
{
    let out = before.insert(p, x);
    before.insert_ensures(p, x);
    out.to_multiset_ensures();
    assert(out.remove(p) =~= before);
    assert(out[p] == x);
    assert(out.remove(p).to_multiset() =~= out.to_multiset().remove(x));
    assert(out.contains(x));
    assert(out.to_multiset().count(x) > 0);
    assert(out.to_multiset() =~= before.to_multiset().insert(x));
}

/// Popping the last name removes it once from the names.
proof fn lemma_push_multiset(rest: Seq<String>, x: String)
    ensures
        rest.push(x).to_multiset() == rest.to_multiset().insert(x),
{
    rest.to_multiset_ensures();
}

/// The names in the order of strings, as the file preview lists them
/// (`sort` on strings): the same names, each as often, in order.
pub fn sort_names(names: Vec<String>) -> (r: Vec<String>)
    ensures
        names_sorted(r@),
        r@.to_multiset() == names@.to_multiset(),
{
    let mut out: Vec<String> = Vec::new();
    let mut rest = names;
    let ghost orig = rest@;
    assert(out@.to_multiset() =~= vstd::multiset::Multiset::<String>::empty()) by {
        out@.to_multiset_ensures();
    }
    assert(out@.to_multiset().add(rest@.to_multiset()) =~= orig.to_multiset());
    while rest.len() > 0
        invariant
            names_sorted(out@),
            out@.to_multiset().add(rest@.to_multiset()) == orig.to_multiset(),
        decreases rest@.len(),
    {
        let ghost before_rest = rest@;
        let x = rest.pop().unwrap();
        proof {
            assert(before_rest =~= rest@.push(x));
            lemma_push_multiset(rest@, x);
        }
        let xv = crate::text::chars_of(x.as_str());
        let mut p: usize = 0;
        while p < out.len() && !crate::metrics::lex_less(
            &xv,
            &crate::text::chars_of(out[p].as_str()),
        )
            invariant
                p <= out@.len(),
                xv@ == x@,
                forall|k: int| 0 <= k < p ==> !crate::metrics::lex_lt(x@, #[trigger] out@[k]@),
            decreases out@.len() - p,
        {
            p = p + 1;
        }
        let ghost before = out@;
        proof {
            lemma_insert_sorted(before, p as int, x);
            lemma_insert_multiset(before, p as int, x);
        }
        out.insert(p, x);
        assert(out@ =~= before.insert(p as int, x));
        assert(out@.to_multiset().add(rest@.to_multiset()) =~= orig.to_multiset());
    }
    assert(rest@ =~= Seq::<String>::empty());
    assert(rest@.to_multiset() =~= vstd::multiset::Multiset::<String>::empty()) by {
        rest@.to_multiset_ensures();
    }
    assert(out@.to_multiset().add(rest@.to_multiset()) =~= out@.to_multiset());
    out
}

} // verus!

verus! {

/// The text of an input field before a byte offset of its encoding.
pub open spec fn text_before(t: Seq<char>, i: int) -> Seq<char> {
    decode_utf8(encode_utf8(t).take(i))
}

/// The text of an input field from a byte offset of its encoding on.
pub open spec fn text_from(t: Seq<char>, i: int) -> Seq<char> {
    decode_utf8(encode_utf8(t).skip(i))
}

/// The highlighted piece at the cursor of an input field: the byte at the
/// cursor when there is one; else a space when the field has the focus, and
/// nothing when it has not.
pub open spec fn cursor_piece(t: Seq<char>, i: int, focused: bool) -> Seq<char> {
    if i < byte_len(t) {
        decode_utf8(encode_utf8(t).subrange(i, i + 1))
    } else if focused {
        " "@
    } else {
        ""@
    }
}

/// A text is empty exactly when its encoding is.
proof fn lemma_encode_empty(t: Seq<char>)
    ensures
        (encode_utf8(t).len() == 0) == (t.len() == 0),
{
    if t.len() > 0 {
        lemma_char_bytes(t[0]);
        assert(encode_utf8(t) == vstd::utf8::encode_scalar(t[0] as u32) + encode_utf8(
            t.drop_first(),
        ));
    }
}

/// The three pieces in which an input field is drawn: the text before the
/// cursor, the highlighted piece at the cursor, and the text from the cursor
/// on. The cursor is a byte offset; it must lie on a character boundary, and
/// so must the byte after it when there is one (the slices panic otherwise).
pub fn input_pieces<'a>(text: &'a str, cursor: usize, focused: bool) -> (r: (
    &'a str,
    &'a str,
    &'a str,
))
    requires
        at_boundary(text@, cursor as int),
        cursor < byte_len(text@) ==> at_boundary(text@, cursor + 1),
    ensures
        r.0@ == text_before(text@, cursor as int),
        r.1@ == cursor_piece(text@, cursor as int, focused),
        r.2@ == text_from(text@, cursor as int),
{
    let ghost b = encode_utf8(text@);
    proof {
        vstd::utf8::encode_utf8_valid_utf8(text@);
        vstd::utf8::valid_utf8_split(b, cursor as int);
    }
    let (before, after) = text.split_at(cursor);
    proof {
        vstd::utf8::encode_utf8_decode_utf8(before@);
        vstd::utf8::encode_utf8_decode_utf8(after@);
        assert(b.take(cursor as int) =~= b.subrange(0, cursor as int));
        assert(b.skip(cursor as int) =~= b.subrange(cursor as int, b.len() as int));
        lemma_encode_empty(after@);
    }
    let at = if !after.is_empty() {
        let ghost ab = encode_utf8(after@);
        proof {
            vstd::utf8::encode_utf8_valid_utf8(after@);
            if ab.len() > 1 {
                vstd::utf8::is_char_boundary_iff_not_is_continuation_byte(b, cursor + 1);
                vstd::utf8::is_char_boundary_iff_not_is_continuation_byte(ab, 1);
                assert(ab[1] == b[cursor + 1]);
            } else {
                vstd::utf8::is_char_boundary_start_end_of_seq(ab);
            }
        }
        let (m, _rest) = after.split_at(1);
        proof {
            vstd::utf8::encode_utf8_decode_utf8(m@);
            assert(ab.subrange(0, 1) =~= b.subrange(cursor as int, cursor + 1));
        }
        m
    } else if focused {
        proof {
            reveal_strlit(" ");
        }
        " "
    } else {
        proof {
            reveal_strlit("");
        }
        ""
    };
    (before, at, after)
}

} // verus!
