//! Conversion of a code-point cursor into a UTF-8 byte offset.

use vstd::prelude::*;
use vstd::string::*;
use vstd::utf8::*;

verus! {

/// Number of bytes in the UTF-8 encoding of `c`.
pub open spec fn char_width(c: char) -> nat {
    let v = c as u32;
    if v <= 0x7F {
        1
    } else if v <= 0x7FF {
        2
    } else if v <= 0xFFFF {
        3
    } else {
        4
    }
}

/// Byte offset of the code point at `cursor` in the UTF-8 encoding of `s`.
pub open spec fn byte_offset_of(s: Seq<char>, cursor: int) -> nat {
    encode_utf8(s.take(cursor)).len()
}

proof fn lemma_encode_scalar_len(c: char)
    ensures
        encode_scalar(c as u32).len() == char_width(c),
{
}

proof fn lemma_encode_concat(a: Seq<char>, b: Seq<char>)
    ensures
        encode_utf8(a + b) == encode_utf8(a) + encode_utf8(b),
    decreases a.len(),
{
    if a.len() == 0 {
        assert(a + b =~= b);
        assert(encode_utf8(a) =~= Seq::<u8>::empty());
        assert(encode_utf8(a) + encode_utf8(b) =~= encode_utf8(b));
    } else {
        assert((a + b).drop_first() =~= a.drop_first() + b);
        lemma_encode_concat(a.drop_first(), b);
        assert((a + b)[0] == a[0]);
        assert(encode_utf8(a + b) =~= encode_scalar(a[0] as u32) + (encode_utf8(a.drop_first())
            + encode_utf8(b)));
    }
}

/// The offset of the next code point adds the width of the code point at `i`.
proof fn lemma_offset_step(s: Seq<char>, i: int)
    requires
        0 <= i < s.len(),
    ensures
        byte_offset_of(s, i + 1) == byte_offset_of(s, i) + char_width(s[i]),
{
    assert(s.take(i + 1) =~= s.take(i) + seq![s[i]]);
    lemma_encode_concat(s.take(i), seq![s[i]]);
    assert(seq![s[i]].drop_first() =~= Seq::<char>::empty());
    assert(encode_utf8(Seq::<char>::empty()) =~= Seq::<u8>::empty());
    assert(encode_utf8(seq![s[i]]) =~= encode_scalar(s[i] as u32));
    lemma_encode_scalar_len(s[i]);
}

/// The byte offset never decreases as the cursor moves right, and the offset of
/// the end of the string is the string's byte length.
pub proof fn lemma_offset_monotonic(s: Seq<char>, a: int, b: int)
    requires
        0 <= a <= b <= s.len(),
    ensures
        byte_offset_of(s, a) <= byte_offset_of(s, b),
        byte_offset_of(s, s.len() as int) == encode_utf8(s).len(),
    decreases b - a,
{
    assert(s.take(s.len() as int) =~= s);
    if a < b {
        lemma_offset_step(s, b - 1);
        lemma_offset_monotonic(s, a, b - 1);
    }
}

fn width_of(c: char) -> (w: usize)
    ensures
        w == char_width(c),
{
    let v = c as u32;
    if v <= 0x7F {
        1
    } else if v <= 0x7FF {
        2
    } else if v <= 0xFFFF {
        3
    } else {
        4
    }
}

/// Returns the byte offset, within the UTF-8 encoding of `text`, of the code
/// point at index `cursor`: 0 for the start, the byte length for the end.
pub fn byte_offset(text: &str, cursor: usize) -> (r: usize)
    requires
        cursor <= text@.len(),
    ensures
        r == byte_offset_of(text@, cursor as int),
        cursor == text@.len() ==> r == text.spec_bytes().len(),
{
    let total = text.as_bytes().len();
    let mut i: usize = 0;
    let mut offset: usize = 0;
    proof {
        lemma_offset_monotonic(text@, 0, text@.len() as int);
        assert(text@.take(0) =~= Seq::<char>::empty());
        assert(encode_utf8(Seq::<char>::empty()) =~= Seq::<u8>::empty());
    }
    while i < cursor
        invariant
            i <= cursor <= text@.len(),
            total == encode_utf8(text@).len(),
            offset == byte_offset_of(text@, i as int),
        decreases cursor - i,
    {
        let c = text.get_char(i);
        proof {
            lemma_offset_step(text@, i as int);
            lemma_offset_monotonic(text@, i + 1, text@.len() as int);
        }
        offset = offset + width_of(c);
        i = i + 1;
    }
    proof {
        lemma_offset_monotonic(text@, cursor as int, text@.len() as int);
    }
    offset
}

} // verus!
