//! Checks on strings: equality by content, and whether a string can be
//! handed to C.
use vstd::prelude::*;
use vstd::utf8::{
    encode_scalar, has_width_1_encoding, has_width_2_encoding, has_width_3_encoding,
    last_continuation_byte, leading_byte_width_1, leading_byte_width_2, leading_byte_width_3,
    leading_byte_width_4, second_last_continuation_byte, third_last_continuation_byte,
};

verus! {

/// Compares two strings character for character.
pub fn str_eq(a: &str, b: &str) -> (eq: bool)
    ensures
        eq == (a@ == b@),
{
    let ab = a.as_bytes();
    let bb = b.as_bytes();
    proof {
        vstd::utf8::encode_utf8_decode_utf8(a@);
        vstd::utf8::encode_utf8_decode_utf8(b@);
    }
    if ab.len() != bb.len() {
        assert(ab@ != bb@);
        return false;
    }
    let n = ab.len();
    let mut i: usize = 0;
    while i < n
        invariant
            n == ab@.len(),
            n == bb@.len(),
            ab@ == utf8_bytes(a@),
            bb@ == utf8_bytes(b@),
            i <= n,
            forall|j: int| 0 <= j < i ==> ab@[j] == bb@[j],
        decreases n - i,
    {
        if ab[i] != bb[i] {
            assert(ab@[i as int] != bb@[i as int]);
            return false;
        }
        i = i + 1;
    }
    assert(ab@ =~= bb@);
    true
}

/// The bytes of a string's UTF-8 encoding.
pub open spec fn utf8_bytes(s: Seq<char>) -> Seq<u8> {
    vstd::utf8::encode_utf8(s)
}

/// Whether the string's UTF-8 encoding holds a zero byte, which a C string
/// cannot carry.
pub fn has_nul_byte(s: &str) -> (found: bool)
    ensures
        found == utf8_bytes(s@).contains(0u8),
{
    let bytes = s.as_bytes();
    let n = bytes.len();
    let mut i: usize = 0;
    while i < n
        invariant
            n == bytes@.len(),
            bytes@ == utf8_bytes(s@),
            i <= n,
            forall|j: int| 0 <= j < i ==> bytes@[j] != 0u8,
        decreases n - i,
    {
        if bytes[i] == 0 {
            assert(bytes@[i as int] == 0u8);
            return true;
        }
        i = i + 1;
    }
    false
}

/// The UTF-8 encoding of a scalar other than 0 holds no zero byte.
proof fn lemma_scalar_encoding_has_no_zero(c: u32)
    requires
        vstd::utf8::is_scalar(c),
        c != 0,
    ensures
        !encode_scalar(c).contains(0u8),
{
    if has_width_1_encoding(c) {
        assert(leading_byte_width_1(c) != 0) by (bit_vector)
            requires
                0 < c <= 0x7F,
        ;
        assert(encode_scalar(c) =~= seq![leading_byte_width_1(c)]);
    } else {
        assert(forall|x: u8| #![auto] (0xC0u8 | x) != 0 && (0xE0u8 | x) != 0 && (0xF0u8 | x) != 0
            && (0x80u8 | x) != 0) by (bit_vector);
        let e = encode_scalar(c);
        assert forall|j: int| 0 <= j < e.len() implies e[j] != 0u8 by {
            if has_width_2_encoding(c) {
                assert(e =~= seq![leading_byte_width_2(c), last_continuation_byte(c)]);
            } else if has_width_3_encoding(c) {
                assert(e =~= seq![
                    leading_byte_width_3(c),
                    second_last_continuation_byte(c),
                    last_continuation_byte(c),
                ]);
            } else {
                assert(e =~= seq![
                    leading_byte_width_4(c),
                    third_last_continuation_byte(c),
                    second_last_continuation_byte(c),
                    last_continuation_byte(c),
                ]);
            }
        }
    }
}

/// A string without the NUL character has no zero byte in its UTF-8
/// encoding, so it can be handed to C.
pub proof fn lemma_no_nul_char_no_nul_byte(s: Seq<char>)
    requires
        !s.contains('\0'),
    ensures
        !utf8_bytes(s).contains(0u8),
    decreases s.len(),
{
    if s.len() > 0 {
        let c = s[0] as u32;
        vstd::utf8::char_is_scalar(s[0]);
        assert(s[0] != '\0');
        assert(c != 0) by {
            if c == 0 {
                vstd::utf8::char_u32_cast(s[0], c);
                assert((0u32 as char) == '\0');
            }
        }
        lemma_scalar_encoding_has_no_zero(c);
        let rest = s.drop_first();
        assert(!rest.contains('\0')) by {
            if rest.contains('\0') {
                let j = choose|j: int| 0 <= j < rest.len() && rest[j] == '\0';
                assert(s[j + 1] == '\0');
            }
        }
        lemma_no_nul_char_no_nul_byte(rest);
        let a = encode_scalar(c);
        let b = utf8_bytes(rest);
        assert(utf8_bytes(s) == a + b);
        assert forall|j: int| 0 <= j < (a + b).len() implies (a + b)[j] != 0u8 by {
            if j < a.len() {
                assert(a[j] != 0u8);
            } else {
                assert(b[j - a.len()] != 0u8);
            }
        }
    }
}

} // verus!
