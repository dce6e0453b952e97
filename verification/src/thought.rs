//! The size limit of thought records: content longer than the limit is cut
//! at a character boundary and marked as truncated.

use vstd::prelude::*;
use crate::text::{utf8_len, str_chars};

verus! {

broadcast use vstd::utf8::char_is_scalar;

/// Largest size of a thought's content, in bytes; records have size limits.
pub const MAX_THOUGHT_CONTENT_BYTES: usize = 32000;

/// The number of bytes of a character in UTF-8.
pub open spec fn char_width(c: char) -> nat {
    let v = c as u32;
    if v <= 0x7F {
        1
    } else if v <= 0x7FF {
        2
    } else if v <= 0xFFFF {
        3
    } else {
        4
    }
}

/// Appending a character adds its width to the UTF-8 length.
pub proof fn lemma_utf8_len_push(a: Seq<char>, c: char)
    ensures
        utf8_len(a.push(c)) == utf8_len(a) + char_width(c),
    decreases a.len(),
{
    let v = c as u32;
    assert(vstd::utf8::encode_scalar(v).len() == char_width(c));
    if a.len() == 0 {
        assert(a.push(c).drop_first() =~= Seq::<char>::empty());
        assert(vstd::utf8::encode_utf8(a.push(c)) == vstd::utf8::encode_scalar(v) + vstd::utf8::encode_utf8(
            Seq::<char>::empty(),
        ));
    } else {
        lemma_utf8_len_push(a.drop_first(), c);
        assert(a.push(c).drop_first() =~= a.drop_first().push(c));
        assert(a.push(c)[0] == a[0]);
    }
}

/// The content of a thought within the limit: unchanged when it fits;
/// otherwise its longest prefix that fits in `MAX_THOUGHT_CONTENT_BYTES`
/// bytes, followed by `...[truncated]`.
pub fn truncate_thought(content: &str) -> (r: String)
    ensures
        utf8_len(content@) <= MAX_THOUGHT_CONTENT_BYTES ==> r@ == content@,
        utf8_len(content@) > MAX_THOUGHT_CONTENT_BYTES ==> exists|k: int|
            0 <= k <= content@.len() && utf8_len(content@.take(k)) <= MAX_THOUGHT_CONTENT_BYTES && (k
                < content@.len() ==> utf8_len(content@.take(k + 1)) > MAX_THOUGHT_CONTENT_BYTES) && r@
                == content@.take(k) + "...[truncated]"@,
{
    let n = content.as_bytes().len();
    assert(n == utf8_len(content@));
    if n <= MAX_THOUGHT_CONTENT_BYTES {
        return String::from_str(content);
    }
    let chars = str_chars(content);
    let mut k: usize = 0;
    let mut total: usize = 0;
    assert(content@.take(0) =~= Seq::<char>::empty());
    assert(utf8_len(Seq::<char>::empty()) == 0);
    while k < chars.len()
        invariant
            k <= chars@.len(),
            chars@ == content@,
            total == utf8_len(content@.take(k as int)),
            total <= MAX_THOUGHT_CONTENT_BYTES,
        ensures
            k <= chars@.len(),
            total == utf8_len(content@.take(k as int)),
            total <= MAX_THOUGHT_CONTENT_BYTES,
            k < content@.len() ==> utf8_len(content@.take(k + 1)) > MAX_THOUGHT_CONTENT_BYTES,
        decreases chars.len() - k,
    {
        let c = chars[k];
        let w: usize = if (c as u32) <= 0x7F {
            1
        } else if (c as u32) <= 0x7FF {
            2
        } else if (c as u32) <= 0xFFFF {
            3
        } else {
            4
        };
        proof {
            lemma_utf8_len_push(content@.take(k as int), c);
            assert(content@.take(k + 1) =~= content@.take(k as int).push(c));
        }
        if total + w > MAX_THOUGHT_CONTENT_BYTES {
            break;
        }
        total = total + w;
        k = k + 1;
    }
    let mut out = String::from_str(content.substring_char(0, k));
    out.append("...[truncated]");
    proof {
        assert(content@.subrange(0, k as int) =~= content@.take(k as int));
    }
    out
}

} // verus!
