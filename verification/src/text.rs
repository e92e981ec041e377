use vstd::prelude::*;
use vstd::std_specs::iter::IteratorSpec;
use vstd::utf8::{char_is_scalar, encode_scalar, encode_utf8};

verus! {

/// The length in bytes of the UTF-8 encoding of `s`.
pub open spec fn utf8_len(s: Seq<char>) -> nat {
    encode_utf8(s).len()
}

/// The number of bytes that `c` takes in UTF-8.
pub fn utf8_width(c: char) -> (w: usize)
    ensures
        w == encode_scalar(c as u32).len(),
        1 <= w <= 4,
{
    proof {
        char_is_scalar(c);
    }
    let v: u32 = c as u32;
    if v <= 0x7F {
        1
    } else if v <= 0x7FF {
        2
    } else if v <= 0xFFFF {
        3
    } else {
        4
    }
}

/// The length in bytes of `s`, counted no further than one past `limit`:
/// the length itself when it is at most `limit`, else `limit + 1`.
pub fn utf8_len_up_to(s: &str, limit: usize) -> (n: usize)
    requires
        limit < usize::MAX - 4,
    ensures
        n == if utf8_len(s@) <= limit {
            utf8_len(s@)
        } else {
            (limit + 1) as nat
        },
{
    let mut chars = s.chars();
    let mut count: usize = 0;
    loop
        invariant
            limit < usize::MAX - 4,
            count <= limit,
            count + utf8_len(chars.remaining()) == utf8_len(s@),
            chars.decrease() is Some,
        decreases chars.decrease()->0,
    {
        let ghost before = chars.remaining();
        match chars.next() {
            None => {
                assert(utf8_len(chars.remaining()) == 0);
                return count;
            },
            Some(c) => {
                assert(encode_utf8(before) == encode_scalar(before[0] as u32) + encode_utf8(
                    before.drop_first(),
                ));
                count = count + utf8_width(c);
                if count > limit {
                    return limit + 1;
                }
            },
        }
    }
}

} // verus!
