//! Blank text: what is left of it once leading and trailing whitespace is
//! trimmed is empty.

use vstd::prelude::*;
use vstd::std_specs::iter::IteratorSpec;

verus! {

/// The code points that Unicode marks as `White_Space`.
pub open spec fn is_whitespace(c: char) -> bool {
    let n = c as u32;
    ||| 0x09 <= n <= 0x0D
    ||| n == 0x20
    ||| n == 0x85
    ||| n == 0xA0
    ||| n == 0x1680
    ||| 0x2000 <= n <= 0x200A
    ||| n == 0x2028
    ||| n == 0x2029
    ||| n == 0x202F
    ||| n == 0x205F
    ||| n == 0x3000
}

/// A text is blank when every character of it is whitespace, so that
/// trimming leaves nothing. The empty text is blank.
pub open spec fn is_blank(s: Seq<char>) -> bool {
    forall|i: int| 0 <= i < s.len() ==> is_whitespace(#[trigger] s[i])
}

/// Tells whether `c` is whitespace.
pub fn char_is_whitespace(c: char) -> (r: bool)
    ensures
        r == is_whitespace(c),
{
    let n: u32 = c as u32;
    (0x09 <= n && n <= 0x0D) || n == 0x20 || n == 0x85 || n == 0xA0 || n == 0x1680 || (0x2000 <= n
        && n <= 0x200A) || n == 0x2028 || n == 0x2029 || n == 0x202F || n == 0x205F || n == 0x3000
}

/// Tells whether `s` is blank.
pub fn text_is_blank(s: &str) -> (r: bool)
    ensures
        r == is_blank(s@),
{
    let mut chars = s.chars();
    let ghost mut seen: int = 0;
    loop
        invariant
            0 <= seen <= s@.len(),
            chars.remaining() == s@.skip(seen),
            forall|i: int| 0 <= i < seen ==> is_whitespace(#[trigger] s@[i]),
        decreases s@.len() - seen,
    {
        match chars.next() {
            None => {
                return true;
            },
            Some(c) => {
                if !char_is_whitespace(c) {
                    return false;
                }
                proof {
                    seen = seen + 1;
                }
            },
        }
    }
}

} // verus!
