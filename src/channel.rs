//! Names of the private channels between the host and the emulated machine.
use vstd::prelude::*;

verus! {

/// The longest channel name accepted.
pub const MAX_CHANNEL_NAME_LEN: usize = 64;

/// A character allowed in a channel name: ASCII letters and digits, `_`, `-` and `.`.
pub open spec fn is_channel_char(c: char) -> bool {
    ('a' <= c && c <= 'z') || ('A' <= c && c <= 'Z') || ('0' <= c && c <= '9') || c == '_'
        || c == '-' || c == '.'
}

/// A channel name is 1 to 64 characters, each of them allowed.
pub open spec fn is_valid_channel_name(s: Seq<char>) -> bool {
    &&& 1 <= s.len() <= MAX_CHANNEL_NAME_LEN
    &&& forall|i: int| 0 <= i < s.len() ==> #[trigger] is_channel_char(s[i])
}

/// Whether `c` may appear in a channel name.
pub fn channel_char_allowed(c: char) -> (r: bool)
    ensures
        r == is_channel_char(c),
{
    ('a' <= c && c <= 'z') || ('A' <= c && c <= 'Z') || ('0' <= c && c <= '9') || c == '_'
        || c == '-' || c == '.'
}

/// Whether `name` is an acceptable channel name.
pub fn valid_channel_name(name: &str) -> (r: bool)
    ensures
        r == is_valid_channel_name(name@),
{
    let len = name.unicode_len();
    if len == 0 || len > MAX_CHANNEL_NAME_LEN {
        return false;
    }
    let mut i: usize = 0;
    while i < len
        invariant
            len == name@.len(),
            i <= len,
            forall|j: int| 0 <= j < i ==> #[trigger] is_channel_char(name@[j]),
        decreases len - i,
    {
        if !channel_char_allowed(name.get_char(i)) {
            return false;
        }
        i = i + 1;
    }
    true
}

} // verus!
