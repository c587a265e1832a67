//! AMQP naming rules: which strings may stand as an exchange or queue name,
//! and which as a routing key.

use vstd::prelude::*;
use vstd::utf8::encode_utf8;

verus! {

/// An exchange or queue name may hold ASCII letters, digits, `-`, `_`, `.`
/// and `:`, and nothing else.
pub open spec fn allowed_name_char(c: char) -> bool {
    let u = c as u32;
    ||| ('0' as u32) <= u && u <= ('9' as u32)
    ||| ('A' as u32) <= u && u <= ('Z' as u32)
    ||| ('a' as u32) <= u && u <= ('z' as u32)
    ||| c == '-'
    ||| c == '_'
    ||| c == '.'
    ||| c == ':'
}

/// A compliant name is shorter than 128 characters and holds only allowed
/// characters.
pub open spec fn name_compliant(s: Seq<char>) -> bool {
    &&& s.len() < 128
    &&& forall|i: int| 0 <= i < s.len() ==> allowed_name_char(#[trigger] s[i])
}

/// A compliant routing key encodes to fewer than 256 bytes.
pub open spec fn routing_key_compliant(s: Seq<char>) -> bool {
    encode_utf8(s).len() < 256
}

fn is_allowed_name_char(c: char) -> (r: bool)
    ensures
        r == allowed_name_char(c),
{
    let u = c as u32;
    (('0' as u32) <= u && u <= ('9' as u32)) || (('A' as u32) <= u && u <= ('Z' as u32)) || (('a'
        as u32) <= u && u <= ('z' as u32)) || c == '-' || c == '_' || c == '.' || c == ':'
}

/// Whether `name` is valid as an AMQP exchange or queue name (to publish on).
pub fn is_name_compliant(name: &str) -> (r: bool)
    ensures
        r == name_compliant(name@),
{
    let len = name.unicode_len();
    if len >= 128 {
        return false;
    }
    let mut i: usize = 0;
    while i < len
        invariant
            len == name@.len(),
            len < 128,
            i <= len,
            forall|j: int| 0 <= j < i ==> allowed_name_char(#[trigger] name@[j]),
        decreases len - i,
    {
        let c = name.get_char(i);
        if !is_allowed_name_char(c) {
            return false;
        }
        i = i + 1;
    }
    true
}

/// Whether `key` is valid as an AMQP routing key.
pub fn is_routing_key_compliant(key: &str) -> (r: bool)
    ensures
        r == routing_key_compliant(key@),
{
    let bytes = key.as_bytes();
    bytes.len() < 256
}

} // verus!
