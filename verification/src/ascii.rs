//! Building strings from ASCII bytes.

use vstd::prelude::*;

verus! {

/// The characters of a sequence of ASCII bytes.
pub open spec fn ascii_chars(bytes: Seq<u8>) -> Seq<char> {
    bytes.map_values(|b: u8| b as char)
}

/// Appends the ASCII byte `b` to `s` as a character, through `String::push`. Claimed of
/// `String::push`: the character is appended at the end and nothing else changes.
#[verifier::external_body]
pub(crate) fn push_char(s: &mut String, b: u8)
    requires
        b < 0x80,
    ensures
        final(s)@ == old(s)@.push(b as char),
{
    s.push(b as char)
}

/// The string whose characters are the given ASCII bytes.
pub fn ascii_string(bytes: &Vec<u8>) -> (s: String)
    requires
        forall|i: int| 0 <= i < bytes.len() ==> bytes@[i] < 0x80,
    ensures
        s@ == ascii_chars(bytes@),
{
    let mut s = String::new();
    let mut i: usize = 0;
    while i < bytes.len()
        invariant
            i <= bytes.len(),
            forall|k: int| 0 <= k < bytes.len() ==> bytes@[k] < 0x80,
            s@ == ascii_chars(bytes@.subrange(0, i as int)),
        decreases bytes.len() - i,
    {
        push_char(&mut s, bytes[i]);
        i = i + 1;
        assert(ascii_chars(bytes@.subrange(0, i as int)) =~= ascii_chars(bytes@.subrange(0, (i - 1) as int)).push(
            bytes@[i - 1] as char,
        ));
    }
    assert(bytes@.subrange(0, bytes.len() as int) =~= bytes@);
    s
}

} // verus!
