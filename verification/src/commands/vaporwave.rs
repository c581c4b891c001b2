//! Vaporwave a phrase.

use crate::util::{
    chars_of,
    string_from_chars,
};
use vstd::prelude::*;

verus! {

/// `v` is a Unicode scalar value: not a surrogate, and at most `0x10FFFF`.
pub open spec fn is_scalar_value(v: u32) -> bool {
    v < 0xD800 || (0xE000 <= v && v <= 0x10FFFF)
}

/// The character with code point `v`, with `char::from_u32`: the contract
/// claims what its documentation says, the character for a scalar value and
/// none otherwise.
#[verifier::external_body]
fn char_from_u32(v: u32) -> (res: Option<char>)
    ensures
        is_scalar_value(v) ==> res == Some(v as char),
        !is_scalar_value(v) ==> res is None,
{
    char::from_u32(v)
}

/// The vaporwave form of a character: a printable Latin character (code
/// points 33 to 270) becomes its full-width form, 65248 code points higher;
/// any other character becomes a space.
pub open spec fn vaporwave_char(c: char) -> char {
    let v = c as u32;
    if 33 <= v && v <= 270 {
        ((v + 65248) as u32) as char
    } else {
        ' '
    }
}

/// Vaporwave a phrase, character by character.
pub fn vaporwave_str(data: &str) -> (res: String)
    ensures
        res@ == data@.map_values(|c: char| vaporwave_char(c)),
{
    let cs = chars_of(data);
    let mut out: Vec<char> = Vec::new();
    let mut i: usize = 0;
    while i < cs.len()
        invariant
            0 <= i <= cs.len(),
            cs@ == data@,
            out@ == data@.take(i as int).map_values(|c: char| vaporwave_char(c)),
        decreases cs.len() - i,
    {
        let v = cs[i] as u32;
        let mapped = if 33 <= v && v <= 270 {
            char_from_u32(v + 65248)
        } else {
            Some(' ')
        };
        match mapped {
            Some(c) => {
                out.push(c);
            },
            None => {},
        }
        assert(data@.take(i + 1).map_values(|c: char| vaporwave_char(c)) =~= data@.take(
            i as int,
        ).map_values(|c: char| vaporwave_char(c)).push(vaporwave_char(data@[i as int])));
        i = i + 1;
    }
    assert(data@.take(cs.len() as int) =~= data@);
    string_from_chars(&out)
}

} // verus!
