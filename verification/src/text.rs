//! Lists of characters to fill a font's glyph cache with.
use vstd::prelude::*;

verus! {

/// The characters with the codes 0 to 254.
pub open spec fn ascii_chars() -> Seq<char> {
    Seq::new(255, |i: int| (i as u8) as char)
}

/// The characters with the codes 0 to 254, in order.
pub fn ascii_character_list() -> (r: Vec<char>)
    ensures
        r@ == ascii_chars(),
{
    let mut r: Vec<char> = Vec::new();
    let mut i: u8 = 0;
    while i < 255
        invariant
            r@ == ascii_chars().take(i as int),
        decreases 255 - i,
    {
        r.push(i as char);
        proof {
            assert(ascii_chars().take(i + 1) =~= ascii_chars().take(i as int).push((i as u8) as char));
        }
        i = i + 1;
    }
    proof {
        assert(ascii_chars().take(255) =~= ascii_chars());
    }
    r
}

/// Latin letters, digits and common punctuation, in keyboard order.
pub fn latin_character_list() -> (r: Vec<char>)
    ensures
        r@ == "qwertyuiopasdfghjklzxcvbnmQWERTYUIOPASDFGHJKLZXCVBNM1234567890!@#$%^&*(){}[].,:"@,
{
    let s = "qwertyuiopasdfghjklzxcvbnmQWERTYUIOPASDFGHJKLZXCVBNM1234567890!@#$%^&*(){}[].,:";
    let n = s.unicode_len();
    let mut r: Vec<char> = Vec::new();
    let mut i: usize = 0;
    while i < n
        invariant
            i <= n,
            n == s@.len(),
            r@ == s@.take(i as int),
        decreases n - i,
    {
        r.push(s.get_char(i));
        proof {
            assert(s@.take(i + 1) =~= s@.take(i as int).push(s@[i as int]));
        }
        i = i + 1;
    }
    proof {
        assert(s@.take(n as int) =~= s@);
    }
    r
}

} // verus!
