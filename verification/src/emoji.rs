//! Classification of a reaction's literal emoji text.
//!
//! The policy acts only on flag emoji. A flag emoji is composed of exactly
//! two consecutive Unicode regional indicator symbols (the code points
//! U+1F1E6 through U+1F1FF); any other shape, shorter or longer, is not a
//! flag.

use vstd::prelude::*;

verus! {

/// A regional indicator symbol: one of the 26 code points from which
/// two-letter country-flag emoji are composed.
pub open spec fn is_regional_indicator(c: char) -> bool {
    0x1F1E6 <= c as u32 <= 0x1F1FF
}

/// The flag pattern: a whole string of exactly two regional indicator
/// symbols, nothing before and nothing after.
pub open spec fn spec_is_flag_emoji(s: Seq<char>) -> bool {
    s.len() == 2 && is_regional_indicator(s[0]) && is_regional_indicator(s[1])
}

fn char_is_regional_indicator(c: char) -> (r: bool)
    ensures
        r == is_regional_indicator(c),
{
    let u = c as u32;
    0x1F1E6 <= u && u <= 0x1F1FF
}

/// Decides whether a literal emoji string is a flag emoji.
pub fn is_flag_emoji(s: &str) -> (r: bool)
    ensures
        r == spec_is_flag_emoji(s@),
{
    let n = s.unicode_len();
    if n != 2 {
        return false;
    }
    let c0 = s.get_char(0);
    let c1 = s.get_char(1);
    char_is_regional_indicator(c0) && char_is_regional_indicator(c1)
}

} // verus!
