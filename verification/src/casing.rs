//! Upper and lower case.

use vstd::prelude::*;

use crate::text;

verus! {

/// Unicode's lower-case form of a text.
pub uninterp spec fn unicode_lowercase(s: Seq<char>) -> Seq<char>;

/// Unicode's upper-case form of a text.
pub uninterp spec fn unicode_uppercase(s: Seq<char>) -> Seq<char>;

/// The text with its ASCII capitals turned into small letters.
pub open spec fn ascii_lowercase(s: Seq<char>) -> Seq<char> {
    s.map_values(|c: char| text::ascii_lower(c))
}

/// The text with its small ASCII letters turned into capitals.
pub open spec fn ascii_uppercase(s: Seq<char>) -> Seq<char> {
    s.map_values(|c: char| text::ascii_upper(c))
}

/// The lower-case form: letter by letter in ASCII text, Unicode's elsewhere.
pub open spec fn lower_case(s: Seq<char>) -> Seq<char> {
    if text::all_ascii(s) {
        ascii_lowercase(s)
    } else {
        unicode_lowercase(s)
    }
}

/// The upper-case form: letter by letter in ASCII text, Unicode's elsewhere.
pub open spec fn upper_case(s: Seq<char>) -> Seq<char> {
    if text::all_ascii(s) {
        ascii_uppercase(s)
    } else {
        unicode_uppercase(s)
    }
}

/// `str::to_lowercase`: in ASCII text the letters are lowered one by one; of
/// other text the result is named.
pub assume_specification[ str::to_lowercase ](s: &str) -> (r: String)
    ensures
        text::all_ascii(s@) ==> r@ == ascii_lowercase(s@),
        !text::all_ascii(s@) ==> r@ == unicode_lowercase(s@),
;

/// `str::to_uppercase`: in ASCII text the letters are raised one by one; of
/// other text the result is named.
pub assume_specification[ str::to_uppercase ](s: &str) -> (r: String)
    ensures
        text::all_ascii(s@) ==> r@ == ascii_uppercase(s@),
        !text::all_ascii(s@) ==> r@ == unicode_uppercase(s@),
;

// ---------------------------------------------------------------------------
// Laws
// ---------------------------------------------------------------------------

/// In ASCII text the case of the letters changes and nothing else: each letter
/// by itself, in its place.
pub proof fn law_case_of_ascii_text(s: Seq<char>, i: int)
    requires
        text::all_ascii(s),
        0 <= i < s.len(),
    ensures
        lower_case(s).len() == s.len(),
        lower_case(s)[i] as u32 == (if 'A' <= s[i] <= 'Z' {
            s[i] as u32 + 32
        } else {
            s[i] as int
        }),
        upper_case(s).len() == s.len(),
        upper_case(s)[i] as u32 == (if 'a' <= s[i] <= 'z' {
            s[i] as u32 - 32
        } else {
            s[i] as int
        }),
{
}

/// Other text has the case that Unicode gives it.
pub proof fn law_case_of_other_text(s: Seq<char>)
    requires
        !text::all_ascii(s),
    ensures
        lower_case(s) == unicode_lowercase(s),
        upper_case(s) == unicode_uppercase(s),
{
}

} // verus!
