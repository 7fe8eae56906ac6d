//! Identifier style checks, relied upon for the non-blocking style warning on
//! function names.

use vstd::prelude::*;

verus! {

/// Whether a character counts as uppercase. Names the result of
/// `char::is_uppercase` from std, whose Unicode table is not restated here;
/// it depends on the character alone.
pub uninterp spec fn upper_char(c: char) -> bool;

/// `s` with its leading underscores removed.
pub open spec fn trim_leading_underscores(s: Seq<char>) -> Seq<char>
    decreases s.len(),
{
    if s.len() > 0 && s[0] == '_' {
        trim_leading_underscores(s.drop_first())
    } else {
        s
    }
}

/// Two underscores stand next to each other somewhere in `s`.
pub open spec fn has_double_underscore(s: Seq<char>) -> bool {
    exists|i: int| 0 <= i && i + 1 < s.len() && (#[trigger] s[i]) == '_' && s[i + 1] == '_'
}

/// A name is snake_case when, past any leading underscores, it holds no
/// double underscore and no uppercase character.
pub open spec fn is_snake_case_spec(s: Seq<char>) -> bool {
    let t = trim_leading_underscores(s);
    !has_double_underscore(t) && (forall|i: int| 0 <= i < t.len() ==> !upper_char(#[trigger] t[i]))
}

/// Relies on `sway_types::style::is_snake_case`: it trims leading
/// underscores, then rejects the name iff it still contains `"__"` or an
/// uppercase character.
#[verifier::external_body]
pub fn is_snake_case(name: &str) -> (r: bool)
    ensures
        r == is_snake_case_spec(name@),
        r == (!has_double_underscore(trim_leading_underscores(name@)) && (forall|i: int|
            0 <= i < trim_leading_underscores(name@).len() ==> !upper_char(
                #[trigger] trim_leading_underscores(name@)[i],
            ))),
{
    sway_types::style::is_snake_case(name)
}

} // verus!
