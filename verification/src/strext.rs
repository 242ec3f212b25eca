//! Contracts assumed of a few std string and character operations that
//! vstd leaves unspecified.

use vstd::prelude::*;

verus! {

/// The uppercase equivalent of a character sequence, as std's Unicode
/// tables define it.  The result depends on the characters alone.
pub uninterp spec fn upper_of(s: Seq<char>) -> Seq<char>;

/// Whether std's Unicode tables class a character as whitespace.  The
/// result depends on the character alone.
pub uninterp spec fn is_unicode_space(c: char) -> bool;

/// Relies on String::push: appends the given character to the end of the
/// string.
pub assume_specification[ String::push ](s: &mut String, c: char)
    ensures
        final(s)@ == old(s)@.push(c),
;

/// Relies on str::to_uppercase: returns the uppercase equivalent of the
/// text, a pure function of its characters.
pub assume_specification[ str::to_uppercase ](s: &str) -> (r: String)
    ensures
        r@ == upper_of(s@),
        s@.len() == 0 ==> r@.len() == 0,
;

/// Relies on char::is_whitespace: tests the character against the Unicode
/// whitespace property, a pure function of the character.
pub assume_specification[ char::is_whitespace ](c: char) -> (r: bool)
    ensures
        r == is_unicode_space(c),
;

} // verus!
