//! The grammar shared by project names and script names.

use vstd::prelude::*;

verus! {

/// The largest number of characters a name may have.
pub const MAX_NAME_LEN: usize = 20;

/// Why a string is not a name.
#[derive(Clone, Copy, Debug, PartialEq, Eq, Structural)]
pub enum NameError {
    /// Nothing is left of the string once white space is trimmed.
    EmptyName,
    /// The string has more than [`MAX_NAME_LEN`] characters.
    TooLong,
    /// The string holds one of `/ ( ) " ' < > \ { }`.
    ForbiddenCharacter,
}

/// Whether `c` is one of the characters no name may hold.
pub open spec fn is_forbidden(c: char) -> bool {
    c == '/' || c == '(' || c == ')' || c == '"' || c == '\'' || c == '<' || c == '>' || c == '\\'
        || c == '{' || c == '}'
}

/// Whether some character of `s` is forbidden.
pub open spec fn has_forbidden(s: Seq<char>) -> bool {
    exists|i: int| 0 <= i < s.len() && is_forbidden(#[trigger] s[i])
}

/// The first rule that `s` breaks, if it breaks one. Length and forbidden
/// characters are judged on the string as given; only emptiness looks at what
/// trimming would leave.
pub open spec fn name_defect(s: Seq<char>) -> Option<NameError> {
    if crate::text::is_blank(s) {
        Some(NameError::EmptyName)
    } else if s.len() > MAX_NAME_LEN {
        Some(NameError::TooLong)
    } else if has_forbidden(s) {
        Some(NameError::ForbiddenCharacter)
    } else {
        None
    }
}

/// Whether `s` is a name: not blank, at most [`MAX_NAME_LEN`] characters, and
/// free of forbidden characters.
pub open spec fn is_name(s: Seq<char>) -> bool {
    &&& !crate::text::is_blank(s)
    &&& s.len() <= MAX_NAME_LEN
    &&& !has_forbidden(s)
}

/// A string is a name exactly when it breaks no rule, and the rule that it
/// breaks first is told by trying emptiness, then length, then the characters.
pub proof fn lemma_name_defect(s: Seq<char>)
    ensures
        name_defect(s) is None <==> is_name(s),
        name_defect(s) == Some(NameError::EmptyName) <==> crate::text::is_blank(s),
        name_defect(s) == Some(NameError::TooLong) <==> !crate::text::is_blank(s) && s.len()
            > MAX_NAME_LEN,
        name_defect(s) == Some(NameError::ForbiddenCharacter) <==> !crate::text::is_blank(s)
            && s.len() <= MAX_NAME_LEN && has_forbidden(s),
{
}

/// Executable form of [`is_forbidden`].
pub fn char_is_forbidden(c: char) -> (r: bool)
    ensures
        r == is_forbidden(c),
{
    c == '/' || c == '(' || c == ')' || c == '"' || c == '\'' || c == '<' || c == '>' || c == '\\'
        || c == '{' || c == '}'
}

/// Executable form of [`has_forbidden`].
pub fn str_has_forbidden(s: &str) -> (r: bool)
    ensures
        r == has_forbidden(s@),
{
    let mut found = false;
    for c in it: s.chars()
        invariant
            it.seq() == s@,
            found == (exists|j: int| 0 <= j < it.index() && is_forbidden(#[trigger] s@[j])),
    {
        found = found || char_is_forbidden(c);
    }
    found
}

/// Executable form of [`name_defect`].
pub fn find_name_defect(s: &str) -> (r: Option<NameError>)
    ensures
        r == name_defect(s@),
        r is None <==> is_name(s@),
{
    if crate::text::str_is_blank(s) {
        Some(NameError::EmptyName)
    } else if s.unicode_len() > MAX_NAME_LEN {
        Some(NameError::TooLong)
    } else if str_has_forbidden(s) {
        Some(NameError::ForbiddenCharacter)
    } else {
        None
    }
}

} // verus!
