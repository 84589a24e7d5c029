use vstd::prelude::*;

use crate::failure::Failure;

verus! {

/// Whether a character is alphanumeric as `char::is_alphanumeric` decides
/// it: it has the Unicode Alphabetic property or a numeric general
/// category.
pub uninterp spec fn alphanumeric(c: char) -> bool;

/// An ASCII letter or digit.
pub open spec fn is_ascii_alphanumeric(c: char) -> bool {
    ||| ('a' <= c && c <= 'z')
    ||| ('A' <= c && c <= 'Z')
    ||| ('0' <= c && c <= '9')
}

/// Calls `char::is_alphanumeric`. The answer is named by `alphanumeric`;
/// of the ASCII characters, the Unicode tables that its documentation
/// refers to make exactly the letters and digits alphabetic or numeric.
#[verifier::external_body]
pub(crate) fn char_is_alphanumeric(c: char) -> (r: bool)
    ensures
        r == alphanumeric(c),
        (c as u32) < 128 ==> (r <==> is_ascii_alphanumeric(c)),
{
    c.is_alphanumeric()
}

/// A character that may appear in a context name: an alphanumeric
/// character, a hyphen or an underscore.
pub open spec fn is_name_char(c: char) -> bool {
    alphanumeric(c) || c == '-' || c == '_'
}

/// A name that can stand as one component of a path: not empty, and
/// without `/`.
pub open spec fn is_path_component(name: Seq<char>) -> bool {
    &&& name.len() > 0
    &&& forall|i: int| 0 <= i < name.len() ==> #[trigger] name[i] != '/'
}

/// A name that a context may be created under.
pub open spec fn is_valid_name(name: Seq<char>) -> bool {
    &&& name.len() > 0
    &&& forall|i: int| 0 <= i < name.len() ==> is_name_char(#[trigger] name[i])
}

pub open spec fn empty_name_message() -> Seq<char> {
    "context name cannot be empty"@
}

pub open spec fn invalid_name_message() -> Seq<char> {
    "context name must contain only alphanumeric characters, hyphens, and underscores"@
}

/// Whether a character may appear in a context name.
pub fn name_char_allowed(c: char) -> (r: bool)
    ensures
        r == is_name_char(c),
        r ==> c != '/',
        is_ascii_alphanumeric(c) ==> r,
{
    char_is_alphanumeric(c) || c == '-' || c == '_'
}

/// Checks a context name given on the command line and hands it back.
pub fn validate_name(name: &str) -> (r: Result<String, Failure>)
    ensures
        r is Ok <==> is_valid_name(name@),
        r matches Ok(s) ==> s@ == name@,
        r is Ok ==> is_path_component(name@),
        name@.len() > 0 && (forall|i: int|
            0 <= i < name@.len() ==> is_ascii_alphanumeric(#[trigger] name@[i]) || name@[i] == '-' || name@[i]
                == '_') ==> r is Ok,
        r matches Err(e) ==> e.message@ == (if name@.len() == 0 {
            empty_name_message()
        } else {
            invalid_name_message()
        }),
{
    let chars = crate::text::chars_of(name);
    if chars.len() == 0 {
        return Err(Failure::from_text("context name cannot be empty"));
    }
    let mut i: usize = 0;
    while i < chars.len()
        invariant
            i <= chars.len(),
            chars@ == name@,
            forall|j: int| 0 <= j < i ==> is_name_char(#[trigger] name@[j]),
            forall|j: int| 0 <= j < i ==> #[trigger] name@[j] != '/',
        decreases chars.len() - i,
    {
        if !name_char_allowed(chars[i]) {
            return Err(
                Failure::from_text(
                    "context name must contain only alphanumeric characters, hyphens, and underscores",
                ),
            );
        }
        i += 1;
    }
    Ok(name.to_owned())
}

/// Every alphanumeric character, a hyphen and an underscore may appear in
/// a context name, so a name is accepted exactly when it is not empty and
/// made of those; in particular every non-empty name of ASCII letters,
/// capitals among them, and digits is accepted and handed back unchanged.
pub proof fn law_alphanumeric_names_accepted(name: &str, r: Result<String, Failure>, c: char)
    requires
        call_ensures(validate_name, (name,), r),
    ensures
        alphanumeric(c) || c == '-' || c == '_' ==> is_name_char(c),
        (name@.len() > 0 && forall|i: int|
            0 <= i < name@.len() ==> alphanumeric(#[trigger] name@[i]) || name@[i] == '-' || name@[i] == '_')
            ==> (r is Ok && r->Ok_0@ == name@),
        (name@.len() > 0 && forall|i: int|
            0 <= i < name@.len() ==> is_ascii_alphanumeric(#[trigger] name@[i]) || name@[i] == '-' || name@[i]
                == '_') ==> (r is Ok && r->Ok_0@ == name@),
{
}

} // verus!
