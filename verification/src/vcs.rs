use vstd::prelude::*;

use crate::failure::Failure;
use crate::text::{ascii_lowercase, is_ascii_text, lowercased, same_text, to_lowercase};

verus! {

/// The versioning code system that a context belongs to.
#[derive(Clone, Copy, Debug, PartialEq, Eq, Structural)]
pub enum Vcs {
    Github,
    Gitlab,
}

/// The name under which a VCS is shown and stored.
pub open spec fn vcs_name(vcs: Vcs) -> Seq<char> {
    match vcs {
        Vcs::Github => "github"@,
        Vcs::Gitlab => "gitlab"@,
    }
}

/// The message that refuses a text that names no VCS; `lowered` is the
/// text in lowercase.
pub open spec fn invalid_vcs_message(lowered: Seq<char>) -> Seq<char> {
    "invalid vcs: "@ + lowered + " (expected 'github' or 'gitlab')"@
}

/// What parsing a text that is already in lowercase gives.
pub open spec fn vcs_from_lowercase(lowered: Seq<char>) -> Option<Vcs> {
    if lowered == "github"@ {
        Some(Vcs::Github)
    } else if lowered == "gitlab"@ {
        Some(Vcs::Gitlab)
    } else {
        None
    }
}

/// The name under which a VCS is shown and stored reads back as that VCS,
/// and the two VCSs have different names.
pub proof fn law_vcs_name_reads_back(vcs: Vcs, other: Vcs)
    ensures
        vcs_from_lowercase(vcs_name(vcs)) == Some(vcs),
        vcs != other ==> vcs_name(vcs) != vcs_name(other),
{
    reveal_strlit("github");
    reveal_strlit("gitlab");
    assert("github"@[4] != "gitlab"@[4]);
}

impl Vcs {
    pub fn name(&self) -> (s: &'static str)
        ensures
            s@ == vcs_name(*self),
    {
        match self {
            Vcs::Github => "github",
            Vcs::Gitlab => "gitlab",
        }
    }

    /// The name of the VCS as an owned string.
    pub fn to_string(&self) -> (s: String)
        ensures
            s@ == vcs_name(*self),
    {
        self.name().to_owned()
    }

    /// Parses a text that has already been put in lowercase.
    pub fn from_lowercase(lowered: &str) -> (r: Result<Vcs, Failure>)
        ensures
            r is Ok <==> vcs_from_lowercase(lowered@) is Some,
            r matches Ok(v) ==> vcs_from_lowercase(lowered@) == Some(v),
            r matches Err(e) ==> e.message@ == invalid_vcs_message(lowered@),
    {
        if same_text(lowered, "github") {
            Ok(Vcs::Github)
        } else if same_text(lowered, "gitlab") {
            Ok(Vcs::Gitlab)
        } else {
            let mut message = "invalid vcs: ".to_owned();
            message.append(lowered);
            message.append(" (expected 'github' or 'gitlab')");
            Err(Failure::new(message))
        }
    }

    /// Parses the name of a VCS in any letter case.
    pub fn parse(text: &str) -> (r: Result<Vcs, Failure>)
        ensures
            r is Ok <==> vcs_from_lowercase(lowercased(text@)) is Some,
            r matches Ok(v) ==> vcs_from_lowercase(lowercased(text@)) == Some(v),
            r matches Err(e) ==> e.message@ == invalid_vcs_message(lowercased(text@)),
            is_ascii_text(text@) ==> (r is Ok <==> vcs_from_lowercase(ascii_lowercase(text@)) is Some),
            is_ascii_text(text@) ==> (r matches Ok(v) ==> vcs_from_lowercase(ascii_lowercase(text@)) == Some(v)),
    {
        let lowered = to_lowercase(text);
        Vcs::from_lowercase(lowered.as_str())
    }
}

impl std::str::FromStr for Vcs {
    type Err = Failure;

    fn from_str(text: &str) -> (r: Result<Vcs, Failure>)
        ensures
            r is Ok <==> vcs_from_lowercase(lowercased(text@)) is Some,
            r matches Ok(v) ==> vcs_from_lowercase(lowercased(text@)) == Some(v),
            r matches Err(e) ==> e.message@ == invalid_vcs_message(lowercased(text@)),
            is_ascii_text(text@) ==> (r is Ok <==> vcs_from_lowercase(ascii_lowercase(text@)) is Some),
            is_ascii_text(text@) ==> (r matches Ok(v) ==> vcs_from_lowercase(ascii_lowercase(text@)) == Some(v)),
    {
        Vcs::parse(text)
    }
}

/// Parsing ignores letter case: a text of ASCII characters whose
/// lowercase form is the name of a vcs parses as that vcs; the name shown
/// for a vcs is such a text, so it reads back.
pub proof fn law_vcs_parse_ignores_case(expected: Vcs, text: &str, r: Result<Vcs, Failure>)
    requires
        call_ensures(Vcs::parse, (text,), r),
        is_ascii_text(text@),
        ascii_lowercase(text@) == vcs_name(expected),
    ensures
        r matches Ok(v) && v == expected,
        is_ascii_text(vcs_name(expected)),
        ascii_lowercase(vcs_name(expected)) == vcs_name(expected),
{
    reveal_strlit("github");
    reveal_strlit("gitlab");
    law_vcs_name_reads_back(expected, expected);
    let shown = vcs_name(expected);
    assert(ascii_lowercase(shown) =~= shown);
}

} // verus!
