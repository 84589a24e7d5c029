use vstd::prelude::*;

use crate::failure::Failure;
use crate::text::{ascii_lowercase, is_ascii_text, lowercased, same_text, to_lowercase};

verus! {

/// The protocol that git uses to reach the host of a context.
#[derive(Clone, Copy, Debug, PartialEq, Eq, Structural)]
pub enum Transport {
    Ssh,
    Https,
}

/// The name under which a transport is shown and stored.
pub open spec fn transport_name(transport: Transport) -> Seq<char> {
    match transport {
        Transport::Ssh => "ssh"@,
        Transport::Https => "https"@,
    }
}

/// What parsing a text that is already in lowercase gives.
pub open spec fn transport_from_lowercase(lowered: Seq<char>) -> Option<Transport> {
    if lowered == "ssh"@ {
        Some(Transport::Ssh)
    } else if lowered == "https"@ {
        Some(Transport::Https)
    } else {
        None
    }
}

/// The message that refuses a text that names no transport.
pub open spec fn invalid_transport_message(lowered: Seq<char>) -> Seq<char> {
    "invalid transport: "@ + lowered + " (expected 'ssh' or 'https')"@
}

/// The name under which a transport is shown and stored reads back as
/// that transport, and the two transports have different names.
pub proof fn law_transport_name_reads_back(transport: Transport, other: Transport)
    ensures
        transport_from_lowercase(transport_name(transport)) == Some(transport),
        transport != other ==> transport_name(transport) != transport_name(other),
{
    reveal_strlit("ssh");
    reveal_strlit("https");
    assert("ssh"@.len() != "https"@.len());
}

impl Transport {
    pub fn name(&self) -> (s: &'static str)
        ensures
            s@ == transport_name(*self),
    {
        match self {
            Transport::Ssh => "ssh",
            Transport::Https => "https",
        }
    }

    /// The name of the transport as an owned string.
    pub fn to_string(&self) -> (s: String)
        ensures
            s@ == transport_name(*self),
    {
        self.name().to_owned()
    }

    /// Parses a text that has already been put in lowercase.
    pub fn from_lowercase(lowered: &str) -> (r: Result<Transport, Failure>)
        ensures
            r is Ok <==> transport_from_lowercase(lowered@) is Some,
            r matches Ok(t) ==> transport_from_lowercase(lowered@) == Some(t),
            r matches Err(e) ==> e.message@ == invalid_transport_message(lowered@),
    {
        if same_text(lowered, "ssh") {
            Ok(Transport::Ssh)
        } else if same_text(lowered, "https") {
            Ok(Transport::Https)
        } else {
            let mut message = "invalid transport: ".to_owned();
            message.append(lowered);
            message.append(" (expected 'ssh' or 'https')");
            Err(Failure::new(message))
        }
    }

    /// Parses the name of a transport in any letter case.
    pub fn parse(text: &str) -> (r: Result<Transport, Failure>)
        ensures
            r is Ok <==> transport_from_lowercase(lowercased(text@)) is Some,
            r matches Ok(t) ==> transport_from_lowercase(lowercased(text@)) == Some(t),
            r matches Err(e) ==> e.message@ == invalid_transport_message(lowercased(text@)),
            is_ascii_text(text@) ==> (r is Ok <==> transport_from_lowercase(ascii_lowercase(text@)) is Some),
            is_ascii_text(text@) ==> (r matches Ok(v) ==> transport_from_lowercase(ascii_lowercase(text@)) == Some(v)),
    {
        let lowered = to_lowercase(text);
        Transport::from_lowercase(lowered.as_str())
    }
}

impl std::str::FromStr for Transport {
    type Err = Failure;

    fn from_str(text: &str) -> (r: Result<Transport, Failure>)
        ensures
            r is Ok <==> transport_from_lowercase(lowercased(text@)) is Some,
            r matches Ok(v) ==> transport_from_lowercase(lowercased(text@)) == Some(v),
            r matches Err(e) ==> e.message@ == invalid_transport_message(lowercased(text@)),
            is_ascii_text(text@) ==> (r is Ok <==> transport_from_lowercase(ascii_lowercase(text@)) is Some),
            is_ascii_text(text@) ==> (r matches Ok(v) ==> transport_from_lowercase(ascii_lowercase(text@)) == Some(v)),
    {
        Transport::parse(text)
    }
}

/// Parsing ignores letter case: a text of ASCII characters whose
/// lowercase form is the name of a transport parses as that transport; the name shown
/// for a transport is such a text, so it reads back.
pub proof fn law_transport_parse_ignores_case(expected: Transport, text: &str, r: Result<Transport, Failure>)
    requires
        call_ensures(Transport::parse, (text,), r),
        is_ascii_text(text@),
        ascii_lowercase(text@) == transport_name(expected),
    ensures
        r matches Ok(v) && v == expected,
        is_ascii_text(transport_name(expected)),
        ascii_lowercase(transport_name(expected)) == transport_name(expected),
{
    reveal_strlit("ssh");
    reveal_strlit("https");
    law_transport_name_reads_back(expected, expected);
    let shown = transport_name(expected);
    assert(ascii_lowercase(shown) =~= shown);
}

} // verus!
