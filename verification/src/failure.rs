use vstd::prelude::*;

verus! {

/// Why an operation of the library was refused: the message that the
/// command line shows to the user.
#[derive(Debug)]
pub struct Failure {
    pub message: String,
}

impl Failure {
    pub fn new(message: String) -> (f: Failure)
        ensures
            f.message@ == message@,
    {
        Failure { message }
    }

    /// A failure with a fixed message.
    pub fn from_text(message: &str) -> (f: Failure)
        ensures
            f.message@ == message@,
    {
        Failure { message: message.to_owned() }
    }
}

} // verus!
