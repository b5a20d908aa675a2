use vstd::prelude::*;

verus! {

/// A failure of the request/response protocol: transport trouble, a
/// malformed frame, or a refused exchange, described by its cause.
#[derive(Clone, PartialEq, Eq, Debug)]
pub struct Error {
    cause: String,
}

impl Error {
    /// The cause the error carries.
    pub closed spec fn view(&self) -> Seq<char> {
        self.cause@
    }

    pub fn new(cause: &str) -> (r: Error)
        ensures
            r@ == cause@,
    {
        Error { cause: String::from_str(cause) }
    }

    /// The cause, for display by a caller.
    pub fn message(&self) -> (r: String)
        ensures
            r@ == self@,
    {
        self.cause.clone()
    }
}

} // verus!
