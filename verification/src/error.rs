//! The ways in which a resolution can fail.

use vstd::prelude::*;
use vstd::string::StringExecFns;

verus! {

/// Why a pipeline stopped. Each of these ends the invocation: no partial
/// result is given with them. That no host serves a recording is not among
/// them: it is an ordinary outcome, an empty list of links.
#[derive(Debug, Clone, Copy, PartialEq, Eq, Structural)]
pub enum Error {
    /// The credentials are missing, unreadable or malformed.
    Config,
    /// The service did not answer: a transport failure, or a status outside
    /// the success range.
    Network,
    /// The service answered, but not in the shape expected: a field is
    /// missing, the number of records is not one, a pattern did not match.
    ResponseShape,
}

impl Error {
    /// The line that describes this failure.
    pub open spec fn message_text(self) -> Seq<char> {
        match self {
            Error::Config => "[ERR] credentials are missing or malformed"@,
            Error::Network => "[ERR] the service could not be reached"@,
            Error::ResponseShape => "[ERR] unexpected response"@,
        }
    }

    /// A line for the console that describes this failure.
    pub fn message(&self) -> (r: String)
        ensures
            r@ == self.message_text(),
    {
        match self {
            Error::Config => String::from_str("[ERR] credentials are missing or malformed"),
            Error::Network => String::from_str("[ERR] the service could not be reached"),
            Error::ResponseShape => String::from_str("[ERR] unexpected response"),
        }
    }
}

/// A result with its value seen through its view.
pub open spec fn viewed<T: View>(r: Result<T, Error>) -> Result<T::V, Error> {
    match r {
        Ok(v) => Ok(v@),
        Err(e) => Err(e),
    }
}

} // verus!
