use vstd::prelude::*;

verus! {

/// The one error taxonomy shared by every decoder in the crate.
///
/// `FromServer` carries a message written by the remote service itself:
/// it reports a condition of the page, not a defect of the decoder, and
/// callers may surface it verbatim.  `Other` wraps secondary failures
/// (such as a numeric field that does not fit its type) as plain text.
#[derive(Debug, PartialEq, Eq, Clone)]
pub enum ParseError {
    RegexMatchFailed,
    OutOfRange,
    SignInRequired,
    AttributeNotFound,
    DomNotFound,
    FromServer(String),
    Other(String),
}

pub type EhParseResult<T> = Result<T, ParseError>;

impl ParseError {
    /// A short human-readable account of the error.
    pub fn description(&self) -> (r: String)
        ensures
            r@.len() > 0,
    {
        let r = match self {
            ParseError::RegexMatchFailed => "pattern matching failed",
            ParseError::OutOfRange => "input is out of range",
            ParseError::SignInRequired => "this page requires you to log on",
            ParseError::AttributeNotFound => "attribute cannot be found",
            ParseError::DomNotFound => "dom cannot be found",
            ParseError::FromServer(_) => "error from server",
            ParseError::Other(_) => "malformed input",
        };
        proof {
            reveal_strlit("pattern matching failed");
            reveal_strlit("input is out of range");
            reveal_strlit("this page requires you to log on");
            reveal_strlit("attribute cannot be found");
            reveal_strlit("dom cannot be found");
            reveal_strlit("error from server");
            reveal_strlit("malformed input");
        }
        String::from_str(r)
    }
}

} // verus!
