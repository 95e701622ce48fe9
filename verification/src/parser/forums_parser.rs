use vstd::prelude::*;
use crate::dom::{attr_at, vis_attr};
use crate::error::{EhParseResult, ParseError};

verus! {

/// The signed-in state of the forum front page.
#[derive(Debug, PartialEq, Eq, Clone)]
pub struct Forums {
    /// Links to the user's profile page.
    pub user_link: String,
}

impl Forums {
    /// Decode the forum front page: the profile link of the signed-in
    /// account, which is absent exactly when nobody is signed in.
    pub fn parse(s: &str) -> (r: EhParseResult<Forums>)
        ensures
            vis_attr(s@, "#userlinks a"@, "href"@) is None <==> r == Err::<Forums, ParseError>(
                ParseError::AttributeNotFound,
            ),
            vis_attr(s@, "#userlinks a"@, "href"@) matches Some(h) ==> (r matches Ok(f)
                && f.user_link@ == h),
    {
        match attr_at(s, "#userlinks a", "href") {
            None => Err(ParseError::AttributeNotFound),
            Some(user_link) => Ok(Forums { user_link }),
        }
    }
}

impl crate::parser::Parser for Forums {
    fn parse(s: &str) -> EhParseResult<Forums> {
        Forums::parse(s)
    }
}

} // verus!
