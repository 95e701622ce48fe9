use vstd::prelude::*;
use crate::error::{EhParseResult, ParseError};
use crate::jsonval::{has_field, json_has_field, json_str_field, json_valid, str_field, valid_json};
use crate::structures::VoteTag;

verus! {

impl VoteTag {
    /// Decode the tag-vote response, which carries an `error` string when
    /// the service refused the vote and nothing of interest otherwise.
    pub fn parse(s: &str) -> (r: EhParseResult<VoteTag>)
        ensures
            !json_valid(s@) ==> r matches Err(ParseError::Other(_)),
            json_valid(s@) && json_has_field(s@, "error"@) && json_str_field(s@, "error"@)
                is None ==> r matches Err(ParseError::Other(_)),
            json_valid(s@) && !json_has_field(s@, "error"@) ==> (r matches Ok(v) && v.error_opt
                is None),
            json_valid(s@) && json_has_field(s@, "error"@) && json_str_field(s@, "error"@)
                is Some ==> (json_str_field(
                s@,
                "error"@,
            ) matches Some(m) && r matches Ok(v) && v.error_opt matches Some(e) && e@ == m),
    {
        if !valid_json(s) {
            return Err(ParseError::Other(String::from_str("malformed json")));
        }
        let error_opt = if has_field(s, "error") {
            match str_field(s, "error") {
                None => {
                    return Err(ParseError::Other(String::from_str("error is no string")));
                },
                Some(x) => Some(x),
            }
        } else {
            None
        };
        Ok(VoteTag { error_opt })
    }
}

impl crate::parser::Parser for VoteTag {
    fn parse(s: &str) -> EhParseResult<VoteTag> {
        VoteTag::parse(s)
    }
}

} // verus!
