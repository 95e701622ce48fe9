use vstd::prelude::*;
use crate::error::{EhParseResult, ParseError};
use crate::jsonval::{i64_field, json_i64_field, json_u64_field, u64_field};
use crate::structures::VoteComment;

verus! {

/// The comment-vote response decodes: all three fields are present and
/// fit their types.
pub open spec fn vote_comment_decodes(doc: Seq<char>) -> bool {
    &&& json_u64_field(doc, "comment_id"@) is Some
    &&& json_i64_field(doc, "comment_score"@) matches Some(x) && i32::MIN <= x <= i32::MAX
    &&& json_u64_field(doc, "comment_vote"@) matches Some(y) && y <= u32::MAX
}

impl VoteComment {
    /// Decode the comment-vote response `{comment_id, comment_score,
    /// comment_vote}`; every field is required and must fit its type.
    pub fn parse(s: &str) -> (r: EhParseResult<VoteComment>)
        ensures
            r is Ok <==> vote_comment_decodes(s@),
            r matches Ok(v) ==> json_u64_field(s@, "comment_id"@) == Some(v.id) && json_i64_field(
                s@,
                "comment_score"@,
            ) == Some(v.score as i64) && json_u64_field(s@, "comment_vote"@) == Some(v.vote as u64),
            r is Err ==> r matches Err(ParseError::Other(_)),
    {
        let id = match u64_field(s, "comment_id") {
            None => {
                return Err(ParseError::Other(String::from_str("comment_id cannot be read")));
            },
            Some(x) => x,
        };
        let score64 = match i64_field(s, "comment_score") {
            None => {
                return Err(ParseError::Other(String::from_str("comment_score cannot be read")));
            },
            Some(x) => x,
        };
        if score64 > i32::MAX as i64 || score64 < i32::MIN as i64 {
            return Err(ParseError::Other(String::from_str("comment_score is out of range")));
        }
        let vote64 = match u64_field(s, "comment_vote") {
            None => {
                return Err(ParseError::Other(String::from_str("comment_vote cannot be read")));
            },
            Some(x) => x,
        };
        if vote64 > u32::MAX as u64 {
            return Err(ParseError::Other(String::from_str("comment_vote is out of range")));
        }
        Ok(VoteComment { id, score: score64 as i32, vote: vote64 as u32 })
    }
}

impl crate::parser::Parser for VoteComment {
    fn parse(s: &str) -> EhParseResult<VoteComment> {
        VoteComment::parse(s)
    }
}

} // verus!
