use vstd::prelude::*;
use crate::error::{EhParseResult, ParseError};
use crate::jsonval::{
    has_field, item_str, item_u64, json_has_field, json_item_str, json_item_u64, json_list_len,
    json_str_field, json_valid, list_len, str_field, valid_json,
};
use crate::structures::{GalleryToken, GalleryTokenList};

verus! {

/// The token-lookup response decodes: when a token list is present it is
/// an array of entries each carrying a numeric gid and a string token,
/// and when an error is present it is a string.
pub open spec fn token_list_decodes(doc: Seq<char>) -> bool {
    &&& json_valid(doc)
    &&& json_has_field(doc, "tokenlist"@) ==> (json_list_len(doc, "tokenlist"@) matches Some(n)
        && forall|i: int|
        0 <= i < n ==> #[trigger] json_item_u64(doc, "tokenlist"@, i, "gid"@) is Some && json_item_str(
            doc,
            "tokenlist"@,
            i,
            "token"@,
        ) is Some)
    &&& json_has_field(doc, "error"@) ==> json_str_field(doc, "error"@) is Some
}

impl GalleryTokenList {
    /// Decode the token-lookup response: either a `tokenlist` array of
    /// `{gid, token}` entries, or an `error` string, each optional.
    /// Malformed JSON, or a present field of the wrong shape, fails.
    pub fn parse(s: &str) -> (r: EhParseResult<GalleryTokenList>)
        ensures
            r is Ok <==> token_list_decodes(s@),
            r matches Ok(l) ==> ({
                &&& (l.token_vec_opt is Some) == json_has_field(s@, "tokenlist"@)
                &&& l.token_vec_opt matches Some(tv) ==> (json_list_len(s@, "tokenlist"@) == Some(
                    tv@.len() as nat,
                ) && forall|i: int|
                    0 <= i < tv@.len() ==> #[trigger] json_item_u64(s@, "tokenlist"@, i, "gid"@)
                        == Some(tv@[i].gid) && json_item_str(s@, "tokenlist"@, i, "token"@)
                        == Some(tv@[i].token@))
                &&& (l.error_opt is Some) == json_has_field(s@, "error"@)
                &&& l.error_opt matches Some(e) ==> json_str_field(s@, "error"@) == Some(e@)
            }),
    {
        if !valid_json(s) {
            return Err(ParseError::Other(String::from_str("malformed json")));
        }
        let token_vec_opt: Option<Vec<GalleryToken>> = if has_field(s, "tokenlist") {
            let n = match list_len(s, "tokenlist") {
                None => {
                    return Err(ParseError::Other(String::from_str("tokenlist is no array")));
                },
                Some(n) => n,
            };
            let mut items: Vec<GalleryToken> = Vec::new();
            let mut i: usize = 0;
            while i < n
                invariant
                    i <= n,
                    json_valid(s@),
                    json_has_field(s@, "tokenlist"@),
                    json_list_len(s@, "tokenlist"@) == Some(n as nat),
                    items@.len() == i,
                    forall|j: int|
                        0 <= j < i ==> #[trigger] json_item_u64(s@, "tokenlist"@, j, "gid"@)
                            == Some(items@[j].gid) && json_item_str(s@, "tokenlist"@, j, "token"@)
                            == Some(items@[j].token@),
                decreases n - i,
            {
                let gid = match item_u64(s, "tokenlist", i, "gid") {
                    None => {
                        return Err(ParseError::Other(String::from_str("entry without gid")));
                    },
                    Some(x) => x,
                };
                let token = match item_str(s, "tokenlist", i, "token") {
                    None => {
                        return Err(ParseError::Other(String::from_str("entry without token")));
                    },
                    Some(x) => x,
                };
                items.push(GalleryToken { gid, token });
                i += 1;
            }
            Some(items)
        } else {
            None
        };
        let error_opt = if has_field(s, "error") {
            match str_field(s, "error") {
                None => {
                    return Err(ParseError::Other(String::from_str("error is no string")));
                },
                Some(x) => Some(x),
            }
        } else {
            None
        };
        Ok(GalleryTokenList { token_vec_opt, error_opt })
    }
}

impl crate::parser::Parser for GalleryTokenList {
    fn parse(s: &str) -> EhParseResult<GalleryTokenList> {
        GalleryTokenList::parse(s)
    }
}

} // verus!
