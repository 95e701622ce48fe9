//! One decoder per record type.  Every decoder is a pure function from an
//! input string to a typed record or a `ParseError`.

pub mod archive_parser;
pub mod category_parser;
pub mod event_pane_parser;
pub mod favorite_slot_parser;
pub mod favorites_parser;
pub mod forums_parser;
pub mod gallery_detail_parser;
pub mod gallery_detail_url_parser;
pub mod gallery_info_parser;
pub mod gallery_list_parser;
pub mod gallery_multi_page_viewer_p_token_parser;
pub mod gallery_not_available_parser;
pub mod gallery_page_api_parser;
pub mod gallery_page_parser;
pub mod gallery_page_url_parser;
pub mod gallery_tag_group_list_parser;
pub mod gallery_tag_group_parser;
pub mod gallery_token_api_parser;
pub mod profile_parser;
pub mod rate_gallery_parser;
pub mod rating_parser;
pub mod search_nav_parser;
pub mod sign_in_parser;
pub mod site_url;
pub mod thumb_parser;
pub mod torrent_parser;
pub mod vote_comment_parser;
pub mod vote_tag_parser;

use vstd::prelude::*;
use crate::error::EhParseResult;

verus! {

/// The common shape of every decoder in this crate.
pub trait Parser: Sized {
    fn parse(s: &str) -> EhParseResult<Self>;
}

} // verus!
