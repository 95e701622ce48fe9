use vstd::prelude::*;

verus! {

// ---------------------------------------------------------------------------
// Identity
// ---------------------------------------------------------------------------

/// The pair that names a gallery everywhere on the service: a numeric id
/// and an opaque ten-digit hexadecimal token.
#[derive(Debug, PartialEq, Eq, Clone)]
pub struct GalleryIdentity {
    pub gid: u64,
    pub token: String,
}

#[derive(Debug, PartialEq, Eq, Clone)]
pub struct GalleryDetailUrl {
    pub gid: u64,
    pub token: String,
}

#[derive(Debug, PartialEq, Eq, Clone)]
pub struct GalleryPageUrl {
    pub gid: u64,
    pub p_token: String,
    /// 0-based page index.
    pub page: u32,
}

// ---------------------------------------------------------------------------
// Styled values
// ---------------------------------------------------------------------------

/// A star rating held in hundredths of a star, so that the half-point
/// arithmetic of the list pages and the two-decimal averages of the detail
/// pages share one exact representation.  `centi == 450` reads 4.5 stars.
#[derive(Debug, PartialEq, Eq, Clone, Copy)]
pub struct Rating {
    pub centi: i64,
}

/// A favorite-slot color match: the three decimal strings captured from an
/// `rgba(...)` style fragment and the index of the table row they equal.
#[derive(Debug, PartialEq, Eq, Clone)]
pub struct FavoriteSlot {
    pub r: String,
    pub g: String,
    pub b: String,
    pub value: u32,
}

/// A display category: the text it was decoded from, the fixed 32-bit color
/// of the matched table row, and the row's numeric value.
#[derive(Debug, PartialEq, Eq, Clone)]
pub struct Category {
    pub string: String,
    pub color: u32,
    pub value: u32,
}

#[derive(Debug, PartialEq, Eq, Clone)]
pub struct Thumb {
    pub src: String,
    pub width: u32,
    pub height: u32,
}

// ---------------------------------------------------------------------------
// Gallery list
// ---------------------------------------------------------------------------

#[derive(Debug, PartialEq, Eq, Clone)]
pub struct SearchNav {
    /// `None` on the first page.
    pub prev_opt: Option<String>,
    /// `None` on the last page.
    pub next_opt: Option<String>,
    pub jump_opt: Option<String>,
    pub seek_opt: Option<String>,
}

/// One row of a gallery list, whatever layout the page was rendered in.
/// Fields that only some layouts carry are optional.
#[derive(Debug, PartialEq, Eq, Clone)]
pub struct GalleryInfo {
    pub identity: GalleryIdentity,
    pub title: String,
    pub thumb: Thumb,
    pub category: u32,
    pub posted: String,
    pub uploader_opt: Option<String>,
    pub simple_tag_vec_opt: Option<Vec<String>>,
    pub rating: Rating,
    pub pages: u32,
    pub simple_language_opt: Option<String>,
    pub is_favorited: bool,
    pub favorite_slot_opt: Option<u32>,
    pub favorite_name_opt: Option<String>,
}

#[derive(Debug, PartialEq, Eq, Clone)]
pub struct GalleryList {
    pub search_nav: SearchNav,
    pub gallery_info_vec: Vec<GalleryInfo>,
}

/// The favorites page: the per-slot counts and names, and the plain gallery
/// list that the page also carries.
#[derive(Debug, PartialEq, Eq, Clone)]
pub struct Favorite {
    pub search_nav: SearchNav,
    pub cat_vec: Vec<String>,
    pub count_vec: Vec<u32>,
    pub gallery_list: GalleryList,
}

// ---------------------------------------------------------------------------
// Gallery detail
// ---------------------------------------------------------------------------

#[derive(Debug, PartialEq, Eq, Clone)]
pub struct GalleryComment {
    /// 0 names the uploader comment, which is never votable or editable.
    pub id: u64,
    /// `None` for the uploader comment.
    pub score_opt: Option<u32>,
    pub editable: bool,
    pub vote_up_able: bool,
    pub vote_up_ed: bool,
    pub vote_down_able: bool,
    pub vote_down_ed: bool,
    pub is_uploader: bool,
    /// `None` for the uploader comment.
    pub vote_state_opt: Option<String>,
    pub posted_timestamp: i64,
    pub user: String,
    pub comment: String,
    pub last_edited_timestamp_opt: Option<i64>,
}

#[derive(Debug, PartialEq, Eq, Clone)]
pub struct GalleryCommentList {
    pub comment_vec: Vec<GalleryComment>,
    /// More comments exist below the display threshold.
    pub has_more: bool,
}

#[derive(Debug, PartialEq, Eq, Clone)]
pub struct GalleryDetailDetail {
    pub posted: String,
    pub parent_opt: Option<String>,
    pub visible: String,
    pub language: String,
    pub file_size: String,
    pub pages: u32,
    pub favorite_count: u32,
}

#[derive(Debug, PartialEq, Eq, Clone)]
pub struct GalleryPreviewLarge {
    /// 0-based position of the tile.
    pub position: u32,
    pub filename: String,
    pub page_url: String,
    pub image_url: String,
}

/// A tile of the mosaic preview: all tiles share one sprite sheet and are
/// laid out in a single row, so only the horizontal offset varies.
#[derive(Debug, PartialEq, Eq, Clone)]
pub struct GalleryPreviewMedium {
    pub position: u32,
    pub filename: String,
    pub page_url: String,
    pub image_url: String,
    pub offset_x: u32,
    pub offset_y: u32,
    pub clip_width: u32,
    pub clip_height: u32,
}

#[derive(Debug, PartialEq, Eq, Clone)]
pub enum GalleryPreviewSet {
    Large(Vec<GalleryPreviewLarge>),
    Medium(Vec<GalleryPreviewMedium>),
}

#[derive(Debug, PartialEq, Eq, Clone)]
pub struct GalleryTagGroup {
    pub tag_group_name: String,
    pub tag_vec: Vec<String>,
}

#[derive(Debug, PartialEq, Eq, Clone)]
pub struct GalleryTagGroupList {
    pub group_vec: Vec<GalleryTagGroup>,
}

#[derive(Debug, PartialEq, Eq, Clone)]
pub struct GalleryDetail {
    pub identity: GalleryIdentity,
    /// -1 when the visitor is not signed in.
    pub api_uid: i64,
    pub api_key: String,
    pub torrent_count: u32,
    pub torrent_url: String,
    pub archive_url: String,
    pub thumb: String,
    /// Newer versions of this gallery, as pairs of a date string and an
    /// identity, in page order.
    pub newer_version_map_opt: Option<Vec<(String, GalleryIdentity)>>,
    pub is_favorited: bool,
    pub favorite_name_opt: Option<String>,
    pub favorite_slot_opt: Option<u32>,
    pub rating_count: u32,
    pub tag_group_vec: Vec<GalleryTagGroup>,
    pub comment_list: GalleryCommentList,
    pub preview_pages: u32,
    pub preview_set: GalleryPreviewSet,
    pub url: String,
    pub title: String,
    pub title_jpn: String,
    pub category: u32,
    pub uploader: String,
    /// `None` when the page says "Not Yet Rated".
    pub rating_opt: Option<Rating>,
    pub detail: GalleryDetailDetail,
}

// ---------------------------------------------------------------------------
// Single gallery pages
// ---------------------------------------------------------------------------

#[derive(Debug, PartialEq, Eq, Clone)]
pub struct GalleryPage {
    pub image_url: String,
    pub skip_hath_key: String,
    pub origin_image_url: String,
    pub show_key: String,
}

#[derive(Debug, PartialEq, Eq, Clone)]
pub struct GalleryPageApi {
    pub image_url: String,
    pub skip_hath_key: String,
    pub origin_image_url: String,
}

#[derive(Debug, PartialEq, Eq, Clone)]
pub struct GalleryMultiPageViewerPToken {
    pub image_vec: Vec<String>,
}

#[derive(Debug, PartialEq, Eq, Clone)]
pub struct GalleryNotAvailable {
    pub error: String,
}

// ---------------------------------------------------------------------------
// Accounts and miscellany
// ---------------------------------------------------------------------------

#[derive(Debug, PartialEq, Eq, Clone)]
pub struct SignIn {
    pub username: String,
}

#[derive(Debug, PartialEq, Eq, Clone)]
pub struct Profile {
    pub display_name: String,
    pub avatar: String,
}

#[derive(Debug, PartialEq, Eq, Clone)]
pub struct EventPane {
    pub value: String,
}

#[derive(Debug, PartialEq, Eq, Clone)]
pub struct Torrent {
    pub filename: String,
    pub download_url: String,
}

#[derive(Debug, PartialEq, Eq, Clone)]
pub struct Archive {
    pub or: String,
    pub items: Vec<ArchiveItem>,
}

#[derive(Debug, PartialEq, Eq, Clone)]
pub struct ArchiveItem {
    pub res: String,
    pub name: String,
}

// ---------------------------------------------------------------------------
// JSON responses
// ---------------------------------------------------------------------------

#[derive(Debug, PartialEq, Eq, Clone)]
pub struct GalleryToken {
    pub gid: u64,
    pub token: String,
}

#[derive(Debug, PartialEq, Eq, Clone)]
pub struct GalleryTokenList {
    pub token_vec_opt: Option<Vec<GalleryToken>>,
    pub error_opt: Option<String>,
}

#[derive(Debug, PartialEq, Eq, Clone)]
pub struct VoteComment {
    pub id: u64,
    pub score: i32,
    pub vote: u32,
}

#[derive(Debug, PartialEq, Eq, Clone)]
pub struct VoteTag {
    pub error_opt: Option<String>,
}

/// The response to rating a gallery: the new average in hundredths of a
/// star, and the new vote count.
#[derive(Debug, PartialEq, Eq, Clone)]
pub struct RateGallery {
    pub rating_centi: i64,
    pub rating_count: i32,
}

} // verus!
