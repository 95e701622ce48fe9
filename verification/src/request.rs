use vstd::prelude::*;

verus! {

/// The operations a client can ask of the service; the I/O layer maps each
/// to a URL and a decoder of this crate.
#[derive(Debug, PartialEq, Eq, Copy, Clone, Structural)]
pub enum Method {
    MethodSignIn,
    MethodGetGalleryList,
    MethodGetGalleryDetail,
    MethodGetPreviewSet,
    MethodGetRateGallery,
    MethodGetCommentGallery,
    MethodGetGalleryToken,
    MethodGetFavorites,
    MethodAddFavorites,
    MethodAddFavoritesRange,
    MethodModifyFavorites,
    MethodGetTorrentList,
    MethodGetProfile,
    MethodVoteComment,
    MethodImageSearch,
    MethodArchiveList,
    MethodDownloadArchive,
    MethodVoteTag,
    MethodGetGalleryPageApi,
    MethodGetGalleryPage,
}

} // verus!
