use vstd::prelude::*;
use crate::settings::{GallerySites, Settings};
use crate::text::{dec_str, push_dec};

verus! {

// ---------------------------------------------------------------------------
// URL building.  Every method returns exactly the string its spec function
// describes, so callers can reason about the URLs they hand to transport.
// ---------------------------------------------------------------------------

pub open spec fn host_view(site: GallerySites) -> Seq<char> {
    if site == GallerySites::E {
        "https://e-hentai.org/"@
    } else {
        "https://exhentai.org/"@
    }
}

pub open spec fn gallery_detail_view(
    site: GallerySites,
    gid: u64,
    token: Seq<char>,
    all_comment: bool,
    index_opt: Option<u32>,
) -> Seq<char> {
    host_view(site) + "/g/"@ + dec_str(gid as nat) + "/"@ + token + (if all_comment {
        "?hc=1"@
    } else {
        Seq::<char>::empty()
    }) + (match index_opt {
        Some(i) => (if all_comment {
            "&p="@
        } else {
            "?p="@
        }) + dec_str(i as nat),
        None => Seq::<char>::empty(),
    }) + "/"@
}

pub open spec fn underscored(s: Seq<char>) -> Seq<char> {
    s.map_values(
        |c: char|
            if c == ' ' {
                '_'
            } else {
                c
            },
    )
}

#[derive(Debug, PartialEq, Eq, Clone, Copy, Structural)]
pub struct EhUrl {
    pub settings: Settings,
}

impl EhUrl {
    pub fn new(settings: Settings) -> (r: EhUrl)
        ensures
            r.settings == settings,
    {
        EhUrl { settings }
    }

    fn host(&self) -> (r: String)
        ensures
            r@ == host_view(self.settings.site),
    {
        match self.settings.site() {
            GallerySites::E => String::from_str("https://e-hentai.org/"),
            _ => String::from_str("https://exhentai.org/"),
        }
    }

    /// The detail page of a gallery, with optional full-comment and page
    /// index query parameters.
    pub fn gallery_detail(
        &self,
        gid: u64,
        token: &str,
        all_comment: bool,
        index_opt: Option<u32>,
    ) -> (r: String)
        ensures
            r@ == gallery_detail_view(self.settings.site, gid, token@, all_comment, index_opt),
    {
        let mut u = self.host();
        u.append("/g/");
        push_dec(&mut u, gid);
        u.append("/");
        u.append(token);
        if all_comment {
            u.append("?hc=1");
        }
        match index_opt {
            Some(i) => {
                if all_comment {
                    u.append("&p=");
                } else {
                    u.append("?p=");
                }
                push_dec(&mut u, i as u64);
            },
            None => {},
        }
        u.append("/");
        proof {
            assert(u@ =~= gallery_detail_view(
                self.settings.site,
                gid,
                token@,
                all_comment,
                index_opt,
            ));
        }
        u
    }

    /// The multi-page viewer of a gallery.
    pub fn gallery_multi_page_viewer(&self, gid: u64, token: &str) -> (r: String)
        ensures
            r@ == host_view(self.settings.site) + "?mpv/"@ + dec_str(gid as nat) + "/"@ + token@
                + "/"@,
    {
        let mut u = self.host();
        u.append("?mpv/");
        push_dec(&mut u, gid);
        u.append("/");
        u.append(token);
        u.append("/");
        proof {
            assert(u@ =~= host_view(self.settings.site) + "?mpv/"@ + dec_str(gid as nat) + "/"@
                + token@ + "/"@);
        }
        u
    }

    /// A single picture page, from the gallery id, the 0-based page index
    /// and the page token.
    pub fn page(&self, gid: u64, index: u32, p_token: &str) -> (r: String)
        requires
            index < u32::MAX,
        ensures
            r@ == host_view(self.settings.site) + "s/"@ + p_token@ + "/"@ + dec_str(gid as nat)
                + "-"@ + dec_str((index + 1) as nat),
    {
        let mut u = self.host();
        u.append("s/");
        u.append(p_token);
        u.append("/");
        push_dec(&mut u, gid);
        u.append("-");
        push_dec(&mut u, (index + 1) as u64);
        proof {
            assert(u@ =~= host_view(self.settings.site) + "s/"@ + p_token@ + "/"@ + dec_str(
                gid as nat,
            ) + "-"@ + dec_str((index + 1) as nat));
        }
        u
    }

    /// The popup that adds a gallery to the favorites.
    pub fn add_favorites(&self, gid: u64, token: &str) -> (r: String)
        ensures
            r@ == host_view(self.settings.site) + "gallerypopups.php?gid="@ + dec_str(gid as nat)
                + "&t="@ + token@ + "&act=addfav"@,
    {
        let mut u = self.host();
        u.append("gallerypopups.php?gid=");
        push_dec(&mut u, gid);
        u.append("&t=");
        u.append(token);
        u.append("&act=addfav");
        proof {
            assert(u@ =~= host_view(self.settings.site) + "gallerypopups.php?gid="@ + dec_str(
                gid as nat,
            ) + "&t="@ + token@ + "&act=addfav"@);
        }
        u
    }

    /// The archiver endpoint for a gallery, with its `or` form token.
    pub fn download_archive(&self, gid: u64, token: &str, or: &str) -> (r: String)
        ensures
            r@ == host_view(self.settings.site) + "archiver.php?gid="@ + dec_str(gid as nat)
                + "&token="@ + token@ + "&or="@ + or@,
    {
        let mut u = self.host();
        u.append("archiver.php?gid=");
        push_dec(&mut u, gid);
        u.append("&token=");
        u.append(token);
        u.append("&or=");
        u.append(or);
        proof {
            assert(u@ =~= host_view(self.settings.site) + "archiver.php?gid="@ + dec_str(
                gid as nat,
            ) + "&token="@ + token@ + "&or="@ + or@);
        }
        u
    }

    pub fn favorites(&self) -> (r: String)
        ensures
            r@ == host_view(self.settings.site) + "favorites.php"@,
    {
        let mut u = self.host();
        u.append("favorites.php");
        u
    }

    pub fn api(&self) -> (r: String)
        ensures
            r@ == host_view(self.settings.site) + "api.php"@,
    {
        let mut u = self.host();
        u.append("api.php");
        u
    }

    pub fn referer(&self) -> (r: String)
        ensures
            self.settings.site == GallerySites::E ==> r@ == "https://e-hentai.org"@,
            self.settings.site != GallerySites::E ==> r@ == "https://exhentai.org"@,
    {
        match self.settings.site() {
            GallerySites::E => String::from_str("https://e-hentai.org"),
            _ => String::from_str("https://exhentai.org"),
        }
    }

    pub fn origin(&self) -> (r: String)
        ensures
            self.settings.site == GallerySites::E ==> r@ == "https://e-hentai.org"@,
            self.settings.site != GallerySites::E ==> r@ == "https://exhentai.org"@,
    {
        self.referer()
    }

    pub fn my_tag(&self) -> (r: String)
        ensures
            r@ == host_view(self.settings.site) + "mytags"@,
    {
        let mut u = self.host();
        u.append("mytags");
        u
    }

    pub fn uconfig(&self) -> (r: String)
        ensures
            r@ == host_view(self.settings.site) + "uconfig.php"@,
    {
        let mut u = self.host();
        u.append("uconfig.php");
        u
    }

    /// The wiki page that defines a tag; spaces become underscores.
    pub fn tag_definition(&self, tag: &str) -> (r: String)
        ensures
            r@ == "https://ehwiki.org/wiki/"@ + underscored(tag@),
    {
        let mut u = String::from_str("https://ehwiki.org/wiki/");
        push_underscored(&mut u, tag);
        u
    }

    pub fn popular(&self) -> (r: String)
        ensures
            self.settings.site == GallerySites::E ==> r@ == "https://e-hentai.org/popular"@,
            self.settings.site != GallerySites::E ==> r@ == "https://exhentai.org/popular"@,
    {
        match self.settings.site() {
            GallerySites::E => String::from_str("https://e-hentai.org/popular"),
            _ => String::from_str("https://exhentai.org/popular"),
        }
    }

    pub fn image_search(&self) -> (r: String)
        ensures
            self.settings.site == GallerySites::E ==> r@
                == "https://upload.e-hentai.org/image_lookup.php"@,
            self.settings.site != GallerySites::E ==> r@
                == "https://exhentai.org/upload/image_lookup.php"@,
    {
        match self.settings.site() {
            GallerySites::E => String::from_str("https://upload.e-hentai.org/image_lookup.php"),
            _ => String::from_str("https://exhentai.org/upload/image_lookup.php"),
        }
    }

    pub fn watched(&self) -> (r: String)
        ensures
            r@ == host_view(self.settings.site) + "watched"@,
    {
        let mut u = self.host();
        u.append("watched");
        u
    }

    pub fn thumb_prefix(&self) -> (r: String)
        ensures
            r@ == "https://ehgt.org/"@,
    {
        String::from_str("https://ehgt.org/")
    }
}

/// Where the sign-in form is posted.
pub fn api_sign_in() -> (r: String)
    ensures
        r@ == "https://forums.e-hentai.org/index.php?act=Login&CODE=01"@,
{
    String::from_str("https://forums.e-hentai.org/index.php?act=Login&CODE=01")
}

/// The forum host, which relative avatar paths are resolved against.
pub fn url_forums() -> (r: String)
    ensures
        r@ == "https://forums.e-hentai.org/"@,
{
    String::from_str("https://forums.e-hentai.org/")
}

/// Append `s` with every space turned into an underscore.
fn push_underscored(out: &mut String, s: &str)
    ensures
        final(out)@ == old(out)@ + underscored(s@),
{
    let n = s.unicode_len();
    let mut i: usize = 0;
    while i < n
        invariant
            i <= n,
            n == s@.len(),
            out@ == old(out)@ + underscored(s@.subrange(0, i as int)),
        decreases n - i,
    {
        let c = s.get_char(i);
        if c == ' ' {
            out.append("_");
        } else {
            out.append(s.substring_char(i, i + 1));
        }
        proof {
            reveal_strlit("_");
            assert(underscored(s@.subrange(0, i + 1)) =~= underscored(s@.subrange(0, i as int))
                + underscored(s@.subrange(i as int, i + 1)));
            assert(underscored(s@.subrange(i as int, i + 1)).len() == 1);
            assert(out@ =~= old(out)@ + underscored(s@.subrange(0, i + 1)));
        }
        i += 1;
    }
    proof {
        assert(s@.subrange(0, n as int) =~= s@);
    }
}

} // verus!
