use vstd::prelude::*;
use crate::dom::{attr_at, text_at, vis_attr, vis_text};
use crate::eh_url::url_forums;
use crate::error::{EhParseResult, ParseError};
use crate::structures::Profile;
use crate::text::{chars_of, eq_at, match_at};

verus! {

impl Profile {
    /// Decode a forum profile page: display name and avatar.  A relative
    /// avatar path is resolved against the forum host, so the result
    /// always carries an absolute URL.
    pub fn parse(s: &str) -> (r: EhParseResult<Profile>)
        ensures
            vis_attr(s@, ".ipbtable img"@, "src"@) is None <==> r == Err::<Profile, ParseError>(
                ParseError::AttributeNotFound,
            ),
            vis_attr(s@, ".ipbtable img"@, "src"@) matches Some(a) ==> (r matches Ok(p)
                && p.display_name@ == vis_text(s@, "#profilename > font"@) && p.avatar@ == (
            if match_at(a, "http"@, 0) {
                a
            } else {
                "https://forums.e-hentai.org/"@ + a
            })),
            r matches Ok(p) ==> match_at(p.avatar@, "http"@, 0),
    {
        let display_name = text_at(s, "#profilename > font");
        let avatar_raw = match attr_at(s, ".ipbtable img", "src") {
            None => {
                return Err(ParseError::AttributeNotFound);
            },
            Some(a) => a,
        };
        let av = chars_of(avatar_raw.as_str());
        let http_lit = chars_of("http");
        let absolute = http_lit.len() <= av.len() && eq_at(&av, 0, &http_lit);
        let avatar = if absolute {
            avatar_raw
        } else {
            let mut base = url_forums();
            base.append(avatar_raw.as_str());
            proof {
                reveal_strlit("https://forums.e-hentai.org/");
                reveal_strlit("http");
            }
            base
        };
        Ok(Profile { display_name, avatar })
    }
}

impl crate::parser::Parser for Profile {
    fn parse(s: &str) -> EhParseResult<Profile> {
        Profile::parse(s)
    }
}

} // verus!
