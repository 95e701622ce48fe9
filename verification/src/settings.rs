use vstd::prelude::*;

verus! {

/// Which of the two mirror sites URLs are built for.
#[derive(Debug, PartialEq, Eq, Copy, Clone, Structural)]
pub enum GallerySites {
    E,
    EX,
}

#[derive(Debug, PartialEq, Eq, Copy, Clone, Structural)]
pub struct Settings {
    pub site: GallerySites,
}

impl Default for Settings {
    fn default() -> (r: Settings)
        ensures
            r.site == GallerySites::E,
    {
        Settings { site: GallerySites::E }
    }
}

impl Settings {
    pub fn new() -> (r: Settings)
        ensures
            r.site == GallerySites::E,
    {
        Settings::default()
    }

    pub fn site(&self) -> (r: GallerySites)
        ensures
            r == self.site,
    {
        self.site
    }
}

} // verus!
