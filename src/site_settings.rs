//! Site-wide settings read by page templates, and the registry that holds the
//! current ones.

use vstd::prelude::*;

verus! {

/// Site name and base URL. Empty fields are tolerated.
pub struct SiteSettings {
    pub site_name: String,
    pub base_url: String,
}

/// The stored shape of the site settings.
pub struct SiteConfig {
    pub site_name: String,
    pub base_url: String,
}

impl Default for SiteSettings {
    fn default() -> (r: SiteSettings)
        ensures
            r.site_name@ == Seq::<char>::empty(),
            r.base_url@ == Seq::<char>::empty(),
    {
        SiteSettings { site_name: String::new(), base_url: String::new() }
    }
}

impl SiteSettings {
    /// A copy with the same field values.
    pub fn snapshot(&self) -> (r: SiteSettings)
        ensures
            r.site_name@ == self.site_name@,
            r.base_url@ == self.base_url@,
    {
        SiteSettings { site_name: self.site_name.clone(), base_url: self.base_url.clone() }
    }

    /// Settings with the stored values.
    pub fn from_config(c: SiteConfig) -> (r: SiteSettings)
        ensures
            r.site_name == c.site_name,
            r.base_url == c.base_url,
    {
        SiteSettings { site_name: c.site_name, base_url: c.base_url }
    }
}

/// Holds the current site settings; a replacement swaps the whole value.
pub struct SiteSettingsService {
    pub settings: SiteSettings,
}

impl SiteSettingsService {
    pub fn new(initial: SiteSettings) -> (r: SiteSettingsService)
        ensures
            r.settings == initial,
    {
        SiteSettingsService { settings: initial }
    }

    /// Replaces the current settings as a whole.
    pub fn update(&mut self, new: SiteSettings)
        ensures
            final(self).settings == new,
    {
        self.settings = new;
    }

    /// A copy of the current settings.
    pub fn get(&self) -> (r: SiteSettings)
        ensures
            r.site_name@ == self.settings.site_name@,
            r.base_url@ == self.settings.base_url@,
    {
        self.settings.snapshot()
    }
}

/// `base` without one trailing slash.
pub open spec fn trim_trailing_slash(base: Seq<char>) -> Seq<char> {
    if base.len() > 0 && base.last() == '/' {
        base.drop_last()
    } else {
        base
    }
}

/// `rel` without one leading slash.
pub open spec fn trim_leading_slash(rel: Seq<char>) -> Seq<char> {
    if rel.len() > 0 && rel[0] == '/' {
        rel.drop_first()
    } else {
        rel
    }
}

/// The URL of an asset: the base URL and the relative path joined by exactly
/// one slash at the seam.
pub open spec fn asset_url_of(base: Seq<char>, rel: Seq<char>) -> Seq<char> {
    trim_trailing_slash(base) + seq!['/'] + trim_leading_slash(rel)
}

/// Joins the site's base URL and a path relative to it (see `asset_url_of`).
pub fn asset_url(base: &str, rel: &str) -> (r: String)
    ensures
        r@ == asset_url_of(base@, rel@),
{
    let bn = base.unicode_len();
    let rn = rel.unicode_len();
    let b = if bn > 0 && base.get_char(bn - 1) == '/' {
        base.substring_char(0, bn - 1)
    } else {
        base.substring_char(0, bn)
    };
    let r = if rn > 0 && rel.get_char(0) == '/' {
        rel.substring_char(1, rn)
    } else {
        rel.substring_char(0, rn)
    };
    assert(base@.subrange(0, bn as int) =~= base@);
    assert(rel@.subrange(0, rn as int) =~= rel@);
    assert(bn > 0 ==> base@.subrange(0, bn - 1) =~= base@.drop_last());
    assert(rn > 0 ==> rel@.subrange(1, rn as int) =~= rel@.drop_first());
    let mut out = b.to_owned();
    out.append("/");
    out.append(r);
    proof {
        reveal_strlit("/");
    }
    out
}

} // verus!
