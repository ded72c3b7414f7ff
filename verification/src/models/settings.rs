//! Site-wide settings: the site name and the footer links.
use crate::text::text_eq;
use vstd::prelude::*;

verus! {

/// A link shown in the footer of every page.
#[derive(Debug)]
pub struct FooterLink {
    pub label: String,
    pub url: String,
}

/// The settings an administrator chooses.
#[derive(Debug)]
pub struct SiteSettings {
    pub site_name: String,
    pub footer_links: Vec<FooterLink>,
}

impl Default for SiteSettings {
    /// The settings before any are stored: the name `Status Page` and no
    /// footer links.
    fn default() -> (r: SiteSettings)
        ensures
            r.site_name@ == "Status Page"@,
            r.footer_links@.len() == 0,
    {
        SiteSettings { site_name: String::from_str("Status Page"), footer_links: Vec::new() }
    }
}

impl SiteSettings {
    /// The settings read back from storage: each stored value replaces the
    /// default, and a value that is missing (for the footer links, also one
    /// that did not decode) leaves the default in place.
    pub fn from_stored(site_name: Option<String>, footer_links: Option<Vec<FooterLink>>) -> (r:
        SiteSettings)
        ensures
            r.site_name@ == (match site_name {
                Some(n) => n@,
                None => "Status Page"@,
            }),
            r.footer_links@ == (match footer_links {
                Some(l) => l@,
                None => Seq::<FooterLink>::empty(),
            }),
    {
        let mut s = SiteSettings::default();
        if let Some(n) = site_name {
            s.site_name = n;
        }
        if let Some(l) = footer_links {
            s.footer_links = l;
        }
        s
    }
}

/// Whether the stored `onboarding_complete` value marks onboarding as done:
/// only the value `true` does, and a missing value does not.
pub fn onboarding_flag(value: Option<&str>) -> (r: bool)
    ensures
        r == (value matches Some(v) && v@ == "true"@),
{
    match value {
        Some(v) => text_eq(v, "true"),
        None => false,
    }
}

} // verus!
