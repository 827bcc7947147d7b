use crate::bounded_string::BoundedString;
use vstd::prelude::*;

verus! {

#[verifier::external_type_specification]
#[verifier::external_body]
pub struct ExUrl(url::Url);

/// Relies on `url::Url`'s derived `Clone`: the copy equals the original.
pub assume_specification[ <url::Url as Clone>::clone ](u: &url::Url) -> (r: url::Url)
    ensures
        r == *u,
;

/// A citation with every field given.
#[derive(PartialEq, Eq, Debug)]
pub struct CiteEntry {
    pub text: BoundedString<1, 1023>,
    pub doi: BoundedString<1, 1023>,
    pub url: url::Url,
}

/// A citation: a required text, and an optional DOI and URL.
#[derive(PartialEq, Eq, Debug)]
pub struct CiteEntry2 {
    pub text: BoundedString<1, 1023>,
    pub doi: Option<BoundedString<1, 1023>>,
    pub url: Option<url::Url>,
}

impl CiteEntry2 {
    /// A copy of this entry.
    pub fn copy(&self) -> (r: Self)
        ensures
            r == *self,
    {
        let doi = match &self.doi {
            Some(d) => Some(d.copy()),
            None => None,
        };
        let url = match &self.url {
            Some(u) => Some(u.clone()),
            None => None,
        };
        CiteEntry2 { text: self.text.copy(), doi, url }
    }
}

impl From<CiteEntry> for CiteEntry2 {
    fn from(entry1: CiteEntry) -> (r: Self) {
        CiteEntry2 { text: entry1.text, doi: Some(entry1.doi), url: Some(entry1.url) }
    }
}

impl vstd::std_specs::convert::FromSpecImpl<CiteEntry> for CiteEntry2 {
    open spec fn obeys_from_spec() -> bool {
        true
    }

    open spec fn from_spec(entry1: CiteEntry) -> CiteEntry2 {
        CiteEntry2 { text: entry1.text, doi: Some(entry1.doi), url: Some(entry1.url) }
    }
}

} // verus!
