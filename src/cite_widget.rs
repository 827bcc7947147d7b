use crate::bounded_string::{BoundedString, BoundedStringParsingError};
use crate::cite_entry::CiteEntry2;
use crate::staging::{InputLines, Staged, StagedNode, StagingOpt, StagingString};
use vstd::prelude::*;

verus! {

#[verifier::external_type_specification]
#[verifier::external_body]
pub struct ExParseError(url::ParseError);

/// Whether `url::Url::parse` accepts the text `s`.
pub uninterp spec fn url_accepts(s: Seq<char>) -> bool;

/// Relies on `url::Url::parse`: whether it succeeds depends on the text
/// alone, and an empty text is no absolute URL.
#[verifier::external_body]
fn parse_url(s: &str) -> (r: Result<url::Url, url::ParseError>)
    ensures
        r is Ok <==> url_accepts(s@),
        s@.len() == 0 ==> r is Err,
{
    url::Url::parse(s)
}

impl Staged for url::Url {
    type Raw = String;

    type Error = url::ParseError;

    open spec fn outcome_of(raw: String, r: Result<url::Url, url::ParseError>) -> bool {
        &&& r is Ok <==> url_accepts(raw@)
        &&& raw@.len() == 0 ==> r is Err
    }

    open spec fn is_default_raw(raw: String) -> bool {
        raw@.len() == 0
    }

    fn default_raw() -> (r: String) {
        String::new()
    }

    fn copy_raw(raw: &String) -> (r: String) {
        raw.clone()
    }

    fn copy_outcome(r: &Result<url::Url, url::ParseError>) -> (c: Result<url::Url, url::ParseError>) {
        match r {
            Ok(u) => Ok(u.clone()),
            Err(e) => Err(*e),
        }
    }

    fn validate(raw: String) -> (r: Result<url::Url, url::ParseError>) {
        parse_url(raw.as_str())
    }
}

/// A text of 1 to 1023 characters.
pub type ConfString = BoundedString<1, 1023>;

/// A URL field.
pub type StagingUrl = StagingString<url::Url>;

#[derive(Debug, Clone, Copy, PartialEq, Eq)]
pub enum CiteEntry2ParsingError {
    /// The required text was never filled in.
    Empty,
    FieldError(BoundedStringParsingError),
    BadUrl(url::ParseError),
}

/// One edit to a citation field.
pub enum CiteField {
    Text(String),
    DoiPresent(bool),
    Doi(String),
    UrlPresent(bool),
    Url(String),
}

/// What a citation with these fields assembles to: a text never filled in
/// reports `Empty`; otherwise the first failing field, in the order text,
/// DOI, URL, decides the error; absent optional fields do not block.
pub open spec fn assembled(
    text_filled: bool,
    text: StagingString<ConfString>,
    doi: StagingOpt<StagingString<ConfString>>,
    url: StagingOpt<StagingUrl>,
) -> Result<CiteEntry2, CiteEntry2ParsingError> {
    if !text_filled {
        Err(CiteEntry2ParsingError::Empty)
    } else {
        match text.spec_parsed() {
            Err(e) => Err(CiteEntry2ParsingError::FieldError(e)),
            Ok(t) => match doi.spec_outcome() {
                Some(Err(e)) => Err(CiteEntry2ParsingError::FieldError(e)),
                _ => match url.spec_outcome() {
                    Some(Err(e)) => Err(CiteEntry2ParsingError::BadUrl(e)),
                    _ => Ok(
                        CiteEntry2 {
                            text: t,
                            doi: match doi.spec_outcome() {
                                Some(Ok(d)) => Some(d),
                                _ => None,
                            },
                            url: match url.spec_outcome() {
                                Some(Ok(u)) => Some(u),
                                _ => None,
                            },
                        },
                    ),
                },
            },
        }
    }
}

/// A citation record: a text field, an optional DOI field, an optional URL
/// field, and the last assembled outcome. It also records whether the text
/// has ever been given a non-empty value.
pub struct StagingCiteEntry2 {
    text_filled: bool,
    staging_text: StagingString<ConfString>,
    staging_doi: StagingOpt<StagingString<ConfString>>,
    staging_url: StagingOpt<StagingUrl>,
    parsed: Result<CiteEntry2, CiteEntry2ParsingError>,
}

impl StagingCiteEntry2 {
    pub closed spec fn spec_text_filled(&self) -> bool {
        self.text_filled
    }

    pub closed spec fn text_field(&self) -> StagingString<ConfString> {
        self.staging_text
    }

    pub closed spec fn doi_field(&self) -> StagingOpt<StagingString<ConfString>> {
        self.staging_doi
    }

    pub closed spec fn url_field(&self) -> StagingOpt<StagingUrl> {
        self.staging_url
    }

    pub closed spec fn spec_parsed(&self) -> Result<CiteEntry2, CiteEntry2ParsingError> {
        self.parsed
    }

    pub open spec fn children_inv(&self) -> bool {
        &&& self.text_field().inv()
        &&& self.doi_field().inv()
        &&& self.url_field().inv()
    }

    pub open spec fn inv(&self) -> bool {
        &&& self.children_inv()
        &&& !self.spec_text_filled() ==> self.text_field().spec_raw()@.len() == 0
        &&& self.spec_parsed() == assembled(
            self.spec_text_filled(),
            self.text_field(),
            self.doi_field(),
            self.url_field(),
        )
    }

    /// An empty citation: no text, no DOI, no URL.
    pub fn new() -> (r: Self)
        ensures
            r.inv(),
            !r.spec_text_filled(),
            r.text_field().spec_raw()@.len() == 0,
            r.doi_field().inner() is None,
            r.url_field().inner() is None,
            r.spec_parsed() == Err::<CiteEntry2, CiteEntry2ParsingError>(
                CiteEntry2ParsingError::Empty,
            ),
    {
        StagingCiteEntry2 {
            text_filled: false,
            staging_text: StagingString::new(InputLines::SingleLine),
            staging_doi: StagingOpt::new(),
            staging_url: StagingOpt::new(),
            parsed: Err(CiteEntry2ParsingError::Empty),
        }
    }

    /// The text field.
    pub fn text_stage(&self) -> (r: &StagingString<ConfString>)
        ensures
            *r == self.text_field(),
    {
        &self.staging_text
    }

    /// The optional DOI field.
    pub fn doi_stage(&self) -> (r: &StagingOpt<StagingString<ConfString>>)
        ensures
            *r == self.doi_field(),
    {
        &self.staging_doi
    }

    /// The optional URL field.
    pub fn url_stage(&self) -> (r: &StagingOpt<StagingUrl>)
        ensures
            *r == self.url_field(),
    {
        &self.staging_url
    }

    /// Builds the citation from the fields' current outcomes.
    pub fn assemble(&self) -> (r: Result<CiteEntry2, CiteEntry2ParsingError>)
        requires
            self.children_inv(),
        ensures
            r == assembled(
                self.spec_text_filled(),
                self.text_field(),
                self.doi_field(),
                self.url_field(),
            ),
    {
        if !self.text_filled {
            return Err(CiteEntry2ParsingError::Empty);
        }
        let text = match self.staging_text.outcome() {
            Ok(t) => t,
            Err(e) => {
                return Err(CiteEntry2ParsingError::FieldError(e));
            },
        };
        let doi = match self.staging_doi.state() {
            Some(Err(e)) => {
                return Err(CiteEntry2ParsingError::FieldError(e));
            },
            Some(Ok(d)) => Some(d),
            None => None,
        };
        let url = match self.staging_url.state() {
            Some(Err(e)) => {
                return Err(CiteEntry2ParsingError::BadUrl(e));
            },
            Some(Ok(u)) => Some(u),
            None => None,
        };
        Ok(CiteEntry2 { text, doi, url })
    }

    /// Applies one edit to its field, then assembles the citation again.
    pub fn set_field(&mut self, field: CiteField)
        requires
            old(self).inv(),
        ensures
            final(self).inv(),
            Self::edited(*old(self), field, *final(self)),
    {
        match field {
            CiteField::Text(s) => {
                if !s.as_str().is_empty() {
                    self.text_filled = true;
                }
                self.staging_text.set_raw(s);
            },
            CiteField::DoiPresent(p) => {
                if p {
                    self.staging_doi.set_present();
                } else {
                    self.staging_doi.set_absent();
                }
            },
            CiteField::Doi(s) => {
                if self.staging_doi.is_present() {
                    self.staging_doi.update_child(s);
                }
            },
            CiteField::UrlPresent(p) => {
                if p {
                    self.staging_url.set_present();
                } else {
                    self.staging_url.set_absent();
                }
            },
            CiteField::Url(s) => {
                if self.staging_url.is_present() {
                    self.staging_url.update_child(s);
                }
            },
        }
        self.parsed = self.assemble();
    }

    /// Whether `new` is `old` after `field`: only the named field changes.
    pub open spec fn edited(old: Self, field: CiteField, new: Self) -> bool {
        match field {
            CiteField::Text(s) => {
                &&& new.spec_text_filled() == (old.spec_text_filled() || s@.len() > 0)
                &&& new.text_field().spec_raw() == s
                &&& new.text_field().spec_input_lines() == old.text_field().spec_input_lines()
                &&& new.doi_field() == old.doi_field()
                &&& new.url_field() == old.url_field()
            },
            CiteField::DoiPresent(p) => {
                &&& new.spec_text_filled() == old.spec_text_filled()
                &&& new.text_field() == old.text_field()
                &&& new.url_field() == old.url_field()
                &&& (new.doi_field().inner() is Some <==> p)
                &&& (p && old.doi_field().inner() is Some) ==> new.doi_field().inner() == old.doi_field().inner()
                &&& (p && old.doi_field().inner() is None)
                    ==> new.doi_field().inner()->Some_0.is_fresh()
            },
            CiteField::Doi(s) => {
                &&& new.spec_text_filled() == old.spec_text_filled()
                &&& new.text_field() == old.text_field()
                &&& new.url_field() == old.url_field()
                &&& old.doi_field().inner() is None ==> new.doi_field().inner() == old.doi_field().inner()
                &&& old.doi_field().inner() is Some ==> new.doi_field().inner() is Some
                    && new.doi_field().inner()->Some_0.spec_raw() == s
            },
            CiteField::UrlPresent(p) => {
                &&& new.spec_text_filled() == old.spec_text_filled()
                &&& new.text_field() == old.text_field()
                &&& new.doi_field() == old.doi_field()
                &&& (new.url_field().inner() is Some <==> p)
                &&& (p && old.url_field().inner() is Some) ==> new.url_field().inner() == old.url_field().inner()
                &&& (p && old.url_field().inner() is None)
                    ==> new.url_field().inner()->Some_0.is_fresh()
            },
            CiteField::Url(s) => {
                &&& new.spec_text_filled() == old.spec_text_filled()
                &&& new.text_field() == old.text_field()
                &&& new.doi_field() == old.doi_field()
                &&& old.url_field().inner() is None ==> new.url_field().inner() == old.url_field().inner()
                &&& old.url_field().inner() is Some ==> new.url_field().inner() is Some
                    && new.url_field().inner()->Some_0.spec_raw() == s
            },
        }
    }

    /// A copy of the last assembled outcome.
    pub fn state(&self) -> (r: Result<CiteEntry2, CiteEntry2ParsingError>)
        ensures
            r == self.spec_parsed(),
    {
        match &self.parsed {
            Ok(c) => Ok(c.copy()),
            Err(e) => Err(*e),
        }
    }
}

impl StagedNode for StagingCiteEntry2 {
    type Raw = CiteField;

    type Value = Result<CiteEntry2, CiteEntry2ParsingError>;

    open spec fn wf(&self) -> bool {
        self.inv()
    }

    open spec fn is_fresh(&self) -> bool {
        &&& !self.spec_text_filled()
        &&& self.text_field().spec_raw()@.len() == 0
        &&& self.doi_field().inner() is None
        &&& self.url_field().inner() is None
    }

    open spec fn spec_state(&self) -> Result<CiteEntry2, CiteEntry2ParsingError> {
        self.spec_parsed()
    }

    open spec fn updated(old: Self, raw: CiteField, new: Self) -> bool {
        Self::edited(old, raw, new)
    }

    fn fresh() -> (r: Self) {
        StagingCiteEntry2::new()
    }

    fn update(&mut self, raw: CiteField) {
        self.set_field(raw)
    }

    fn state(&self) -> (r: Result<CiteEntry2, CiteEntry2ParsingError>) {
        StagingCiteEntry2::state(self)
    }
}

/// A citation whose text was never filled in reports `Empty`, whatever its
/// DOI and URL fields hold: the text comes first.
pub proof fn lemma_empty_text_reported_first(c: StagingCiteEntry2)
    requires
        c.inv(),
        !c.spec_text_filled(),
    ensures
        c.spec_parsed() == Err::<CiteEntry2, CiteEntry2ParsingError>(CiteEntry2ParsingError::Empty),
{
}

} // verus!
