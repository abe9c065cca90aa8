//! The lazily loaded article entity: a locator, an optional body fetched by a
//! collaborator, and an optional title derived from the body. All operations
//! are pure; whenever page text is needed, the caller fetches it (the address
//! comes from `fetch_request`) and hands it in as a plain value.

use vstd::prelude::*;
use crate::locator::WikipediaUrl;
use crate::extract::{spec_extract_title, spec_connections, extract_title, extract_connections};

verus! {

/// The mathematical value of a page: its optional title, its address, and its
/// optional body text.
pub struct PageModel {
    pub title: Option<Seq<char>>,
    pub url: Seq<char>,
    pub body: Option<Seq<char>>,
}

/// The view of an optional owned string.
pub open spec fn opt_view(s: Option<String>) -> Option<Seq<char>> {
    match s {
        Some(t) => Some(t@),
        None => None,
    }
}

/// The views of a sequence of pages, in order.
pub open spec fn page_views(s: Seq<Page>) -> Seq<PageModel> {
    s.map_values(|p: Page| p@)
}

/// Loading a body is a no-op once a body is present; otherwise it stores the
/// fetched text.
pub open spec fn spec_load_body(m: PageModel, text: Seq<char>) -> PageModel {
    if m.body is Some {
        m
    } else {
        PageModel { body: Some(text), ..m }
    }
}

/// Unloading drops the body and keeps everything else.
pub open spec fn spec_unload_body(m: PageModel) -> PageModel {
    PageModel { body: None, ..m }
}

/// The title a page can currently resolve: an already-set title, else the
/// title extracted from a present body, else nothing.
pub open spec fn spec_derived_title(m: PageModel) -> Option<Seq<char>> {
    if m.title is Some {
        m.title
    } else if m.body is Some {
        spec_extract_title(m.body->0)
    } else {
        None
    }
}

/// Deriving the title stores whatever the page can currently resolve.
pub open spec fn spec_load_title(m: PageModel) -> PageModel {
    PageModel { title: spec_derived_title(m), ..m }
}

/// A title derivation that found no title pattern in a loaded body: the one
/// recoverable failure of title loading.
#[derive(Debug, PartialEq, Eq)]
pub enum TitleError {
    TitleNotFound,
}

/// One article: a validated locator, and lazily a body and a title.
#[derive(Debug)]
pub struct Page {
    title: Option<String>,
    url: WikipediaUrl,
    body: Option<String>,
}

impl View for Page {
    type V = PageModel;

    closed spec fn view(&self) -> PageModel {
        PageModel {
            title: opt_view(self.title),
            url: self.url@,
            body: opt_view(self.body),
        }
    }
}

impl Page {
    /// A fresh, unloaded page: only the locator is known.
    pub fn new(url: WikipediaUrl) -> (r: Page)
        ensures
            r@ == (PageModel { title: None, url: url@, body: None }),
    {
        Page { title: None, url, body: None }
    }

    /// A page discovered through a link: the link text supplies the title and
    /// no body is loaded.
    pub fn new_with_title(url: WikipediaUrl, title: String) -> (r: Page)
        ensures
            r@ == (PageModel { title: Some(title@), url: url@, body: None }),
    {
        Page { title: Some(title), url, body: None }
    }

    /// The page's address, for the fetch collaborator.
    pub fn get_url(&self) -> (r: &String)
        ensures
            r@ == self@.url,
    {
        self.url.get_url()
    }

    /// Whether a body is currently loaded.
    pub fn body_loaded(&self) -> (r: bool)
        ensures
            r == (self@.body is Some),
    {
        self.body.is_some()
    }

    /// Whether a title has been derived.
    pub fn title_loaded(&self) -> (r: bool)
        ensures
            r == (self@.title is Some),
    {
        self.title.is_some()
    }

    /// What a body-requiring operation needs from the transport: the address
    /// to fetch, or nothing when the body is already present.
    pub fn fetch_request(&self) -> (r: Option<&String>)
        ensures
            match r {
                Some(u) => self@.body is None && u@ == self@.url,
                None => self@.body is Some,
            },
    {
        if self.body.is_some() {
            None
        } else {
            Some(self.url.get_url())
        }
    }

    /// Store fetched page text. A no-op when a body is already present, so
    /// loading is idempotent and at most one fetch is ever consumed.
    pub fn load_body(&mut self, fetched: String)
        ensures
            final(self)@ == spec_load_body(old(self)@, fetched@),
    {
        if self.body.is_none() {
            self.body = Some(fetched);
        }
    }

    /// Drop the body to reclaim memory. The title, once derived, is kept.
    pub fn unload_body(&mut self)
        ensures
            final(self)@ == spec_unload_body(old(self)@),
    {
        self.body = None;
    }

    /// Derive and store the title. A no-op when a title is already present;
    /// otherwise the title is extracted from the loaded body, and a body
    /// without a title pattern is reported as `TitleNotFound`.
    pub fn load_title(&mut self) -> (r: Result<(), TitleError>)
        requires
            old(self)@.title is Some || old(self)@.body is Some,
        ensures
            match r {
                Ok(()) => spec_derived_title(old(self)@) is Some && final(self)@ == spec_load_title(
                    old(self)@,
                ),
                Err(e) => e == TitleError::TitleNotFound && spec_derived_title(old(self)@) is None
                    && *final(self) == *old(self),
            },
    {
        if self.title.is_some() {
            return Ok(());
        }
        let body = match &self.body {
            Some(b) => b,
            None => {
                return Err(TitleError::TitleNotFound);  // unreachable under the precondition
            },
        };
        match extract_title(body.as_str()) {
            Some(t) => {
                self.title = Some(t);
                Ok(())
            },
            None => Err(TitleError::TitleNotFound),
        }
    }

    /// Derive the title only from what is already loaded: a no-op when the
    /// body is absent, never a fetch.
    pub fn try_load_title(&mut self) -> (r: Result<(), TitleError>)
        ensures
            match r {
                Ok(()) => final(self)@ == spec_load_title(old(self)@) && (old(self)@.title is Some
                    || old(self)@.body is None || spec_derived_title(old(self)@) is Some),
                Err(e) => e == TitleError::TitleNotFound && old(self)@.title is None && old(
                    self,
                )@.body is Some && spec_derived_title(old(self)@) is None && *final(self) == *old(
                    self,
                ),
            },
    {
        if self.title.is_some() {
            return Ok(());
        }
        if self.body.is_none() {
            return Ok(());
        }
        self.load_title()
    }

    /// The derived title. Requires a title or a body to be present, as
    /// `load_title` does.
    pub fn get_title(&mut self) -> (r: Result<String, TitleError>)
        requires
            old(self)@.title is Some || old(self)@.body is Some,
        ensures
            match r {
                Ok(t) => spec_derived_title(old(self)@) == Some(t@) && final(self)@
                    == spec_load_title(old(self)@),
                Err(e) => e == TitleError::TitleNotFound && spec_derived_title(old(self)@) is None
                    && *final(self) == *old(self),
            },
    {
        match self.load_title() {
            Ok(()) => {
                match &self.title {
                    Some(t) => Ok(t.clone()),
                    None => {
                        proof {
                            assert(false);
                        }
                        Err(TitleError::TitleNotFound)
                    },
                }
            },
            Err(e) => Err(e),
        }
    }

    /// The title, if it is already resolvable without a fetch: `Ok(None)` when
    /// no body and no title are present.
    pub fn try_get_title(&mut self) -> (r: Result<Option<String>, TitleError>)
        ensures
            match r {
                Ok(t) => final(self)@ == spec_load_title(old(self)@) && opt_view(t) == spec_load_title(
                    old(self)@,
                ).title,
                Err(e) => e == TitleError::TitleNotFound && old(self)@.title is None && old(
                    self,
                )@.body is Some && spec_derived_title(old(self)@) is None && *final(self) == *old(
                    self,
                ),
            },
    {
        match self.try_load_title() {
            Ok(()) => {
                match &self.title {
                    Some(t) => Ok(Some(t.clone())),
                    None => Ok(None),
                }
            },
            Err(e) => Err(e),
        }
    }

    /// Build a page and derive its title from the supplied page text in one
    /// step.
    pub fn new_load_title(wiki_url: WikipediaUrl, fetched: String) -> (r: Result<Page, TitleError>)
        ensures
            match r {
                Ok(p) => spec_extract_title(fetched@) is Some && p@ == (PageModel {
                    title: spec_extract_title(fetched@),
                    url: wiki_url@,
                    body: Some(fetched@),
                }),
                Err(e) => e == TitleError::TitleNotFound && spec_extract_title(fetched@) is None,
            },
    {
        let mut page = Page::new(wiki_url);
        page.load_body(fetched);
        match page.load_title() {
            Ok(()) => Ok(page),
            Err(e) => Err(e),
        }
    }

    /// The pages this page links to, one per surviving extracted link, each
    /// pre-titled from its link text and unloaded.
    pub fn get_connections(&self) -> (r: Vec<Page>)
        requires
            self@.body is Some,
        ensures
            page_views(r@) == spec_connections(self@.body->0),
    {
        let body = match &self.body {
            Some(b) => b,
            None => {
                proof {
                    assert(false);
                }
                return Vec::new();
            },
        };
        extract_connections(body.as_str())
    }

    /// The linked pages, but only when a body is already loaded: never a
    /// fetch, `None` when the body is absent.
    pub fn try_get_connections(&self) -> (r: Option<Vec<Page>>)
        ensures
            match r {
                Some(v) => self@.body is Some && page_views(v@) == spec_connections(
                    self@.body->0,
                ),
                None => self@.body is None,
            },
    {
        if self.body.is_some() {
            Some(self.get_connections())
        } else {
            None
        }
    }
}

/// Law: loading a body is idempotent. Once one load has stored text, a second
/// load — with whatever the transport would have returned — changes nothing,
/// so a body-requiring operation consumes exactly one fetch over the page's
/// loaded lifetime, and both loads leave the same stored body.
pub proof fn lemma_load_body_idempotent(m: PageModel, first: Seq<char>, second: Seq<char>)
    ensures
        spec_load_body(spec_load_body(m, first), second) == spec_load_body(m, first),
        spec_load_body(m, first).body is Some,
        m.body is None ==> spec_load_body(m, first).body == Some(first),
{
}

/// Law: after `unload_body` the title is retained but the body is gone, so a
/// title derivation needs exactly one new fetch; and given the same page text
/// it derives exactly the title it would have derived before the unload.
pub proof fn lemma_unload_then_title_recomputed(m: PageModel, text: Seq<char>)
    requires
        m.body is None || m.body == Some(text),
    ensures
        spec_unload_body(m).title == m.title,
        spec_unload_body(m).body is None,
        spec_load_title(spec_load_body(spec_unload_body(m), text)).title == spec_load_title(
            spec_load_body(m, text),
        ).title,
{
}

} // verus!
