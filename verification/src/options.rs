//! Search options: five optional filters, set one at a time.

use crate::decimal::decimal_text;
use crate::query::{optional_decimal, optional_pair, query_pairs};
use vstd::prelude::*;

verus! {

/// What an [`Options`] value holds: each filter is absent, or present with
/// its value.
pub struct OptionsView {
    pub search_query: Option<Seq<char>>,
    pub path: Option<Seq<char>>,
    pub tags: Option<Seq<char>>,
    pub skip: Option<u32>,
    pub limit: Option<u32>,
}

/// The options with every filter absent.
pub open spec fn empty_options() -> OptionsView {
    OptionsView { search_query: None, path: None, tags: None, skip: None, limit: None }
}

/// Options for listing and searching files. Every filter is absent until
/// it is set; no value is checked here.
#[derive(Debug)]
pub struct Options {
    search_query: Option<String>,
    path: Option<String>,
    tags: Option<String>,
    skip: Option<u32>,
    limit: Option<u32>,
}

impl View for Options {
    type V = OptionsView;

    closed spec fn view(&self) -> OptionsView {
        OptionsView {
            search_query: self.search_query.deep_view(),
            path: self.path.deep_view(),
            tags: self.tags.deep_view(),
            skip: self.skip,
            limit: self.limit,
        }
    }
}

impl Default for Options {
    fn default() -> (options: Options)
        ensures
            options@ == empty_options(),
    {
        Options { search_query: None, path: None, tags: None, skip: None, limit: None }
    }
}

impl Options {
    /// Options with no filter set.
    pub fn new() -> (options: Options)
        ensures
            options@ == empty_options(),
    {
        Options { search_query: None, path: None, tags: None, skip: None, limit: None }
    }

    /// Sets the free-text search query and leaves the other filters as
    /// they are.
    pub fn search_query(self, val: String) -> (options: Options)
        ensures
            options@ == (OptionsView { search_query: Some(val@), ..self@ }),
    {
        Options {
            search_query: Some(val),
            path: self.path,
            tags: self.tags,
            skip: self.skip,
            limit: self.limit,
        }
    }

    /// Sets the path filter and leaves the other filters as they are.
    pub fn path(self, val: String) -> (options: Options)
        ensures
            options@ == (OptionsView { path: Some(val@), ..self@ }),
    {
        Options {
            search_query: self.search_query,
            path: Some(val),
            tags: self.tags,
            skip: self.skip,
            limit: self.limit,
        }
    }

    /// Sets the tags filter and leaves the other filters as they are.
    pub fn tags(self, val: String) -> (options: Options)
        ensures
            options@ == (OptionsView { tags: Some(val@), ..self@ }),
    {
        Options {
            search_query: self.search_query,
            path: self.path,
            tags: Some(val),
            skip: self.skip,
            limit: self.limit,
        }
    }

    /// Sets the pagination offset and leaves the other filters as they
    /// are.
    pub fn skip(self, val: u32) -> (options: Options)
        ensures
            options@ == (OptionsView { skip: Some(val), ..self@ }),
    {
        Options {
            search_query: self.search_query,
            path: self.path,
            tags: self.tags,
            skip: Some(val),
            limit: self.limit,
        }
    }

    /// Sets the page size and leaves the other filters as they are.
    pub fn limit(self, val: u32) -> (options: Options)
        ensures
            options@ == (OptionsView { limit: Some(val), ..self@ }),
    {
        Options {
            search_query: self.search_query,
            path: self.path,
            tags: self.tags,
            skip: self.skip,
            limit: Some(val),
        }
    }

    /// The query parameters to send: one name and value for each filter
    /// that is set, none for a filter that is not.
    pub fn query_params(&self) -> (params: Vec<(&'static str, String)>)
        ensures
            params.deep_view() == query_pairs(self@),
    {
        let mut params: Vec<(&'static str, String)> = Vec::new();
        let ghost mut sent: Seq<(Seq<char>, Seq<char>)> = Seq::empty();
        assert(params.deep_view() =~= sent);
        if let Some(text) = &self.search_query {
            params.push(("searchQuery", text.clone()));
        }
        proof {
            sent = sent + optional_pair("searchQuery"@, self@.search_query);
            assert(params.deep_view() =~= sent);
        }
        if let Some(text) = &self.path {
            params.push(("path", text.clone()));
        }
        proof {
            sent = sent + optional_pair("path"@, self@.path);
            assert(params.deep_view() =~= sent);
        }
        if let Some(text) = &self.tags {
            params.push(("tags", text.clone()));
        }
        proof {
            sent = sent + optional_pair("tags"@, self@.tags);
            assert(params.deep_view() =~= sent);
        }
        if let Some(n) = self.skip {
            params.push(("skip", decimal_text(n)));
        }
        proof {
            sent = sent + optional_pair("skip"@, optional_decimal(self@.skip));
            assert(params.deep_view() =~= sent);
        }
        if let Some(n) = self.limit {
            params.push(("limit", decimal_text(n)));
        }
        proof {
            sent = sent + optional_pair("limit"@, optional_decimal(self@.limit));
            assert(params.deep_view() =~= sent);
        }
        params
    }
}

} // verus!
