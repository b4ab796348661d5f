//! The query and response shapes of the full-text search collaborator.
//! The service builds queries here; the transport runs elsewhere.

use vstd::prelude::*;

verus! {

/// A search query, assembled field by field.
pub struct SearchQuery {
    pub q: String,
    pub offset: Option<i64>,
    pub limit: Option<i64>,
    pub highlight_pre_tag: String,
    pub highlight_post_tag: String,
    pub show_matches_position: bool,
    pub sort: Vec<String>,
    pub attributes_to_highlight: Vec<String>,
}

impl SearchQuery {
    pub fn new() -> (r: Self)
        ensures
            r.q@.len() == 0,
            r.offset is None,
            r.limit is None,
            r.highlight_pre_tag@.len() == 0,
            r.highlight_post_tag@.len() == 0,
            !r.show_matches_position,
            r.sort@.len() == 0,
            r.attributes_to_highlight@.len() == 0,
    {
        SearchQuery {
            q: String::new(),
            offset: None,
            limit: None,
            highlight_pre_tag: String::new(),
            highlight_post_tag: String::new(),
            show_matches_position: false,
            sort: Vec::new(),
            attributes_to_highlight: Vec::new(),
        }
    }

    pub fn set_attributes_to_highlight(self, highlight: Vec<String>) -> (r: Self)
        ensures
            r == (SearchQuery { attributes_to_highlight: highlight, ..self }),
    {
        SearchQuery { attributes_to_highlight: highlight, ..self }
    }

    pub fn set_show_matches_position(self, show: bool) -> (r: Self)
        ensures
            r == (SearchQuery { show_matches_position: show, ..self }),
    {
        SearchQuery { show_matches_position: show, ..self }
    }

    pub fn set_q(self, q: String) -> (r: Self)
        ensures
            r == (SearchQuery { q, ..self }),
    {
        SearchQuery { q, ..self }
    }

    pub fn set_offset(self, offset: i64) -> (r: Self)
        ensures
            r == (SearchQuery { offset: Some(offset), ..self }),
    {
        SearchQuery { offset: Some(offset), ..self }
    }

    pub fn set_limit(self, limit: i64) -> (r: Self)
        ensures
            r == (SearchQuery { limit: Some(limit), ..self }),
    {
        SearchQuery { limit: Some(limit), ..self }
    }

    pub fn set_highlight_pre_tag(self, highlight_pre_tag: String) -> (r: Self)
        ensures
            r == (SearchQuery { highlight_pre_tag, ..self }),
    {
        SearchQuery { highlight_pre_tag, ..self }
    }

    pub fn set_highlight_post_tag(self, highlight_post_tag: String) -> (r: Self)
        ensures
            r == (SearchQuery { highlight_post_tag, ..self }),
    {
        SearchQuery { highlight_post_tag, ..self }
    }

    pub fn set_sort(self, sort: Vec<String>) -> (r: Self)
        ensures
            r == (SearchQuery { sort, ..self }),
    {
        SearchQuery { sort, ..self }
    }

    pub fn build(self) -> (r: SearchQuery)
        ensures
            r == self,
    {
        self
    }
}

/// One highlighted hit body.
pub struct Formatted {
    pub description: String,
    pub id: String,
    pub title: String,
}

/// One search hit.
pub struct Hits {
    pub id: i64,
    pub title: String,
    pub description: String,
    pub formatted: Formatted,
}

/// A page of search hits.
pub struct SearchResponse {
    pub hits: Vec<Hits>,
    pub offset: i64,
    pub limit: i64,
    pub total_hits: i64,
    pub query: String,
}

} // verus!
