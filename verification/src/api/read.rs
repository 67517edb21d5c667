//! The search as it arrives with a request, and what it asks for.

use crate::identifier::{hyphenated, uuid_text, uuid_value};
use crate::management::{Searchable, DEFAULT_PAGE, DEFAULT_PER_PAGE};
use vstd::prelude::*;

verus! {

/// The parameters of a search, each as the request gave it or left it out.
pub struct QuerySearch<D> {
    pub id: Option<u128>,
    pub pattern: Option<String>,
    pub start_date: Option<D>,
    pub end_date: Option<D>,
    pub page: Option<usize>,
    pub per_page: Option<usize>,
}

impl<D: Copy + Sync + Send> Searchable for QuerySearch<D> {
    type Id = String;

    type Date = D;

    open spec fn id(&self) -> Option<Seq<char>> {
        match self.id {
            Some(id) => Some(uuid_text(id)),
            None => None,
        }
    }

    open spec fn pattern(&self) -> Option<Seq<char>> {
        match self.pattern {
            Some(pattern) => Some(pattern@),
            None => None,
        }
    }

    /// A range needs both of its ends: one end alone is no range.
    open spec fn date_range(&self) -> Option<(D, D)> {
        match (self.start_date, self.end_date) {
            (Some(start), Some(end)) => Some((start, end)),
            _ => None,
        }
    }

    /// The page of the request where it names one from one on, else the
    /// first.
    open spec fn page(&self) -> nat {
        match self.page {
            Some(page) if page >= 1 => page as nat,
            _ => DEFAULT_PAGE as nat,
        }
    }

    /// The page size of the request where it names one from one on, else
    /// the default.
    open spec fn per_page(&self) -> nat {
        match self.per_page {
            Some(per_page) if per_page >= 1 => per_page as nat,
            _ => DEFAULT_PER_PAGE as nat,
        }
    }

    /// The identifier in its hyphenated form, which reads back as the
    /// identifier.
    fn get_id(&self) -> (id: Option<String>)
        ensures
            id matches Some(text) ==> uuid_value(text@) == self.id,
    {
        match self.id {
            Some(id) => Some(hyphenated(id)),
            None => None,
        }
    }

    fn get_pattern(&self) -> (pattern: Option<String>) {
        match &self.pattern {
            Some(pattern) => Some(pattern.clone()),
            None => None,
        }
    }

    fn get_date_range(&self) -> (range: Option<(D, D)>) {
        match (self.start_date, self.end_date) {
            (Some(start), Some(end)) => Some((start, end)),
            _ => None,
        }
    }

    fn get_page(&self) -> (page: usize) {
        match self.page {
            Some(page) => if page >= 1 {
                page
            } else {
                DEFAULT_PAGE
            },
            None => DEFAULT_PAGE,
        }
    }

    fn get_per_page(&self) -> (per_page: usize) {
        match self.per_page {
            Some(per_page) => if per_page >= 1 {
                per_page
            } else {
                DEFAULT_PER_PAGE
            },
            None => DEFAULT_PER_PAGE,
        }
    }
}

} // verus!
