//! The records that every provider works with.

use vstd::prelude::*;

verus! {

/// Why a search gave no listings.
#[derive(Debug, PartialEq, Eq)]
pub enum CustomError {
    /// An answer arrived, but its body could not be read as text.
    ParserError(String),
    /// The board could not be reached.
    FetchError(String),
}

/// The regional sites of a board.
#[derive(Debug, Clone, Copy, PartialEq, Eq, Structural)]
pub enum Regions {
    AR,
    EC,
}

/// One job posting.
#[derive(Debug, PartialEq, Eq)]
pub struct JobTitle {
    pub name: String,
    pub description: String,
    pub url: String,
    pub salary_info: Option<String>,
}

/// A posting as contracts see it.
pub struct Listing {
    pub name: Seq<char>,
    pub description: Seq<char>,
    pub url: Seq<char>,
    pub salary_info: Option<Seq<char>>,
}

impl DeepView for JobTitle {
    type V = Listing;

    open spec fn deep_view(&self) -> Listing {
        Listing {
            name: self.name@,
            description: self.description@,
            url: self.url@,
            salary_info: self.salary_info.deep_view(),
        }
    }
}

/// What to search for.
pub struct JobQuery {
    pub search: Option<&'static str>,
}

impl JobQuery {
    /// The term that goes into the address: the search term, or nothing.
    pub open spec fn term(&self) -> Seq<char> {
        match self.search {
            Some(text) => text@,
            None => Seq::empty(),
        }
    }
}

/// A job board that can be searched and read.
pub trait JobScrapper {
    /// The address of the board's site, scheme included.
    spec fn domain(&self) -> Seq<char>;

    /// The address of the page that answers a query.
    spec fn search_address(&self, query: JobQuery) -> Seq<char>;

    /// The listings that a page of the board holds.
    spec fn listings(&self, content: Seq<char>) -> Seq<Listing>;

    /// Reads the listings out of a page. Every text is a page: one without
    /// postings, or with nothing that can be read, holds no listings.
    fn find_job_titles(&self, content: &str) -> (found: Vec<JobTitle>)
        ensures
            found.deep_view() == self.listings(content@),
    ;

    /// The address to ask for the page that answers `query`.
    fn search_url(&self, query: &JobQuery) -> (url: String)
        ensures
            url@ == self.search_address(*query),
    ;

    fn get_domain(&self) -> (domain: String)
        ensures
            domain@ == self.domain(),
    ;
}

} // verus!
