//! Running a search: which page to ask for, and what becomes of the answer.
//!
//! The caller asks the network for the page at `JobScrapper::search_url`,
//! reports how that went as a `FetchOutcome`, and gets the listings, or the
//! failure, back from `read_outcome` and `finish_search`.

use vstd::prelude::*;
use vstd::string::*;
use crate::indeed::IndeedProvider;
use crate::providers::{CustomError, JobQuery, JobScrapper, JobTitle, Regions};

verus! {

/// How the one attempt to read a page ended.
#[derive(Debug, PartialEq, Eq)]
pub enum FetchOutcome {
    /// The page came; this is its text, as it was sent.
    Body(String),
    /// The board was not reached, or the connection failed before it
    /// answered; the text says what happened.
    Unreachable(String),
    /// An answer came, but its body could not be read as text; the text
    /// says what happened.
    Unreadable(String),
}

/// The search that is run for every request: the site of Ecuador, asked
/// for remote developer jobs.
pub fn standing_search() -> (search: (IndeedProvider, JobQuery))
    ensures
        search.0.provider_info.name@ == "Indeed"@,
        search.0.provider_info.base_domain_url@ == "indeed.com"@,
        search.0.provider_info.region == Regions::EC,
        search.1.search matches Some(term) && term@ == "developer+remote"@,
{
    (IndeedProvider::new(Regions::EC), JobQuery { search: Some("developer+remote") })
}

/// Turns the end of an attempt into the page's text, or into the failure
/// that the caller of a search sees. Nothing is tried again.
pub fn read_outcome(outcome: FetchOutcome) -> (content: Result<String, CustomError>)
    ensures
        match outcome {
            FetchOutcome::Body(text) => content == Ok::<String, CustomError>(text),
            FetchOutcome::Unreachable(cause) => content matches Err(CustomError::FetchError(message))
                && message@ == "Error feching data: "@ + cause@,
            FetchOutcome::Unreadable(cause) => content matches Err(CustomError::ParserError(message))
                && message@ == "Error on parsing response: "@ + cause@,
        },
{
    match outcome {
        FetchOutcome::Body(text) => Ok(text),
        FetchOutcome::Unreachable(cause) => Err(
            CustomError::FetchError(String::from_str("Error feching data: ").concat(cause.as_str())),
        ),
        FetchOutcome::Unreadable(cause) => Err(
            CustomError::ParserError(
                String::from_str("Error on parsing response: ").concat(cause.as_str()),
            ),
        ),
    }
}

/// Ends a search: the listings of the page that was read, or the failure
/// of the attempt, handed on as it is.
pub fn finish_search<P: JobScrapper>(provider: &P, content: Result<String, CustomError>) -> (result:
    Result<Vec<JobTitle>, CustomError>)
    ensures
        match content {
            Ok(text) => result matches Ok(found) && found.deep_view() == provider.listings(text@),
            Err(error) => result == Err::<Vec<JobTitle>, CustomError>(error),
        },
{
    match content {
        Ok(text) => Ok(provider.find_job_titles(text.as_str())),
        Err(error) => Err(error),
    }
}

} // verus!
