//! Job listings read from the search pages of a job board.
//!
//! A provider knows the address of a board's search page and how to turn
//! the HTML of such a page into listings. Reading the page from the network
//! is left to the caller: the library says which address to ask for, and
//! what an answer, or the lack of one, amounts to.

pub mod indeed;
pub mod jobs;
pub mod listing;
pub mod page;
pub mod providers;
pub mod text;
