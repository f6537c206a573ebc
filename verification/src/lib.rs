//! The logic of a self-hosted feed reader: feeds and folders, articles and
//! their identities, fetch scheduling, query construction, proxy routing and
//! HTML text extraction.
use vstd::prelude::*;

pub mod assets;
pub mod counts;
pub mod digest;
pub mod dto;
pub mod feed_parse;
pub mod feeds;
pub mod html;
pub mod listing;
pub mod model;
pub mod query;
pub mod scrape;
pub mod set;
pub mod sync;
pub mod text;
pub mod time;

verus! {
} // verus!
