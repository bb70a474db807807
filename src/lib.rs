//! Scrapers for several web search engines: request building, result
//! extraction and normalisation, verified with Verus.
use vstd::prelude::*;

pub mod bing;
pub mod brave;
pub mod dom;
pub mod duckduckgo;
pub mod librex;
pub mod link;
pub mod parser;
pub mod request;
pub mod result;
pub mod startpage;
pub mod text;

verus! {

} // verus!
