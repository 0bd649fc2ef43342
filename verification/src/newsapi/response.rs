//! Bare payloads of the two article endpoints.

use crate::newsapi::article::Article;
use vstd::prelude::*;

verus! {

/// Payload of the `top-headlines` endpoint.
#[derive(Debug, Clone)]
pub struct TopHeadlinesResponse {
    pub status: Option<String>,
    pub total_results: Option<i32>,
    pub articles: Vec<Article>,
}

/// Payload of the `everything` endpoint.
#[derive(Debug, Clone)]
pub struct EverythingResponse {
    pub status: String,
    pub total_results: Option<i32>,
    pub articles: Vec<Article>,
}

} // verus!
