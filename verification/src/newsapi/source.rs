//! Publishers that listings can be filtered by.

use vstd::prelude::*;

verus! {

/// One entry of the publisher catalog.
#[derive(Debug, Clone)]
pub struct Source {
    /// Id of the publisher; requests filter by it.
    pub id: String,
    /// Display name.
    pub name: String,
    /// Longer description.
    pub description: String,
    /// Link to the publisher.
    pub url: String,
    /// Category of the publisher.
    pub category: String,
    /// Language.
    pub language: String,
    /// Country.
    pub country: String,
}

} // verus!
