//! Articles as the news service reports them.

use vstd::prelude::*;
use vstd::string::StringExecFns;

verus! {

/// The publisher an article is attributed to. The service leaves either
/// field out at will, so both are optional.
#[derive(Debug, Clone)]
pub struct ArticleSource {
    /// Id of the publisher, as used for filtering.
    pub id: Option<String>,
    /// Display name of the publisher.
    pub name: Option<String>,
}

/// A single article of a listing. Only the title is always present.
#[derive(Debug, Clone)]
pub struct Article {
    /// Publisher metadata.
    pub source: ArticleSource,
    /// Author.
    pub author: Option<String>,
    /// Title.
    pub title: String,
    /// Short description.
    pub description: Option<String>,
    /// Link to the full article.
    pub url: Option<String>,
    /// Link to the article's image.
    pub url_to_image: Option<String>,
    /// Time of publication, in ISO 8601 format.
    pub published_at: Option<String>,
    /// Truncated body of the article; may hold markup.
    pub content: Option<String>,
}

/// The line under the title of an article: author and publisher where both
/// are known, the publisher alone where only it is known, nothing where the
/// publisher is not known.
pub open spec fn byline_of(article: Article) -> Option<Seq<char>> {
    match (article.author, article.source.name) {
        (Some(author), Some(publisher)) => Some(author@ + " - "@ + publisher@),
        (None, Some(publisher)) => Some(publisher@),
        _ => None,
    }
}

impl Article {
    /// The line under the title.
    pub fn byline(&self) -> (line: Option<String>)
        ensures
            line.deep_view() == byline_of(*self),
    {
        match (&self.author, &self.source.name) {
            (Some(author), Some(publisher)) => {
                let mut line = author.clone();
                line.append(" - ");
                line.append(publisher.as_str());
                Some(line)
            },
            (None, Some(publisher)) => Some(publisher.clone()),
            _ => None,
        }
    }

    /// Whether the article has any text of its own to show: a description
    /// or a body.
    pub fn has_text(&self) -> (some: bool)
        ensures
            some == (self.description is Some || self.content is Some),
    {
        self.description.is_some() || self.content.is_some()
    }
}

} // verus!
