//! Client side of the news service: what is asked of it and what it answers.

pub mod article;
pub mod response;
pub mod source;

use crate::newsapi::article::Article;
use crate::newsapi::source::Source;
use crate::trusted::image_error_display;
use crate::trusted::io_error_debug;
use crate::trusted::reqwest_error_debug;
use crate::trusted::serde_json_error_debug;
use vstd::prelude::*;
use vstd::string::StringExecFns;

verus! {

/// Everything that can go wrong between a request and a usable answer.
#[derive(Debug)]
pub enum NewsAPIError {
    /// The service answered with a failure payload.
    Api {
        /// Machine-readable code of the failure.
        code: String,
        /// Human-readable explanation.
        message: String,
    },
    /// The HTTP transport failed.
    Reqwest(reqwest::Error),
    /// The body of an answer could not be decoded.
    Serde(serde_json::Error),
    /// The local cache could not be read or written.
    IO(std::io::Error),
    /// A payload is not an image in any known container format.
    Image(image::ImageError),
    /// The API key cannot be sent as a header value.
    HeaderValue(reqwest::header::InvalidHeaderValue),
}

/// An error as plain values: its kind, and for a failure that the service
/// reported, the code and the message. What an outside error holds inside is
/// not part of it.
pub enum NewsAPIErrorView {
    Api { code: Seq<char>, message: Seq<char> },
    Reqwest,
    Serde,
    IO,
    Image,
    HeaderValue,
}

impl View for NewsAPIError {
    type V = NewsAPIErrorView;

    open spec fn view(&self) -> NewsAPIErrorView {
        match *self {
            NewsAPIError::Api { code, message } => NewsAPIErrorView::Api {
                code: code@,
                message: message@,
            },
            NewsAPIError::Reqwest(_) => NewsAPIErrorView::Reqwest,
            NewsAPIError::Serde(_) => NewsAPIErrorView::Serde,
            NewsAPIError::IO(_) => NewsAPIErrorView::IO,
            NewsAPIError::Image(_) => NewsAPIErrorView::Image,
            NewsAPIError::HeaderValue(_) => NewsAPIErrorView::HeaderValue,
        }
    }
}

/// The text an error is shown with. `detail` is what the outside error
/// says of itself; the two kinds that carry no outside error, or none
/// worth showing, do without it.
pub open spec fn error_text(error: NewsAPIErrorView, detail: Seq<char>) -> Seq<char> {
    match error {
        NewsAPIErrorView::Api { code, message } => "API returned an error: "@ + message
            + " (code "@ + code + ")"@,
        NewsAPIErrorView::Reqwest => "HTTP request failed: "@ + detail,
        NewsAPIErrorView::Serde => "Failed to parse JSON response: "@ + detail,
        NewsAPIErrorView::IO => "IO Error: "@ + detail,
        NewsAPIErrorView::Image => "Invalid Image "@ + detail,
        NewsAPIErrorView::HeaderValue => "Invalid Header Value"@,
    }
}

impl NewsAPIError {
    /// What the outside error inside says of itself; empty where there is
    /// none to ask, or none worth showing.
    pub fn detail(&self) -> (detail: String)
        ensures
            self@ is Api || self@ is HeaderValue ==> detail@ == Seq::<char>::empty(),
    {
        match self {
            NewsAPIError::Reqwest(e) => reqwest_error_debug(e),
            NewsAPIError::Serde(e) => serde_json_error_debug(e),
            NewsAPIError::IO(e) => io_error_debug(e),
            NewsAPIError::Image(e) => image_error_display(e),
            _ => String::new(),
        }
    }

    /// The text the error is shown with, given what the outside error
    /// inside says of itself.
    pub fn text_with(&self, detail: &str) -> (text: String)
        ensures
            text@ == error_text(self@, detail@),
    {
        match self {
            NewsAPIError::Api { code, message } => {
                let mut text = "API returned an error: ".to_owned();
                text.append(message.as_str());
                text.append(" (code ");
                text.append(code.as_str());
                text.append(")");
                text
            },
            NewsAPIError::Reqwest(_) => {
                let mut text = "HTTP request failed: ".to_owned();
                text.append(detail);
                text
            },
            NewsAPIError::Serde(_) => {
                let mut text = "Failed to parse JSON response: ".to_owned();
                text.append(detail);
                text
            },
            NewsAPIError::IO(_) => {
                let mut text = "IO Error: ".to_owned();
                text.append(detail);
                text
            },
            NewsAPIError::Image(_) => {
                let mut text = "Invalid Image ".to_owned();
                text.append(detail);
                text
            },
            NewsAPIError::HeaderValue(_) => "Invalid Header Value".to_owned(),
        }
    }

    /// The text the error is shown with. For a failure that the service
    /// reported and for a refused key the text is fixed by the error; for
    /// the others it ends in what the outside error says of itself.
    pub fn to_string(&self) -> (text: String)
        ensures
            exists|detail: Seq<char>| text@ == #[trigger] error_text(self@, detail),
            self@ is Api || self@ is HeaderValue ==> text@ == error_text(self@, Seq::empty()),
    {
        let detail = self.detail();
        self.text_with(detail.as_str())
    }
}

/// Success payload of the article endpoints.
#[derive(Debug, Clone)]
pub struct NewsAPIArticlesSuccess {
    /// Status string of the service; "ok" here.
    pub status: String,
    /// Total number of results the service knows of.
    pub total_results: i32,
    /// Articles of this page; empty where the payload had none.
    pub articles: Vec<Article>,
}

/// Success payload of the sources endpoint.
#[derive(Debug, Clone)]
pub struct NewsAPISourcesSuccess {
    /// Status string of the service; "ok" here.
    pub status: String,
    /// The catalog; empty where the payload had none.
    pub sources: Vec<Source>,
}

/// Failure payload of any endpoint.
#[derive(Debug)]
pub struct NewsAPIFail {
    /// Status string of the service; "error" here.
    pub status: String,
    /// Machine-readable code of the failure.
    pub code: String,
    /// Human-readable explanation.
    pub message: String,
}

/// Answer of an article endpoint: a listing or a failure.
#[derive(Debug)]
pub enum NewsAPIArticleResponse {
    Success(NewsAPIArticlesSuccess),
    Fail(NewsAPIFail),
}

/// Answer of the sources endpoint: a catalog or a failure.
#[derive(Debug)]
pub enum NewsAPISourceResponse {
    Success(NewsAPISourcesSuccess),
    Fail(NewsAPIFail),
}

/// A listing is a success; a failure payload becomes an error that keeps
/// its code and its message.
impl From<NewsAPIArticleResponse> for Result<NewsAPIArticlesSuccess, NewsAPIError> {
    fn from(val: NewsAPIArticleResponse) -> (out: Self) {
        match val {
            NewsAPIArticleResponse::Success(v) => Ok(v),
            NewsAPIArticleResponse::Fail(e) => Err(
                NewsAPIError::Api { code: e.code, message: e.message },
            ),
        }
    }
}

impl vstd::std_specs::convert::FromSpecImpl<NewsAPIArticleResponse> for Result<NewsAPIArticlesSuccess, NewsAPIError> {
    open spec fn obeys_from_spec() -> bool {
        true
    }

    open spec fn from_spec(val: NewsAPIArticleResponse) -> Self {
        match val {
            NewsAPIArticleResponse::Success(v) => Ok(v),
            NewsAPIArticleResponse::Fail(e) => Err(
                NewsAPIError::Api { code: e.code, message: e.message },
            ),
        }
    }
}

/// A catalog is a success; a failure payload becomes an error that keeps
/// its code and its message.
impl From<NewsAPISourceResponse> for Result<NewsAPISourcesSuccess, NewsAPIError> {
    fn from(val: NewsAPISourceResponse) -> (out: Self) {
        match val {
            NewsAPISourceResponse::Success(v) => Ok(v),
            NewsAPISourceResponse::Fail(e) => Err(
                NewsAPIError::Api { code: e.code, message: e.message },
            ),
        }
    }
}

impl vstd::std_specs::convert::FromSpecImpl<NewsAPISourceResponse> for Result<NewsAPISourcesSuccess, NewsAPIError> {
    open spec fn obeys_from_spec() -> bool {
        true
    }

    open spec fn from_spec(val: NewsAPISourceResponse) -> Self {
        match val {
            NewsAPISourceResponse::Success(v) => Ok(v),
            NewsAPISourceResponse::Fail(e) => Err(
                NewsAPIError::Api { code: e.code, message: e.message },
            ),
        }
    }
}

/// Each outside error has its own variant, so that `?` can raise it.
impl From<reqwest::Error> for NewsAPIError {
    fn from(error: reqwest::Error) -> (out: Self) {
        NewsAPIError::Reqwest(error)
    }
}

impl vstd::std_specs::convert::FromSpecImpl<reqwest::Error> for NewsAPIError {
    open spec fn obeys_from_spec() -> bool {
        true
    }

    open spec fn from_spec(error: reqwest::Error) -> Self {
        NewsAPIError::Reqwest(error)
    }
}

impl From<serde_json::Error> for NewsAPIError {
    fn from(error: serde_json::Error) -> (out: Self) {
        NewsAPIError::Serde(error)
    }
}

impl vstd::std_specs::convert::FromSpecImpl<serde_json::Error> for NewsAPIError {
    open spec fn obeys_from_spec() -> bool {
        true
    }

    open spec fn from_spec(error: serde_json::Error) -> Self {
        NewsAPIError::Serde(error)
    }
}

impl From<std::io::Error> for NewsAPIError {
    fn from(error: std::io::Error) -> (out: Self) {
        NewsAPIError::IO(error)
    }
}

impl vstd::std_specs::convert::FromSpecImpl<std::io::Error> for NewsAPIError {
    open spec fn obeys_from_spec() -> bool {
        true
    }

    open spec fn from_spec(error: std::io::Error) -> Self {
        NewsAPIError::IO(error)
    }
}

impl From<image::ImageError> for NewsAPIError {
    fn from(error: image::ImageError) -> (out: Self) {
        NewsAPIError::Image(error)
    }
}

impl vstd::std_specs::convert::FromSpecImpl<image::ImageError> for NewsAPIError {
    open spec fn obeys_from_spec() -> bool {
        true
    }

    open spec fn from_spec(error: image::ImageError) -> Self {
        NewsAPIError::Image(error)
    }
}

impl From<reqwest::header::InvalidHeaderValue> for NewsAPIError {
    fn from(error: reqwest::header::InvalidHeaderValue) -> (out: Self) {
        NewsAPIError::HeaderValue(error)
    }
}

impl vstd::std_specs::convert::FromSpecImpl<reqwest::header::InvalidHeaderValue> for NewsAPIError {
    open spec fn obeys_from_spec() -> bool {
        true
    }

    open spec fn from_spec(error: reqwest::header::InvalidHeaderValue) -> Self {
        NewsAPIError::HeaderValue(error)
    }
}

/// Endpoint of the listing of top items.
pub const TOP_HEADLINES_URL: &'static str = "https://newsapi.org/v2/top-headlines";

/// Endpoint of the full-text search.
pub const EVERYTHING_URL: &'static str = "https://newsapi.org/v2/everything";

/// Endpoint of the publisher catalog.
pub const SOURCES_URL: &'static str = "https://newsapi.org/v2/top-headlines/sources";

/// Name of the header that carries the API key on every request.
pub const API_KEY_HEADER: &'static str = "X-Api-Key";

/// One HTTP GET against the service, ready to be sent.
#[derive(Debug, Clone)]
pub struct Request {
    /// The endpoint.
    pub url: String,
    /// The query parameters, in the order in which they are appended.
    pub query: Vec<(String, String)>,
    /// The key to send in the `X-Api-Key` header.
    pub api_key: String,
}

/// A request as plain text.
pub struct RequestView {
    pub url: Seq<char>,
    pub query: Seq<(Seq<char>, Seq<char>)>,
    pub api_key: Seq<char>,
}

impl View for Request {
    type V = RequestView;

    open spec fn view(&self) -> RequestView {
        RequestView {
            url: self.url@,
            query: self.query.deep_view(),
            api_key: self.api_key@,
        }
    }
}

/// Whether a source filter restricts a request: an absent filter and an empty
/// one both leave the request unrestricted.
pub open spec fn filter_applies(sources: Option<Seq<char>>) -> bool {
    sources matches Some(ids) && ids.len() > 0
}

/// The listing request. With a filter the sources select the items; without
/// one the listing falls back to the general category.
pub open spec fn top_headlines_request(
    api_key: Seq<char>,
    sources: Option<Seq<char>>,
) -> RequestView {
    RequestView {
        url: TOP_HEADLINES_URL@,
        query: if filter_applies(sources) {
            seq![("sources"@, sources->0)]
        } else {
            seq![("category"@, "general"@)]
        },
        api_key,
    }
}

/// The search request: the query text, and the sources as a second
/// constraint where a filter applies.
pub open spec fn everything_request(
    api_key: Seq<char>,
    query: Seq<char>,
    sources: Option<Seq<char>>,
) -> RequestView {
    RequestView {
        url: EVERYTHING_URL@,
        query: if filter_applies(sources) {
            seq![("q"@, query), ("sources"@, sources->0)]
        } else {
            seq![("q"@, query)]
        },
        api_key,
    }
}

/// The catalog request, which takes no parameters.
pub open spec fn sources_request(api_key: Seq<char>) -> RequestView {
    RequestView { url: SOURCES_URL@, query: seq![], api_key }
}

/// The request for a submitted query: an empty query asks for the listing,
/// any other for a search.
pub open spec fn search_request(
    api_key: Seq<char>,
    query: Seq<char>,
    sources: Option<Seq<char>>,
) -> RequestView {
    if query.len() == 0 {
        top_headlines_request(api_key, sources)
    } else {
        everything_request(api_key, query, sources)
    }
}

/// Plans the request for the top items.
///
/// `sources` is a comma-joined list of source ids; `None` and the empty
/// string both mean no filter.
pub fn fetch_top(api_key: &str, sources: Option<String>) -> (req: Request)
    ensures
        req@ == top_headlines_request(api_key@, sources.deep_view()),
{
    let mut query: Vec<(String, String)> = Vec::new();
    match sources {
        Some(ids) => {
            if ids.as_str().is_empty() {
                query.push(("category".to_owned(), "general".to_owned()));
            } else {
                query.push(("sources".to_owned(), ids));
            }
        },
        None => {
            query.push(("category".to_owned(), "general".to_owned()));
        },
    }
    let req = Request { url: TOP_HEADLINES_URL.to_owned(), query, api_key: api_key.to_owned() };
    assert(req.query.deep_view() =~= top_headlines_request(
        api_key@,
        sources.deep_view(),
    ).query);
    req
}

/// Plans a full-text search for `query`.
///
/// `sources` is a comma-joined list of source ids; `None` and the empty
/// string both mean no filter.
pub fn search_articles(api_key: &str, query: &str, sources: Option<String>) -> (req: Request)
    ensures
        req@ == everything_request(api_key@, query@, sources.deep_view()),
{
    let mut params: Vec<(String, String)> = Vec::new();
    params.push(("q".to_owned(), query.to_owned()));
    match sources {
        Some(ids) => {
            if !ids.as_str().is_empty() {
                params.push(("sources".to_owned(), ids));
            }
        },
        None => {},
    }
    let req = Request { url: EVERYTHING_URL.to_owned(), query: params, api_key: api_key.to_owned() };
    assert(req.query.deep_view() =~= everything_request(
        api_key@,
        query@,
        sources.deep_view(),
    ).query);
    req
}

/// Plans the request for the publisher catalog.
pub fn fetch_sources(api_key: &str) -> (req: Request)
    ensures
        req@ == sources_request(api_key@),
{
    let req = Request { url: SOURCES_URL.to_owned(), query: Vec::new(), api_key: api_key.to_owned() };
    assert(req.query.deep_view() =~= Seq::<(Seq<char>, Seq<char>)>::empty());
    req
}

/// Plans the request for a submitted query: the listing for an empty query,
/// a search for any other.
pub fn search(api_key: &str, query: &str, sources: Option<String>) -> (req: Request)
    ensures
        req@ == search_request(api_key@, query@, sources.deep_view()),
{
    if query.is_empty() {
        fetch_top(api_key, sources)
    } else {
        search_articles(api_key, query, sources)
    }
}

} // verus!
