//! The image cache: a flat directory of files, each named by a digest of the
//! URL its bytes came from. This module computes the names, validates
//! payloads, and decides, step by step, how one URL is resolved; reading,
//! downloading and writing are left to the caller.

use crate::newsapi::NewsAPIError;
use crate::newsapi::NewsAPIErrorView;
use crate::trusted::guess_format;
use crate::trusted::hex_encode;
use crate::trusted::hex_lower;
use crate::trusted::is_already_exists;
use crate::trusted::is_known_image;
use crate::trusted::reports_already_exists;
use crate::trusted::sha256;
use crate::trusted::sha256_digest;
use vstd::prelude::*;
use vstd::utf8::encode_utf8;

verus! {

/// Number of leading digest bytes that name a cache entry.
pub const KEY_BYTES: usize = 8;

/// The name of the cache entry of `url`: the first eight bytes of the
/// SHA-256 digest of its UTF-8 text, in lower-case hexadecimal.
pub open spec fn cache_key_of(url: Seq<char>) -> Seq<char> {
    hex_lower(sha256(encode_utf8(url)).take(KEY_BYTES as int))
}

/// The name that goes with a digest: its first eight bytes in lower-case
/// hexadecimal, sixteen digits in all.
pub fn key_from_digest(digest: &[u8; 32]) -> (key: String)
    ensures
        key@ == hex_lower(digest@.take(KEY_BYTES as int)),
        key@.len() == 16,
{
    let mut prefix: Vec<u8> = Vec::new();
    let mut i: usize = 0;
    while i < KEY_BYTES
        invariant
            i <= KEY_BYTES,
            prefix@ == digest@.take(i as int),
        decreases KEY_BYTES - i,
    {
        prefix.push(digest[i]);
        i += 1;
    }
    hex_encode(prefix.as_slice())
}

/// Computes the name under which the payload of `url` is cached.
pub fn cache_key(url: &str) -> (key: String)
    ensures
        key@ == cache_key_of(url@),
        key@.len() == 16,
{
    let digest = sha256_digest(url.as_bytes());
    key_from_digest(&digest)
}

/// Turns the verdict of the format sniff into the fate of the payload: with
/// a recognised format the bytes pass unchanged, without one they are
/// dropped and the sniff's error is reported.
pub fn checked_payload(
    bytes: Vec<u8>,
    guess: Result<image::ImageFormat, image::ImageError>,
) -> (out: Result<Vec<u8>, NewsAPIError>)
    ensures
        out == match guess {
            Ok(_) => Ok::<Vec<u8>, NewsAPIError>(bytes),
            Err(e) => Err::<Vec<u8>, NewsAPIError>(NewsAPIError::Image(e)),
        },
{
    match guess {
        Ok(_) => Ok(bytes),
        Err(e) => Err(NewsAPIError::Image(e)),
    }
}

/// Validates a downloaded payload by its leading bytes.
pub fn validate_image(bytes: Vec<u8>) -> (out: Result<Vec<u8>, NewsAPIError>)
    ensures
        is_known_image(bytes@) ==> out == Ok::<Vec<u8>, NewsAPIError>(bytes),
        !is_known_image(bytes@) ==> out is Err && out->Err_0 is Image,
{
    let guess = guess_format(bytes.as_slice());
    checked_payload(bytes, guess)
}

/// How the attempt to create the cache directory ended.
#[derive(Debug)]
pub enum DirOutcome {
    /// The directory was created.
    Created,
    /// The directory was there already, which is as good.
    AlreadyExists,
    /// The directory could not be created.
    Failed(std::io::Error),
}

impl DirOutcome {
    /// Classifies the result of creating the cache directory, given
    /// whether its error, if any, says that the directory exists already.
    /// Only an error that says anything else counts as a failure, and it
    /// is kept.
    pub fn classify(result: Result<(), std::io::Error>, already_exists: bool) -> (out: DirOutcome)
        ensures
            out == match result {
                Ok(_) => DirOutcome::Created,
                Err(e) => if already_exists {
                    DirOutcome::AlreadyExists
                } else {
                    DirOutcome::Failed(e)
                },
            },
    {
        match result {
            Ok(()) => DirOutcome::Created,
            Err(e) => {
                if already_exists {
                    DirOutcome::AlreadyExists
                } else {
                    DirOutcome::Failed(e)
                }
            },
        }
    }

    /// Classifies the result of creating the cache directory by the kind
    /// of its error: an existing directory is as good as a new one, and
    /// any other error is a failure, which is kept.
    pub fn from_result(result: Result<(), std::io::Error>) -> (out: DirOutcome)
        ensures
            out == match result {
                Ok(_) => DirOutcome::Created,
                Err(e) => if reports_already_exists(e) {
                    DirOutcome::AlreadyExists
                } else {
                    DirOutcome::Failed(e)
                },
            },
    {
        let already_exists = match &result {
            Ok(_) => false,
            Err(e) => is_already_exists(e),
        };
        DirOutcome::classify(result, already_exists)
    }
}

/// A directory outcome without the error it may carry.
pub enum DirOutcomeView {
    Created,
    AlreadyExists,
    Failed,
}

impl View for DirOutcome {
    type V = DirOutcomeView;

    open spec fn view(&self) -> DirOutcomeView {
        match *self {
            DirOutcome::Created => DirOutcomeView::Created,
            DirOutcome::AlreadyExists => DirOutcomeView::AlreadyExists,
            DirOutcome::Failed(_) => DirOutcomeView::Failed,
        }
    }
}

/// Where the resolution of one URL stands: what it last asked for and has
/// not been told yet.
#[derive(Debug, Clone, Copy, PartialEq, Eq, Structural)]
pub enum ResolveState {
    /// Waiting for the cache directory.
    CreatingDir,
    /// Waiting to learn whether the entry exists.
    Probing,
    /// A hit: waiting for the bytes of the entry.
    Reading,
    /// A miss: waiting for the download.
    Fetching,
    /// The bytes were delivered or the resolution failed.
    Finished,
}

/// What the outside world reports back to a resolution.
#[derive(Debug)]
pub enum ResolveEvent {
    /// The cache directory was asked for.
    DirCreated(DirOutcome),
    /// Whether a file exists under the entry's name.
    Probed(bool),
    /// The entry was read, or could not be.
    FileRead(Result<Vec<u8>, std::io::Error>),
    /// The URL was downloaded in full, or could not be.
    Fetched(Result<Vec<u8>, reqwest::Error>),
}

/// An event as plain values: payloads as byte sequences, and of an error
/// only that it occurred.
pub enum ResolveEventView {
    DirCreated(DirOutcomeView),
    Probed(bool),
    FileRead(Option<Seq<u8>>),
    Fetched(Option<Seq<u8>>),
}

impl View for ResolveEvent {
    type V = ResolveEventView;

    open spec fn view(&self) -> ResolveEventView {
        match *self {
            ResolveEvent::DirCreated(outcome) => ResolveEventView::DirCreated(outcome@),
            ResolveEvent::Probed(exists) => ResolveEventView::Probed(exists),
            ResolveEvent::FileRead(Ok(bytes)) => ResolveEventView::FileRead(Some(bytes@)),
            ResolveEvent::FileRead(Err(_)) => ResolveEventView::FileRead(None),
            ResolveEvent::Fetched(Ok(bytes)) => ResolveEventView::Fetched(Some(bytes@)),
            ResolveEvent::Fetched(Err(_)) => ResolveEventView::Fetched(None),
        }
    }
}

/// What a resolution asks of the outside world next.
#[derive(Debug)]
pub enum ResolveAction {
    /// Create the cache directory and report how it went.
    CreateDir,
    /// Report whether a file of this name exists in the cache directory.
    Probe(String),
    /// Read the file of this name in the cache directory.
    ReadFile(String),
    /// Download this URL.
    Fetch(String),
    /// Hand `bytes` to whoever asked. Where `store_as` holds a name, also
    /// write the same bytes to that file in the background; how the write
    /// ends is of no concern to the one who asked.
    Deliver { bytes: Vec<u8>, store_as: Option<String> },
    /// Report the failure to whoever asked.
    Fail(NewsAPIError),
    /// Nothing is left to do.
    Idle,
}

/// An action as plain values.
pub enum ResolveActionView {
    CreateDir,
    Probe(Seq<char>),
    ReadFile(Seq<char>),
    Fetch(Seq<char>),
    Deliver { bytes: Seq<u8>, store_as: Option<Seq<char>> },
    Fail(NewsAPIErrorView),
    Idle,
}

impl View for ResolveAction {
    type V = ResolveActionView;

    open spec fn view(&self) -> ResolveActionView {
        match *self {
            ResolveAction::CreateDir => ResolveActionView::CreateDir,
            ResolveAction::Probe(name) => ResolveActionView::Probe(name@),
            ResolveAction::ReadFile(name) => ResolveActionView::ReadFile(name@),
            ResolveAction::Fetch(url) => ResolveActionView::Fetch(url@),
            ResolveAction::Deliver { bytes, store_as } => ResolveActionView::Deliver {
                bytes: bytes@,
                store_as: store_as.deep_view(),
            },
            ResolveAction::Fail(error) => ResolveActionView::Fail(error@),
            ResolveAction::Idle => ResolveActionView::Idle,
        }
    }
}

/// The action a resolution of `url` is waiting on in `state`.
pub open spec fn pending(url: Seq<char>, state: ResolveState) -> ResolveActionView {
    match state {
        ResolveState::CreatingDir => ResolveActionView::CreateDir,
        ResolveState::Probing => ResolveActionView::Probe(cache_key_of(url)),
        ResolveState::Reading => ResolveActionView::ReadFile(cache_key_of(url)),
        ResolveState::Fetching => ResolveActionView::Fetch(url),
        ResolveState::Finished => ResolveActionView::Idle,
    }
}

/// One step of the resolution of `url`: the state after `event` and the
/// action to take.
///
/// The directory comes first, and only a failure to create it that is not
/// "already exists" ends the resolution. An existing entry is read and
/// delivered as it is. A missing one is downloaded; the download is
/// delivered, and stored under the entry's name, only if it is a known image.
/// An event that does not answer the pending action changes nothing, and the
/// pending action is asked for again.
pub open spec fn resolve_step(url: Seq<char>, state: ResolveState, event: ResolveEventView) -> (
    ResolveState,
    ResolveActionView,
) {
    match (state, event) {
        (ResolveState::CreatingDir, ResolveEventView::DirCreated(DirOutcomeView::Failed)) => (
            ResolveState::Finished,
            ResolveActionView::Fail(NewsAPIErrorView::IO),
        ),
        (ResolveState::CreatingDir, ResolveEventView::DirCreated(_)) => (
            ResolveState::Probing,
            pending(url, ResolveState::Probing),
        ),
        (ResolveState::Probing, ResolveEventView::Probed(true)) => (
            ResolveState::Reading,
            pending(url, ResolveState::Reading),
        ),
        (ResolveState::Probing, ResolveEventView::Probed(false)) => (
            ResolveState::Fetching,
            pending(url, ResolveState::Fetching),
        ),
        (ResolveState::Reading, ResolveEventView::FileRead(Some(bytes))) => (
            ResolveState::Finished,
            ResolveActionView::Deliver { bytes, store_as: None },
        ),
        (ResolveState::Reading, ResolveEventView::FileRead(None)) => (
            ResolveState::Finished,
            ResolveActionView::Fail(NewsAPIErrorView::IO),
        ),
        (ResolveState::Fetching, ResolveEventView::Fetched(Some(bytes))) => (
            ResolveState::Finished,
            if is_known_image(bytes) {
                ResolveActionView::Deliver { bytes, store_as: Some(cache_key_of(url)) }
            } else {
                ResolveActionView::Fail(NewsAPIErrorView::Image)
            },
        ),
        (ResolveState::Fetching, ResolveEventView::Fetched(None)) => (
            ResolveState::Finished,
            ResolveActionView::Fail(NewsAPIErrorView::Reqwest),
        ),
        _ => (state, pending(url, state)),
    }
}

/// The resolution of one image URL through the cache.
#[derive(Debug)]
pub struct Resolution {
    url: String,
    key: String,
    state: ResolveState,
}

/// A resolution as plain values.
pub struct ResolutionView {
    pub url: Seq<char>,
    pub state: ResolveState,
}

impl View for Resolution {
    type V = ResolutionView;

    closed spec fn view(&self) -> ResolutionView {
        ResolutionView { url: self.url@, state: self.state }
    }
}

impl Resolution {
    #[verifier::type_invariant]
    spec fn key_matches_url(self) -> bool {
        self.key@ == cache_key_of(self.url@)
    }

    /// The URL being resolved.
    pub fn url(&self) -> (url: &str)
        ensures
            url@ == self@.url,
    {
        self.url.as_str()
    }

    /// Where the resolution stands.
    pub fn state(&self) -> (state: ResolveState)
        ensures
            state == self@.state,
    {
        self.state
    }

    /// Whether the resolution has delivered or failed.
    pub fn is_finished(&self) -> (done: bool)
        ensures
            done == (self@.state == ResolveState::Finished),
    {
        match self.state {
            ResolveState::Finished => true,
            _ => false,
        }
    }

    /// Takes the resolution one step further on `event`.
    pub fn step(&mut self, event: ResolveEvent) -> (action: ResolveAction)
        ensures
            final(self)@.url == old(self)@.url,
            (final(self)@.state, action@) == resolve_step(old(self)@.url, old(self)@.state, event@),
            old(self)@.state == ResolveState::CreatingDir ==> (event matches ResolveEvent::DirCreated(
                DirOutcome::Failed(e),
            ) ==> action == ResolveAction::Fail(NewsAPIError::IO(e))),
            old(self)@.state == ResolveState::Reading ==> (event matches ResolveEvent::FileRead(Err(e))
                ==> action == ResolveAction::Fail(NewsAPIError::IO(e))),
            old(self)@.state == ResolveState::Fetching ==> (event matches ResolveEvent::Fetched(Err(e))
                ==> action == ResolveAction::Fail(NewsAPIError::Reqwest(e))),
    {
        proof {
            use_type_invariant(&*self);
        }
        match (self.state, event) {
            (ResolveState::CreatingDir, ResolveEvent::DirCreated(DirOutcome::Failed(e))) => {
                self.state = ResolveState::Finished;
                ResolveAction::Fail(NewsAPIError::IO(e))
            },
            (ResolveState::CreatingDir, ResolveEvent::DirCreated(_)) => {
                self.state = ResolveState::Probing;
                ResolveAction::Probe(self.key.clone())
            },
            (ResolveState::Probing, ResolveEvent::Probed(true)) => {
                self.state = ResolveState::Reading;
                ResolveAction::ReadFile(self.key.clone())
            },
            (ResolveState::Probing, ResolveEvent::Probed(false)) => {
                self.state = ResolveState::Fetching;
                ResolveAction::Fetch(self.url.clone())
            },
            (ResolveState::Reading, ResolveEvent::FileRead(Ok(bytes))) => {
                self.state = ResolveState::Finished;
                ResolveAction::Deliver { bytes, store_as: None }
            },
            (ResolveState::Reading, ResolveEvent::FileRead(Err(e))) => {
                self.state = ResolveState::Finished;
                ResolveAction::Fail(NewsAPIError::IO(e))
            },
            (ResolveState::Fetching, ResolveEvent::Fetched(Ok(bytes))) => {
                self.state = ResolveState::Finished;
                match validate_image(bytes) {
                    Ok(bytes) => ResolveAction::Deliver { bytes, store_as: Some(self.key.clone()) },
                    Err(e) => ResolveAction::Fail(e),
                }
            },
            (ResolveState::Fetching, ResolveEvent::Fetched(Err(e))) => {
                self.state = ResolveState::Finished;
                ResolveAction::Fail(NewsAPIError::Reqwest(e))
            },
            (state, _) => {
                match state {
                    ResolveState::CreatingDir => ResolveAction::CreateDir,
                    ResolveState::Probing => ResolveAction::Probe(self.key.clone()),
                    ResolveState::Reading => ResolveAction::ReadFile(self.key.clone()),
                    ResolveState::Fetching => ResolveAction::Fetch(self.url.clone()),
                    ResolveState::Finished => ResolveAction::Idle,
                }
            },
        }
    }
}

/// Starts the resolution of the image at `url`: the first thing to do is to
/// make sure that the cache directory exists.
pub fn get_image_from_url(url: &str) -> (started: (Resolution, ResolveAction))
    ensures
        started.0@ == (ResolutionView { url: url@, state: ResolveState::CreatingDir }),
        started.1@ == ResolveActionView::CreateDir,
{
    let resolution = Resolution {
        url: url.to_owned(),
        key: cache_key(url),
        state: ResolveState::CreatingDir,
    };
    (resolution, ResolveAction::CreateDir)
}

} // verus!
