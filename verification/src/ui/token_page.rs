//! The screen that takes the API key.

use crate::newsapi::fetch_sources;
use crate::newsapi::fetch_top;
use crate::newsapi::sources_request;
use crate::newsapi::top_headlines_request;
use crate::newsapi::NewsAPIError;
use crate::newsapi::NewsAPIErrorView;
use crate::trusted::valid_header_value;
use crate::ui::main_page::initial_main_page;
use crate::ui::main_page::MainPage;
use crate::ui::command_views;
use crate::ui::Action;
use crate::ui::ActionView;
use crate::ui::Command;
use crate::ui::CommandView;
use crate::ui::FocusTarget;
use crate::ui::Message;
use crate::ui::Page;
use crate::ui::PageView;
use vstd::prelude::*;

verus! {

/// What can happen on the screen that takes the API key.
#[derive(Debug, Clone)]
pub enum TokenPageMessage {
    /// The text of the input changed.
    OnInput(String),
    /// The key was submitted.
    Submit,
}

/// State of the screen that takes the API key.
#[derive(Debug)]
pub struct TokenPage {
    /// Content of the input.
    token: String,
    /// Why the last submitted key was turned down, if it was.
    error: Option<NewsAPIError>,
    /// What the input holds whenever the screen is shown afresh.
    preset: String,
}

/// The screen as plain values.
pub struct TokenPageView {
    pub token: Seq<char>,
    pub error: Option<NewsAPIErrorView>,
    pub preset: Seq<char>,
}

impl View for TokenPage {
    type V = TokenPageView;

    closed spec fn view(&self) -> TokenPageView {
        TokenPageView {
            token: self.token@,
            error: match self.error {
                Some(e) => Some(e@),
                None => None,
            },
            preset: self.preset@,
        }
    }
}

/// The screen as it is first shown: the input filled in with `preset`, and
/// nothing turned down yet.
pub open spec fn initial_token_page(preset: Seq<char>) -> TokenPageView {
    TokenPageView { token: preset, error: None, preset }
}

/// One step of the screen.
///
/// Typing replaces the content of the input. Submitting a key that can be
/// sent as a header value moves on to the results screen and asks for the
/// focus on the search bar, for the top items, unfiltered, and for the
/// catalog of sources; submitting any other key records why it was turned
/// down. Messages for other screens change nothing.
pub open spec fn token_page_step(pre: TokenPageView, message: Message) -> (
    TokenPageView,
    ActionView,
) {
    match message {
        Message::TokenPage(TokenPageMessage::OnInput(text)) => (
            TokenPageView { token: text@, ..pre },
            ActionView::Nothing,
        ),
        Message::TokenPage(TokenPageMessage::Submit) => if valid_header_value(pre.token) {
            (
                pre,
                ActionView::SwitchPage(
                    PageView::Main(initial_main_page(pre.token, pre.preset)),
                    seq![
                        CommandView::Focus(FocusTarget::SearchBar),
                        CommandView::Search(0, top_headlines_request(pre.token, None)),
                        CommandView::FetchSources(sources_request(pre.token)),
                    ],
                ),
            )
        } else {
            (
                TokenPageView { error: Some(NewsAPIErrorView::HeaderValue), ..pre },
                ActionView::Nothing,
            )
        },
        _ => (pre, ActionView::Nothing),
    }
}

impl TokenPage {
    /// The screen with its input filled in with `token`, which is normally
    /// the key found in the environment, or empty.
    pub fn new(token: String) -> (page: Self)
        ensures
            page@ == initial_token_page(token@),
    {
        TokenPage { token: token.clone(), error: None, preset: token }
    }

    /// Content of the input.
    pub fn token(&self) -> (token: &str)
        ensures
            token@ == self@.token,
    {
        self.token.as_str()
    }

    /// Why the last submitted key was turned down, if it was.
    pub fn error(&self) -> (error: Option<&NewsAPIError>)
        ensures
            match error {
                Some(e) => self@.error == Some(e@),
                None => self@.error is None,
            },
    {
        self.error.as_ref()
    }

    /// Takes one message.
    pub fn update(&mut self, message: Message) -> (action: Action)
        ensures
            (final(self)@, action@) == token_page_step(old(self)@, message),
    {
        match message {
            Message::TokenPage(TokenPageMessage::OnInput(text)) => {
                self.token = text;
                Action::Nothing
            },
            Message::TokenPage(TokenPageMessage::Submit) => {
                match MainPage::new(self.token.as_str(), self.preset.clone()) {
                    Ok(page) => {
                        let mut commands: Vec<Command> = Vec::new();
                        commands.push(Command::Focus(FocusTarget::SearchBar));
                        commands.push(Command::Search(0, fetch_top(self.token.as_str(), None)));
                        commands.push(Command::FetchSources(fetch_sources(self.token.as_str())));
                        assert(command_views(commands@) =~= seq![
                            CommandView::Focus(FocusTarget::SearchBar),
                            CommandView::Search(0, top_headlines_request(self.token@, None)),
                            CommandView::FetchSources(sources_request(self.token@)),
                        ]);
                        Action::SwitchPage((Page::Main(page), commands))
                    },
                    Err(e) => {
                        self.error = Some(e);
                        Action::Nothing
                    },
                }
            },
            _ => Action::Nothing,
        }
    }
}

} // verus!
