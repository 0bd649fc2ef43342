//! The screens as state machines: messages in, state changes and commands
//! out. Which widget shows what, and how commands are carried out, is left
//! to the program around them.

pub mod main_page;
pub mod source;
pub mod token_page;

use crate::newsapi::Request;
use crate::newsapi::RequestView;
use crate::ui::main_page::accepts;
use crate::ui::main_page::main_page_step;
use crate::ui::main_page::ImageJob;
use crate::ui::main_page::ImageJobView;
use crate::ui::main_page::MainPage;
use crate::ui::main_page::MainPageMessage;
use crate::ui::main_page::MainPageView;
use crate::ui::token_page::initial_token_page;
use crate::ui::token_page::token_page_step;
use crate::ui::token_page::TokenPage;
use crate::ui::token_page::TokenPageMessage;
use crate::ui::token_page::TokenPageView;
use vstd::prelude::*;

verus! {

/// Id of the input that takes the API key.
pub const TOKEN_INPUT_ID: &'static str = "token_input_box";

/// Id of the search bar.
pub const SEARCH_BAR_ID: &'static str = "search_box";

/// Id of the input that narrows the source panel.
pub const SOURCE_FILTER_ID: &'static str = "source_filter_input";

/// An input that can be given the keyboard focus.
#[derive(Debug, Clone, Copy, PartialEq, Eq, Structural)]
pub enum FocusTarget {
    TokenInput,
    SearchBar,
    SourceFilter,
}

impl FocusTarget {
    /// The id under which the input is known to the widget tree.
    pub fn id(self) -> (id: &'static str)
        ensures
            id@ == match self {
                FocusTarget::TokenInput => TOKEN_INPUT_ID@,
                FocusTarget::SearchBar => SEARCH_BAR_ID@,
                FocusTarget::SourceFilter => SOURCE_FILTER_ID@,
            },
    {
        match self {
            FocusTarget::TokenInput => TOKEN_INPUT_ID,
            FocusTarget::SearchBar => SEARCH_BAR_ID,
            FocusTarget::SourceFilter => SOURCE_FILTER_ID,
        }
    }
}

/// Work that a screen hands to the program around it.
#[derive(Debug)]
pub enum Command {
    /// Give the keyboard focus to an input.
    Focus(FocusTarget),
    /// Send the request; report the answer as a completed search of this
    /// generation.
    Search(u64, Request),
    /// Send the request for the catalog and report the answer as the
    /// fetched sources.
    FetchSources(Request),
    /// Resolve the image and report it as loaded, or as missing.
    LoadImage(ImageJob),
    /// Open the link with whatever the system opens links with.
    OpenLink(String),
}

/// A command as plain values.
pub enum CommandView {
    Focus(FocusTarget),
    Search(u64, RequestView),
    FetchSources(RequestView),
    LoadImage(ImageJobView),
    OpenLink(Seq<char>),
}

impl View for Command {
    type V = CommandView;

    open spec fn view(&self) -> CommandView {
        match *self {
            Command::Focus(target) => CommandView::Focus(target),
            Command::Search(generation, request) => CommandView::Search(generation, request@),
            Command::FetchSources(request) => CommandView::FetchSources(request@),
            Command::LoadImage(job) => CommandView::LoadImage(job@),
            Command::OpenLink(link) => CommandView::OpenLink(link@),
        }
    }
}

/// The commands of a list, each as plain values.
pub open spec fn command_views(commands: Seq<Command>) -> Seq<CommandView> {
    Seq::new(commands.len(), |i: int| commands[i]@)
}

/// Everything that can happen to the application.
#[derive(Debug, Clone)]
pub enum Message {
    /// Something happened on the screen that takes the API key.
    TokenPage(TokenPageMessage),
    /// Something happened on the screen that shows the results.
    MainPage(MainPageMessage),
    /// A link was clicked.
    OpenLink(String),
    /// The escape key was pressed.
    Escape,
    /// A click that nothing reacts to.
    NoOp,
}

/// What a screen asks for after a message.
#[derive(Debug)]
pub enum Action {
    /// Show this screen from now on, and carry out the commands.
    SwitchPage((Page, Vec<Command>)),
    /// Carry out the commands.
    Task(Vec<Command>),
    /// Nothing.
    Nothing,
}

/// An action as plain values.
pub enum ActionView {
    SwitchPage(PageView, Seq<CommandView>),
    Task(Seq<CommandView>),
    Nothing,
}

impl View for Action {
    type V = ActionView;

    open spec fn view(&self) -> ActionView {
        match *self {
            Action::SwitchPage((page, commands)) => ActionView::SwitchPage(
                page@,
                command_views(commands@),
            ),
            Action::Task(commands) => ActionView::Task(command_views(commands@)),
            Action::Nothing => ActionView::Nothing,
        }
    }
}

/// The screen that is shown: the one that takes the API key, or the one
/// with the results.
#[derive(Debug)]
pub enum Page {
    Token(TokenPage),
    Main(MainPage),
}

/// A screen as plain values.
pub enum PageView {
    Token(TokenPageView),
    Main(MainPageView),
}

impl View for Page {
    type V = PageView;

    open spec fn view(&self) -> PageView {
        match *self {
            Page::Token(page) => PageView::Token(page@),
            Page::Main(page) => PageView::Main(page@),
        }
    }
}

/// Whether the shown screen can take the message. The key screen takes
/// every message; the results screen turns some down.
pub open spec fn page_accepts(page: PageView, message: Message) -> bool {
    match page {
        PageView::Token(_) => true,
        PageView::Main(main) => accepts(main, message),
    }
}

/// One step of the shown screen.
pub open spec fn page_step(page: PageView, message: Message) -> (PageView, ActionView) {
    match page {
        PageView::Token(token) => {
            let (next, action) = token_page_step(token, message);
            (PageView::Token(next), action)
        },
        PageView::Main(main) => {
            let (next, action) = main_page_step(main, message);
            (PageView::Main(next), action)
        },
    }
}

impl Page {
    /// Whether the shown screen can take the message.
    pub fn can_take(&self, message: &Message) -> (ok: bool)
        ensures
            ok == page_accepts(self@, *message),
    {
        match self {
            Page::Token(_) => true,
            Page::Main(page) => page.can_take(message),
        }
    }

    /// Hands the message to the shown screen.
    pub fn update(&mut self, message: Message) -> (action: Action)
        requires
            page_accepts(old(self)@, message),
        ensures
            (final(self)@, action@) == page_step(old(self)@, message),
    {
        match self {
            Page::Token(page) => page.update(message),
            Page::Main(page) => page.update(message),
        }
    }
}

/// One step of the application: a clicked link is passed on to be opened;
/// any other message goes to the shown screen, whose answer decides which
/// screen is shown next and what is to be done.
pub open spec fn app_step(page: PageView, message: Message) -> (PageView, Seq<CommandView>) {
    match message {
        Message::OpenLink(link) => (page, seq![CommandView::OpenLink(link@)]),
        _ => {
            let (next, action) = page_step(page, message);
            match action {
                ActionView::SwitchPage(other, commands) => (other, commands),
                ActionView::Task(commands) => (next, commands),
                ActionView::Nothing => (next, Seq::empty()),
            }
        },
    }
}

/// The application: the screen that is shown.
#[derive(Debug)]
pub struct App {
    page: Page,
}

impl View for App {
    type V = PageView;

    closed spec fn view(&self) -> PageView {
        self.page@
    }
}

impl App {
    /// Starts on the screen that takes the API key, filled in with
    /// `token`, and asks for the focus on its input.
    pub fn new(token: String) -> (started: (Self, Vec<Command>))
        ensures
            started.0@ == PageView::Token(initial_token_page(token@)),
            command_views(started.1@) == seq![CommandView::Focus(FocusTarget::TokenInput)],
    {
        let app = App { page: Page::Token(TokenPage::new(token)) };
        let mut commands: Vec<Command> = Vec::new();
        commands.push(Command::Focus(FocusTarget::TokenInput));
        assert(command_views(commands@) =~= seq![CommandView::Focus(FocusTarget::TokenInput)]);
        (app, commands)
    }

    /// The screen that is shown.
    pub fn page(&self) -> (page: &Page)
        ensures
            page@ == self@,
    {
        &self.page
    }

    /// Whether the application can take the message.
    pub fn can_take(&self, message: &Message) -> (ok: bool)
        ensures
            ok == page_accepts(self@, *message),
    {
        self.page.can_take(message)
    }

    /// Takes one message and returns what is to be done about it.
    pub fn update(&mut self, message: Message) -> (commands: Vec<Command>)
        requires
            page_accepts(old(self)@, message),
        ensures
            (final(self)@, command_views(commands@)) == app_step(old(self)@, message),
    {
        if let Message::OpenLink(link) = message {
            let mut commands: Vec<Command> = Vec::new();
            commands.push(Command::OpenLink(link));
            assert(command_views(commands@) =~= seq![CommandView::OpenLink(link@)]);
            return commands;
        }
        match self.page.update(message) {
            Action::SwitchPage((page, commands)) => {
                self.page = page;
                commands
            },
            Action::Task(commands) => commands,
            Action::Nothing => {
                let commands: Vec<Command> = Vec::new();
                assert(command_views(commands@) =~= Seq::<CommandView>::empty());
                commands
            },
        }
    }
}

} // verus!
