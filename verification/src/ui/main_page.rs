//! The results screen: the current listing, one image slot per article, the
//! source switches, and the bookkeeping that tells fresh image completions
//! from stale ones.

use crate::newsapi::article::Article;
use crate::newsapi::search;
use crate::newsapi::search_request;
use crate::trusted::header_value;
use crate::trusted::valid_header_value;
use crate::newsapi::NewsAPIArticlesSuccess;
use crate::newsapi::NewsAPIError;
use crate::newsapi::NewsAPIErrorView;
use crate::newsapi::NewsAPISourcesSuccess;
use crate::ui::command_views;
use crate::ui::source::all_off;
use crate::laws::screens::step_keeps_page_well_formed;
use crate::ui::source::catalog_ids;
use crate::ui::source::distinct_ids;
use crate::ui::source::enabled_ids;
use crate::ui::source::filter_text;
use crate::ui::source::fresh_switches;
use crate::ui::source::set_state;
use crate::ui::source::source_page;
use crate::ui::source::source_panel;
use crate::ui::source::SourcePanel;
use crate::ui::source::EnabledSources;
use crate::ui::source::Switches;
use crate::ui::token_page::initial_token_page;
use crate::ui::token_page::TokenPage;
use crate::ui::Action;
use crate::ui::ActionView;
use crate::ui::Command;
use crate::ui::CommandView;
use crate::ui::FocusTarget;
use crate::ui::Message;
use crate::ui::Page;
use crate::ui::PageView;
use vstd::prelude::*;

verus! {

/// A loaded image: the validated bytes, ready to be decoded and drawn.
#[derive(Debug, Clone)]
pub struct ImageHandle {
    pub bytes: Vec<u8>,
}

/// One unit of image work: resolve `url` for the article at `index` of the
/// listing that the search of `generation` brought.
#[derive(Debug, Clone)]
pub struct ImageJob {
    pub index: usize,
    pub url: String,
    pub generation: u64,
}

/// A job as plain values.
pub struct ImageJobView {
    pub index: int,
    pub url: Seq<char>,
    pub generation: u64,
}

impl View for ImageJob {
    type V = ImageJobView;

    open spec fn view(&self) -> ImageJobView {
        ImageJobView { index: self.index as int, url: self.url@, generation: self.generation }
    }
}

/// What can happen on the results screen.
#[derive(Debug, Clone)]
pub enum MainPageMessage {
    /// The text of the search bar changed.
    SearchBarOnInput(String),
    /// The text that narrows the source panel changed.
    SourceFilterOnInput(String),
    /// The query was submitted.
    SearchSubmit,
    /// The search of the given generation was answered.
    SearchComplete(u64, Result<NewsAPIArticlesSuccess, String>),
    /// The catalog request was answered.
    SourcesFetched(Result<NewsAPISourcesSuccess, String>),
    /// A source was switched on or off.
    SourceToggled(String, bool),
    /// An image job of the given generation ended: with the image for the
    /// article at an index, or with nothing.
    ImageLoaded(u64, Option<(usize, ImageHandle)>),
    /// An article was opened in the detail view, or the view was closed.
    ActiveArticle(Option<usize>),
    /// The source panel was opened or closed.
    ToggleSourcePage,
    /// Every source was switched off.
    DisableAllSources,
    /// The user wants to enter another API key.
    BackToApiKeyPage,
}

/// The answer to the last completed search with what hangs on it: the
/// image slots and the detail view. The three change together, so that
/// there is always one slot per listed article and the detail view never
/// shows an article without a slot.
#[derive(Debug)]
struct Listing {
    /// Answer to the last completed search.
    search_result: Option<Result<NewsAPIArticlesSuccess, String>>,
    /// One slot per article of the listing.
    images_loaded: Vec<Option<ImageHandle>>,
    /// The article shown in the detail view.
    active_article: Option<usize>,
}

impl Listing {
    #[verifier::type_invariant]
    spec fn in_step(self) -> bool {
        &&& self.images_loaded@.len() == articles_of(self.search_result).len()
        &&& self.active_article matches Some(index) ==> index < self.images_loaded@.len()
    }

    /// Nothing listed yet.
    fn idle() -> (out: Self)
        ensures
            out.search_result is None,
            out.images_loaded@ == Seq::<Option<ImageHandle>>::empty(),
            out.active_article is None,
    {
        Listing { search_result: None, images_loaded: Vec::new(), active_article: None }
    }

    /// The answer to a search, with one empty slot per article that it
    /// lists and the detail view closed.
    fn loaded(result: Result<NewsAPIArticlesSuccess, String>) -> (out: Self)
        ensures
            out.search_result == Some(result),
            out.images_loaded@ == empty_slots(articles_of(Some(result)).len()),
            out.active_article is None,
    {
        let slots = match &result {
            Ok(data) => blank_slots(data.articles.len()),
            Err(_) => blank_slots(0),
        };
        Listing { search_result: Some(result), images_loaded: slots, active_article: None }
    }

    /// The same listing with the image in the slot at `index`.
    fn with_image(self, index: usize, handle: ImageHandle) -> (out: Self)
        requires
            index < self.images_loaded@.len(),
        ensures
            out.search_result == self.search_result,
            out.images_loaded@ == self.images_loaded@.update(index as int, Some(handle)),
            out.active_article == self.active_article,
    {
        proof {
            use_type_invariant(&self);
        }
        let Listing { search_result, images_loaded, active_article } = self;
        let mut images_loaded = images_loaded;
        images_loaded.set(index, Some(handle));
        Listing { search_result, images_loaded, active_article }
    }
}

/// State of the results screen.
#[derive(Debug)]
pub struct MainPage {
    /// The key that every request carries.
    api_key: String,
    /// What the key input holds when the user goes back to it.
    preset_token: String,
    /// Content of the search bar.
    search_query: String,
    /// The listing, its image slots and the detail view.
    listing: Listing,
    /// Answer to the last catalog request.
    source_data: Option<Result<NewsAPISourcesSuccess, String>>,
    /// Which sources are switched on.
    enabled_sources: EnabledSources,
    /// Whether the source panel is open.
    source_page: bool,
    /// Text that narrows the source panel.
    source_filter: String,
    /// Number of the last submitted search.
    generation: u64,
}

/// The results screen as plain values.
pub struct MainPageView {
    pub api_key: Seq<char>,
    pub preset_token: Seq<char>,
    pub search_query: Seq<char>,
    pub search_result: Option<Result<NewsAPIArticlesSuccess, String>>,
    pub images_loaded: Seq<Option<ImageHandle>>,
    pub active_article: Option<usize>,
    pub source_data: Option<Result<NewsAPISourcesSuccess, String>>,
    pub enabled_sources: Switches,
    pub source_page: bool,
    pub source_filter: Seq<char>,
    pub generation: u64,
}

impl View for MainPage {
    type V = MainPageView;

    closed spec fn view(&self) -> MainPageView {
        MainPageView {
            api_key: self.api_key@,
            preset_token: self.preset_token@,
            search_query: self.search_query@,
            search_result: self.listing.search_result,
            images_loaded: self.listing.images_loaded@,
            active_article: self.listing.active_article,
            source_data: self.source_data,
            enabled_sources: self.enabled_sources@,
            source_page: self.source_page,
            source_filter: self.source_filter@,
            generation: self.generation,
        }
    }
}

/// The screen before any search: nothing listed, no slot, no switch, both
/// overlays closed.
pub open spec fn initial_main_page(api_key: Seq<char>, preset_token: Seq<char>) -> MainPageView {
    MainPageView {
        api_key,
        preset_token,
        search_query: Seq::empty(),
        search_result: None,
        images_loaded: Seq::empty(),
        active_article: None,
        source_data: None,
        enabled_sources: Seq::empty(),
        source_page: false,
        source_filter: Seq::empty(),
        generation: 0,
    }
}

/// The generation after `generation`.
pub open spec fn next_generation(generation: u64) -> u64 {
    (generation + 1) as u64
}

/// The articles that an answer lists; none where the search failed or no
/// search has completed.
pub open spec fn articles_of(result: Option<Result<NewsAPIArticlesSuccess, String>>) -> Seq<
    Article,
> {
    match result {
        Some(Ok(data)) => data.articles@,
        _ => Seq::empty(),
    }
}

/// `n` slots, all empty.
pub open spec fn empty_slots(n: nat) -> Seq<Option<ImageHandle>> {
    Seq::new(n, |i: int| None)
}

/// The job for the article at `index`, if the article has an image URL.
pub open spec fn image_job_of(index: int, article: Article, generation: u64) -> Option<
    ImageJobView,
> {
    match article.url_to_image {
        Some(url) => Some(ImageJobView { index, url: url@, generation }),
        None => None,
    }
}

/// The jobs for a listing: one for each article that has an image URL, in
/// the order of the articles.
pub open spec fn image_jobs(articles: Seq<Article>, generation: u64) -> Seq<ImageJobView>
    decreases articles.len(),
{
    if articles.len() == 0 {
        Seq::empty()
    } else {
        let earlier = image_jobs(articles.drop_last(), generation);
        match image_job_of(articles.len() - 1, articles.last(), generation) {
            Some(job) => earlier.push(job),
            None => earlier,
        }
    }
}

/// The jobs of a list, each as plain values.
pub open spec fn job_views(jobs: Seq<ImageJob>) -> Seq<ImageJobView> {
    Seq::new(jobs.len(), |i: int| jobs[i]@)
}

/// The commands that start the jobs for a listing.
pub open spec fn load_commands(articles: Seq<Article>, generation: u64) -> Seq<CommandView> {
    let jobs = image_jobs(articles, generation);
    Seq::new(jobs.len(), |i: int| CommandView::LoadImage(jobs[i]))
}

/// Whether the screen can take the message. It turns down two: one that
/// selects an article for which it has no slot, and a submitted search once
/// the generations are used up.
pub open spec fn accepts(pre: MainPageView, message: Message) -> bool {
    &&& message matches Message::MainPage(MainPageMessage::ActiveArticle(Some(index))) ==> index
        < pre.images_loaded.len()
    &&& message matches Message::MainPage(MainPageMessage::SearchSubmit) ==> pre.generation
        < u64::MAX
}

/// The slots keep step with the listing: one per article, none without a
/// listing, and the detail view shows an article that has a slot.
pub open spec fn aligned(page: MainPageView) -> bool {
    &&& page.images_loaded.len() == articles_of(page.search_result).len()
    &&& page.active_article matches Some(index) ==> index < page.images_loaded.len()
}

/// What holds of every results screen: the slots keep step with the
/// listing, and no source id is recorded twice.
pub open spec fn well_formed(page: MainPageView) -> bool {
    aligned(page) && distinct_ids(page.enabled_sources)
}

/// One step of the results screen: the state after `message` and what the
/// screen asks for.
pub open spec fn main_page_step(pre: MainPageView, message: Message) -> (MainPageView, ActionView) {
    match message {
        Message::Escape => (
            MainPageView { active_article: None, source_page: false, ..pre },
            ActionView::Task(seq![CommandView::Focus(FocusTarget::SearchBar)]),
        ),
        Message::MainPage(MainPageMessage::SearchBarOnInput(text)) => (
            MainPageView { search_query: text@, ..pre },
            ActionView::Nothing,
        ),
        Message::MainPage(MainPageMessage::SourceFilterOnInput(text)) => (
            MainPageView { source_filter: text@, ..pre },
            ActionView::Nothing,
        ),
        Message::MainPage(MainPageMessage::SearchSubmit) => {
            let generation = next_generation(pre.generation);
            (
                MainPageView { generation, ..pre },
                ActionView::Task(
                    seq![
                        CommandView::Search(
                            generation,
                            search_request(
                                pre.api_key,
                                pre.search_query,
                                Some(filter_text(pre.enabled_sources)),
                            ),
                        ),
                    ],
                ),
            )
        },
        Message::MainPage(MainPageMessage::SearchComplete(generation, result)) => {
            let articles = articles_of(Some(result));
            (
                MainPageView {
                    search_result: Some(result),
                    images_loaded: empty_slots(articles.len()),
                    active_article: None,
                    ..pre
                },
                ActionView::Task(load_commands(articles, generation)),
            )
        },
        Message::MainPage(MainPageMessage::SourcesFetched(result)) => (
            MainPageView {
                source_data: Some(result),
                enabled_sources: match result {
                    Ok(data) => fresh_switches(catalog_ids(data.sources@)),
                    Err(_) => pre.enabled_sources,
                },
                ..pre
            },
            ActionView::Nothing,
        ),
        Message::MainPage(MainPageMessage::SourceToggled(id, state)) => (
            MainPageView { enabled_sources: set_state(pre.enabled_sources, id@, state), ..pre },
            ActionView::Task(seq![CommandView::Focus(FocusTarget::SourceFilter)]),
        ),
        Message::MainPage(MainPageMessage::DisableAllSources) => (
            MainPageView { enabled_sources: all_off(pre.enabled_sources), ..pre },
            ActionView::Nothing,
        ),
        Message::MainPage(MainPageMessage::ToggleSourcePage) => if pre.source_page {
            (
                MainPageView { source_page: false, source_filter: Seq::empty(), ..pre },
                ActionView::Task(seq![CommandView::Focus(FocusTarget::SearchBar)]),
            )
        } else {
            (
                MainPageView { source_page: true, ..pre },
                ActionView::Task(seq![CommandView::Focus(FocusTarget::SourceFilter)]),
            )
        },
        Message::MainPage(MainPageMessage::ImageLoaded(generation, data)) => (
            match data {
                Some((index, handle)) => if generation == pre.generation && index
                    < pre.images_loaded.len() {
                    MainPageView {
                        images_loaded: pre.images_loaded.update(index as int, Some(handle)),
                        ..pre
                    }
                } else {
                    pre
                },
                None => pre,
            },
            ActionView::Nothing,
        ),
        Message::MainPage(MainPageMessage::ActiveArticle(index)) => (
            MainPageView { active_article: index, ..pre },
            ActionView::Nothing,
        ),
        Message::MainPage(MainPageMessage::BackToApiKeyPage) => (
            pre,
            ActionView::SwitchPage(
                PageView::Token(initial_token_page(pre.preset_token)),
                seq![CommandView::Focus(FocusTarget::TokenInput)],
            ),
        ),
        _ => (pre, ActionView::Nothing),
    }
}

/// Width in pixels that an article card asks for.
pub const ARTICLE_CELL: u32 = 400;

/// Width in pixels that a line of the source panel asks for.
pub const SOURCE_CELL: u32 = 300;

/// How many cells of `cell` pixels fit side by side in `width` pixels. A
/// window too narrow for one cell still shows one.
pub fn chunks(width: u32, cell: u32) -> (n: usize)
    requires
        cell > 0,
    ensures
        n == if width / cell < 1 {
            1
        } else {
            width / cell
        },
{
    let fit = width / cell;
    if fit < 1 {
        1
    } else {
        fit as usize
    }
}

/// The single command that moves the focus.
fn focus(target: FocusTarget) -> (commands: Vec<Command>)
    ensures
        command_views(commands@) == seq![CommandView::Focus(target)],
{
    let mut commands: Vec<Command> = Vec::new();
    commands.push(Command::Focus(target));
    assert(command_views(commands@) =~= seq![CommandView::Focus(target)]);
    commands
}

/// `n` empty slots.
fn blank_slots(n: usize) -> (slots: Vec<Option<ImageHandle>>)
    ensures
        slots@ == empty_slots(n as nat),
{
    let mut slots: Vec<Option<ImageHandle>> = Vec::new();
    let mut i: usize = 0;
    while i < n
        invariant
            i <= n,
            slots@ =~= empty_slots(i as nat),
        decreases n - i,
    {
        slots.push(None);
        i += 1;
    }
    slots
}

/// Plans the image job for one article: a job where the article has an
/// image URL, none where it has not.
pub fn image_task(index: usize, article: &Article, generation: u64) -> (job: Option<ImageJob>)
    ensures
        match job {
            Some(j) => image_job_of(index as int, *article, generation) == Some(j@),
            None => image_job_of(index as int, *article, generation) is None,
        },
{
    match &article.url_to_image {
        Some(url) => Some(ImageJob { index, url: url.clone(), generation }),
        None => None,
    }
}

/// Plans the image jobs for a listing. All of them can be started at once;
/// none waits for another.
pub fn image_tasks(articles: &Vec<Article>, generation: u64) -> (jobs: Vec<ImageJob>)
    ensures
        job_views(jobs@) == image_jobs(articles@, generation),
{
    let mut jobs: Vec<ImageJob> = Vec::new();
    assert(job_views(jobs@) =~= Seq::<ImageJobView>::empty());
    let mut i: usize = 0;
    while i < articles.len()
        invariant
            i <= articles.len(),
            job_views(jobs@) == image_jobs(articles@.take(i as int), generation),
        decreases articles.len() - i,
    {
        assert(articles@.take(i + 1).drop_last() =~= articles@.take(i as int));
        let ghost planned = job_views(jobs@);
        match image_task(i, &articles[i], generation) {
            Some(job) => {
                jobs.push(job);
                assert(job_views(jobs@) =~= planned.push(job@));
            },
            None => {},
        }
        i += 1;
    }
    assert(articles@.take(i as int) =~= articles@);
    jobs
}

/// The commands that start the image jobs for a listing.
fn start_image_tasks(articles: &Vec<Article>, generation: u64) -> (commands: Vec<Command>)
    ensures
        command_views(commands@) == load_commands(articles@, generation),
{
    let mut commands: Vec<Command> = Vec::new();
    assert(command_views(commands@) =~= load_commands(articles@.take(0), generation));
    let mut i: usize = 0;
    while i < articles.len()
        invariant
            i <= articles.len(),
            command_views(commands@) == load_commands(articles@.take(i as int), generation),
        decreases articles.len() - i,
    {
        assert(articles@.take(i + 1).drop_last() =~= articles@.take(i as int));
        let ghost started = command_views(commands@);
        match image_task(i, &articles[i], generation) {
            Some(job) => {
                commands.push(Command::LoadImage(job));
                assert(command_views(commands@) =~= started.push(CommandView::LoadImage(job@)));
                assert(started.push(CommandView::LoadImage(job@)) =~= load_commands(
                    articles@.take(i + 1),
                    generation,
                ));
            },
            None => {},
        }
        i += 1;
    }
    assert(articles@.take(i as int) =~= articles@);
    commands
}

impl ImageJob {
    /// Turns the outcome of the job into the message for the results
    /// screen: the image for the job's article, or nothing where the
    /// resolution failed. Either way the message carries the job's
    /// generation.
    pub fn completion(&self, outcome: Result<Vec<u8>, NewsAPIError>) -> (message: MainPageMessage)
        ensures
            message == MainPageMessage::ImageLoaded(
                self.generation,
                match outcome {
                    Ok(bytes) => Some((self.index, ImageHandle { bytes })),
                    Err(_) => None,
                },
            ),
    {
        match outcome {
            Ok(bytes) => MainPageMessage::ImageLoaded(
                self.generation,
                Some((self.index, ImageHandle { bytes })),
            ),
            Err(_) => MainPageMessage::ImageLoaded(self.generation, None),
        }
    }
}

impl MainPage {
    /// The results screen for the API key `token`, before any search.
    /// `preset` is what the key input is to hold if the user goes back to
    /// it. A key that cannot be sent as a header value is turned down.
    pub fn new(token: &str, preset: String) -> (out: Result<Self, NewsAPIError>)
        ensures
            valid_header_value(token@) ==> (out matches Ok(page) && page@ == initial_main_page(
                token@,
                preset@,
            ) && well_formed(page@)),
            !valid_header_value(token@) ==> (out matches Err(e) && e@
                == NewsAPIErrorView::HeaderValue),
    {
        match header_value(token) {
            Ok(_) => {
                let page = MainPage {
                    api_key: token.to_owned(),
                    preset_token: preset,
                    search_query: String::new(),
                    listing: Listing::idle(),
                    source_data: None,
                    enabled_sources: EnabledSources::new(),
                    source_page: false,
                    source_filter: String::new(),
                    generation: 0,
                };
                Ok(page)
            },
            Err(e) => Err(NewsAPIError::HeaderValue(e)),
        }
    }

    /// The key that every request carries.
    pub fn api_key(&self) -> (key: &str)
        ensures
            key@ == self@.api_key,
    {
        self.api_key.as_str()
    }

    /// Content of the search bar.
    pub fn search_query(&self) -> (query: &str)
        ensures
            query@ == self@.search_query,
    {
        self.search_query.as_str()
    }

    /// Answer to the last completed search; `None` before the first.
    pub fn search_result(&self) -> (result: Option<&Result<NewsAPIArticlesSuccess, String>>)
        ensures
            match result {
                Some(answer) => self@.search_result == Some(*answer),
                None => self@.search_result is None,
            },
    {
        self.listing.search_result.as_ref()
    }

    /// The image slots, one per article of the listing.
    pub fn images_loaded(&self) -> (slots: &Vec<Option<ImageHandle>>)
        ensures
            slots@ == self@.images_loaded,
            slots@.len() == articles_of(self@.search_result).len(),
            well_formed(self@),
    {
        proof {
            use_type_invariant(&self.listing);
            use_type_invariant(&self.enabled_sources);
        }
        &self.listing.images_loaded
    }

    /// Whether the image of the article at `index` has arrived. An index
    /// without a slot has no image.
    pub fn has_image(&self, index: usize) -> (loaded: bool)
        ensures
            loaded == (index < self@.images_loaded.len() && self@.images_loaded[index as int]
                is Some),
    {
        if index < self.listing.images_loaded.len() {
            self.listing.images_loaded[index].is_some()
        } else {
            false
        }
    }

    /// The article shown in the detail view, if any.
    pub fn active_article(&self) -> (index: Option<usize>)
        ensures
            index == self@.active_article,
            index matches Some(i) ==> i < articles_of(self@.search_result).len(),
            well_formed(self@),
    {
        proof {
            use_type_invariant(&self.listing);
            use_type_invariant(&self.enabled_sources);
        }
        self.listing.active_article
    }

    /// Answer to the last catalog request; `None` before the first.
    pub fn source_data(&self) -> (result: Option<&Result<NewsAPISourcesSuccess, String>>)
        ensures
            match result {
                Some(answer) => self@.source_data == Some(*answer),
                None => self@.source_data is None,
            },
    {
        self.source_data.as_ref()
    }

    /// The source switches.
    pub fn enabled_sources(&self) -> (switches: &EnabledSources)
        ensures
            switches@ == self@.enabled_sources,
            well_formed(self@),
    {
        proof {
            use_type_invariant(&self.listing);
            use_type_invariant(&self.enabled_sources);
        }
        &self.enabled_sources
    }

    /// Number of sources that are switched on.
    pub fn enabled_count(&self) -> (n: usize)
        ensures
            n == enabled_ids(self@.enabled_sources).len(),
    {
        self.enabled_sources.count_enabled()
    }

    /// Whether the source panel is open.
    pub fn source_page(&self) -> (open: bool)
        ensures
            open == self@.source_page,
    {
        self.source_page
    }

    /// Text that narrows the source panel.
    pub fn source_filter(&self) -> (text: &str)
        ensures
            text@ == self@.source_filter,
    {
        self.source_filter.as_str()
    }

    /// What the source panel shows.
    pub fn source_panel(&self) -> (panel: SourcePanel)
        ensures
            panel@ == source_panel(
                self@.source_page,
                self@.source_data,
                self@.enabled_sources,
                self@.source_filter,
            ),
    {
        source_page(
            self.source_page,
            self.source_data.as_ref(),
            &self.enabled_sources,
            self.source_filter.as_str(),
        )
    }

    /// Number of the last submitted search.
    pub fn generation(&self) -> (generation: u64)
        ensures
            generation == self@.generation,
    {
        self.generation
    }

    /// Whether the screen can take the message.
    pub fn can_take(&self, message: &Message) -> (ok: bool)
        ensures
            ok == accepts(self@, *message),
    {
        match message {
            Message::MainPage(MainPageMessage::ActiveArticle(Some(index))) => *index
                < self.listing.images_loaded.len(),
            Message::MainPage(MainPageMessage::SearchSubmit) => self.generation < u64::MAX,
            _ => true,
        }
    }

    /// Takes one message.
    pub fn update(&mut self, message: Message) -> (action: Action)
        requires
            accepts(old(self)@, message),
        ensures
            (final(self)@, action@) == main_page_step(old(self)@, message),
            well_formed(final(self)@),
    {
        proof {
            use_type_invariant(&self.listing);
            use_type_invariant(&self.enabled_sources);
            step_keeps_page_well_formed(self@, message);
        }
        match message {
            Message::Escape => {
                self.listing.active_article = None;
                self.source_page = false;
                Action::Task(focus(FocusTarget::SearchBar))
            },
            Message::MainPage(MainPageMessage::SearchBarOnInput(text)) => {
                self.search_query = text;
                Action::Nothing
            },
            Message::MainPage(MainPageMessage::SourceFilterOnInput(text)) => {
                self.source_filter = text;
                Action::Nothing
            },
            Message::MainPage(MainPageMessage::SearchSubmit) => {
                self.generation = self.generation + 1;
                let request = search(
                    self.api_key.as_str(),
                    self.search_query.as_str(),
                    Some(self.enabled_sources.filter_string()),
                );
                let mut commands: Vec<Command> = Vec::new();
                commands.push(Command::Search(self.generation, request));
                assert(command_views(commands@) =~= seq![
                    CommandView::Search(self.generation, request@),
                ]);
                Action::Task(commands)
            },
            Message::MainPage(MainPageMessage::SearchComplete(generation, result)) => {
                let commands = match &result {
                    Ok(data) => start_image_tasks(&data.articles, generation),
                    Err(_) => {
                        let none: Vec<Command> = Vec::new();
                        assert(command_views(none@) =~= load_commands(Seq::empty(), generation));
                        none
                    },
                };
                self.listing = Listing::loaded(result);
                Action::Task(commands)
            },
            Message::MainPage(MainPageMessage::SourcesFetched(result)) => {
                match &result {
                    Ok(data) => {
                        self.enabled_sources.reset_to(&data.sources);
                    },
                    Err(_) => {},
                }
                self.source_data = Some(result);
                Action::Nothing
            },
            Message::MainPage(MainPageMessage::SourceToggled(id, state)) => {
                self.enabled_sources.insert(id, state);
                Action::Task(focus(FocusTarget::SourceFilter))
            },
            Message::MainPage(MainPageMessage::DisableAllSources) => {
                self.enabled_sources.disable_all();
                Action::Nothing
            },
            Message::MainPage(MainPageMessage::ToggleSourcePage) => {
                self.source_page = !self.source_page;
                if self.source_page {
                    Action::Task(focus(FocusTarget::SourceFilter))
                } else {
                    self.source_filter = String::new();
                    Action::Task(focus(FocusTarget::SearchBar))
                }
            },
            Message::MainPage(MainPageMessage::ImageLoaded(generation, data)) => {
                match data {
                    Some((index, handle)) => {
                        if generation == self.generation && index
                            < self.listing.images_loaded.len() {
                            let mut listing = Listing::idle();
                            core::mem::swap(&mut self.listing, &mut listing);
                            self.listing = listing.with_image(index, handle);
                        }
                    },
                    None => {},
                }
                Action::Nothing
            },
            Message::MainPage(MainPageMessage::ActiveArticle(index)) => {
                self.listing.active_article = index;
                Action::Nothing
            },
            Message::MainPage(MainPageMessage::BackToApiKeyPage) => {
                let page = TokenPage::new(self.preset_token.clone());
                Action::SwitchPage((Page::Token(page), focus(FocusTarget::TokenInput)))
            },
            _ => Action::Nothing,
        }
    }
}

} // verus!
