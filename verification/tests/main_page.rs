use newsapi_demo::newsapi::article::Article;
use newsapi_demo::newsapi::article::ArticleSource;
use newsapi_demo::newsapi::source::Source;
use newsapi_demo::newsapi::NewsAPIArticlesSuccess;
use newsapi_demo::newsapi::NewsAPIError;
use newsapi_demo::newsapi::NewsAPISourcesSuccess;
use newsapi_demo::newsapi::Request;
use newsapi_demo::ui::main_page::chunks;
use newsapi_demo::ui::main_page::image_task;
use newsapi_demo::ui::main_page::image_tasks;
use newsapi_demo::ui::main_page::ImageHandle;
use newsapi_demo::ui::main_page::ImageJob;
use newsapi_demo::ui::main_page::MainPage;
use newsapi_demo::ui::main_page::MainPageMessage;
use newsapi_demo::ui::main_page::ARTICLE_CELL;
use newsapi_demo::ui::main_page::SOURCE_CELL;
use newsapi_demo::ui::source::SourcePanel;
use newsapi_demo::ui::source::SourceRow;
use newsapi_demo::ui::Action;
use newsapi_demo::ui::Command;
use newsapi_demo::ui::FocusTarget;
use newsapi_demo::ui::Message;
use newsapi_demo::ui::Page;

const PNG: [u8; 12] = [0x89, b'P', b'N', b'G', b'\r', b'\n', 0x1a, b'\n', 0, 0, 0, 13];

fn article(title: &str, image: Option<&str>) -> Article {
    Article {
        source: ArticleSource { id: Some("wire".to_string()), name: Some("Wire".to_string()) },
        author: Some("A. Writer".to_string()),
        title: title.to_string(),
        description: None,
        url: Some(format!("https://example.com/{}", title)),
        url_to_image: image.map(|u| u.to_string()),
        published_at: None,
        content: None,
    }
}

fn listing(articles: Vec<Article>) -> NewsAPIArticlesSuccess {
    NewsAPIArticlesSuccess {
        status: "ok".to_string(),
        total_results: articles.len() as i32,
        articles,
    }
}

fn three_articles() -> NewsAPIArticlesSuccess {
    listing(vec![
        article("one", Some("https://example.com/1.png")),
        article("two", None),
        article("three", Some("https://example.com/3.png")),
    ])
}

fn source(id: &str) -> Source {
    Source {
        id: id.to_string(),
        name: id.to_uppercase(),
        description: String::new(),
        url: String::new(),
        category: "general".to_string(),
        language: "en".to_string(),
        country: "us".to_string(),
    }
}

fn page() -> MainPage {
    MainPage::new("key", "preset".to_string()).expect("a plain key is accepted")
}

fn send(page: &mut MainPage, message: MainPageMessage) -> Action {
    let message = Message::MainPage(message);
    assert!(page.can_take(&message));
    page.update(message)
}

fn commands(action: Action) -> Vec<Command> {
    match action {
        Action::Task(commands) => commands,
        Action::Nothing => Vec::new(),
        other => panic!("expected commands, got {:?}", other),
    }
}

fn the_search(action: Action) -> (u64, Request) {
    let mut commands = commands(action);
    assert_eq!(commands.len(), 1);
    match commands.remove(0) {
        Command::Search(generation, request) => (generation, request),
        other => panic!("expected a search, got {:?}", other),
    }
}

fn jobs(action: Action) -> Vec<ImageJob> {
    commands(action)
        .into_iter()
        .map(|command| match command {
            Command::LoadImage(job) => job,
            other => panic!("expected an image job, got {:?}", other),
        })
        .collect()
}

fn params(request: &Request) -> Vec<(&str, &str)> {
    request.query.iter().map(|(k, v)| (k.as_str(), v.as_str())).collect()
}

fn slots(page: &MainPage) -> Vec<Option<Vec<u8>>> {
    page.images_loaded().iter().map(|slot| slot.as_ref().map(|h| h.bytes.clone())).collect()
}

fn is_focus(action: Action, target: FocusTarget) -> bool {
    matches!(commands(action).as_slice(), [Command::Focus(t)] if *t == target)
}

#[test]
fn fresh_page_has_nothing_to_show() {
    let page = page();
    assert_eq!(page.api_key(), "key");
    assert_eq!(page.search_query(), "");
    assert!(page.search_result().is_none());
    assert!(page.images_loaded().is_empty());
    assert_eq!(page.active_article(), None);
    assert!(page.source_data().is_none());
    assert_eq!(page.enabled_sources().len(), 0);
    assert_eq!(page.enabled_count(), 0);
    assert!(!page.source_page());
    assert_eq!(page.source_filter(), "");
    assert_eq!(page.generation(), 0);
    assert!(!page.has_image(0));
}

#[test]
fn key_must_be_sendable_as_a_header() {
    assert!(MainPage::new("0123456789abcdef", String::new()).is_ok());
    assert!(MainPage::new("", String::new()).is_ok());
    assert!(MainPage::new("with space and\ttab", String::new()).is_ok());
    assert!(MainPage::new("schl\u{fc}ssel", String::new()).is_ok());
    for bad in ["line\nbreak", "carriage\rreturn", "nul\0", "delete\u{7f}", "\u{1b}[0m"] {
        match MainPage::new(bad, String::new()) {
            Err(NewsAPIError::HeaderValue(_)) => {}
            other => panic!("expected a header error for {:?}, got {:?}", bad, other.is_ok()),
        }
    }
}

#[test]
fn typing_updates_the_texts() {
    let mut page = page();
    let action = send(&mut page, MainPageMessage::SearchBarOnInput("bit".to_string()));
    assert!(matches!(action, Action::Nothing));
    assert_eq!(page.search_query(), "bit");
    let action = send(&mut page, MainPageMessage::SourceFilterOnInput("bbc".to_string()));
    assert!(matches!(action, Action::Nothing));
    assert_eq!(page.source_filter(), "bbc");
    assert_eq!(page.search_query(), "bit");
}

#[test]
fn empty_query_without_sources_asks_for_the_general_listing() {
    let mut page = page();
    let (generation, request) = the_search(send(&mut page, MainPageMessage::SearchSubmit));
    assert_eq!(generation, 1);
    assert_eq!(page.generation(), 1);
    assert_eq!(request.url, "https://newsapi.org/v2/top-headlines");
    assert_eq!(params(&request), vec![("category", "general")]);
    assert_eq!(request.api_key, "key");

    let action = send(&mut page, MainPageMessage::SearchComplete(generation, Ok(three_articles())));
    assert_eq!(slots(&page), vec![None, None, None]);
    let jobs = jobs(action);
    assert_eq!(jobs.len(), 2);
    assert_eq!(jobs[0].index, 0);
    assert_eq!(jobs[0].url, "https://example.com/1.png");
    assert_eq!(jobs[0].generation, 1);
    assert_eq!(jobs[1].index, 2);
    assert_eq!(jobs[1].url, "https://example.com/3.png");
    assert_eq!(jobs[1].generation, 1);
}

#[test]
fn enabled_sources_and_query_are_combined() {
    let mut page = page();
    send(&mut page, MainPageMessage::SourceToggled("bbc-news".to_string(), true));
    send(&mut page, MainPageMessage::SourceToggled("cnn".to_string(), true));
    send(&mut page, MainPageMessage::SearchBarOnInput("bitcoin".to_string()));
    let (_, request) = the_search(send(&mut page, MainPageMessage::SearchSubmit));
    assert_eq!(request.url, "https://newsapi.org/v2/everything");
    assert_eq!(request.query.len(), 2);
    assert_eq!(request.query[0], ("q".to_string(), "bitcoin".to_string()));
    assert_eq!(request.query[1].0, "sources");
    let mut ids: Vec<&str> = request.query[1].1.split(',').collect();
    ids.sort();
    assert_eq!(ids, vec!["bbc-news", "cnn"]);
}

#[test]
fn enabled_sources_select_the_listing_for_an_empty_query() {
    let mut page = page();
    send(&mut page, MainPageMessage::SourceToggled("cnn".to_string(), true));
    let (_, request) = the_search(send(&mut page, MainPageMessage::SearchSubmit));
    assert_eq!(request.url, "https://newsapi.org/v2/top-headlines");
    assert_eq!(params(&request), vec![("sources", "cnn")]);
}

#[test]
fn toggling_a_source_starts_no_search() {
    let mut page = page();
    let action = send(&mut page, MainPageMessage::SourceToggled("cnn".to_string(), true));
    assert!(is_focus(action, FocusTarget::SourceFilter));
    assert_eq!(page.generation(), 0);
    assert_eq!(page.enabled_count(), 1);
    assert!(page.enabled_sources().is_enabled("cnn"));
    send(&mut page, MainPageMessage::SourceToggled("cnn".to_string(), false));
    assert_eq!(page.enabled_count(), 0);
    let (_, request) = the_search(send(&mut page, MainPageMessage::SearchSubmit));
    assert_eq!(params(&request), vec![("category", "general")]);
}

#[test]
fn every_submission_gets_its_own_generation() {
    let mut page = page();
    let (first, _) = the_search(send(&mut page, MainPageMessage::SearchSubmit));
    let (second, _) = the_search(send(&mut page, MainPageMessage::SearchSubmit));
    let (third, _) = the_search(send(&mut page, MainPageMessage::SearchSubmit));
    assert_eq!((first, second, third), (1, 2, 3));
    assert_eq!(page.generation(), 3);
}

#[test]
fn completed_search_resets_slots_and_detail_view() {
    let mut page = page();
    send(&mut page, MainPageMessage::SearchComplete(0, Ok(three_articles())));
    send(&mut page, MainPageMessage::ActiveArticle(Some(2)));
    send(&mut page, MainPageMessage::ImageLoaded(0, Some((0, ImageHandle { bytes: PNG.to_vec() }))));
    assert!(page.has_image(0));
    let two = listing(vec![article("a", None), article("b", None)]);
    let action = send(&mut page, MainPageMessage::SearchComplete(0, Ok(two)));
    assert!(jobs(action).is_empty());
    assert_eq!(slots(&page), vec![None, None]);
    assert_eq!(page.active_article(), None);
    match page.search_result() {
        Some(Ok(data)) => assert_eq!(data.articles[1].title, "b"),
        other => panic!("expected the new listing, got {:?}", other),
    }
}

#[test]
fn failed_search_is_kept_as_the_result() {
    let mut page = page();
    send(&mut page, MainPageMessage::SearchComplete(0, Ok(three_articles())));
    send(&mut page, MainPageMessage::ActiveArticle(Some(1)));
    let action =
        send(&mut page, MainPageMessage::SearchComplete(0, Err("HTTP request failed".to_string())));
    assert!(matches!(action, Action::Task(ref commands) if commands.is_empty()));
    assert!(page.images_loaded().is_empty());
    assert_eq!(page.active_article(), None);
    match page.search_result() {
        Some(Err(text)) => assert_eq!(text, "HTTP request failed"),
        other => panic!("expected the error, got {:?}", other),
    }
}

#[test]
fn image_completion_fills_its_slot_only() {
    let mut page = page();
    let action = send(&mut page, MainPageMessage::SearchComplete(0, Ok(three_articles())));
    let jobs = jobs(action);
    let message = jobs[1].completion(Ok(PNG.to_vec()));
    let action = send(&mut page, message);
    assert!(matches!(action, Action::Nothing));
    assert_eq!(slots(&page), vec![None, None, Some(PNG.to_vec())]);
    assert!(page.has_image(2));
    assert!(!page.has_image(0));
    assert!(!page.has_image(3));
}

#[test]
fn completions_may_arrive_in_any_order() {
    let mut page = page();
    let jobs = jobs(send(&mut page, MainPageMessage::SearchComplete(0, Ok(three_articles()))));
    send(&mut page, jobs[1].completion(Ok(vec![3])));
    send(&mut page, jobs[0].completion(Ok(vec![1])));
    assert_eq!(slots(&page), vec![Some(vec![1]), None, Some(vec![3])]);
}

#[test]
fn article_without_image_gets_no_job_and_keeps_an_empty_slot() {
    let mut page = page();
    let jobs = jobs(send(&mut page, MainPageMessage::SearchComplete(0, Ok(three_articles()))));
    assert!(jobs.iter().all(|job| job.index != 1));
    for job in &jobs {
        send(&mut page, job.completion(Ok(PNG.to_vec())));
    }
    assert_eq!(slots(&page), vec![Some(PNG.to_vec()), None, Some(PNG.to_vec())]);
    assert!(!page.has_image(1));
}

#[test]
fn failed_image_leaves_its_slot_empty_and_the_others_alone() {
    let mut page = page();
    let jobs = jobs(send(&mut page, MainPageMessage::SearchComplete(0, Ok(three_articles()))));
    let invalid = newsapi_demo::cache::validate_image(b"<html>".to_vec());
    assert!(invalid.is_err());
    let message = jobs[0].completion(invalid);
    assert!(matches!(message, MainPageMessage::ImageLoaded(0, None)));
    let action = send(&mut page, message);
    assert!(matches!(action, Action::Nothing));
    assert_eq!(slots(&page), vec![None, None, None]);
    send(&mut page, jobs[1].completion(newsapi_demo::cache::validate_image(PNG.to_vec())));
    assert_eq!(slots(&page), vec![None, None, Some(PNG.to_vec())]);
}

#[test]
fn completion_outside_the_slots_is_ignored() {
    let mut page = page();
    send(&mut page, MainPageMessage::SearchComplete(0, Ok(three_articles())));
    send(&mut page, MainPageMessage::ImageLoaded(0, Some((3, ImageHandle { bytes: vec![9] }))));
    send(
        &mut page,
        MainPageMessage::ImageLoaded(0, Some((usize::MAX, ImageHandle { bytes: vec![9] }))),
    );
    assert_eq!(slots(&page), vec![None, None, None]);
}

#[test]
fn completions_before_any_listing_are_ignored() {
    let mut page = page();
    send(&mut page, MainPageMessage::ImageLoaded(0, Some((0, ImageHandle { bytes: vec![9] }))));
    assert!(page.images_loaded().is_empty());
}

#[test]
fn late_completions_of_a_superseded_search_are_discarded() {
    let mut page = page();
    // First search: submitted, answered, its image jobs under way.
    let (first, _) = the_search(send(&mut page, MainPageMessage::SearchSubmit));
    let old = jobs(send(&mut page, MainPageMessage::SearchComplete(first, Ok(three_articles()))));
    assert_eq!(old.len(), 2);
    // Second search: submitted at once, before any image has arrived.
    let (second, _) = the_search(send(&mut page, MainPageMessage::SearchSubmit));
    assert_ne!(first, second);
    send(&mut page, old[0].completion(Ok(vec![1])));
    assert_eq!(slots(&page), vec![None, None, None]);
    // Its listing is longer, so the old indices are all in range.
    let four = listing(vec![
        article("a", Some("https://example.com/a.png")),
        article("b", Some("https://example.com/b.png")),
        article("c", Some("https://example.com/c.png")),
        article("d", None),
    ]);
    let new = jobs(send(&mut page, MainPageMessage::SearchComplete(second, Ok(four))));
    assert_eq!(new.len(), 3);
    for job in &old {
        send(&mut page, job.completion(Ok(vec![0xde, 0xad])));
    }
    assert_eq!(slots(&page), vec![None, None, None, None]);
    // The second search's own completions still land.
    send(&mut page, new[2].completion(Ok(vec![7])));
    assert_eq!(slots(&page), vec![None, None, Some(vec![7]), None]);
}

#[test]
fn late_completions_are_discarded_for_a_listing_of_equal_length() {
    let mut page = page();
    let (first, _) = the_search(send(&mut page, MainPageMessage::SearchSubmit));
    let old = jobs(send(&mut page, MainPageMessage::SearchComplete(first, Ok(three_articles()))));
    let (second, _) = the_search(send(&mut page, MainPageMessage::SearchSubmit));
    send(&mut page, MainPageMessage::SearchComplete(second, Ok(three_articles())));
    for job in &old {
        send(&mut page, job.completion(Ok(vec![1])));
    }
    assert_eq!(slots(&page), vec![None, None, None]);
}

#[test]
fn jobs_of_an_answer_that_was_overtaken_are_discarded() {
    let mut page = page();
    let (first, _) = the_search(send(&mut page, MainPageMessage::SearchSubmit));
    let (second, _) = the_search(send(&mut page, MainPageMessage::SearchSubmit));
    // The first answer arrives after the second search was submitted.
    let old = jobs(send(&mut page, MainPageMessage::SearchComplete(first, Ok(three_articles()))));
    assert!(old.iter().all(|job| job.generation == first));
    send(&mut page, MainPageMessage::SearchComplete(second, Ok(three_articles())));
    for job in &old {
        send(&mut page, job.completion(Ok(vec![1])));
    }
    assert_eq!(slots(&page), vec![None, None, None]);
}

#[test]
fn image_task_follows_the_image_url() {
    let with = article("one", Some("https://example.com/1.png"));
    let job = image_task(4, &with, 9).expect("an article with an image gets a job");
    assert_eq!(job.index, 4);
    assert_eq!(job.url, "https://example.com/1.png");
    assert_eq!(job.generation, 9);
    assert!(image_task(4, &article("two", None), 9).is_none());
}

#[test]
fn image_tasks_skip_articles_without_image() {
    let articles = three_articles().articles;
    let jobs = image_tasks(&articles, 5);
    let planned: Vec<(usize, &str, u64)> =
        jobs.iter().map(|j| (j.index, j.url.as_str(), j.generation)).collect();
    assert_eq!(
        planned,
        vec![(0, "https://example.com/1.png", 5), (2, "https://example.com/3.png", 5)]
    );
    assert!(image_tasks(&Vec::new(), 5).is_empty());
    assert!(image_tasks(&vec![article("x", None)], 5).is_empty());
}

#[test]
fn completion_carries_index_and_generation_of_the_job() {
    let job = ImageJob { index: 3, url: "https://example.com/3.png".to_string(), generation: 8 };
    match job.completion(Ok(vec![1, 2])) {
        MainPageMessage::ImageLoaded(8, Some((3, handle))) => assert_eq!(handle.bytes, vec![1, 2]),
        other => panic!("expected a loaded image, got {:?}", other),
    }
    let error = NewsAPIError::IO(std::io::Error::new(std::io::ErrorKind::NotFound, "gone"));
    assert!(matches!(job.completion(Err(error)), MainPageMessage::ImageLoaded(8, None)));
}

#[test]
fn detail_view_opens_and_closes() {
    let mut page = page();
    send(&mut page, MainPageMessage::SearchComplete(0, Ok(three_articles())));
    let action = send(&mut page, MainPageMessage::ActiveArticle(Some(2)));
    assert!(matches!(action, Action::Nothing));
    assert_eq!(page.active_article(), Some(2));
    send(&mut page, MainPageMessage::ActiveArticle(None));
    assert_eq!(page.active_article(), None);
}

#[test]
fn selecting_an_article_without_slot_is_turned_down() {
    let mut page = page();
    assert!(!page.can_take(&Message::MainPage(MainPageMessage::ActiveArticle(Some(0)))));
    assert!(page.can_take(&Message::MainPage(MainPageMessage::ActiveArticle(None))));
    send(&mut page, MainPageMessage::SearchComplete(0, Ok(three_articles())));
    assert!(page.can_take(&Message::MainPage(MainPageMessage::ActiveArticle(Some(2)))));
    assert!(!page.can_take(&Message::MainPage(MainPageMessage::ActiveArticle(Some(3)))));
    assert!(page.can_take(&Message::Escape));
    assert!(page.can_take(&Message::MainPage(MainPageMessage::SearchSubmit)));
}

#[test]
fn escape_closes_both_overlays_and_is_idempotent() {
    let mut page = page();
    send(&mut page, MainPageMessage::SearchComplete(0, Ok(three_articles())));
    send(&mut page, MainPageMessage::ActiveArticle(Some(1)));
    send(&mut page, MainPageMessage::ToggleSourcePage);
    send(&mut page, MainPageMessage::SourceFilterOnInput("bbc".to_string()));
    assert!(page.source_page());
    let action = page.update(Message::Escape);
    assert!(is_focus(action, FocusTarget::SearchBar));
    assert_eq!(page.active_article(), None);
    assert!(!page.source_page());
    assert_eq!(page.source_filter(), "bbc");
    let action = page.update(Message::Escape);
    assert!(is_focus(action, FocusTarget::SearchBar));
    assert_eq!(page.active_article(), None);
    assert!(!page.source_page());
    assert_eq!(slots(&page), vec![None, None, None]);
}

#[test]
fn source_panel_toggles_focus_and_clears_its_filter_on_closing() {
    let mut page = page();
    let action = send(&mut page, MainPageMessage::ToggleSourcePage);
    assert!(is_focus(action, FocusTarget::SourceFilter));
    assert!(page.source_page());
    send(&mut page, MainPageMessage::SourceFilterOnInput("bbc".to_string()));
    let action = send(&mut page, MainPageMessage::ToggleSourcePage);
    assert!(is_focus(action, FocusTarget::SearchBar));
    assert!(!page.source_page());
    assert_eq!(page.source_filter(), "");
}

#[test]
fn catalog_replaces_the_switches() {
    let mut page = page();
    send(&mut page, MainPageMessage::SourceToggled("cnn".to_string(), true));
    let catalog = NewsAPISourcesSuccess {
        status: "ok".to_string(),
        sources: vec![source("bbc-news"), source("cnn")],
    };
    let action = send(&mut page, MainPageMessage::SourcesFetched(Ok(catalog)));
    assert!(matches!(action, Action::Nothing));
    assert_eq!(page.enabled_sources().len(), 2);
    assert_eq!(page.enabled_sources().get("bbc-news"), Some(false));
    assert_eq!(page.enabled_sources().get("cnn"), Some(false));
    assert_eq!(page.enabled_count(), 0);
    match page.source_data() {
        Some(Ok(data)) => assert_eq!(data.sources.len(), 2),
        other => panic!("expected the catalog, got {:?}", other),
    }
}

#[test]
fn failed_catalog_keeps_the_switches() {
    let mut page = page();
    send(&mut page, MainPageMessage::SourceToggled("cnn".to_string(), true));
    send(&mut page, MainPageMessage::SourcesFetched(Err("no catalog".to_string())));
    assert_eq!(page.enabled_sources().get("cnn"), Some(true));
    match page.source_data() {
        Some(Err(text)) => assert_eq!(text, "no catalog"),
        other => panic!("expected the error, got {:?}", other),
    }
}

#[test]
fn unknown_source_id_is_recorded_and_survives_enumeration() {
    let mut page = page();
    let catalog = NewsAPISourcesSuccess {
        status: "ok".to_string(),
        sources: vec![source("bbc-news"), source("cnn")],
    };
    send(&mut page, MainPageMessage::SourcesFetched(Ok(catalog)));
    let action = send(&mut page, MainPageMessage::SourceToggled("not-in-catalog".to_string(), true));
    assert!(is_focus(action, FocusTarget::SourceFilter));
    assert_eq!(page.enabled_sources().get("not-in-catalog"), Some(true));
    assert_eq!(page.enabled_sources().enabled(), vec!["not-in-catalog".to_string()]);
    assert_eq!(page.enabled_count(), 1);
    let (_, request) = the_search(send(&mut page, MainPageMessage::SearchSubmit));
    assert_eq!(params(&request), vec![("sources", "not-in-catalog")]);
    // A refreshed catalog that lacks the id starts from switches of its own.
    let refreshed = NewsAPISourcesSuccess { status: "ok".to_string(), sources: vec![source("cnn")] };
    send(&mut page, MainPageMessage::SourcesFetched(Ok(refreshed)));
    assert!(page.enabled_sources().enabled().is_empty());
    assert_eq!(page.enabled_count(), 0);
    assert_eq!(page.enabled_sources().get("not-in-catalog"), None);
    assert!(!page.enabled_sources().is_enabled("not-in-catalog"));
    assert_eq!(page.enabled_sources().filter_string(), "");
    match page.source_panel() {
        SourcePanel::Hidden => {}
        other => panic!("the panel is closed, got {:?}", other),
    }
    send(&mut page, MainPageMessage::ToggleSourcePage);
    match page.source_panel() {
        SourcePanel::Sources(rows) => {
            assert_eq!(rows, vec![SourceRow { index: 0, enabled: false }])
        }
        other => panic!("expected the sources, got {:?}", other),
    }
}

#[test]
fn disabling_all_sources_keeps_them_listed() {
    let mut page = page();
    send(&mut page, MainPageMessage::SourceToggled("bbc-news".to_string(), true));
    send(&mut page, MainPageMessage::SourceToggled("cnn".to_string(), true));
    let action = send(&mut page, MainPageMessage::DisableAllSources);
    assert!(matches!(action, Action::Nothing));
    assert_eq!(page.enabled_sources().len(), 2);
    assert_eq!(page.enabled_count(), 0);
    assert_eq!(page.enabled_sources().get("cnn"), Some(false));
}

#[test]
fn going_back_shows_the_key_screen_with_its_preset() {
    let mut page = page();
    match send(&mut page, MainPageMessage::BackToApiKeyPage) {
        Action::SwitchPage((Page::Token(token), commands)) => {
            assert_eq!(token.token(), "preset");
            assert!(token.error().is_none());
            assert!(matches!(commands.as_slice(), [Command::Focus(FocusTarget::TokenInput)]));
        }
        other => panic!("expected the key screen, got {:?}", other),
    }
}

#[test]
fn messages_for_other_screens_change_nothing() {
    let mut page = page();
    send(&mut page, MainPageMessage::SearchBarOnInput("x".to_string()));
    assert!(matches!(page.update(Message::NoOp), Action::Nothing));
    assert!(matches!(page.update(Message::OpenLink("https://x".to_string())), Action::Nothing));
    let message = Message::TokenPage(newsapi_demo::ui::token_page::TokenPageMessage::Submit);
    assert!(matches!(page.update(message), Action::Nothing));
    assert_eq!(page.search_query(), "x");
    assert_eq!(page.generation(), 0);
}

#[test]
fn narrow_windows_still_show_one_cell_per_row() {
    assert_eq!((ARTICLE_CELL, SOURCE_CELL), (400, 300));
    assert_eq!(chunks(0, ARTICLE_CELL), 1);
    assert_eq!(chunks(399, ARTICLE_CELL), 1);
    assert_eq!(chunks(400, ARTICLE_CELL), 1);
    assert_eq!(chunks(799, ARTICLE_CELL), 1);
    assert_eq!(chunks(800, ARTICLE_CELL), 2);
    assert_eq!(chunks(800, SOURCE_CELL), 2);
    assert_eq!(chunks(900, SOURCE_CELL), 3);
    assert_eq!(chunks(u32::MAX, 1), u32::MAX as usize);
}
