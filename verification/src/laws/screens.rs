//! Laws of the screens: the slots and the listing, the generations, and
//! the key that requests carry.

use crate::laws::sources::all_off_keeps_ids_distinct;
use crate::laws::sources::fresh_switches_are_off;
use crate::laws::sources::set_state_keeps_ids_distinct;
use crate::newsapi::article::Article;
use crate::newsapi::search_request;
use crate::newsapi::NewsAPIArticlesSuccess;
use crate::newsapi::RequestView;
use crate::trusted::valid_header_value;
use crate::ui::app_step;
use crate::ui::main_page::accepts;
use crate::ui::main_page::aligned;
use crate::ui::main_page::articles_of;
use crate::ui::main_page::image_job_of;
use crate::ui::main_page::image_jobs;
use crate::ui::main_page::initial_main_page;
use crate::ui::main_page::main_page_step;
use crate::ui::main_page::next_generation;
use crate::ui::main_page::well_formed;
use crate::ui::main_page::ImageHandle;
use crate::ui::main_page::MainPageMessage;
use crate::ui::main_page::MainPageView;
use crate::ui::source::catalog_ids;
use crate::ui::source::filter_text;
use crate::ui::token_page::initial_token_page;
use crate::ui::ActionView;
use crate::ui::CommandView;
use crate::ui::Message;
use crate::ui::PageView;
use vstd::prelude::*;

verus! {

/// The jobs for a listing follow its image URLs: every job belongs to an
/// article that has one and carries it, the jobs come in the order of the
/// articles, so that no article has two, and no article with an image URL
/// goes without.
pub proof fn image_jobs_follow_image_urls(articles: Seq<Article>, generation: u64)
    ensures
        forall|k: int|
            0 <= k < image_jobs(articles, generation).len() ==> {
                let job = #[trigger] image_jobs(articles, generation)[k];
                &&& 0 <= job.index < articles.len()
                &&& image_job_of(job.index, articles[job.index], generation) == Some(job)
            },
        forall|k: int, l: int|
            0 <= k < l < image_jobs(articles, generation).len() ==> (#[trigger] image_jobs(
                articles,
                generation,
            )[k]).index < (#[trigger] image_jobs(articles, generation)[l]).index,
        forall|i: int|
            0 <= i < articles.len() && (#[trigger] articles[i]).url_to_image is Some ==> exists|
                k: int,
            |
                0 <= k < image_jobs(articles, generation).len() && (#[trigger] image_jobs(
                    articles,
                    generation,
                )[k]).index == i,
    decreases articles.len(),
{
    if articles.len() > 0 {
        let earlier = articles.drop_last();
        let last: int = articles.len() - 1;
        image_jobs_follow_image_urls(earlier, generation);
        let jobs = image_jobs(articles, generation);
        let before = image_jobs(earlier, generation);
        assert forall|i: int|
            0 <= i < articles.len() && (#[trigger] articles[i]).url_to_image is Some implies exists|
            k: int,
        | 0 <= k < jobs.len() && (#[trigger] jobs[k]).index == i by {
            if i < last {
                assert(earlier[i] == articles[i]);
                let k: int = choose|k: int| 0 <= k < before.len() && (#[trigger] before[k]).index == i;
                assert(jobs[k] == before[k]);
            } else {
                assert(jobs[jobs.len() - 1].index == i);
            }
        }
        assert forall|k: int| 0 <= k < jobs.len() implies {
            let job = #[trigger] jobs[k];
            &&& 0 <= job.index < articles.len()
            &&& image_job_of(job.index, articles[job.index], generation) == Some(job)
        } by {
            if k < before.len() {
                assert(jobs[k] == before[k]);
                assert(earlier[before[k].index] == articles[before[k].index]);
            }
        }
        assert forall|k: int, l: int| 0 <= k < l < jobs.len() implies (#[trigger] jobs[k]).index < (
        #[trigger] jobs[l]).index by {
            assert(jobs[k] == before[k]);
            if l < before.len() {
                assert(jobs[l] == before[l]);
            }
        }
    }
}

/// Before any search the slots keep step with the (absent) listing.
pub proof fn initial_page_is_aligned(api_key: Seq<char>, preset_token: Seq<char>)
    ensures
        aligned(initial_main_page(api_key, preset_token)),
{
}

/// No message that the screen takes lets the slots fall out of step with
/// the listing.
pub proof fn step_keeps_slots_aligned(pre: MainPageView, message: Message)
    requires
        aligned(pre),
        accepts(pre, message),
    ensures
        aligned(main_page_step(pre, message).0),
{
}

/// No message that the screen takes breaks what holds of every results
/// screen: the slots stay in step with the listing, and no source id gets
/// recorded twice.
pub proof fn step_keeps_page_well_formed(pre: MainPageView, message: Message)
    requires
        well_formed(pre),
        accepts(pre, message),
    ensures
        well_formed(main_page_step(pre, message).0),
{
    match message {
        Message::MainPage(MainPageMessage::SourcesFetched(Ok(data))) => {
            fresh_switches_are_off(catalog_ids(data.sources@));
        },
        Message::MainPage(MainPageMessage::SourceToggled(id, state)) => {
            set_state_keeps_ids_distinct(pre.enabled_sources, id@, state);
        },
        Message::MainPage(MainPageMessage::DisableAllSources) => {
            all_off_keeps_ids_distinct(pre.enabled_sources);
        },
        _ => {},
    }
}

/// Right after a search has completed with a listing, there is exactly one
/// slot per article, every slot is empty, and nothing is shown in the
/// detail view.
pub proof fn completed_search_leaves_one_empty_slot_per_article(
    pre: MainPageView,
    generation: u64,
    data: NewsAPIArticlesSuccess,
)
    ensures
        ({
            let message = Message::MainPage(MainPageMessage::SearchComplete(generation, Ok(data)));
            let post = main_page_step(pre, message).0;
            &&& post.search_result == Some(Ok::<NewsAPIArticlesSuccess, String>(data))
            &&& post.images_loaded.len() == data.articles@.len()
            &&& forall|i: int| 0 <= i < post.images_loaded.len() ==> post.images_loaded[i] is None
            &&& post.active_article is None
        }),
{
}

/// A failed search leaves no slot and starts no job.
pub proof fn failed_search_leaves_no_slot(pre: MainPageView, generation: u64, error: String)
    ensures
        ({
            let message = Message::MainPage(MainPageMessage::SearchComplete(generation, Err(error)));
            let (post, action) = main_page_step(pre, message);
            &&& post.search_result == Some(Err::<NewsAPIArticlesSuccess, String>(error))
            &&& post.images_loaded.len() == 0
            &&& action == ActionView::Task(Seq::empty())
        }),
{
    let message = Message::MainPage(MainPageMessage::SearchComplete(generation, Err(error)));
    let (post, action) = main_page_step(pre, message);
    assert(action->Task_0 =~= Seq::empty());
}

/// A slot changes only through the completion that names its index,
/// carries an image and belongs to the current generation; a completed
/// search replaces all slots by empty ones.
pub proof fn slot_changes_only_by_its_own_completion(pre: MainPageView, message: Message, i: int)
    ensures
        ({
            let post = main_page_step(pre, message).0;
            0 <= i < post.images_loaded.len() ==> {
                ||| message matches Message::MainPage(
                    MainPageMessage::ImageLoaded(generation, Some((index, handle))),
                ) && generation == pre.generation && index == i && post.images_loaded[i] == Some(
                    handle,
                )
                ||| message matches Message::MainPage(MainPageMessage::SearchComplete(_, _))
                    && post.images_loaded[i] is None
                ||| i < pre.images_loaded.len() && post.images_loaded[i] == pre.images_loaded[i]
            }
        }),
{
}

/// The slot of an article without an image URL stays empty: no message
/// fills it, as long as every image completion stems from a job that was
/// planned for the listing.
pub proof fn slot_without_image_url_stays_empty(pre: MainPageView, message: Message, i: int)
    requires
        0 <= i < articles_of(pre.search_result).len(),
        articles_of(pre.search_result)[i].url_to_image is None,
        i < pre.images_loaded.len(),
        pre.images_loaded[i] is None,
        message matches Message::MainPage(
            MainPageMessage::ImageLoaded(generation, Some((index, _))),
        ) ==> exists|k: int|
            0 <= k < image_jobs(articles_of(pre.search_result), generation).len()
                && (#[trigger] image_jobs(articles_of(pre.search_result), generation)[k]).index
                == index,
    ensures
        ({
            let post = main_page_step(pre, message).0;
            i < post.images_loaded.len() ==> post.images_loaded[i] is None
        }),
{
    if let Message::MainPage(MainPageMessage::ImageLoaded(generation, Some((index, _)))) = message {
        image_jobs_follow_image_urls(articles_of(pre.search_result), generation);
    }
}

/// Only a submitted search moves the generation on, and it moves it on by
/// one.
pub proof fn generation_moves_only_on_submit(pre: MainPageView, message: Message)
    requires
        accepts(pre, message),
    ensures
        main_page_step(pre, message).0.generation == (if message matches Message::MainPage(
            MainPageMessage::SearchSubmit,
        ) {
            pre.generation + 1
        } else {
            pre.generation as int
        }),
{
}

/// An image completion of another generation than the current one changes
/// nothing, wherever its index points.
pub proof fn completion_of_other_generation_is_discarded(
    pre: MainPageView,
    generation: u64,
    data: Option<(usize, ImageHandle)>,
)
    requires
        generation != pre.generation,
    ensures
        main_page_step(pre, Message::MainPage(MainPageMessage::ImageLoaded(generation, data))) == (
            pre,
            ActionView::Nothing,
        ),
{
}

/// Whether the screen can take the messages one after the other.
pub open spec fn accepts_all(pre: MainPageView, messages: Seq<Message>) -> bool
    decreases messages.len(),
{
    if messages.len() == 0 {
        true
    } else {
        accepts(pre, messages.first()) && accepts_all(
            main_page_step(pre, messages.first()).0,
            messages.drop_first(),
        )
    }
}

/// The state after the messages were taken one after the other.
pub open spec fn main_page_run(pre: MainPageView, messages: Seq<Message>) -> MainPageView
    decreases messages.len(),
{
    if messages.len() == 0 {
        pre
    } else {
        main_page_run(main_page_step(pre, messages.first()).0, messages.drop_first())
    }
}

/// Whatever happens, the slots stay in step with the listing, and the
/// generation never goes back; it has moved on as soon as one of the
/// messages submits a search.
pub proof fn run_keeps_alignment_and_generation_order(pre: MainPageView, messages: Seq<Message>)
    requires
        accepts_all(pre, messages),
    ensures
        aligned(pre) ==> aligned(main_page_run(pre, messages)),
        pre.generation <= main_page_run(pre, messages).generation,
        (exists|i: int|
            0 <= i < messages.len() && #[trigger] messages[i] matches Message::MainPage(
                MainPageMessage::SearchSubmit,
            )) ==> pre.generation < main_page_run(pre, messages).generation,
    decreases messages.len(),
{
    if messages.len() > 0 {
        let next = main_page_step(pre, messages.first()).0;
        let rest = messages.drop_first();
        run_keeps_alignment_and_generation_order(next, rest);
        if exists|i: int|
            0 <= i < messages.len() && #[trigger] messages[i] matches Message::MainPage(
                MainPageMessage::SearchSubmit,
            ) {
            let i: int = choose|i: int|
                0 <= i < messages.len() && #[trigger] messages[i] matches Message::MainPage(
                    MainPageMessage::SearchSubmit,
                );
            if i > 0 {
                assert(rest[i - 1] == messages[i]);
            }
        }
    }
}

/// Once another search has been submitted, what the image jobs of an
/// earlier one still report is discarded, whatever else has happened in
/// between: whether or not the new search has completed, and however many
/// slots its listing has.
pub proof fn late_completion_of_superseded_search_is_discarded(
    pre: MainPageView,
    messages: Seq<Message>,
    data: Option<(usize, ImageHandle)>,
)
    requires
        accepts_all(pre, messages),
        exists|i: int|
            0 <= i < messages.len() && #[trigger] messages[i] matches Message::MainPage(
                MainPageMessage::SearchSubmit,
            ),
    ensures
        ({
            let now = main_page_run(pre, messages);
            let late = Message::MainPage(MainPageMessage::ImageLoaded(pre.generation, data));
            main_page_step(now, late) == (now, ActionView::Nothing)
        }),
{
    run_keeps_alignment_and_generation_order(pre, messages);
}

/// Whether a message could have come about while `articles` is the
/// listing: it does not replace the listing, and if it reports an image,
/// the image stems from a job that was planned for one of the articles.
pub open spec fn fits_listing(articles: Seq<Article>, message: Message) -> bool {
    &&& !(message matches Message::MainPage(MainPageMessage::SearchComplete(_, _)))
    &&& message matches Message::MainPage(
        MainPageMessage::ImageLoaded(generation, Some((index, _))),
    ) ==> exists|k: int|
        0 <= k < image_jobs(articles, generation).len() && (#[trigger] image_jobs(
            articles,
            generation,
        )[k]).index == index
}

/// For as long as a listing is shown, the slot of an article without an
/// image URL stays empty, whatever happens and in whatever order.
pub proof fn slot_without_image_url_stays_empty_for_good(
    pre: MainPageView,
    messages: Seq<Message>,
    i: int,
)
    requires
        0 <= i < articles_of(pre.search_result).len(),
        articles_of(pre.search_result)[i].url_to_image is None,
        i < pre.images_loaded.len(),
        pre.images_loaded[i] is None,
        forall|k: int|
            0 <= k < messages.len() ==> fits_listing(
                articles_of(pre.search_result),
                #[trigger] messages[k],
            ),
    ensures
        main_page_run(pre, messages).search_result == pre.search_result,
        i < main_page_run(pre, messages).images_loaded.len(),
        main_page_run(pre, messages).images_loaded[i] is None,
    decreases messages.len(),
{
    if messages.len() > 0 {
        let first = messages.first();
        let next = main_page_step(pre, first).0;
        let rest = messages.drop_first();
        assert(fits_listing(articles_of(pre.search_result), messages[0]));
        slot_without_image_url_stays_empty(pre, first, i);
        assert forall|k: int| 0 <= k < rest.len() implies fits_listing(
            articles_of(next.search_result),
            #[trigger] rest[k],
        ) by {
            assert(rest[k] == messages[k + 1]);
        }
        slot_without_image_url_stays_empty_for_good(next, rest, i);
    }
}

/// Whether a command asks for a search.
pub open spec fn is_search(command: CommandView) -> bool {
    command is Search
}

/// The commands that an action carries.
pub open spec fn commands_of(action: ActionView) -> Seq<CommandView> {
    match action {
        ActionView::SwitchPage(_, commands) => commands,
        ActionView::Task(commands) => commands,
        ActionView::Nothing => Seq::empty(),
    }
}

/// Nothing but a submitted search sends a search request: switching
/// sources, typing, opening panels and completions of any kind send none.
/// A submitted search sends exactly one, for the query and the sources as
/// they are at that moment.
pub proof fn only_a_submitted_search_sends_a_request(pre: MainPageView, message: Message)
    ensures
        ({
            let commands = commands_of(main_page_step(pre, message).1);
            if message matches Message::MainPage(MainPageMessage::SearchSubmit) {
                commands == seq![
                    CommandView::Search(
                        next_generation(pre.generation),
                        search_request(
                            pre.api_key,
                            pre.search_query,
                            Some(filter_text(pre.enabled_sources)),
                        ),
                    ),
                ]
            } else {
                forall|i: int| 0 <= i < commands.len() ==> !is_search(#[trigger] commands[i])
            }
        }),
{
}

/// The listing is replaced only when a search completes, and once there is
/// an answer, there is always one: the screen never goes back to showing
/// nothing.
pub proof fn listing_changes_only_when_a_search_completes(pre: MainPageView, message: Message)
    ensures
        ({
            let post = main_page_step(pre, message).0;
            &&& !(message matches Message::MainPage(MainPageMessage::SearchComplete(_, _)))
                ==> post.search_result == pre.search_result
            &&& pre.search_result is Some ==> post.search_result is Some
        }),
{
}

/// Dismissing the overlays closes both the detail view and the source
/// panel, and dismissing again changes nothing more.
pub proof fn dismissing_twice_is_dismissing_once(pre: MainPageView)
    ensures
        ({
            let (once, action) = main_page_step(pre, Message::Escape);
            &&& once.active_article is None
            &&& !once.source_page
            &&& main_page_step(once, Message::Escape) == (once, action)
        }),
{
}

/// Whether the key of the shown screen, if it has one, can be sent as a
/// header value.
pub open spec fn key_is_sendable(page: PageView) -> bool {
    page matches PageView::Main(main) ==> valid_header_value(main.api_key)
}

/// The request that a command asks to be sent, if it asks for one.
pub open spec fn request_of(command: CommandView) -> Option<RequestView> {
    match command {
        CommandView::Search(_, request) => Some(request),
        CommandView::FetchSources(request) => Some(request),
        _ => None,
    }
}

/// The results screen is only ever shown with a key that can be sent as a
/// header value, and every request that the application asks for carries
/// such a key.
pub proof fn every_request_carries_a_sendable_key(page: PageView, message: Message)
    requires
        key_is_sendable(page),
    ensures
        key_is_sendable(app_step(page, message).0),
        forall|i: int|
            0 <= i < app_step(page, message).1.len() ==> (request_of(
                #[trigger] app_step(page, message).1[i],
            ) matches Some(request) ==> valid_header_value(request.api_key)),
{
}

/// The application starts on the key screen, where no key is in use yet.
pub proof fn key_screen_has_no_key_in_use(token: Seq<char>)
    ensures
        key_is_sendable(PageView::Token(initial_token_page(token))),
{
}

} // verus!
