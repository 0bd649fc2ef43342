//! The source filter: which publishers are switched on, the filter text
//! that requests carry, and what the source panel lists.

use crate::laws::sources::all_off_keeps_ids_distinct;
use crate::laws::sources::distinct_ids_enable_each_id_once;
use crate::laws::sources::set_state_keeps_ids_distinct;
use crate::newsapi::source::Source;
use crate::newsapi::NewsAPISourcesSuccess;
use crate::trusted::contains;
use crate::trusted::lowercased;
use crate::trusted::occurs_in;
use crate::trusted::to_lowercase;
use vstd::prelude::*;
use vstd::string::StringExecFns;

verus! {

/// The switches as plain values: ids with their states, in the order in
/// which the ids were first recorded.
pub type Switches = Seq<(Seq<char>, bool)>;

/// No id is recorded twice.
pub open spec fn distinct_ids(s: Switches) -> bool {
    forall|i: int, j: int| 0 <= i < j < s.len() ==> (#[trigger] s[i]).0 != (#[trigger] s[j]).0
}

/// Whether `id` is recorded.
pub open spec fn has_id(s: Switches, id: Seq<char>) -> bool {
    exists|i: int| 0 <= i < s.len() && (#[trigger] s[i]).0 == id
}

/// The state recorded for `id`, if any.
pub open spec fn lookup(s: Switches, id: Seq<char>) -> Option<bool>
    decreases s.len(),
{
    if s.len() == 0 {
        None
    } else if s.last().0 == id {
        Some(s.last().1)
    } else {
        lookup(s.drop_last(), id)
    }
}

/// Records `state` for `id`: in place where the id is known, at the end
/// where it is new.
pub open spec fn set_state(s: Switches, id: Seq<char>, state: bool) -> Switches {
    if has_id(s, id) {
        Seq::new(s.len(), |i: int| if s[i].0 == id { (id, state) } else { s[i] })
    } else {
        s.push((id, state))
    }
}

/// Every recorded id switched off.
pub open spec fn all_off(s: Switches) -> Switches {
    Seq::new(s.len(), |i: int| (s[i].0, false))
}

/// The switches of a fresh catalog: each id off, recorded once, in catalog
/// order.
pub open spec fn fresh_switches(ids: Seq<Seq<char>>) -> Switches
    decreases ids.len(),
{
    if ids.len() == 0 {
        Seq::empty()
    } else {
        set_state(fresh_switches(ids.drop_last()), ids.last(), false)
    }
}

/// The ids of a catalog, in order.
pub open spec fn catalog_ids(sources: Seq<Source>) -> Seq<Seq<char>> {
    Seq::new(sources.len(), |i: int| sources[i].id@)
}

/// The ids that are switched on, in recorded order.
pub open spec fn enabled_ids(s: Switches) -> Seq<Seq<char>>
    decreases s.len(),
{
    if s.len() == 0 {
        Seq::empty()
    } else if s.last().1 {
        enabled_ids(s.drop_last()).push(s.last().0)
    } else {
        enabled_ids(s.drop_last())
    }
}

/// The ids joined by commas.
pub open spec fn comma_joined(ids: Seq<Seq<char>>) -> Seq<char>
    decreases ids.len(),
{
    if ids.len() == 0 {
        Seq::empty()
    } else if ids.len() == 1 {
        ids[0]
    } else {
        comma_joined(ids.drop_last()) + ","@ + ids.last()
    }
}

/// The filter text that a request carries: the enabled ids, comma-joined;
/// empty where none is enabled.
pub open spec fn filter_text(s: Switches) -> Seq<char> {
    comma_joined(enabled_ids(s))
}

/// Which sources are switched on, by id. Ids that no catalog holds any more
/// are kept like any other.
#[derive(Debug)]
pub struct EnabledSources {
    entries: Vec<(String, bool)>,
}

impl View for EnabledSources {
    type V = Switches;

    closed spec fn view(&self) -> Switches {
        plain(self.entries@)
    }
}

/// Entries as plain values.
spec fn plain(entries: Seq<(String, bool)>) -> Switches {
    Seq::new(entries.len(), |i: int| (entries[i].0@, entries[i].1))
}

impl EnabledSources {
    /// No id is recorded twice, whatever was done to the switches.
    #[verifier::type_invariant]
    pub open spec fn recorded_once(self) -> bool {
        distinct_ids(self@)
    }

    /// No switches at all.
    pub fn new() -> (out: Self)
        ensures
            out@ == Switches::empty(),
            distinct_ids(out@),
    {
        let out = EnabledSources { entries: Vec::new() };
        assert(out@ =~= Switches::empty());
        out
    }

    /// Number of recorded ids, each of which is recorded once.
    pub fn len(&self) -> (n: usize)
        ensures
            n == self@.len(),
            distinct_ids(self@),
    {
        proof {
            use_type_invariant(self);
        }
        self.entries.len()
    }

    /// Records `state` for `id`, whether or not any catalog holds the id.
    pub fn insert(&mut self, id: String, state: bool)
        ensures
            final(self)@ == set_state(old(self)@, id@, state),
            distinct_ids(final(self)@),
    {
        proof {
            use_type_invariant(&*self);
        }
        let ghost raw = self.entries@;
        let mut next: Vec<(String, bool)> = Vec::new();
        let mut found = false;
        let mut i: usize = 0;
        while i < self.entries.len()
            invariant
                i <= self.entries.len(),
                self.entries@ == raw,
                next.len() == i,
                found ==> has_id(plain(raw), id@),
                !found ==> forall|j: int| 0 <= j < i ==> (#[trigger] raw[j]).0@ != id@,
                forall|j: int|
                    0 <= j < i ==> (#[trigger] next@[j]).1 == (if raw[j].0@ == id@ {
                        state
                    } else {
                        raw[j].1
                    }) && next@[j].0@ == raw[j].0@,
            decreases self.entries.len() - i,
        {
            let same = self.entries[i].0 == id;
            let kept = if same {
                state
            } else {
                self.entries[i].1
            };
            next.push((self.entries[i].0.clone(), kept));
            if same {
                found = true;
                assert(plain(raw)[i as int].0 == id@);
            }
            i += 1;
        }
        if !found {
            assert(!has_id(plain(raw), id@)) by {
                assert forall|j: int| 0 <= j < plain(raw).len() implies (#[trigger] plain(raw)[j]).0
                    != id@ by {
                    assert(raw[j].0@ != id@);
                }
            }
            next.push((id, state));
        }
        assert(plain(next@) =~= set_state(plain(raw), id@, state));
        proof {
            set_state_keeps_ids_distinct(plain(raw), id@, state);
        }
        self.entries = next;
    }

    /// The state recorded for `id`, if the id is recorded.
    pub fn get(&self, id: &str) -> (state: Option<bool>)
        ensures
            state == lookup(self@, id@),
    {
        let id = id.to_owned();
        let mut state: Option<bool> = None;
        let mut i: usize = 0;
        while i < self.entries.len()
            invariant
                i <= self.entries.len(),
                state == lookup(plain(self.entries@).take(i as int), id@),
            decreases self.entries.len() - i,
        {
            assert(plain(self.entries@).take(i + 1).drop_last() =~= plain(self.entries@).take(
                i as int,
            ));
            if self.entries[i].0 == id {
                state = Some(self.entries[i].1);
            }
            i += 1;
        }
        assert(plain(self.entries@).take(i as int) =~= plain(self.entries@));
        state
    }

    /// Whether `id` is switched on. An id that is not recorded is off.
    pub fn is_enabled(&self, id: &str) -> (on: bool)
        ensures
            on == (lookup(self@, id@) == Some(true)),
    {
        match self.get(id) {
            Some(state) => state,
            None => false,
        }
    }

    /// Switches every recorded id off.
    pub fn disable_all(&mut self)
        ensures
            final(self)@ == all_off(old(self)@),
            distinct_ids(final(self)@),
    {
        proof {
            use_type_invariant(&*self);
        }
        let ghost raw = self.entries@;
        let mut next: Vec<(String, bool)> = Vec::new();
        let mut i: usize = 0;
        while i < self.entries.len()
            invariant
                i <= self.entries.len(),
                self.entries@ == raw,
                next.len() == i,
                forall|j: int|
                    0 <= j < i ==> !(#[trigger] next@[j]).1 && next@[j].0@ == raw[j].0@,
            decreases self.entries.len() - i,
        {
            next.push((self.entries[i].0.clone(), false));
            i += 1;
        }
        assert(plain(next@) =~= all_off(plain(raw)));
        proof {
            all_off_keeps_ids_distinct(plain(raw));
        }
        self.entries = next;
    }

    /// Forgets every id and records those of `sources`, each switched off.
    pub fn reset_to(&mut self, sources: &Vec<Source>)
        ensures
            final(self)@ == fresh_switches(catalog_ids(sources@)),
            distinct_ids(final(self)@),
    {
        let fresh: Vec<(String, bool)> = Vec::new();
        assert(plain(fresh@) =~= Switches::empty());
        self.entries = fresh;
        let ghost ids = catalog_ids(sources@);
        let mut i: usize = 0;
        while i < sources.len()
            invariant
                i <= sources.len(),
                ids == catalog_ids(sources@),
                self@ == fresh_switches(ids.take(i as int)),
                distinct_ids(self@),
            decreases sources.len() - i,
        {
            assert(ids.take(i + 1).drop_last() =~= ids.take(i as int));
            self.insert(sources[i].id.clone(), false);
            i += 1;
        }
        assert(ids.take(i as int) =~= ids);
    }

    /// The ids that are switched on, in recorded order.
    pub fn enabled(&self) -> (ids: Vec<String>)
        ensures
            ids.deep_view() == enabled_ids(self@),
            ids.deep_view().no_duplicates(),
    {
        proof {
            use_type_invariant(self);
            distinct_ids_enable_each_id_once(plain(self.entries@));
        }
        let mut ids: Vec<String> = Vec::new();
        assert(ids.deep_view() =~= Seq::<Seq<char>>::empty());
        let mut i: usize = 0;
        while i < self.entries.len()
            invariant
                i <= self.entries.len(),
                ids.deep_view() == enabled_ids(plain(self.entries@).take(i as int)),
            decreases self.entries.len() - i,
        {
            assert(plain(self.entries@).take(i + 1).drop_last() =~= plain(self.entries@).take(
                i as int,
            ));
            if self.entries[i].1 {
                let ghost so_far = ids.deep_view();
                ids.push(self.entries[i].0.clone());
                assert(ids.deep_view() =~= so_far.push(self.entries[i as int].0@));
            }
            i += 1;
        }
        assert(plain(self.entries@).take(i as int) =~= plain(self.entries@));
        ids
    }

    /// Number of ids that are switched on.
    pub fn count_enabled(&self) -> (n: usize)
        ensures
            n == enabled_ids(self@).len(),
    {
        let mut n: usize = 0;
        let mut i: usize = 0;
        while i < self.entries.len()
            invariant
                i <= self.entries.len(),
                n <= i,
                n == enabled_ids(plain(self.entries@).take(i as int)).len(),
            decreases self.entries.len() - i,
        {
            assert(plain(self.entries@).take(i + 1).drop_last() =~= plain(self.entries@).take(
                i as int,
            ));
            if self.entries[i].1 {
                n += 1;
            }
            i += 1;
        }
        assert(plain(self.entries@).take(i as int) =~= plain(self.entries@));
        n
    }

    /// The filter text for the next request: the enabled ids, comma-joined.
    pub fn filter_string(&self) -> (text: String)
        ensures
            text@ == filter_text(self@),
            enabled_ids(self@).no_duplicates(),
    {
        let ids = self.enabled();
        let mut text = String::new();
        let mut i: usize = 0;
        while i < ids.len()
            invariant
                i <= ids.len(),
                text@ == comma_joined(ids.deep_view().take(i as int)),
            decreases ids.len() - i,
        {
            assert(ids.deep_view().take(i + 1).drop_last() =~= ids.deep_view().take(i as int));
            if i > 0 {
                text.append(",");
            }
            text.append(ids[i].as_str());
            i += 1;
        }
        assert(ids.deep_view().take(i as int) =~= ids.deep_view());
        text
    }
}

/// The three parts joined by single spaces.
pub open spec fn spaced(name: Seq<char>, description: Seq<char>, id: Seq<char>) -> Seq<char> {
    name + " "@ + description + " "@ + id
}

/// The text in which the filter is looked for: name, description and id of
/// the source, each in lower case, joined by single spaces.
pub open spec fn haystack_of(source: Source) -> Seq<char> {
    spaced(lowercased(source.name@), lowercased(source.description@), lowercased(source.id@))
}

/// Whether the source panel lists `source` under `filter`: the filter,
/// whatever its case, occurs in name, description or id of the source,
/// whatever theirs.
pub open spec fn source_matches(source: Source, filter: Seq<char>) -> bool {
    occurs_in(lowercased(filter), haystack_of(source))
}

/// Joins the three parts by single spaces.
pub fn haystack(name: &str, description: &str, id: &str) -> (text: String)
    ensures
        text@ == spaced(name@, description@, id@),
{
    let mut text = name.to_owned();
    text.append(" ");
    text.append(description);
    text.append(" ");
    text.append(id);
    text
}

/// Decides whether `filter` occurs in the text made of the three parts,
/// all of them taken as they are.
pub fn occurs_in_parts(name: &str, description: &str, id: &str, filter: &str) -> (found: bool)
    ensures
        found == occurs_in(filter@, spaced(name@, description@, id@)),
{
    let text = haystack(name, description, id);
    contains(text.as_str(), filter)
}

/// Decides whether the source panel lists `source` under `filter`.
pub fn matches_filter(source: &Source, filter: &str) -> (listed: bool)
    ensures
        listed == source_matches(*source, filter@),
{
    let name = to_lowercase(source.name.as_str());
    let description = to_lowercase(source.description.as_str());
    let id = to_lowercase(source.id.as_str());
    let needle = to_lowercase(filter);
    occurs_in_parts(name.as_str(), description.as_str(), id.as_str(), needle.as_str())
}

/// One line of the source panel: the source at `index` of the catalog, and
/// whether it is switched on.
#[derive(Debug, Clone, Copy, PartialEq, Eq, Structural)]
pub struct SourceRow {
    pub index: usize,
    pub enabled: bool,
}

/// What the source panel shows.
#[derive(Debug)]
pub enum SourcePanel {
    /// Nothing: the panel is closed, or no catalog has arrived yet.
    Hidden,
    /// Why the catalog could not be had.
    Error(String),
    /// The sources that the filter lets through.
    Sources(Vec<SourceRow>),
}

/// A panel as plain values.
pub enum SourcePanelView {
    Hidden,
    Error(Seq<char>),
    Sources(Seq<SourceRow>),
}

impl View for SourcePanel {
    type V = SourcePanelView;

    open spec fn view(&self) -> SourcePanelView {
        match *self {
            SourcePanel::Hidden => SourcePanelView::Hidden,
            SourcePanel::Error(text) => SourcePanelView::Error(text@),
            SourcePanel::Sources(rows) => SourcePanelView::Sources(rows@),
        }
    }
}

/// The lines of the panel: the sources of the catalog that `filter` lets
/// through, in catalog order, each with its switch. A source whose id was
/// never recorded counts as switched off.
pub open spec fn visible_rows(sources: Seq<Source>, switches: Switches, filter: Seq<char>) -> Seq<
    SourceRow,
>
    decreases sources.len(),
{
    if sources.len() == 0 {
        Seq::empty()
    } else {
        let earlier = visible_rows(sources.drop_last(), switches, filter);
        if source_matches(sources.last(), filter) {
            earlier.push(
                SourceRow {
                    index: (sources.len() - 1) as usize,
                    enabled: lookup(switches, sources.last().id@) == Some(true),
                },
            )
        } else {
            earlier
        }
    }
}

/// What the panel shows: nothing while it is closed or no catalog has
/// arrived, the error where the catalog request failed, else the lines.
pub open spec fn source_panel(
    open: bool,
    source_data: Option<Result<NewsAPISourcesSuccess, String>>,
    switches: Switches,
    filter: Seq<char>,
) -> SourcePanelView {
    if !open {
        SourcePanelView::Hidden
    } else {
        match source_data {
            Some(Ok(data)) => SourcePanelView::Sources(visible_rows(data.sources@, switches, filter)),
            Some(Err(text)) => SourcePanelView::Error(text@),
            None => SourcePanelView::Hidden,
        }
    }
}

/// Works out what the source panel shows.
pub fn source_page(
    open: bool,
    source_data: Option<&Result<NewsAPISourcesSuccess, String>>,
    enabled_sources: &EnabledSources,
    source_filter: &str,
) -> (panel: SourcePanel)
    ensures
        panel@ == source_panel(
            open,
            match source_data {
                Some(data) => Some(*data),
                None => None,
            },
            enabled_sources@,
            source_filter@,
        ),
{
    if !open {
        return SourcePanel::Hidden;
    }
    match source_data {
        Some(Ok(data)) => {
            let mut rows: Vec<SourceRow> = Vec::new();
            let mut i: usize = 0;
            while i < data.sources.len()
                invariant
                    i <= data.sources.len(),
                    rows@ == visible_rows(
                        data.sources@.take(i as int),
                        enabled_sources@,
                        source_filter@,
                    ),
                decreases data.sources.len() - i,
            {
                assert(data.sources@.take(i + 1).drop_last() =~= data.sources@.take(i as int));
                let source = &data.sources[i];
                if matches_filter(source, source_filter) {
                    rows.push(
                        SourceRow { index: i, enabled: enabled_sources.is_enabled(source.id.as_str()) },
                    );
                }
                i += 1;
            }
            assert(data.sources@.take(i as int) =~= data.sources@);
            SourcePanel::Sources(rows)
        },
        Some(Err(text)) => SourcePanel::Error(text.clone()),
        None => SourcePanel::Hidden,
    }
}

} // verus!
