//! The application state: the store, the source list, filters, search,
//! selection, and the modes of the interactive loop. Everything here is
//! plain state and rules; the terminal, the channels and the spawned tasks
//! live with the runtime shell that drives this state.

use vstd::prelude::*;
use crate::config;
use crate::discovery::DiscoveryResult;
use crate::ingest::{source_id_of, SourceEvent, SourceInfo, SourceStatus};
use crate::parse;
use crate::pattern::{ingest_transition, max64, prune_front, PatternStore};
use crate::profile::{profile_views, Profile};
use crate::search::{SearchResult};
use crate::source_menu::SourceMenuState;
use crate::theme;
use crate::util;

verus! {

/// The interactive modes; each overlay returns to `Normal`.
#[derive(Debug, Clone, Copy, PartialEq, Eq, Structural)]
pub enum AppMode {
    Normal,
    Search,
    Drilldown,
    Help,
    ProfilePicker,
    SourceMenu,
}

/// The three panes of the dashboard.
#[derive(Debug, Clone, Copy, PartialEq, Eq, Structural)]
pub enum Pane {
    Sources,
    Patterns,
    Details,
}

/// Rolling one-minute event timestamps of one source.
pub struct SourceRate {
    pub id: String,
    pub timestamps: Vec<u64>,
}

/// A source as the contracts see it.
#[verifier::ext_equal]
pub struct SourceInfoV {
    pub id: Seq<char>,
    pub kind: Seq<char>,
    pub status: SourceStatus,
}

impl View for SourceInfo {
    type V = SourceInfoV;

    open spec fn view(&self) -> SourceInfoV {
        SourceInfoV { id: self.id@, kind: self.kind@, status: self.status }
    }
}

/// The views of a sequence of sources.
pub open spec fn source_views(v: Seq<SourceInfo>) -> Seq<SourceInfoV> {
    v.map_values(|s: SourceInfo| s@)
}

/// A rate entry as the contracts see it.
#[verifier::ext_equal]
pub struct SourceRateV {
    pub id: Seq<char>,
    pub timestamps: Seq<u64>,
}

impl View for SourceRate {
    type V = SourceRateV;

    open spec fn view(&self) -> SourceRateV {
        SourceRateV { id: self.id@, timestamps: self.timestamps@ }
    }
}

/// The views of the rate entries.
pub open spec fn rate_views(v: Seq<SourceRate>) -> Seq<SourceRateV> {
    v.map_values(|s: SourceRate| s@)
}

/// Index of the first rate entry for the id, or `-1`.
pub open spec fn find_rate(rs: Seq<SourceRateV>, id: Seq<char>) -> int
    decreases rs.len(),
{
    if rs.len() == 0 {
        -1
    } else if rs[0].id == id {
        0
    } else {
        let r = find_rate(rs.drop_first(), id);
        if r < 0 {
            -1
        } else {
            1 + r
        }
    }
}

pub proof fn lemma_find_rate(rs: Seq<SourceRateV>, id: Seq<char>)
    ensures
        find_rate(rs, id) >= 0 ==> 0 <= find_rate(rs, id) < rs.len() && rs[find_rate(
            rs,
            id,
        )].id == id && (forall|m: int| 0 <= m < find_rate(rs, id) ==> rs[m].id != id),
        find_rate(rs, id) < 0 ==> forall|m: int| 0 <= m < rs.len() ==> rs[m].id != id,
    decreases rs.len(),
{
    if rs.len() == 0 {
    } else if rs[0].id == id {
    } else {
        lemma_find_rate(rs.drop_first(), id);
        assert forall|m: int| 1 <= m < rs.len() implies rs.drop_first()[m - 1] == rs[m] by {}
    }
}

/// What recording one event at `now` does to the rate entries: the entry of
/// the source gains the timestamp, never going back before the entry's
/// newest one; an unseen source gains a fresh entry.
pub open spec fn rate_bumped(rs: Seq<SourceRateV>, id: Seq<char>, now: u64) -> Seq<SourceRateV> {
    let j = find_rate(rs, id);
    if j >= 0 {
        let t = if rs[j].timestamps.len() > 0 && rs[j].timestamps.last() > now {
            rs[j].timestamps.last()
        } else {
            now
        };
        rs.update(j, SourceRateV { id: rs[j].id, timestamps: rs[j].timestamps.push(t) })
    } else {
        rs.push(SourceRateV { id: id, timestamps: seq![now] })
    }
}

/// Every rate window keeps its timestamps in order.
pub open spec fn rates_sorted(rs: Seq<SourceRateV>) -> bool {
    forall|i: int|
        0 <= i < rs.len() ==> crate::pattern::ts_sorted((#[trigger] rs[i]).timestamps)
}

/// No two sources share an id.
pub open spec fn unique_ids(ss: Seq<SourceInfoV>) -> bool {
    forall|i: int, j: int|
        0 <= i < j < ss.len() ==> (#[trigger] ss[i]).id != (#[trigger] ss[j]).id
}

/// The sources after recording one: unchanged when a source with the id is
/// already recorded, else extended by a starting source of the kind. The id
/// prefix differs from the kind only for command sources (`cmd/...`).
pub open spec fn source_added(
    ss: Seq<SourceInfoV>,
    prefix: Seq<char>,
    kind: Seq<char>,
    name: Seq<char>,
) -> Seq<SourceInfoV> {
    let id = source_id_of(prefix, name);
    if find_source(ss, id) >= 0 {
        ss
    } else {
        ss.push(SourceInfoV { id: id, kind: kind, status: SourceStatus::Starting })
    }
}

/// The application state.
pub struct App {
    pub mode: AppMode,
    pub active_pane: Pane,
    pub sources: Vec<SourceInfo>,
    pub store: PatternStore,
    pub selected_source: usize,
    pub selected_pattern: usize,
    pub search_query: String,
    pub filtered_view: Vec<SearchResult>,
    pub paused: bool,
    pub profiles: Vec<Profile>,
    pub profile_index: usize,
    /// Name of a theme chosen at run time, overriding the profile's.
    pub theme_override: Option<String>,
    pub should_quit: bool,
    pub log_count: u64,
    pub show_normalized: bool,
    pub detail_scroll: usize,
    pub tick_count: u64,
    pub source_menu: SourceMenuState,
    /// Set when an overlay closes, so the shell forces a full repaint.
    pub needs_clear: bool,
    /// Restrict the pattern view to patterns this source contributed to.
    pub active_source_filter: Option<String>,
    /// Per-source rolling one-minute timestamps, distinct from the store's.
    pub source_rates: Vec<SourceRate>,
    /// Provider kinds collapsed in the sources pane.
    pub collapsed_groups: Vec<String>,
    /// Management token pre-fetched during discovery, if any.
    pub azure_token: Option<String>,
    pub show_banner: bool,
}


/// The provider kinds in their fixed display order.
pub open spec fn spec_provider_order() -> Seq<Seq<char>> {
    seq!["docker"@, "azure"@, "command"@, "file"@]
}

/// The provider kinds in the order the sources pane groups them.
pub fn provider_order() -> (r: Vec<String>)
    ensures
        util::str_views(r@) =~~= spec_provider_order(),
{
    let mut v: Vec<String> = Vec::new();
    v.push(String::from_str("docker"));
    v.push(String::from_str("azure"));
    v.push(String::from_str("command"));
    v.push(String::from_str("file"));
    proof {
        assert(util::str_views(v@) =~~= spec_provider_order());
    }
    v
}

impl App {
    /// Consistency the state keeps: the store is consistent, a profile is
    /// always selected, and the filtered view points into the store.
    pub open spec fn wf(&self) -> bool {
        &&& self.store.wf()
        &&& self.profiles@.len() > 0
        &&& self.profile_index < self.profiles@.len()
        &&& rates_sorted(rate_views(self.source_rates@))
    }
}

} // verus!

// ---------------------------------------------------------------------------
// Spec helpers shared by the event-processing contracts
// ---------------------------------------------------------------------------

verus! {

/// Index of the first string equal to `x`, or `-1`.
pub open spec fn find_str(s: Seq<Seq<char>>, x: Seq<char>) -> int
    decreases s.len(),
{
    if s.len() == 0 {
        -1
    } else if s[0] == x {
        0
    } else {
        let r = find_str(s.drop_first(), x);
        if r < 0 {
            -1
        } else {
            1 + r
        }
    }
}

pub proof fn lemma_find_str(s: Seq<Seq<char>>, x: Seq<char>)
    ensures
        find_str(s, x) >= 0 ==> 0 <= find_str(s, x) < s.len() && s[find_str(s, x)] == x && (forall|
            m: int,
        | 0 <= m < find_str(s, x) ==> s[m] != x),
        find_str(s, x) < 0 ==> forall|m: int| 0 <= m < s.len() ==> s[m] != x,
    decreases s.len(),
{
    if s.len() == 0 {
    } else if s[0] == x {
    } else {
        lemma_find_str(s.drop_first(), x);
        assert forall|m: int| 1 <= m < s.len() implies s.drop_first()[m - 1] == s[m] by {}
    }
}

/// The statuses after a status event: the first source with the id takes the
/// new status; an unknown id changes nothing.
pub open spec fn set_status(ss: Seq<SourceInfoV>, id: Seq<char>, st: SourceStatus) -> Seq<
    SourceInfoV,
> {
    let j = find_source(ss, id);
    if j >= 0 {
        ss.update(j, SourceInfoV { id: ss[j].id, kind: ss[j].kind, status: st })
    } else {
        ss
    }
}

/// Index of the first source with the id, or `-1`.
pub open spec fn find_source(ss: Seq<SourceInfoV>, id: Seq<char>) -> int
    decreases ss.len(),
{
    if ss.len() == 0 {
        -1
    } else if ss[0].id == id {
        0
    } else {
        let r = find_source(ss.drop_first(), id);
        if r < 0 {
            -1
        } else {
            1 + r
        }
    }
}

pub proof fn lemma_find_source(ss: Seq<SourceInfoV>, id: Seq<char>)
    ensures
        find_source(ss, id) >= 0 ==> 0 <= find_source(ss, id) < ss.len() && ss[find_source(
            ss,
            id,
        )].id == id && (forall|m: int| 0 <= m < find_source(ss, id) ==> ss[m].id != id),
        find_source(ss, id) < 0 ==> forall|m: int| 0 <= m < ss.len() ==> ss[m].id != id,
    decreases ss.len(),
{
    if ss.len() == 0 {
    } else if ss[0].id == id {
    } else {
        lemma_find_source(ss.drop_first(), id);
        assert forall|m: int| 1 <= m < ss.len() implies ss.drop_first()[m - 1] == ss[m] by {}
    }
}

/// The rate entries with every window pruned to the last minute.
pub open spec fn rates_pruned(rs: Seq<SourceRateV>, now: u64) -> Seq<SourceRateV> {
    rs.map_values(
        |r: SourceRateV| SourceRateV {
            id: r.id,
            timestamps: prune_front(r.timestamps, now, 60_000),
        },
    )
}

/// Sum of the one-minute window lengths of the sources of one provider kind.
pub open spec fn provider_rate_sum(
    ss: Seq<SourceInfoV>,
    rs: Seq<SourceRateV>,
    kind: Seq<char>,
    i: int,
) -> int
    decreases ss.len() - i,
{
    if i < 0 || i >= ss.len() {
        0
    } else {
        (if ss[i].kind == kind {
            let j = find_rate(rs, ss[i].id);
            if j >= 0 {
                rs[j].timestamps.len() as int
            } else {
                0
            }
        } else {
            0
        }) + provider_rate_sum(ss, rs, kind, i + 1)
    }
}

/// The first whitespace-separated token of a command line, or `cmd` when the
/// line holds none: the name a command source is known by.
pub open spec fn first_token(s: Seq<char>) -> Seq<char> {
    let lead = crate::parse::run_len(s, 0, |c: char| parse::is_space(c));
    let tok = crate::parse::run_len(s, lead, |c: char| !parse::is_space(c));
    if tok == 0 {
        "cmd"@
    } else {
        s.subrange(lead, lead + tok)
    }
}

/// What processing one log line at `now` does to the state. A paused
/// application drops the line entirely; otherwise the source's rate window
/// gains the timestamp, and when the line's severity reaches the profile's
/// minimum it is folded into the store and counted.
pub open spec fn log_processed(o: &App, n: &App, source: Seq<char>, line: Seq<char>, now: u64) -> bool {
    if o.paused {
        n == o
    } else {
        let clean = util::strip_spec(line);
        let lv = parse::spec_detect_level(clean);
        let kept = lv.spec_severity() >= o.active_min_level().spec_severity();
    &&& n.mode == o.mode
    &&& n.active_pane == o.active_pane
    &&& n.sources == o.sources
    &&& n.selected_source == o.selected_source
    &&& n.selected_pattern == o.selected_pattern
    &&& n.search_query == o.search_query
    &&& n.filtered_view == o.filtered_view
    &&& n.paused == o.paused
    &&& n.profiles == o.profiles
    &&& n.profile_index == o.profile_index
    &&& n.theme_override == o.theme_override
    &&& n.should_quit == o.should_quit
    &&& n.show_normalized == o.show_normalized
    &&& n.detail_scroll == o.detail_scroll
    &&& n.tick_count == o.tick_count
    &&& n.source_menu == o.source_menu
    &&& n.needs_clear == o.needs_clear
    &&& n.active_source_filter == o.active_source_filter
    &&& n.collapsed_groups == o.collapsed_groups
    &&& n.azure_token == o.azure_token
    &&& n.show_banner == o.show_banner
        &&& rate_views(n.source_rates@) == rate_bumped(rate_views(o.source_rates@), source, now)
        &&& if kept {
            &&& n.store.spec_latest() == max64(now, o.store.spec_latest())
            &&& n.store.spec_patterns() == ingest_transition(
                o.store.spec_patterns(),
                parse::norm_spec(clean),
                clean,
                lv,
                source,
                max64(now, o.store.spec_latest()),
            )
            &&& n.log_count == crate::pattern::sat_add64(o.log_count)
        } else {
            &&& n.store == o.store
            &&& n.log_count == o.log_count
        }
    }
}

/// What a status event does to the state: only the named source's status.
pub open spec fn status_updated(o: &App, n: &App, id: Seq<char>, st: SourceStatus) -> bool {
    &&& n.mode == o.mode
    &&& n.active_pane == o.active_pane
    &&& n.store == o.store
    &&& n.selected_source == o.selected_source
    &&& n.selected_pattern == o.selected_pattern
    &&& n.search_query == o.search_query
    &&& n.filtered_view == o.filtered_view
    &&& n.paused == o.paused
    &&& n.profiles == o.profiles
    &&& n.profile_index == o.profile_index
    &&& n.theme_override == o.theme_override
    &&& n.should_quit == o.should_quit
    &&& n.log_count == o.log_count
    &&& n.show_normalized == o.show_normalized
    &&& n.detail_scroll == o.detail_scroll
    &&& n.tick_count == o.tick_count
    &&& n.source_menu == o.source_menu
    &&& n.needs_clear == o.needs_clear
    &&& n.active_source_filter == o.active_source_filter
    &&& n.source_rates == o.source_rates
    &&& n.collapsed_groups == o.collapsed_groups
    &&& n.azure_token == o.azure_token
    &&& n.show_banner == o.show_banner
    &&& source_views(n.sources@) == set_status(source_views(o.sources@), id, st)
}

impl App {
    /// The minimum severity of the selected profile.
    pub open spec fn active_min_level(&self) -> parse::Level {
        profile_views(self.profiles@)[self.profile_index as int].min_level
    }

    /// The name of the theme in effect: the override, or the profile's.
    pub open spec fn active_theme(&self) -> Seq<char> {
        match self.theme_override {
            Some(t) => t@,
            None => profile_views(self.profiles@)[self.profile_index as int].theme,
        }
    }

    /// Fresh state over the given profiles, selecting the named one when it
    /// exists and the first otherwise.
    pub fn with_profiles(profiles: Vec<Profile>, profile_name: Option<&str>) -> (r: App)
        requires
            profiles@.len() > 0,
        ensures
            r.wf(),
            r.mode is Normal,
            r.active_pane is Patterns,
            r.sources@.len() == 0,
            r.store.spec_patterns().len() == 0,
            r.store.spec_latest() == 0,
            r.selected_source == 0,
            r.selected_pattern == 0,
            r.search_query@.len() == 0,
            r.filtered_view@.len() == 0,
            !r.paused,
            r.profiles == profiles,
            r.profile_index == (match profile_name {
                Some(n) => if config::find_profile(profile_views(profiles@), n@) >= 0 {
                    config::find_profile(profile_views(profiles@), n@)
                } else {
                    0
                },
                None => 0,
            }),
            r.theme_override is None,
            !r.should_quit,
            r.log_count == 0,
            !r.show_normalized,
            r.detail_scroll == 0,
            r.tick_count == 0,
            !r.needs_clear,
            r.active_source_filter is None,
            r.source_rates@.len() == 0,
            r.collapsed_groups@.len() == 0,
            r.azure_token is None,
            r.show_banner,
    {
        let profile_index: usize = match profile_name {
            Some(n) => {
                let owned = String::from_str(n);
                match config::find_profile_index(&profiles, &owned) {
                    Some(j) => j,
                    None => 0,
                }
            },
            None => 0,
        };
        App {
            mode: AppMode::Normal,
            active_pane: Pane::Patterns,
            sources: Vec::new(),
            store: PatternStore::new(),
            selected_source: 0,
            selected_pattern: 0,
            search_query: String::new(),
            filtered_view: Vec::new(),
            paused: false,
            profiles,
            profile_index,
            theme_override: None,
            should_quit: false,
            log_count: 0,
            show_normalized: false,
            detail_scroll: 0,
            tick_count: 0,
            source_menu: SourceMenuState::new(),
            needs_clear: false,
            active_source_filter: None,
            source_rates: Vec::new(),
            collapsed_groups: Vec::new(),
            azure_token: None,
            show_banner: true,
        }
    }

    /// Fresh state over the built-in profiles, selecting the named one when
    /// it exists and the first otherwise.
    pub fn new(profile_name: Option<&str>) -> (r: App)
        ensures
            r.wf(),
            r.mode is Normal,
            r.active_pane is Patterns,
            r.sources@.len() == 0,
            r.store.spec_patterns().len() == 0,
            r.store.spec_latest() == 0,
            r.selected_source == 0,
            r.selected_pattern == 0,
            r.search_query@.len() == 0,
            r.filtered_view@.len() == 0,
            !r.paused,
            profile_views(r.profiles@) == crate::profile::builtin_profiles(),
            r.profile_index == (match profile_name {
                Some(n) => if config::find_profile(crate::profile::builtin_profiles(), n@) >= 0 {
                    config::find_profile(crate::profile::builtin_profiles(), n@)
                } else {
                    0
                },
                None => 0,
            }),
            r.theme_override is None,
            !r.should_quit,
            r.log_count == 0,
            !r.show_normalized,
            r.detail_scroll == 0,
            r.tick_count == 0,
            !r.needs_clear,
            r.active_source_filter is None,
            r.source_rates@.len() == 0,
            r.collapsed_groups@.len() == 0,
            r.azure_token is None,
            r.show_banner,
    {
        let ps = Profile::all_profiles();
        proof {
            assert(profile_views(ps@).len() == 3);
        }
        Self::with_profiles(ps, profile_name)
    }

    /// The selected profile.
    pub fn profile(&self) -> (r: &Profile)
        requires
            self.wf(),
        ensures
            (*r)@ == profile_views(self.profiles@)[self.profile_index as int],
    {
        &self.profiles[self.profile_index]
    }

    /// The name of the theme in effect.
    pub fn theme(&self) -> (r: String)
        requires
            self.wf(),
        ensures
            r@ == self.active_theme(),
    {
        match &self.theme_override {
            Some(t) => t.clone(),
            None => self.profiles[self.profile_index].theme.clone(),
        }
    }

    /// Cycle the theme override to the next theme after the one in effect.
    pub fn toggle_theme(&mut self)
        requires
            old(self).wf(),
        ensures
            final(self).wf(),
            final(self).mode == old(self).mode,
            final(self).active_pane == old(self).active_pane,
            final(self).sources == old(self).sources,
            final(self).store == old(self).store,
            final(self).selected_source == old(self).selected_source,
            final(self).selected_pattern == old(self).selected_pattern,
            final(self).search_query == old(self).search_query,
            final(self).filtered_view == old(self).filtered_view,
            final(self).paused == old(self).paused,
            final(self).profiles == old(self).profiles,
            final(self).profile_index == old(self).profile_index,
            final(self).should_quit == old(self).should_quit,
            final(self).log_count == old(self).log_count,
            final(self).show_normalized == old(self).show_normalized,
            final(self).detail_scroll == old(self).detail_scroll,
            final(self).tick_count == old(self).tick_count,
            final(self).source_menu == old(self).source_menu,
            final(self).needs_clear == old(self).needs_clear,
            final(self).active_source_filter == old(self).active_source_filter,
            final(self).source_rates == old(self).source_rates,
            final(self).collapsed_groups == old(self).collapsed_groups,
            final(self).azure_token == old(self).azure_token,
            final(self).show_banner == old(self).show_banner,
            final(self).theme_override matches Some(t) && t@ == theme::spec_next_theme(
                old(self).active_theme(),
            ),
    {
        let cur = self.theme();
        self.theme_override = Some(theme::next_theme_name(cur.as_str()));
    }

    /// Move focus to the pane after the active one.
    pub fn next_pane(&mut self)
        ensures
            final(self).mode == old(self).mode,
            final(self).sources == old(self).sources,
            final(self).store == old(self).store,
            final(self).selected_source == old(self).selected_source,
            final(self).selected_pattern == old(self).selected_pattern,
            final(self).search_query == old(self).search_query,
            final(self).filtered_view == old(self).filtered_view,
            final(self).paused == old(self).paused,
            final(self).profiles == old(self).profiles,
            final(self).profile_index == old(self).profile_index,
            final(self).theme_override == old(self).theme_override,
            final(self).should_quit == old(self).should_quit,
            final(self).log_count == old(self).log_count,
            final(self).show_normalized == old(self).show_normalized,
            final(self).detail_scroll == old(self).detail_scroll,
            final(self).tick_count == old(self).tick_count,
            final(self).source_menu == old(self).source_menu,
            final(self).needs_clear == old(self).needs_clear,
            final(self).active_source_filter == old(self).active_source_filter,
            final(self).source_rates == old(self).source_rates,
            final(self).collapsed_groups == old(self).collapsed_groups,
            final(self).azure_token == old(self).azure_token,
            final(self).show_banner == old(self).show_banner,
            final(self).active_pane == (match old(self).active_pane {
                Pane::Sources => Pane::Patterns,
                Pane::Patterns => Pane::Details,
                Pane::Details => Pane::Sources,
            }),
    {
        self.active_pane = match self.active_pane {
            Pane::Sources => Pane::Patterns,
            Pane::Patterns => Pane::Details,
            Pane::Details => Pane::Sources,
        };
    }

    /// Move focus to the pane before the active one.
    pub fn prev_pane(&mut self)
        ensures
            final(self).mode == old(self).mode,
            final(self).sources == old(self).sources,
            final(self).store == old(self).store,
            final(self).selected_source == old(self).selected_source,
            final(self).selected_pattern == old(self).selected_pattern,
            final(self).search_query == old(self).search_query,
            final(self).filtered_view == old(self).filtered_view,
            final(self).paused == old(self).paused,
            final(self).profiles == old(self).profiles,
            final(self).profile_index == old(self).profile_index,
            final(self).theme_override == old(self).theme_override,
            final(self).should_quit == old(self).should_quit,
            final(self).log_count == old(self).log_count,
            final(self).show_normalized == old(self).show_normalized,
            final(self).detail_scroll == old(self).detail_scroll,
            final(self).tick_count == old(self).tick_count,
            final(self).source_menu == old(self).source_menu,
            final(self).needs_clear == old(self).needs_clear,
            final(self).active_source_filter == old(self).active_source_filter,
            final(self).source_rates == old(self).source_rates,
            final(self).collapsed_groups == old(self).collapsed_groups,
            final(self).azure_token == old(self).azure_token,
            final(self).show_banner == old(self).show_banner,
            final(self).active_pane == (match old(self).active_pane {
                Pane::Sources => Pane::Details,
                Pane::Patterns => Pane::Sources,
                Pane::Details => Pane::Patterns,
            }),
    {
        self.active_pane = match self.active_pane {
            Pane::Sources => Pane::Details,
            Pane::Patterns => Pane::Sources,
            Pane::Details => Pane::Patterns,
        };
    }

    /// Move the selection of the active pane up by one, stopping at the top.
    pub fn move_up(&mut self)
        ensures
            final(self).mode == old(self).mode,
            final(self).active_pane == old(self).active_pane,
            final(self).sources == old(self).sources,
            final(self).store == old(self).store,
            final(self).search_query == old(self).search_query,
            final(self).filtered_view == old(self).filtered_view,
            final(self).paused == old(self).paused,
            final(self).profiles == old(self).profiles,
            final(self).profile_index == old(self).profile_index,
            final(self).theme_override == old(self).theme_override,
            final(self).should_quit == old(self).should_quit,
            final(self).log_count == old(self).log_count,
            final(self).show_normalized == old(self).show_normalized,
            final(self).tick_count == old(self).tick_count,
            final(self).source_menu == old(self).source_menu,
            final(self).needs_clear == old(self).needs_clear,
            final(self).active_source_filter == old(self).active_source_filter,
            final(self).source_rates == old(self).source_rates,
            final(self).collapsed_groups == old(self).collapsed_groups,
            final(self).azure_token == old(self).azure_token,
            final(self).show_banner == old(self).show_banner,
            final(self).selected_source == (if old(self).active_pane is Sources && old(self).selected_source > 0 {
                (old(self).selected_source - 1) as usize
            } else {
                old(self).selected_source
            }),
            final(self).selected_pattern == (if old(self).active_pane is Patterns && old(self).selected_pattern > 0 {
                (old(self).selected_pattern - 1) as usize
            } else {
                old(self).selected_pattern
            }),
            final(self).detail_scroll == (if old(self).active_pane is Details && old(self).detail_scroll > 0 {
                (old(self).detail_scroll - 1) as usize
            } else {
                old(self).detail_scroll
            }),
    {
        match self.active_pane {
            Pane::Sources => {
                if self.selected_source > 0 {
                    self.selected_source = self.selected_source - 1;
                }
            },
            Pane::Patterns => {
                if self.selected_pattern > 0 {
                    self.selected_pattern = self.selected_pattern - 1;
                }
            },
            Pane::Details => {
                if self.detail_scroll > 0 {
                    self.detail_scroll = self.detail_scroll - 1;
                }
            },
        }
    }

    /// Open search: clear the query and focus the patterns pane.
    pub fn enter_search(&mut self)
        ensures
            final(self).sources == old(self).sources,
            final(self).store == old(self).store,
            final(self).selected_source == old(self).selected_source,
            final(self).selected_pattern == old(self).selected_pattern,
            final(self).filtered_view == old(self).filtered_view,
            final(self).paused == old(self).paused,
            final(self).profiles == old(self).profiles,
            final(self).profile_index == old(self).profile_index,
            final(self).theme_override == old(self).theme_override,
            final(self).should_quit == old(self).should_quit,
            final(self).log_count == old(self).log_count,
            final(self).show_normalized == old(self).show_normalized,
            final(self).detail_scroll == old(self).detail_scroll,
            final(self).tick_count == old(self).tick_count,
            final(self).source_menu == old(self).source_menu,
            final(self).needs_clear == old(self).needs_clear,
            final(self).active_source_filter == old(self).active_source_filter,
            final(self).source_rates == old(self).source_rates,
            final(self).collapsed_groups == old(self).collapsed_groups,
            final(self).azure_token == old(self).azure_token,
            final(self).show_banner == old(self).show_banner,
            final(self).mode is Search,
            final(self).search_query@.len() == 0,
            final(self).active_pane is Patterns,
    {
        self.mode = AppMode::Search;
        self.search_query = String::new();
        self.active_pane = Pane::Patterns;
    }

    /// Leave search, keeping the query as a locked filter only when asked.
    pub fn exit_search(&mut self, keep_filter: bool)
        ensures
            final(self).active_pane == old(self).active_pane,
            final(self).sources == old(self).sources,
            final(self).store == old(self).store,
            final(self).selected_source == old(self).selected_source,
            final(self).filtered_view == old(self).filtered_view,
            final(self).paused == old(self).paused,
            final(self).profiles == old(self).profiles,
            final(self).profile_index == old(self).profile_index,
            final(self).theme_override == old(self).theme_override,
            final(self).should_quit == old(self).should_quit,
            final(self).log_count == old(self).log_count,
            final(self).show_normalized == old(self).show_normalized,
            final(self).detail_scroll == old(self).detail_scroll,
            final(self).tick_count == old(self).tick_count,
            final(self).source_menu == old(self).source_menu,
            final(self).active_source_filter == old(self).active_source_filter,
            final(self).source_rates == old(self).source_rates,
            final(self).collapsed_groups == old(self).collapsed_groups,
            final(self).azure_token == old(self).azure_token,
            final(self).show_banner == old(self).show_banner,
            final(self).mode is Normal,
            keep_filter ==> final(self).search_query == old(self).search_query,
            !keep_filter ==> final(self).search_query@.len() == 0,
            final(self).selected_pattern == 0,
            final(self).needs_clear,
    {
        self.mode = AppMode::Normal;
        if !keep_filter {
            self.search_query = String::new();
        }
        self.selected_pattern = 0;
        self.needs_clear = true;
    }

    /// Select the next profile, stopping at the last.
    pub fn next_profile(&mut self)
        requires
            old(self).wf(),
        ensures
            final(self).wf(),
            final(self).mode == old(self).mode,
            final(self).active_pane == old(self).active_pane,
            final(self).sources == old(self).sources,
            final(self).store == old(self).store,
            final(self).selected_source == old(self).selected_source,
            final(self).selected_pattern == old(self).selected_pattern,
            final(self).search_query == old(self).search_query,
            final(self).filtered_view == old(self).filtered_view,
            final(self).paused == old(self).paused,
            final(self).profiles == old(self).profiles,
            final(self).theme_override == old(self).theme_override,
            final(self).should_quit == old(self).should_quit,
            final(self).log_count == old(self).log_count,
            final(self).show_normalized == old(self).show_normalized,
            final(self).detail_scroll == old(self).detail_scroll,
            final(self).tick_count == old(self).tick_count,
            final(self).source_menu == old(self).source_menu,
            final(self).needs_clear == old(self).needs_clear,
            final(self).active_source_filter == old(self).active_source_filter,
            final(self).source_rates == old(self).source_rates,
            final(self).collapsed_groups == old(self).collapsed_groups,
            final(self).azure_token == old(self).azure_token,
            final(self).show_banner == old(self).show_banner,
            final(self).profile_index == (if old(self).profile_index + 1 < old(self).profiles@.len() {
                (old(self).profile_index + 1) as usize
            } else {
                old(self).profile_index
            }),
    {
        if self.profile_index < self.profiles.len() - 1 {
            self.profile_index = self.profile_index + 1;
        }
    }

    /// Select the previous profile, stopping at the first.
    pub fn prev_profile(&mut self)
        requires
            old(self).wf(),
        ensures
            final(self).wf(),
            final(self).mode == old(self).mode,
            final(self).active_pane == old(self).active_pane,
            final(self).sources == old(self).sources,
            final(self).store == old(self).store,
            final(self).selected_source == old(self).selected_source,
            final(self).selected_pattern == old(self).selected_pattern,
            final(self).search_query == old(self).search_query,
            final(self).filtered_view == old(self).filtered_view,
            final(self).paused == old(self).paused,
            final(self).profiles == old(self).profiles,
            final(self).theme_override == old(self).theme_override,
            final(self).should_quit == old(self).should_quit,
            final(self).log_count == old(self).log_count,
            final(self).show_normalized == old(self).show_normalized,
            final(self).detail_scroll == old(self).detail_scroll,
            final(self).tick_count == old(self).tick_count,
            final(self).source_menu == old(self).source_menu,
            final(self).needs_clear == old(self).needs_clear,
            final(self).active_source_filter == old(self).active_source_filter,
            final(self).source_rates == old(self).source_rates,
            final(self).collapsed_groups == old(self).collapsed_groups,
            final(self).azure_token == old(self).azure_token,
            final(self).show_banner == old(self).show_banner,
            final(self).profile_index == (if old(self).profile_index > 0 {
                (old(self).profile_index - 1) as usize
            } else {
                old(self).profile_index
            }),
    {
        if self.profile_index > 0 {
            self.profile_index = self.profile_index - 1;
        }
    }
}

} // verus!

verus! {

impl App {
    /// Record a new source in the table unless its id is already taken; the
    /// shell spawns producers for recorded sources.
    fn push_source(&mut self, prefix: &str, kind: &str, name: &str)
        ensures
            final(self).mode == old(self).mode,
            final(self).active_pane == old(self).active_pane,
            final(self).store == old(self).store,
            final(self).selected_source == old(self).selected_source,
            final(self).selected_pattern == old(self).selected_pattern,
            final(self).search_query == old(self).search_query,
            final(self).filtered_view == old(self).filtered_view,
            final(self).paused == old(self).paused,
            final(self).profiles == old(self).profiles,
            final(self).profile_index == old(self).profile_index,
            final(self).theme_override == old(self).theme_override,
            final(self).should_quit == old(self).should_quit,
            final(self).log_count == old(self).log_count,
            final(self).show_normalized == old(self).show_normalized,
            final(self).detail_scroll == old(self).detail_scroll,
            final(self).tick_count == old(self).tick_count,
            final(self).source_menu == old(self).source_menu,
            final(self).needs_clear == old(self).needs_clear,
            final(self).active_source_filter == old(self).active_source_filter,
            final(self).source_rates == old(self).source_rates,
            final(self).collapsed_groups == old(self).collapsed_groups,
            final(self).azure_token == old(self).azure_token,
            final(self).show_banner == old(self).show_banner,
            source_views(final(self).sources@) == source_added(
                source_views(old(self).sources@),
                prefix@,
                kind@,
                name@,
            ),
            unique_ids(source_views(old(self).sources@)) ==> unique_ids(
                source_views(final(self).sources@),
            ),
    {
        let ghost ss = source_views(self.sources@);
        let id = crate::ingest::make_source_id(prefix, name);
        match find_source_index(&self.sources, id.as_str()) {
            Some(_) => {
                proof {
                    assert(source_views(self.sources@) =~~= source_added(ss, prefix@, kind@, name@));
                }
            },
            None => {
                let info = SourceInfo {
                    id,
                    kind: String::from_str(kind),
                    status: SourceStatus::Starting,
                };
                let ghost iv = info@;
                self.sources.push(info);
                proof {
                    assert(source_views(self.sources@) =~~= ss.push(iv));
                    assert(source_views(self.sources@) =~~= source_added(ss, prefix@, kind@, name@));
                    lemma_find_source(ss, source_id_of(prefix@, name@));
                    if unique_ids(ss) {
                        assert forall|a: int, b: int|
                            0 <= a < b < source_views(self.sources@).len() implies (
                        #[trigger] source_views(self.sources@)[a]).id != (#[trigger] source_views(
                            self.sources@,
                        )[b]).id by {
                            if b == source_views(self.sources@).len() - 1 {
                                assert(source_views(self.sources@)[a] == ss[a]);
                                assert(source_views(self.sources@)[b].id == source_id_of(
                                    prefix@,
                                    name@,
                                ));
                            } else {
                                assert(source_views(self.sources@)[a] == ss[a]);
                                assert(source_views(self.sources@)[b] == ss[b]);
                            }
                        }
                    }
                }
            },
        }
    }

    /// Attach a container source, unless one with the same name is already
    /// attached.
    pub fn add_docker_source(&mut self, container: String)
        ensures
            final(self).mode == old(self).mode,
            final(self).active_pane == old(self).active_pane,
            final(self).store == old(self).store,
            final(self).selected_source == old(self).selected_source,
            final(self).selected_pattern == old(self).selected_pattern,
            final(self).search_query == old(self).search_query,
            final(self).filtered_view == old(self).filtered_view,
            final(self).paused == old(self).paused,
            final(self).profiles == old(self).profiles,
            final(self).profile_index == old(self).profile_index,
            final(self).theme_override == old(self).theme_override,
            final(self).should_quit == old(self).should_quit,
            final(self).log_count == old(self).log_count,
            final(self).show_normalized == old(self).show_normalized,
            final(self).detail_scroll == old(self).detail_scroll,
            final(self).tick_count == old(self).tick_count,
            final(self).source_menu == old(self).source_menu,
            final(self).needs_clear == old(self).needs_clear,
            final(self).active_source_filter == old(self).active_source_filter,
            final(self).source_rates == old(self).source_rates,
            final(self).collapsed_groups == old(self).collapsed_groups,
            final(self).azure_token == old(self).azure_token,
            final(self).show_banner == old(self).show_banner,
            source_views(final(self).sources@) == source_added(
                source_views(old(self).sources@),
                "docker"@,
                "docker"@,
                container@,
            ),
            unique_ids(source_views(old(self).sources@)) ==> unique_ids(
                source_views(final(self).sources@),
            ),
    {
        self.push_source("docker", "docker", container.as_str());
    }

    /// Attach a file-tail source, unless the path is already tailed.
    pub fn add_file_source(&mut self, path: String)
        ensures
            final(self).mode == old(self).mode,
            final(self).active_pane == old(self).active_pane,
            final(self).store == old(self).store,
            final(self).selected_source == old(self).selected_source,
            final(self).selected_pattern == old(self).selected_pattern,
            final(self).search_query == old(self).search_query,
            final(self).filtered_view == old(self).filtered_view,
            final(self).paused == old(self).paused,
            final(self).profiles == old(self).profiles,
            final(self).profile_index == old(self).profile_index,
            final(self).theme_override == old(self).theme_override,
            final(self).should_quit == old(self).should_quit,
            final(self).log_count == old(self).log_count,
            final(self).show_normalized == old(self).show_normalized,
            final(self).detail_scroll == old(self).detail_scroll,
            final(self).tick_count == old(self).tick_count,
            final(self).source_menu == old(self).source_menu,
            final(self).needs_clear == old(self).needs_clear,
            final(self).active_source_filter == old(self).active_source_filter,
            final(self).source_rates == old(self).source_rates,
            final(self).collapsed_groups == old(self).collapsed_groups,
            final(self).azure_token == old(self).azure_token,
            final(self).show_banner == old(self).show_banner,
            source_views(final(self).sources@) == source_added(
                source_views(old(self).sources@),
                "file"@,
                "file"@,
                path@,
            ),
            unique_ids(source_views(old(self).sources@)) ==> unique_ids(
                source_views(final(self).sources@),
            ),
    {
        self.push_source("file", "file", path.as_str());
    }

    /// Attach a shell-command source, named by the command's first token,
    /// unless that name is already taken.
    pub fn add_command_source(&mut self, cmd: String)
        ensures
            final(self).mode == old(self).mode,
            final(self).active_pane == old(self).active_pane,
            final(self).store == old(self).store,
            final(self).selected_source == old(self).selected_source,
            final(self).selected_pattern == old(self).selected_pattern,
            final(self).search_query == old(self).search_query,
            final(self).filtered_view == old(self).filtered_view,
            final(self).paused == old(self).paused,
            final(self).profiles == old(self).profiles,
            final(self).profile_index == old(self).profile_index,
            final(self).theme_override == old(self).theme_override,
            final(self).should_quit == old(self).should_quit,
            final(self).log_count == old(self).log_count,
            final(self).show_normalized == old(self).show_normalized,
            final(self).detail_scroll == old(self).detail_scroll,
            final(self).tick_count == old(self).tick_count,
            final(self).source_menu == old(self).source_menu,
            final(self).needs_clear == old(self).needs_clear,
            final(self).active_source_filter == old(self).active_source_filter,
            final(self).source_rates == old(self).source_rates,
            final(self).collapsed_groups == old(self).collapsed_groups,
            final(self).azure_token == old(self).azure_token,
            final(self).show_banner == old(self).show_banner,
            source_views(final(self).sources@) == source_added(
                source_views(old(self).sources@),
                "cmd"@,
                "command"@,
                first_token(cmd@),
            ),
            unique_ids(source_views(old(self).sources@)) ==> unique_ids(
                source_views(final(self).sources@),
            ),
    {
        let name = token_of(cmd.as_str());
        self.push_source("cmd", "command", name.as_str());
    }

    /// Attach a cloud container-app source, unless the app is already
    /// attached. The resource group and subscription are what the shell's
    /// producer streams with.
    pub fn add_azure_source(
        &mut self,
        app_name: String,
        resource_group: String,
        subscription_id: String,
    )
        ensures
            final(self).mode == old(self).mode,
            final(self).active_pane == old(self).active_pane,
            final(self).store == old(self).store,
            final(self).selected_source == old(self).selected_source,
            final(self).selected_pattern == old(self).selected_pattern,
            final(self).search_query == old(self).search_query,
            final(self).filtered_view == old(self).filtered_view,
            final(self).paused == old(self).paused,
            final(self).profiles == old(self).profiles,
            final(self).profile_index == old(self).profile_index,
            final(self).theme_override == old(self).theme_override,
            final(self).should_quit == old(self).should_quit,
            final(self).log_count == old(self).log_count,
            final(self).show_normalized == old(self).show_normalized,
            final(self).detail_scroll == old(self).detail_scroll,
            final(self).tick_count == old(self).tick_count,
            final(self).source_menu == old(self).source_menu,
            final(self).needs_clear == old(self).needs_clear,
            final(self).active_source_filter == old(self).active_source_filter,
            final(self).source_rates == old(self).source_rates,
            final(self).collapsed_groups == old(self).collapsed_groups,
            final(self).azure_token == old(self).azure_token,
            final(self).show_banner == old(self).show_banner,
            source_views(final(self).sources@) == source_added(
                source_views(old(self).sources@),
                "azure"@,
                "azure"@,
                app_name@,
            ),
            unique_ids(source_views(old(self).sources@)) ==> unique_ids(
                source_views(final(self).sources@),
            ),
    {
        let _ = resource_group;
        let _ = subscription_id;
        self.push_source("azure", "azure", app_name.as_str());
    }

    /// Open the add-source menu with both discoveries marked as loading; the
    /// shell starts the discovery jobs when it sees the flags.
    pub fn open_source_menu(&mut self)
        ensures
            final(self).active_pane == old(self).active_pane,
            final(self).sources == old(self).sources,
            final(self).store == old(self).store,
            final(self).selected_source == old(self).selected_source,
            final(self).selected_pattern == old(self).selected_pattern,
            final(self).search_query == old(self).search_query,
            final(self).filtered_view == old(self).filtered_view,
            final(self).paused == old(self).paused,
            final(self).profiles == old(self).profiles,
            final(self).profile_index == old(self).profile_index,
            final(self).theme_override == old(self).theme_override,
            final(self).should_quit == old(self).should_quit,
            final(self).log_count == old(self).log_count,
            final(self).show_normalized == old(self).show_normalized,
            final(self).detail_scroll == old(self).detail_scroll,
            final(self).tick_count == old(self).tick_count,
            final(self).needs_clear == old(self).needs_clear,
            final(self).active_source_filter == old(self).active_source_filter,
            final(self).source_rates == old(self).source_rates,
            final(self).collapsed_groups == old(self).collapsed_groups,
            final(self).azure_token == old(self).azure_token,
            final(self).show_banner == old(self).show_banner,
            final(self).mode is SourceMenu,
            final(self).source_menu.screen is MainMenu,
            final(self).source_menu.main_cursor == 0,
            final(self).source_menu.discovery_cursor == 0,
            final(self).source_menu.selected@.len() == 0,
            final(self).source_menu.text_input@.len() == 0,
            final(self).source_menu.docker_containers@.len() == 0,
            final(self).source_menu.azure_apps@.len() == 0,
            final(self).source_menu.docker_loading,
            final(self).source_menu.azure_loading,
            final(self).source_menu.docker_error is None,
            final(self).source_menu.azure_error is None,
    {
        self.source_menu.reset();
        self.source_menu.docker_loading = true;
        self.source_menu.azure_loading = true;
        self.mode = AppMode::SourceMenu;
    }

    /// Fold one discovery result into the menu: lists and errors land on
    /// their screens, a fetched token is cached for the fast path.
    pub fn handle_discovery_result(&mut self, result: DiscoveryResult)
        ensures
            final(self).mode == old(self).mode,
            final(self).active_pane == old(self).active_pane,
            final(self).sources == old(self).sources,
            final(self).store == old(self).store,
            final(self).selected_source == old(self).selected_source,
            final(self).selected_pattern == old(self).selected_pattern,
            final(self).search_query == old(self).search_query,
            final(self).filtered_view == old(self).filtered_view,
            final(self).paused == old(self).paused,
            final(self).profiles == old(self).profiles,
            final(self).profile_index == old(self).profile_index,
            final(self).theme_override == old(self).theme_override,
            final(self).should_quit == old(self).should_quit,
            final(self).log_count == old(self).log_count,
            final(self).show_normalized == old(self).show_normalized,
            final(self).detail_scroll == old(self).detail_scroll,
            final(self).tick_count == old(self).tick_count,
            final(self).needs_clear == old(self).needs_clear,
            final(self).active_source_filter == old(self).active_source_filter,
            final(self).source_rates == old(self).source_rates,
            final(self).collapsed_groups == old(self).collapsed_groups,
            final(self).show_banner == old(self).show_banner,
            final(self).source_menu.screen == old(self).source_menu.screen,
            final(self).source_menu.main_cursor == old(self).source_menu.main_cursor,
            final(self).source_menu.discovery_cursor == old(self).source_menu.discovery_cursor,
            final(self).source_menu.selected == old(self).source_menu.selected,
            final(self).source_menu.text_input == old(self).source_menu.text_input,
            match result {
                DiscoveryResult::Docker(res) => {
                    &&& final(self).azure_token == old(self).azure_token
                    &&& final(self).source_menu.azure_apps == old(self).source_menu.azure_apps
                    &&& final(self).source_menu.azure_loading == old(self).source_menu.azure_loading
                    &&& final(self).source_menu.azure_error == old(self).source_menu.azure_error
                    &&& !final(self).source_menu.docker_loading
                    &&& match res {
                        Ok(list) => final(self).source_menu.docker_containers == list && final(self).source_menu.docker_error is None,
                        Err(e) => final(self).source_menu.docker_error == Some(e) && final(self).source_menu.docker_containers == old(self).source_menu.docker_containers,
                    }
                },
                DiscoveryResult::Azure(res) => {
                    &&& final(self).azure_token == old(self).azure_token
                    &&& final(self).source_menu.docker_containers == old(self).source_menu.docker_containers
                    &&& final(self).source_menu.docker_loading == old(self).source_menu.docker_loading
                    &&& final(self).source_menu.docker_error == old(self).source_menu.docker_error
                    &&& !final(self).source_menu.azure_loading
                    &&& match res {
                        Ok(list) => final(self).source_menu.azure_apps == list && final(self).source_menu.azure_error is None,
                        Err(e) => final(self).source_menu.azure_error == Some(e) && final(self).source_menu.azure_apps == old(self).source_menu.azure_apps,
                    }
                },
                DiscoveryResult::AzureToken(res) => {
                    &&& final(self).source_menu.docker_containers == old(self).source_menu.docker_containers
                    &&& final(self).source_menu.docker_loading == old(self).source_menu.docker_loading
                    &&& final(self).source_menu.docker_error == old(self).source_menu.docker_error
                    &&& final(self).source_menu.azure_apps == old(self).source_menu.azure_apps
                    &&& final(self).source_menu.azure_loading == old(self).source_menu.azure_loading
                    &&& final(self).source_menu.azure_error == old(self).source_menu.azure_error
                    &&& match res {
                        Ok(token) => final(self).azure_token == Some(token),
                        Err(_) => final(self).azure_token == old(self).azure_token,
                    }
                },
            },
    {
        match result {
            DiscoveryResult::Docker(res) => {
                match res {
                    Ok(containers) => {
                        self.source_menu.docker_containers = containers;
                        self.source_menu.docker_loading = false;
                        self.source_menu.docker_error = None;
                    },
                    Err(e) => {
                        self.source_menu.docker_loading = false;
                        self.source_menu.docker_error = Some(e);
                    },
                }
            },
            DiscoveryResult::Azure(res) => {
                match res {
                    Ok(apps) => {
                        self.source_menu.azure_apps = apps;
                        self.source_menu.azure_loading = false;
                        self.source_menu.azure_error = None;
                    },
                    Err(e) => {
                        self.source_menu.azure_loading = false;
                        self.source_menu.azure_error = Some(e);
                    },
                }
            },
            DiscoveryResult::AzureToken(res) => {
                match res {
                    Ok(token) => {
                        self.azure_token = Some(token);
                    },
                    Err(_) => {},
                }
            },
        }
    }

    /// Mark a source stopped; the shell aborts its producer task.
    pub fn stop_source(&mut self, source_id: &str)
        ensures
            final(self).mode == old(self).mode,
            final(self).active_pane == old(self).active_pane,
            final(self).store == old(self).store,
            final(self).selected_source == old(self).selected_source,
            final(self).selected_pattern == old(self).selected_pattern,
            final(self).search_query == old(self).search_query,
            final(self).filtered_view == old(self).filtered_view,
            final(self).paused == old(self).paused,
            final(self).profiles == old(self).profiles,
            final(self).profile_index == old(self).profile_index,
            final(self).theme_override == old(self).theme_override,
            final(self).should_quit == old(self).should_quit,
            final(self).log_count == old(self).log_count,
            final(self).show_normalized == old(self).show_normalized,
            final(self).detail_scroll == old(self).detail_scroll,
            final(self).tick_count == old(self).tick_count,
            final(self).source_menu == old(self).source_menu,
            final(self).needs_clear == old(self).needs_clear,
            final(self).active_source_filter == old(self).active_source_filter,
            final(self).source_rates == old(self).source_rates,
            final(self).collapsed_groups == old(self).collapsed_groups,
            final(self).azure_token == old(self).azure_token,
            final(self).show_banner == old(self).show_banner,
            source_views(final(self).sources@) == set_status(
                source_views(old(self).sources@),
                source_id@,
                SourceStatus::Stopped,
            ),
            unique_ids(source_views(old(self).sources@)) ==> unique_ids(
                source_views(final(self).sources@),
            ),
    {
        self.set_source_status(source_id, SourceStatus::Stopped);
    }

    /// Give the first source with the id the new status.
    fn set_source_status(&mut self, source_id: &str, status: SourceStatus)
        ensures
            final(self).mode == old(self).mode,
            final(self).active_pane == old(self).active_pane,
            final(self).store == old(self).store,
            final(self).selected_source == old(self).selected_source,
            final(self).selected_pattern == old(self).selected_pattern,
            final(self).search_query == old(self).search_query,
            final(self).filtered_view == old(self).filtered_view,
            final(self).paused == old(self).paused,
            final(self).profiles == old(self).profiles,
            final(self).profile_index == old(self).profile_index,
            final(self).theme_override == old(self).theme_override,
            final(self).should_quit == old(self).should_quit,
            final(self).log_count == old(self).log_count,
            final(self).show_normalized == old(self).show_normalized,
            final(self).detail_scroll == old(self).detail_scroll,
            final(self).tick_count == old(self).tick_count,
            final(self).source_menu == old(self).source_menu,
            final(self).needs_clear == old(self).needs_clear,
            final(self).active_source_filter == old(self).active_source_filter,
            final(self).source_rates == old(self).source_rates,
            final(self).collapsed_groups == old(self).collapsed_groups,
            final(self).azure_token == old(self).azure_token,
            final(self).show_banner == old(self).show_banner,
            source_views(final(self).sources@) == set_status(
                source_views(old(self).sources@),
                source_id@,
                status,
            ),
            unique_ids(source_views(old(self).sources@)) ==> unique_ids(
                source_views(final(self).sources@),
            ),
    {
        let ghost ss = source_views(self.sources@);
        let ghost st = status;
        let n = self.sources.len();
        let mut j: usize = 0;
        while j < n
            invariant
                j <= n,
                n == self.sources@.len(),
                ss == source_views(self.sources@),
                ss == source_views(old(self).sources@),
                st == status,
                forall|m: int| 0 <= m < j ==> (#[trigger] ss[m]).id != source_id@,
                self.mode == old(self).mode,
                self.active_pane == old(self).active_pane,
                self.store == old(self).store,
                self.selected_source == old(self).selected_source,
                self.selected_pattern == old(self).selected_pattern,
                self.search_query == old(self).search_query,
                self.filtered_view == old(self).filtered_view,
                self.paused == old(self).paused,
                self.profiles == old(self).profiles,
                self.profile_index == old(self).profile_index,
                self.theme_override == old(self).theme_override,
                self.should_quit == old(self).should_quit,
                self.log_count == old(self).log_count,
                self.show_normalized == old(self).show_normalized,
                self.detail_scroll == old(self).detail_scroll,
                self.tick_count == old(self).tick_count,
                self.source_menu == old(self).source_menu,
                self.needs_clear == old(self).needs_clear,
                self.active_source_filter == old(self).active_source_filter,
                self.source_rates == old(self).source_rates,
                self.collapsed_groups == old(self).collapsed_groups,
                self.azure_token == old(self).azure_token,
                self.show_banner == old(self).show_banner,
            decreases n - j,
        {
            if util::str_eq(self.sources[j].id.as_str(), source_id) {
                proof {
                    lemma_find_source(ss, source_id@);
                    assert(ss[j as int] =~~= (self.sources@[j as int])@);
                    assert(find_source(ss, source_id@) == j as int);
                }
                let ghost prev_s = self.sources@;
                self.sources[j].status = status;
                proof {
                    assert((self.sources@[j as int])@.id =~~= ss[j as int].id);
                    assert((self.sources@[j as int])@.kind =~~= ss[j as int].kind);
                    assert((self.sources@[j as int])@.status == st);
                    assert forall|m: int|
                        0 <= m < ss.len() && m != j as int implies source_views(
                        self.sources@,
                    )[m] == ss[m] by {
                        assert(self.sources@[m] == prev_s[m]);
                        assert(source_views(prev_s)[m] == (prev_s[m])@);
                    }
                    assert(source_views(self.sources@) =~~= set_status(ss, source_id@, st));
                    if unique_ids(ss) {
                        assert forall|a: int, b: int|
                            0 <= a < b < source_views(self.sources@).len() implies (
                        #[trigger] source_views(self.sources@)[a]).id != (#[trigger] source_views(
                            self.sources@,
                        )[b]).id by {
                            assert(source_views(self.sources@)[a].id == ss[a].id);
                            assert(source_views(self.sources@)[b].id == ss[b].id);
                        }
                    }
                }
                return ;
            }
            j = j + 1;
        }
        proof {
            lemma_find_source(ss, source_id@);
            if find_source(ss, source_id@) >= 0 {
                assert(ss[find_source(ss, source_id@)].id == source_id@);
                assert(false);
            }
            assert(source_views(self.sources@) =~~= set_status(ss, source_id@, st));
        }
    }

    /// Apply one producer event: a log line goes through the canonicalizer
    /// into the store, a status event updates the source table.
    pub fn process_event(&mut self, event: SourceEvent, now: u64)
        requires
            old(self).wf(),
        ensures
            final(self).wf(),
            match event {
                SourceEvent::Log { source, line } => log_processed(
                    old(self),
                    final(self),
                    source@,
                    line@,
                    now,
                ),
                SourceEvent::Status { source, status } => status_updated(
                    old(self),
                    final(self),
                    source@,
                    status,
                ),
            },
    {
        match event {
            SourceEvent::Log { source, line } => self.process_log(source, line, now),
            SourceEvent::Status { source, status } => self.set_source_status(
                source.as_str(),
                status,
            ),
        }
    }

    /// Canonicalize one raw line and fold it into the store, unless paused
    /// or below the profile's minimum severity. Pausing drops lines
    /// entirely: neither counters nor rate windows move.
    pub fn process_log(&mut self, source: String, line: String, now: u64)
        requires
            old(self).wf(),
        ensures
            final(self).wf(),
            log_processed(old(self), final(self), source@, line@, now),
    {
        if self.paused {
            return ;
        }
        let ghost rs0 = rate_views(self.source_rates@);
        // track the per-source rate
        match find_rate_index(&self.source_rates, source.as_str()) {
            Some(found) => {
                let ghost prev = self.source_rates@;
                let len = self.source_rates[found].timestamps.len();
                let t = if len > 0 && self.source_rates[found].timestamps[len - 1] > now {
                    self.source_rates[found].timestamps[len - 1]
                } else {
                    now
                };
                self.source_rates[found].timestamps.push(t);
                proof {
                    assert(rate_views(prev)[found as int] == (prev[found as int])@);
                    assert((self.source_rates@[found as int])@.id == rs0[found as int].id);
                    assert((self.source_rates@[found as int])@.timestamps =~~= rs0[found as int].timestamps.push(t));
                    assert forall|m: int|
                        0 <= m < rs0.len() && m != found as int implies rate_views(
                        self.source_rates@,
                    )[m] == rs0[m] by {
                        assert(self.source_rates@[m] == prev[m]);
                    }
                    assert(rate_views(self.source_rates@) =~~= rate_bumped(rs0, source@, now));
                    assert forall|i: int|
                        0 <= i < rate_views(self.source_rates@).len() implies crate::pattern::ts_sorted(
                        (#[trigger] rate_views(self.source_rates@)[i]).timestamps,
                    ) by {
                        if i == found as int {
                            let w = rs0[found as int].timestamps;
                            assert forall|a: int, b: int|
                                0 <= a <= b < w.push(t).len() implies w.push(t)[a] <= w.push(
                                t,
                            )[b] by {
                                if b < w.len() {
                                } else {
                                    assert(w.push(t)[b] == t);
                                    if a < w.len() {
                                        assert(w[a] <= w.last());
                                    }
                                }
                            }
                        } else {
                            assert(rate_views(self.source_rates@)[i] == rs0[i]);
                        }
                    }
                }
            },
            None => {
                let entry = SourceRate { id: source.clone(), timestamps: vec![now] };
                let ghost ev = entry@;
                self.source_rates.push(entry);
                proof {
                    assert(ev.timestamps =~~= seq![now]);
                    assert(ev =~~= (SourceRateV { id: source@, timestamps: seq![now] }));
                    assert(rate_views(self.source_rates@) =~~= rate_bumped(rs0, source@, now));
                    assert forall|i: int|
                        0 <= i < rate_views(self.source_rates@).len() implies crate::pattern::ts_sorted(
                        (#[trigger] rate_views(self.source_rates@)[i]).timestamps,
                    ) by {
                        if i < rs0.len() {
                            assert(rate_views(self.source_rates@)[i] == rs0[i]);
                        } else {
                            assert(rate_views(self.source_rates@)[i] == ev);
                        }
                    }
                }
            },
        }
        let log_event = parse::parse_line(source.as_str(), line.as_str());
        let keep = log_event.level.severity()
            >= self.profiles[self.profile_index].min_level.severity();
        if keep {
            self.store.ingest(&log_event, now);
            self.log_count = if self.log_count == u64::MAX {
                u64::MAX
            } else {
                self.log_count + 1
            };
        }
    }

    /// Drop per-source rate timestamps older than one minute; afterwards no
    /// surviving per-source timestamp is stale.
    pub fn tick_source_rates(&mut self, now: u64)
        requires
            old(self).wf(),
        ensures
            final(self).wf(),
            forall|i: int, k: int|
                0 <= i < rate_views(final(self).source_rates@).len() && 0 <= k < rate_views(
                    final(self).source_rates@,
                )[i].timestamps.len() ==> now - (#[trigger] rate_views(
                    final(self).source_rates@,
                )[i].timestamps[k]) <= 60_000,
            final(self).mode == old(self).mode,
            final(self).active_pane == old(self).active_pane,
            final(self).sources == old(self).sources,
            final(self).store == old(self).store,
            final(self).selected_source == old(self).selected_source,
            final(self).selected_pattern == old(self).selected_pattern,
            final(self).search_query == old(self).search_query,
            final(self).filtered_view == old(self).filtered_view,
            final(self).paused == old(self).paused,
            final(self).profiles == old(self).profiles,
            final(self).profile_index == old(self).profile_index,
            final(self).theme_override == old(self).theme_override,
            final(self).should_quit == old(self).should_quit,
            final(self).log_count == old(self).log_count,
            final(self).show_normalized == old(self).show_normalized,
            final(self).detail_scroll == old(self).detail_scroll,
            final(self).tick_count == old(self).tick_count,
            final(self).source_menu == old(self).source_menu,
            final(self).needs_clear == old(self).needs_clear,
            final(self).active_source_filter == old(self).active_source_filter,
            final(self).collapsed_groups == old(self).collapsed_groups,
            final(self).azure_token == old(self).azure_token,
            final(self).show_banner == old(self).show_banner,
            rate_views(final(self).source_rates@) == rates_pruned(
                rate_views(old(self).source_rates@),
                now,
            ),
    {
        let ghost rs0 = rate_views(self.source_rates@);
        let n = self.source_rates.len();
        let mut j: usize = 0;
        while j < n
            invariant
                j <= n,
                n == self.source_rates@.len(),
                rs0.len() == n,
                forall|m: int|
                    0 <= m < j ==> (#[trigger] rate_views(self.source_rates@)[m]) == (
                    SourceRateV {
                        id: rs0[m].id,
                        timestamps: prune_front(rs0[m].timestamps, now, 60_000),
                    }),
                forall|m: int| j <= m < n ==> (#[trigger] rate_views(self.source_rates@)[m]) == rs0[m],
                self.mode == old(self).mode,
                self.active_pane == old(self).active_pane,
                self.sources == old(self).sources,
                self.store == old(self).store,
                self.selected_source == old(self).selected_source,
                self.selected_pattern == old(self).selected_pattern,
                self.search_query == old(self).search_query,
                self.filtered_view == old(self).filtered_view,
                self.paused == old(self).paused,
                self.profiles == old(self).profiles,
                self.profile_index == old(self).profile_index,
                self.theme_override == old(self).theme_override,
                self.should_quit == old(self).should_quit,
                self.log_count == old(self).log_count,
                self.show_normalized == old(self).show_normalized,
                self.detail_scroll == old(self).detail_scroll,
                self.tick_count == old(self).tick_count,
                self.source_menu == old(self).source_menu,
                self.needs_clear == old(self).needs_clear,
                self.active_source_filter == old(self).active_source_filter,
                self.collapsed_groups == old(self).collapsed_groups,
                self.azure_token == old(self).azure_token,
                self.show_banner == old(self).show_banner,
            decreases n - j,
        {
            let ghost prev = self.source_rates@;
            prune_rate_entry(&mut self.source_rates, j, now);
            proof {
                assert forall|m: int|
                    0 <= m < n && m != j as int implies (#[trigger] rate_views(
                    self.source_rates@,
                )[m]) == rate_views(prev)[m] by {
                    assert(self.source_rates@[m] == prev[m]);
                    assert(rate_views(prev)[m] == (prev[m])@);
                    assert(rate_views(self.source_rates@)[m] == (self.source_rates@[m])@);
                }
                assert(rate_views(prev)[j as int] == (prev[j as int])@);
                assert(rate_views(self.source_rates@)[j as int] == (
                self.source_rates@[j as int])@);
                assert((prev[j as int])@ == rs0[j as int]);
                assert((self.source_rates@[j as int])@ =~~= (SourceRateV {
                    id: rs0[j as int].id,
                    timestamps: prune_front(rs0[j as int].timestamps, now, 60_000),
                }));
            }
            j = j + 1;
        }
        proof {
            assert(rate_views(self.source_rates@) =~~= rates_pruned(rs0, now));
            assert forall|i: int|
                0 <= i < rate_views(self.source_rates@).len() implies crate::pattern::ts_sorted(
                (#[trigger] rate_views(self.source_rates@)[i]).timestamps,
            ) by {
                crate::pattern::lemma_prune_props(rs0[i].timestamps, now, 60_000);
                assert(rate_views(self.source_rates@)[i] == rates_pruned(rs0, now)[i]);
            }
            assert forall|i: int, k: int|
                0 <= i < rate_views(self.source_rates@).len() && 0 <= k < rate_views(
                    self.source_rates@,
                )[i].timestamps.len() implies now - (#[trigger] rate_views(
                self.source_rates@,
            )[i].timestamps[k]) <= 60_000 by {
                crate::pattern::lemma_prune_props(rs0[i].timestamps, now, 60_000);
                assert(rate_views(self.source_rates@)[i] == rates_pruned(rs0, now)[i]);
            }
        }
    }

    /// Events in the last minute from one source.
    pub fn source_rate_1m(&self, source_id: &str) -> (r: usize)
        ensures
            r as int == (if find_rate(rate_views(self.source_rates@), source_id@) >= 0 {
                rate_views(self.source_rates@)[find_rate(
                    rate_views(self.source_rates@),
                    source_id@,
                )].timestamps.len() as int
            } else {
                0
            }),
    {
        let ghost rs = rate_views(self.source_rates@);
        let n = self.source_rates.len();
        let mut j: usize = 0;
        while j < n
            invariant
                j <= n,
                n == self.source_rates@.len(),
                rs == rate_views(self.source_rates@),
                forall|m: int| 0 <= m < j ==> (#[trigger] rs[m]).id != source_id@,
            decreases n - j,
        {
            if util::str_eq(self.source_rates[j].id.as_str(), source_id) {
                proof {
                    assert(rs[j as int] =~~= (self.source_rates@[j as int])@);
                    lemma_find_rate(rs, source_id@);
                    assert(find_rate(rs, source_id@) == j as int);
                }
                return self.source_rates[j].timestamps.len();
            }
            j = j + 1;
        }
        proof {
            lemma_find_rate(rs, source_id@);
            if find_rate(rs, source_id@) >= 0 {
                assert(rs[find_rate(rs, source_id@)].id == source_id@);
                assert(false);
            }
        }
        0
    }

    /// Total events in the last minute across the sources of one provider
    /// kind, stopping at the integer's maximum.
    pub fn provider_rate_1m(&self, kind: &str) -> (r: u64)
        ensures
            r as int == (if provider_rate_sum(
                source_views(self.sources@),
                rate_views(self.source_rates@),
                kind@,
                0,
            ) > u64::MAX as int {
                u64::MAX as int
            } else {
                provider_rate_sum(
                    source_views(self.sources@),
                    rate_views(self.source_rates@),
                    kind@,
                    0,
                )
            }),
    {
        let ghost ss = source_views(self.sources@);
        let ghost rs = rate_views(self.source_rates@);
        let n = self.sources.len();
        let mut total: u64 = 0;
        let mut i: usize = 0;
        proof {
            lemma_provider_rate_prefix(ss, rs, kind@, 0);
        }
        while i < n
            invariant
                i <= n,
                n == self.sources@.len(),
                ss == source_views(self.sources@),
                rs == rate_views(self.source_rates@),
                total as int == (if provider_rate_sum(ss, rs, kind@, 0) - provider_rate_sum(
                    ss,
                    rs,
                    kind@,
                    i as int,
                ) > u64::MAX as int {
                    u64::MAX as int
                } else {
                    provider_rate_sum(ss, rs, kind@, 0) - provider_rate_sum(ss, rs, kind@, i as int)
                }),
            decreases n - i,
        {
            proof {
                assert(ss[i as int] =~~= (self.sources@[i as int])@);
                lemma_provider_rate_prefix(ss, rs, kind@, i as int);
                lemma_provider_rate_prefix(ss, rs, kind@, i + 1);
            }
            let here: usize = if util::str_eq(self.sources[i].kind.as_str(), kind) {
                self.source_rate_1m(self.sources[i].id.as_str())
            } else {
                0
            };
            total = if here as u128 > u64::MAX as u128 - total as u128 {
                u64::MAX
            } else {
                total + here as u64
            };
            i = i + 1;
        }
        proof {
            lemma_provider_rate_prefix(ss, rs, kind@, n as int);
        }
        total
    }

    /// Collapse the provider group if it is expanded, expand it otherwise.
    pub fn toggle_source_group(&mut self, kind: &str)
        ensures
            final(self).mode == old(self).mode,
            final(self).active_pane == old(self).active_pane,
            final(self).sources == old(self).sources,
            final(self).store == old(self).store,
            final(self).selected_source == old(self).selected_source,
            final(self).selected_pattern == old(self).selected_pattern,
            final(self).search_query == old(self).search_query,
            final(self).filtered_view == old(self).filtered_view,
            final(self).paused == old(self).paused,
            final(self).profiles == old(self).profiles,
            final(self).profile_index == old(self).profile_index,
            final(self).theme_override == old(self).theme_override,
            final(self).should_quit == old(self).should_quit,
            final(self).log_count == old(self).log_count,
            final(self).show_normalized == old(self).show_normalized,
            final(self).detail_scroll == old(self).detail_scroll,
            final(self).tick_count == old(self).tick_count,
            final(self).source_menu == old(self).source_menu,
            final(self).needs_clear == old(self).needs_clear,
            final(self).active_source_filter == old(self).active_source_filter,
            final(self).source_rates == old(self).source_rates,
            final(self).azure_token == old(self).azure_token,
            final(self).show_banner == old(self).show_banner,
            util::str_views(final(self).collapsed_groups@) == (if find_str(
                util::str_views(old(self).collapsed_groups@),
                kind@,
            ) >= 0 {
                util::str_views(old(self).collapsed_groups@).remove(
                    find_str(util::str_views(old(self).collapsed_groups@), kind@),
                )
            } else {
                util::str_views(old(self).collapsed_groups@).push(kind@)
            }),
    {
        let ghost gs = util::str_views(self.collapsed_groups@);
        let n = self.collapsed_groups.len();
        let mut j: usize = 0;
        while j < n
            invariant
                j <= n,
                n == self.collapsed_groups@.len(),
                gs == util::str_views(self.collapsed_groups@),
                gs == util::str_views(old(self).collapsed_groups@),
                forall|m: int| 0 <= m < j ==> gs[m] != kind@,
                self.mode == old(self).mode,
                self.active_pane == old(self).active_pane,
                self.sources == old(self).sources,
                self.store == old(self).store,
                self.selected_source == old(self).selected_source,
                self.selected_pattern == old(self).selected_pattern,
                self.search_query == old(self).search_query,
                self.filtered_view == old(self).filtered_view,
                self.paused == old(self).paused,
                self.profiles == old(self).profiles,
                self.profile_index == old(self).profile_index,
                self.theme_override == old(self).theme_override,
                self.should_quit == old(self).should_quit,
                self.log_count == old(self).log_count,
                self.show_normalized == old(self).show_normalized,
                self.detail_scroll == old(self).detail_scroll,
                self.tick_count == old(self).tick_count,
                self.source_menu == old(self).source_menu,
                self.needs_clear == old(self).needs_clear,
                self.active_source_filter == old(self).active_source_filter,
                self.source_rates == old(self).source_rates,
                self.azure_token == old(self).azure_token,
                self.show_banner == old(self).show_banner,
            decreases n - j,
        {
            if util::str_eq(self.collapsed_groups[j].as_str(), kind) {
                proof {
                    assert(gs[j as int] == (self.collapsed_groups@[j as int])@);
                    lemma_find_str(gs, kind@);
                    assert(find_str(gs, kind@) == j as int);
                }
                self.collapsed_groups.remove(j);
                proof {
                    assert(util::str_views(self.collapsed_groups@) =~~= gs.remove(j as int));
                }
                return ;
            }
            j = j + 1;
        }
        proof {
            lemma_find_str(gs, kind@);
            if find_str(gs, kind@) >= 0 {
                assert(gs[find_str(gs, kind@)] == kind@);
                assert(false);
            }
        }
        self.collapsed_groups.push(String::from_str(kind));
        proof {
            assert(util::str_views(self.collapsed_groups@) =~~= gs.push(kind@));
        }
    }
}


/// The first whitespace-separated token of a command line, used as the
/// command source's name; an all-blank line yields `cmd`.
fn token_of(s: &str) -> (r: String)
    ensures
        r@ == first_token(s@),
{
    let v = util::chars_of(s);
    let mut i: usize = 0;
    while i < v.len() && parse::is_space_c(v[i])
        invariant
            i <= v.len(),
            v@ == s@,
            crate::parse::run_len(s@, 0, |c: char| parse::is_space(c)) == i
                + crate::parse::run_len(s@, i as int, |c: char| parse::is_space(c)),
        decreases v.len() - i,
    {
        i = i + 1;
    }
    let start = i;
    proof {
        assert(crate::parse::run_len(s@, 0, |c: char| parse::is_space(c)) == start);
    }
    while i < v.len() && !parse::is_space_c(v[i])
        invariant
            start <= i <= v.len(),
            v@ == s@,
            crate::parse::run_len(s@, start as int, |c: char| !parse::is_space(c)) == i - start
                + crate::parse::run_len(s@, i as int, |c: char| !parse::is_space(c)),
        decreases v.len() - i,
    {
        i = i + 1;
    }
    proof {
        assert(crate::parse::run_len(s@, start as int, |c: char| !parse::is_space(c)) == i
            - start);
    }
    if i == start {
        return String::from_str("cmd");
    }
    let mut out: Vec<char> = Vec::new();
    let mut k: usize = start;
    while k < i
        invariant
            start <= k <= i <= v.len(),
            v@ == s@,
            out@ =~= s@.subrange(start as int, k as int),
        decreases i - k,
    {
        out.push(v[k]);
        k = k + 1;
        proof {
            assert(out@ =~= s@.subrange(start as int, k as int));
        }
    }
    util::string_of(&out)
}


/// Index of the first source with the id, if any.
fn find_source_index(sources: &Vec<SourceInfo>, id: &str) -> (r: Option<usize>)
    ensures
        match r {
            Some(j) => find_source(source_views(sources@), id@) == j as int && j
                < sources@.len(),
            None => find_source(source_views(sources@), id@) < 0,
        },
{
    let ghost ss = source_views(sources@);
    let mut j: usize = 0;
    while j < sources.len()
        invariant
            j <= sources@.len(),
            ss == source_views(sources@),
            forall|m: int| 0 <= m < j ==> (#[trigger] ss[m]).id != id@,
        decreases sources@.len() - j,
    {
        if util::str_eq(sources[j].id.as_str(), id) {
            proof {
                assert(ss[j as int] =~~= (sources@[j as int])@);
                lemma_find_source(ss, id@);
                assert(find_source(ss, id@) == j as int);
            }
            return Some(j);
        }
        j = j + 1;
    }
    proof {
        lemma_find_source(ss, id@);
        if find_source(ss, id@) >= 0 {
            assert(ss[find_source(ss, id@)].id == id@);
            assert(false);
        }
    }
    None
}

/// Index of the first rate entry for the id, if any.
fn find_rate_index(rates: &Vec<SourceRate>, id: &str) -> (r: Option<usize>)
    ensures
        match r {
            Some(j) => find_rate(rate_views(rates@), id@) == j as int && j < rates@.len(),
            None => find_rate(rate_views(rates@), id@) < 0,
        },
{
    let ghost rs = rate_views(rates@);
    let mut j: usize = 0;
    while j < rates.len()
        invariant
            j <= rates@.len(),
            rs == rate_views(rates@),
            forall|m: int| 0 <= m < j ==> (#[trigger] rs[m]).id != id@,
        decreases rates@.len() - j,
    {
        if util::str_eq(rates[j].id.as_str(), id) {
            proof {
                assert(rs[j as int] =~~= (rates@[j as int])@);
                lemma_find_rate(rs, id@);
                assert(find_rate(rs, id@) == j as int);
            }
            return Some(j);
        }
        j = j + 1;
    }
    proof {
        lemma_find_rate(rs, id@);
        if find_rate(rs, id@) >= 0 {
            assert(rs[find_rate(rs, id@)].id == id@);
            assert(false);
        }
    }
    None
}

proof fn lemma_provider_rate_nonneg(
    ss: Seq<SourceInfoV>,
    rs: Seq<SourceRateV>,
    kind: Seq<char>,
    i: int,
)
    ensures
        provider_rate_sum(ss, rs, kind, i) >= 0,
    decreases ss.len() - i,
{
    if i < 0 || i >= ss.len() {
    } else {
        lemma_provider_rate_nonneg(ss, rs, kind, i + 1);
    }
}

/// Every suffix sum is at most the whole sum and at least zero.
proof fn lemma_provider_rate_prefix(
    ss: Seq<SourceInfoV>,
    rs: Seq<SourceRateV>,
    kind: Seq<char>,
    i: int,
)
    ensures
        provider_rate_sum(ss, rs, kind, i) >= 0,
        provider_rate_sum(ss, rs, kind, 0) >= provider_rate_sum(ss, rs, kind, i) || i < 0,
    decreases (if i >= 0 { i } else { 0int }),
{
    lemma_provider_rate_nonneg(ss, rs, kind, i);
    if i > 0 {
        lemma_provider_rate_prefix(ss, rs, kind, i - 1);
        lemma_provider_rate_nonneg(ss, rs, kind, i - 1);
    }
}

/// Prune one rate entry's window to the last minute.
fn prune_rate_entry(rates: &mut Vec<SourceRate>, j: usize, now: u64)
    requires
        j < old(rates)@.len(),
    ensures
        final(rates)@.len() == old(rates)@.len(),
        (final(rates)@[j as int])@ == (SourceRateV {
            id: (old(rates)@[j as int])@.id,
            timestamps: prune_front((old(rates)@[j as int])@.timestamps, now, 60_000),
        }),
        forall|m: int|
            0 <= m < old(rates)@.len() && m != j ==> final(rates)@[m] == old(rates)@[m],
{
    let ghost w0 = (old(rates)@[j as int])@.timestamps;
    while rates[j].timestamps.len() > 0 && rates[j].timestamps[0] < now && now
        - rates[j].timestamps[0] > 60_000
        invariant
            j < rates@.len(),
            rates@.len() == old(rates)@.len(),
            (rates@[j as int]).id == (old(rates)@[j as int]).id,
            prune_front((rates@[j as int])@.timestamps, now, 60_000) == prune_front(
                w0,
                now,
                60_000,
            ),
            forall|m: int|
                0 <= m < old(rates)@.len() && m != j ==> rates@[m] == old(rates)@[m],
        decreases rates@[j as int].timestamps@.len(),
    {
        rates[j].timestamps.remove(0);
        proof {
            assert((rates@[j as int])@.timestamps =~~= (rates@[j as int])@.timestamps);
        }
    }
    proof {
        if (rates@[j as int])@.timestamps.len() > 0 {
            assert(!(now - (rates@[j as int])@.timestamps[0] > 60_000));
        }
        assert((rates@[j as int])@ =~~= (SourceRateV {
            id: (old(rates)@[j as int])@.id,
            timestamps: prune_front(w0, now, 60_000),
        }));
    }
}

} // verus!

verus! {

/// One row of the sources pane: a group header, or one source with its
/// index into the source table.
pub struct SourceRow {
    pub header: bool,
    pub kind: String,
    pub source_index: Option<usize>,
}

/// Mathematical model of a `SourceRow`.
#[verifier::ext_equal]
pub struct SourceRowV {
    pub header: bool,
    pub kind: Seq<char>,
    pub source_index: Option<usize>,
}

impl View for SourceRow {
    type V = SourceRowV;

    open spec fn view(&self) -> SourceRowV {
        SourceRowV { header: self.header, kind: self.kind@, source_index: self.source_index }
    }
}

/// The views of the rows of the sources pane.
pub open spec fn row_views(v: Seq<SourceRow>) -> Seq<SourceRowV> {
    v.map_values(|t: SourceRow| t@)
}

/// Indices of the sources of one provider kind, in table order.
pub open spec fn kind_indices(ss: Seq<SourceInfoV>, kind: Seq<char>, i: int) -> Seq<usize>
    decreases ss.len() - i,
{
    if i < 0 || i >= ss.len() {
        Seq::<usize>::empty()
    } else if ss[i].kind == kind {
        seq![i as usize] + kind_indices(ss, kind, i + 1)
    } else {
        kind_indices(ss, kind, i + 1)
    }
}

/// The rows of one provider group: nothing when the kind has no sources,
/// else a header and, unless collapsed, one row per source.
pub open spec fn group_rows(ss: Seq<SourceInfoV>, kind: Seq<char>, collapsed: bool) -> Seq<
    SourceRowV,
> {
    let idxs = kind_indices(ss, kind, 0);
    if idxs.len() == 0 {
        Seq::<SourceRowV>::empty()
    } else if collapsed {
        seq![SourceRowV { header: true, kind: kind, source_index: None }]
    } else {
        seq![SourceRowV { header: true, kind: kind, source_index: None }] + idxs.map_values(
            |j: usize| SourceRowV { header: false, kind: kind, source_index: Some(j) },
        )
    }
}

/// Whether the provider group is collapsed.
pub open spec fn group_collapsed(groups: Seq<Seq<char>>, kind: Seq<char>) -> bool {
    find_str(groups, kind) >= 0
}

/// All rows of the sources pane: the provider groups in their fixed order.
pub open spec fn source_rows_of(a: &App) -> Seq<SourceRowV> {
    let ss = source_views(a.sources@);
    let gs = util::str_views(a.collapsed_groups@);
    group_rows(ss, "docker"@, group_collapsed(gs, "docker"@)) + group_rows(
        ss,
        "azure"@,
        group_collapsed(gs, "azure"@),
    ) + group_rows(ss, "command"@, group_collapsed(gs, "command"@)) + group_rows(
        ss,
        "file"@,
        group_collapsed(gs, "file"@),
    )
}

/// Nothing changed.
pub open spec fn app_unchanged(o: &App, n: &App) -> bool {
    &&& n.mode == o.mode
    &&& n.active_pane == o.active_pane
    &&& n.sources == o.sources
    &&& n.store == o.store
    &&& n.selected_source == o.selected_source
    &&& n.selected_pattern == o.selected_pattern
    &&& n.search_query == o.search_query
    &&& n.filtered_view == o.filtered_view
    &&& n.paused == o.paused
    &&& n.profiles == o.profiles
    &&& n.profile_index == o.profile_index
    &&& n.theme_override == o.theme_override
    &&& n.should_quit == o.should_quit
    &&& n.log_count == o.log_count
    &&& n.show_normalized == o.show_normalized
    &&& n.detail_scroll == o.detail_scroll
    &&& n.tick_count == o.tick_count
    &&& n.source_menu == o.source_menu
    &&& n.needs_clear == o.needs_clear
    &&& n.active_source_filter == o.active_source_filter
    &&& n.source_rates == o.source_rates
    &&& n.collapsed_groups == o.collapsed_groups
    &&& n.azure_token == o.azure_token
    &&& n.show_banner == o.show_banner
}

/// What acting on the selected sources-pane row does: a header row toggles
/// its group's collapse and asks for a repaint; a source row toggles the
/// source filter onto that source and rewinds the pattern cursor; a cursor
/// past the last row changes nothing.
pub open spec fn source_activated(o: &App, n: &App) -> bool {
    if o.selected_source >= source_rows_of(o).len() {
        app_unchanged(o, n)
    } else {
        let row = source_rows_of(o)[o.selected_source as int];
    &&& n.mode == o.mode
    &&& n.active_pane == o.active_pane
    &&& n.sources == o.sources
    &&& n.store == o.store
    &&& n.selected_source == o.selected_source
    &&& n.search_query == o.search_query
    &&& n.filtered_view == o.filtered_view
    &&& n.paused == o.paused
    &&& n.profiles == o.profiles
    &&& n.profile_index == o.profile_index
    &&& n.theme_override == o.theme_override
    &&& n.should_quit == o.should_quit
    &&& n.log_count == o.log_count
    &&& n.show_normalized == o.show_normalized
    &&& n.detail_scroll == o.detail_scroll
    &&& n.tick_count == o.tick_count
    &&& n.source_menu == o.source_menu
    &&& n.source_rates == o.source_rates
    &&& n.azure_token == o.azure_token
    &&& n.show_banner == o.show_banner
        &&& if row.header {
            &&& n.active_source_filter == o.active_source_filter
            &&& n.selected_pattern == o.selected_pattern
            &&& n.needs_clear
            &&& util::str_views(n.collapsed_groups@) == (if find_str(
                util::str_views(o.collapsed_groups@),
                row.kind,
            ) >= 0 {
                util::str_views(o.collapsed_groups@).remove(
                    find_str(util::str_views(o.collapsed_groups@), row.kind),
                )
            } else {
                util::str_views(o.collapsed_groups@).push(row.kind)
            })
        } else {
            match row.source_index {
                Some(idx) => {
                    let id = source_views(o.sources@)[idx as int].id;
                    &&& n.collapsed_groups == o.collapsed_groups
                    &&& n.selected_pattern == 0
                    &&& n.needs_clear
                    &&& if o.active_source_filter matches Some(f) && f@ == id {
                        n.active_source_filter is None
                    } else {
                        n.active_source_filter matches Some(g) && g@ == id
                    }
                },
                None => {
                    &&& n.active_source_filter == o.active_source_filter
                    &&& n.selected_pattern == o.selected_pattern
                    &&& n.needs_clear == o.needs_clear
                    &&& n.collapsed_groups == o.collapsed_groups
                },
            }
        }
    }
}

proof fn lemma_kind_indices_bounds(ss: Seq<SourceInfoV>, kind: Seq<char>, i: int)
    ensures
        forall|k: int|
            0 <= k < kind_indices(ss, kind, i).len() ==> (#[trigger] kind_indices(
                ss,
                kind,
                i,
            )[k]) < ss.len(),
    decreases ss.len() - i,
{
    if i < 0 || i >= ss.len() {
    } else if ss[i].kind == kind {
        lemma_kind_indices_bounds(ss, kind, i + 1);
        assert forall|k: int|
            0 <= k < kind_indices(ss, kind, i).len() implies (#[trigger] kind_indices(
            ss,
            kind,
            i,
        )[k]) < ss.len() by {
            if k == 0 {
                assert(kind_indices(ss, kind, i)[0] == i as usize);
            } else {
                assert(kind_indices(ss, kind, i)[k] == kind_indices(ss, kind, i + 1)[k - 1]);
            }
        }
    } else {
        lemma_kind_indices_bounds(ss, kind, i + 1);
        assert forall|k: int|
            0 <= k < kind_indices(ss, kind, i).len() implies (#[trigger] kind_indices(
            ss,
            kind,
            i,
        )[k]) < ss.len() by {
            assert(kind_indices(ss, kind, i)[k] == kind_indices(ss, kind, i + 1)[k]);
        }
    }
}

/// Every source row of the pane points into the source table.
proof fn lemma_group_rows_bounds(ss: Seq<SourceInfoV>, kind: Seq<char>, collapsed: bool)
    ensures
        forall|k: int|
            0 <= k < group_rows(ss, kind, collapsed).len() ==> ((#[trigger] group_rows(
                ss,
                kind,
                collapsed,
            )[k]).source_index matches Some(j) ==> j < ss.len()),
{
    lemma_kind_indices_bounds(ss, kind, 0);
    let idxs = kind_indices(ss, kind, 0);
    if idxs.len() == 0 {
    } else if collapsed {
    } else {
        assert forall|k: int|
            0 <= k < group_rows(ss, kind, collapsed).len() implies ((#[trigger] group_rows(
            ss,
            kind,
            collapsed,
        )[k]).source_index matches Some(j) ==> j < ss.len()) by {
            if k == 0 {
                assert(group_rows(ss, kind, collapsed)[0].source_index is None);
            } else {
                assert(group_rows(ss, kind, collapsed)[k] == idxs.map_values(
                    |j: usize| SourceRowV { header: false, kind: kind, source_index: Some(j) },
                )[k - 1]);
            }
        }
    }
}

impl App {
    /// Whether the provider group is collapsed in the sources pane.
    fn is_group_collapsed(&self, kind: &str) -> (r: bool)
        ensures
            r == group_collapsed(util::str_views(self.collapsed_groups@), kind@),
    {
        let ghost gs = util::str_views(self.collapsed_groups@);
        let n = self.collapsed_groups.len();
        let mut j: usize = 0;
        while j < n
            invariant
                j <= n,
                n == self.collapsed_groups@.len(),
                gs == util::str_views(self.collapsed_groups@),
                forall|m: int| 0 <= m < j ==> gs[m] != kind@,
            decreases n - j,
        {
            if util::str_eq(self.collapsed_groups[j].as_str(), kind) {
                proof {
                    assert(gs[j as int] == (self.collapsed_groups@[j as int])@);
                    lemma_find_str(gs, kind@);
                    assert(find_str(gs, kind@) == j as int);
                }
                return true;
            }
            j = j + 1;
        }
        proof {
            lemma_find_str(gs, kind@);
            if find_str(gs, kind@) >= 0 {
                assert(gs[find_str(gs, kind@)] == kind@);
                assert(false);
            }
        }
        false
    }

    /// Indices of the sources of one provider kind, in table order.
    fn collect_kind(&self, kind: &str) -> (r: Vec<usize>)
        ensures
            r@ == kind_indices(source_views(self.sources@), kind@, 0),
            forall|k: int| 0 <= k < r@.len() ==> (#[trigger] r@[k]) < self.sources@.len(),
    {
        let ghost ss = source_views(self.sources@);
        let n = self.sources.len();
        let mut out: Vec<usize> = Vec::new();
        let mut i: usize = 0;
        while i < n
            invariant
                i <= n,
                n == self.sources@.len(),
                ss == source_views(self.sources@),
                kind_indices(ss, kind@, 0) == out@ + kind_indices(ss, kind@, i as int),
                forall|k: int| 0 <= k < out@.len() ==> (#[trigger] out@[k]) < n,
            decreases n - i,
        {
            let ghost out0 = out@;
            proof {
                assert(ss[i as int] =~~= (self.sources@[i as int])@);
            }
            if util::str_eq(self.sources[i].kind.as_str(), kind) {
                out.push(i);
                proof {
                    assert(kind_indices(ss, kind@, i as int) == seq![i as usize] + kind_indices(
                        ss,
                        kind@,
                        i + 1,
                    ));
                    assert(out0 + (seq![i as usize] + kind_indices(ss, kind@, i + 1)) =~~= (out0
                        + seq![i as usize]) + kind_indices(ss, kind@, i + 1));
                    assert(out@ =~~= out0 + seq![i as usize]);
                }
            } else {
                proof {
                    assert(kind_indices(ss, kind@, i as int) == kind_indices(ss, kind@, i + 1));
                }
            }
            i = i + 1;
        }
        proof {
            assert(kind_indices(ss, kind@, n as int) =~~= Seq::<usize>::empty());
            assert(out@ + Seq::<usize>::empty() =~~= out@);
            lemma_kind_indices_bounds(ss, kind@, 0);
        }
        out
    }

    /// Append one provider group's rows.
    fn push_group(&self, rows: &mut Vec<SourceRow>, kind: &str)
        ensures
            row_views(final(rows)@) == row_views(old(rows)@) + group_rows(
                source_views(self.sources@),
                kind@,
                group_collapsed(util::str_views(self.collapsed_groups@), kind@),
            ),
    {
        let ghost ss = source_views(self.sources@);
        let ghost base = row_views(old(rows)@);
        let idxs = self.collect_kind(kind);
        let collapsed = self.is_group_collapsed(kind);
        if idxs.len() == 0 {
            proof {
                assert(row_views(rows@) =~~= base + group_rows(
                    ss,
                    kind@,
                    group_collapsed(util::str_views(self.collapsed_groups@), kind@),
                ));
            }
            return ;
        }
        rows.push(SourceRow { header: true, kind: String::from_str(kind), source_index: None });
        if collapsed {
            proof {
                assert(row_views(rows@) =~~= base + group_rows(ss, kind@, true));
            }
            return ;
        }
        let ghost hdr = row_views(rows@);
        let mut k: usize = 0;
        while k < idxs.len()
            invariant
                k <= idxs@.len(),
                idxs@ == kind_indices(ss, kind@, 0),
                forall|m: int| 0 <= m < idxs@.len() ==> (#[trigger] idxs@[m]) < self.sources@.len(),
                row_views(rows@) =~~= hdr + idxs@.subrange(0, k as int).map_values(
                    |j: usize| SourceRowV { header: false, kind: kind@, source_index: Some(j) },
                ),
                hdr == base + seq![SourceRowV { header: true, kind: kind@, source_index: None }],
            decreases idxs@.len() - k,
        {
            let ghost prev = rows@;
            let row = SourceRow {
                header: false,
                kind: String::from_str(kind),
                source_index: Some(idxs[k]),
            };
            let ghost rv = row@;
            proof {
                assert(rv =~~= (SourceRowV {
                    header: false,
                    kind: kind@,
                    source_index: Some(idxs@[k as int]),
                }));
            }
            rows.push(row);
            k = k + 1;
            proof {
                assert forall|m: int| 0 <= m < prev.len() implies row_views(rows@)[m] == row_views(
                    prev,
                )[m] by {
                    assert(rows@[m] == prev[m]);
                    assert(row_views(prev)[m] == (prev[m])@);
                    assert(row_views(rows@)[m] == (rows@[m])@);
                }
                assert(rows@[prev.len() as int] == row);
                assert(row_views(rows@)[prev.len() as int] == rv);
                assert(row_views(rows@).len() == prev.len() + 1);
                assert(row_views(prev).len() == prev.len());
                assert(idxs@.subrange(0, k as int).map_values(
                    |j: usize| SourceRowV { header: false, kind: kind@, source_index: Some(j) },
                ).len() == k as int);
                assert(idxs@.subrange(0, k - 1).map_values(
                    |j: usize| SourceRowV { header: false, kind: kind@, source_index: Some(j) },
                ).len() == k - 1);
                assert forall|m: int|
                    0 <= m < prev.len() + 1 implies row_views(rows@)[m] == (hdr + idxs@.subrange(
                    0,
                    k as int,
                ).map_values(
                    |j: usize| SourceRowV { header: false, kind: kind@, source_index: Some(j) },
                ))[m] by {
                    if m < hdr.len() {
                        assert(row_views(prev)[m] == hdr[m]);
                    } else if m < prev.len() {
                        assert(row_views(prev)[m] == idxs@.subrange(0, k - 1).map_values(
                            |j: usize| SourceRowV {
                                header: false,
                                kind: kind@,
                                source_index: Some(j),
                            },
                        )[m - hdr.len()]);
                        assert(idxs@.subrange(0, k - 1)[m - hdr.len()] == idxs@[m - hdr.len()]);
                        assert(idxs@.subrange(0, k as int)[m - hdr.len()] == idxs@[m - hdr.len()]);
                    } else {
                        assert(idxs@.subrange(0, k as int)[k - 1] == idxs@[k - 1]);
                        assert(m == prev.len());
                        assert(prev.len() - hdr.len() == k - 1);
                    }
                }
                assert(row_views(rows@) =~~= hdr + idxs@.subrange(0, k as int).map_values(
                    |j: usize| SourceRowV { header: false, kind: kind@, source_index: Some(j) },
                ));
            }
        }
        proof {
            assert(idxs@.subrange(0, idxs@.len() as int) =~~= idxs@);
            let items = idxs@.map_values(
                |j: usize| SourceRowV { header: false, kind: kind@, source_index: Some(j) },
            );
            let hrow = SourceRowV { header: true, kind: kind@, source_index: None };
            assert(row_views(rows@) =~~= (base + seq![hrow]) + items);
            assert((base + seq![hrow]) + items =~~= base + (seq![hrow] + items));
            assert(group_rows(ss, kind@, false) =~~= seq![hrow] + items);
            assert(row_views(rows@) =~~= base + group_rows(ss, kind@, false));
        }
    }

    /// The visible rows of the sources pane: a header per provider kind that
    /// has sources, and, for expanded groups, one row per source.
    pub fn visible_source_rows(&self) -> (r: Vec<SourceRow>)
        ensures
            row_views(r@) == source_rows_of(self),
            forall|k: int|
                0 <= k < r@.len() ==> ((#[trigger] r@[k]).source_index matches Some(j) ==> j
                    < self.sources@.len()),
    {
        let mut rows: Vec<SourceRow> = Vec::new();
        self.push_group(&mut rows, "docker");
        self.push_group(&mut rows, "azure");
        self.push_group(&mut rows, "command");
        self.push_group(&mut rows, "file");
        proof {
            assert(row_views(rows@) =~~= source_rows_of(self));
            let ss = source_views(self.sources@);
            let gs = util::str_views(self.collapsed_groups@);
            lemma_group_rows_bounds(ss, "docker"@, group_collapsed(gs, "docker"@));
            lemma_group_rows_bounds(ss, "azure"@, group_collapsed(gs, "azure"@));
            lemma_group_rows_bounds(ss, "command"@, group_collapsed(gs, "command"@));
            lemma_group_rows_bounds(ss, "file"@, group_collapsed(gs, "file"@));
            assert forall|k: int|
                0 <= k < rows@.len() implies ((#[trigger] rows@[k]).source_index matches Some(j)
                ==> j < self.sources@.len()) by {
                assert(row_views(rows@)[k] == source_rows_of(self)[k]);
                assert(row_views(rows@)[k].source_index == rows@[k].source_index);
                let a = group_rows(ss, "docker"@, group_collapsed(gs, "docker"@));
                let b = group_rows(ss, "azure"@, group_collapsed(gs, "azure"@));
                let c = group_rows(ss, "command"@, group_collapsed(gs, "command"@));
                let d = group_rows(ss, "file"@, group_collapsed(gs, "file"@));
                if k < a.len() {
                    assert(source_rows_of(self)[k] == a[k]);
                } else if k < a.len() + b.len() {
                    assert(source_rows_of(self)[k] == b[k - a.len()]);
                } else if k < a.len() + b.len() + c.len() {
                    assert(source_rows_of(self)[k] == c[k - a.len() - b.len()]);
                } else {
                    assert(source_rows_of(self)[k] == d[k - a.len() - b.len() - c.len()]);
                }
            }
        }
        rows
    }

    /// Move the selection of the active pane down by one, stopping at the
    /// last visible row, pattern, or sample.
    pub fn move_down(&mut self)
        ensures
            final(self).mode == old(self).mode,
            final(self).active_pane == old(self).active_pane,
            final(self).sources == old(self).sources,
            final(self).store == old(self).store,
            final(self).search_query == old(self).search_query,
            final(self).filtered_view == old(self).filtered_view,
            final(self).paused == old(self).paused,
            final(self).profiles == old(self).profiles,
            final(self).profile_index == old(self).profile_index,
            final(self).theme_override == old(self).theme_override,
            final(self).should_quit == old(self).should_quit,
            final(self).log_count == old(self).log_count,
            final(self).show_normalized == old(self).show_normalized,
            final(self).tick_count == old(self).tick_count,
            final(self).source_menu == old(self).source_menu,
            final(self).needs_clear == old(self).needs_clear,
            final(self).active_source_filter == old(self).active_source_filter,
            final(self).source_rates == old(self).source_rates,
            final(self).collapsed_groups == old(self).collapsed_groups,
            final(self).azure_token == old(self).azure_token,
            final(self).show_banner == old(self).show_banner,
            final(self).selected_source == (if old(self).active_pane is Sources
                && source_rows_of(old(self)).len() > 0 && old(self).selected_source
                < source_rows_of(old(self)).len() - 1 {
                (old(self).selected_source + 1) as usize
            } else {
                old(self).selected_source
            }),
            final(self).selected_pattern == (if old(self).active_pane is Patterns && old(self).selected_pattern + 1 < old(self).filtered_view@.len() {
                (old(self).selected_pattern + 1) as usize
            } else {
                old(self).selected_pattern
            }),
            final(self).detail_scroll == (if old(self).active_pane is Details && old(self).detail_scroll < usize::MAX {
                (old(self).detail_scroll + 1) as usize
            } else {
                old(self).detail_scroll
            }),
    {
        match self.active_pane {
            Pane::Sources => {
                let rows = self.visible_source_rows();
                if rows.len() > 0 && self.selected_source < rows.len() - 1 {
                    self.selected_source = self.selected_source + 1;
                }
            },
            Pane::Patterns => {
                let len = self.filtered_view.len();
                let max: usize = if len == 0 {
                    0
                } else {
                    len - 1
                };
                if self.selected_pattern < max {
                    self.selected_pattern = self.selected_pattern + 1;
                }
            },
            Pane::Details => {
                if self.detail_scroll < usize::MAX {
                    self.detail_scroll = self.detail_scroll + 1;
                }
            },
        }
    }

    /// The pattern under the cursor of the filtered view, if the cursor and
    /// its row point at real entries.
    pub fn selected_pattern_data(&self) -> (r: Option<&crate::pattern::Pattern>)
        ensures
            match r {
                Some(p) => self.selected_pattern < self.filtered_view@.len() && (
                self.filtered_view@[self.selected_pattern as int]).index
                    < self.store.spec_patterns().len() && (*p)@ == self.store.spec_patterns()[(
                self.filtered_view@[self.selected_pattern as int]).index as int],
                None => self.selected_pattern >= self.filtered_view@.len() || (
                self.filtered_view@[self.selected_pattern as int]).index
                    >= self.store.spec_patterns().len(),
            },
    {
        if self.selected_pattern < self.filtered_view.len() {
            let idx = self.filtered_view[self.selected_pattern].index;
            let pats = self.store.patterns();
            if idx < pats.len() {
                return Some(&pats[idx]);
            }
        }
        None
    }

    /// Act on the selected row of the sources pane: a header toggles its
    /// group's collapse; a source row toggles the source filter on that
    /// source and returns the pattern cursor to the top.
    pub fn activate_selected_source(&mut self)
        ensures
            source_activated(old(self), final(self)),
    {
        let rows = self.visible_source_rows();
        proof {
            assert(rows@.len() == source_rows_of(old(self)).len());
        }
        if self.selected_source < rows.len() {
            let sel = self.selected_source;
            let ghost rowv = source_rows_of(old(self))[old(self).selected_source as int];
            proof {
                assert(row_views(rows@)[sel as int] == (rows@[sel as int])@);
                assert((rows@[sel as int])@ == rowv);
            }
            let is_header = rows[sel].header;
            if is_header {
                let kind = rows[sel].kind.clone();
                proof {
                    assert(kind@ == rowv.kind);
                }
                self.toggle_source_group(kind.as_str());
                self.needs_clear = true;
            } else {
                match rows[sel].source_index {
                    Some(idx) => {
                        proof {
                            assert(rowv.source_index == Some(idx));
                            assert(idx < self.sources@.len());
                        }
                        let source_id = self.sources[idx].id.clone();
                        proof {
                            assert(source_views(old(self).sources@)[idx as int] == (
                            old(self).sources@[idx as int])@);
                            assert(source_id@ == source_views(old(self).sources@)[idx as int].id);
                        }
                        let same = match &self.active_source_filter {
                            Some(f) => util::str_eq(f.as_str(), source_id.as_str()),
                            None => false,
                        };
                        if same {
                            self.active_source_filter = None;
                        } else {
                            self.active_source_filter = Some(source_id);
                        }
                        self.selected_pattern = 0;
                        self.needs_clear = true;
                    },
                    None => {},
                }
            }
        }
    }

    /// Record one source per selected row of the container discovery screen;
    /// the shell spawns their producers.
    pub fn spawn_selected_docker_sources(&mut self)
        ensures
            final(self).mode == old(self).mode,
            final(self).active_pane == old(self).active_pane,
            final(self).store == old(self).store,
            final(self).selected_source == old(self).selected_source,
            final(self).selected_pattern == old(self).selected_pattern,
            final(self).search_query == old(self).search_query,
            final(self).filtered_view == old(self).filtered_view,
            final(self).paused == old(self).paused,
            final(self).profiles == old(self).profiles,
            final(self).profile_index == old(self).profile_index,
            final(self).theme_override == old(self).theme_override,
            final(self).should_quit == old(self).should_quit,
            final(self).log_count == old(self).log_count,
            final(self).show_normalized == old(self).show_normalized,
            final(self).detail_scroll == old(self).detail_scroll,
            final(self).tick_count == old(self).tick_count,
            final(self).source_menu == old(self).source_menu,
            final(self).needs_clear == old(self).needs_clear,
            final(self).active_source_filter == old(self).active_source_filter,
            final(self).source_rates == old(self).source_rates,
            final(self).collapsed_groups == old(self).collapsed_groups,
            final(self).azure_token == old(self).azure_token,
            final(self).show_banner == old(self).show_banner,
            source_views(final(self).sources@) == docker_added(
                source_views(old(self).sources@),
                container_names(old(self).source_menu.docker_containers@),
                old(self).source_menu.selected@,
                0,
            ),
            unique_ids(source_views(old(self).sources@)) ==> unique_ids(
                source_views(final(self).sources@),
            ),
    {
        let ghost names = container_names(self.source_menu.docker_containers@);
        let ghost sel = self.source_menu.selected@;
        let n = self.source_menu.selected.len();
        let mut i: usize = 0;
        while i < n
            invariant
                i <= n,
                n == self.source_menu.selected@.len(),
                sel == self.source_menu.selected@,
                names == container_names(self.source_menu.docker_containers@),
                docker_added(source_views(old(self).sources@), names, sel, 0) == docker_added(
                    source_views(self.sources@),
                    names,
                    sel,
                    i as int,
                ),
                unique_ids(source_views(old(self).sources@)) ==> unique_ids(
                    source_views(self.sources@),
                ),
                self.mode == old(self).mode,
                self.active_pane == old(self).active_pane,
                self.store == old(self).store,
                self.selected_source == old(self).selected_source,
                self.selected_pattern == old(self).selected_pattern,
                self.search_query == old(self).search_query,
                self.filtered_view == old(self).filtered_view,
                self.paused == old(self).paused,
                self.profiles == old(self).profiles,
                self.profile_index == old(self).profile_index,
                self.theme_override == old(self).theme_override,
                self.should_quit == old(self).should_quit,
                self.log_count == old(self).log_count,
                self.show_normalized == old(self).show_normalized,
                self.detail_scroll == old(self).detail_scroll,
                self.tick_count == old(self).tick_count,
                self.source_menu == old(self).source_menu,
                self.needs_clear == old(self).needs_clear,
                self.active_source_filter == old(self).active_source_filter,
                self.source_rates == old(self).source_rates,
                self.collapsed_groups == old(self).collapsed_groups,
                self.azure_token == old(self).azure_token,
                self.show_banner == old(self).show_banner,
            decreases n - i,
        {
            let idx = self.source_menu.selected[i];
            if idx < self.source_menu.docker_containers.len() {
                proof {
                    assert(names[idx as int] == (
                    self.source_menu.docker_containers@[idx as int]).name@);
                }
                let name = self.source_menu.docker_containers[idx].name.clone();
                self.add_docker_source(name);
            }
            i = i + 1;
        }
        proof {
            assert(docker_added(source_views(self.sources@), names, sel, n as int) == source_views(
                self.sources@,
            ));
        }
    }

    /// Record one source per selected row of the cloud discovery screen; the
    /// shell spawns their producers with the app's resource coordinates.
    pub fn spawn_selected_azure_sources(&mut self)
        ensures
            final(self).mode == old(self).mode,
            final(self).active_pane == old(self).active_pane,
            final(self).store == old(self).store,
            final(self).selected_source == old(self).selected_source,
            final(self).selected_pattern == old(self).selected_pattern,
            final(self).search_query == old(self).search_query,
            final(self).filtered_view == old(self).filtered_view,
            final(self).paused == old(self).paused,
            final(self).profiles == old(self).profiles,
            final(self).profile_index == old(self).profile_index,
            final(self).theme_override == old(self).theme_override,
            final(self).should_quit == old(self).should_quit,
            final(self).log_count == old(self).log_count,
            final(self).show_normalized == old(self).show_normalized,
            final(self).detail_scroll == old(self).detail_scroll,
            final(self).tick_count == old(self).tick_count,
            final(self).source_menu == old(self).source_menu,
            final(self).needs_clear == old(self).needs_clear,
            final(self).active_source_filter == old(self).active_source_filter,
            final(self).source_rates == old(self).source_rates,
            final(self).collapsed_groups == old(self).collapsed_groups,
            final(self).azure_token == old(self).azure_token,
            final(self).show_banner == old(self).show_banner,
            source_views(final(self).sources@) == azure_added(
                source_views(old(self).sources@),
                app_names(old(self).source_menu.azure_apps@),
                old(self).source_menu.selected@,
                0,
            ),
            unique_ids(source_views(old(self).sources@)) ==> unique_ids(
                source_views(final(self).sources@),
            ),
    {
        let ghost names = app_names(self.source_menu.azure_apps@);
        let ghost sel = self.source_menu.selected@;
        let n = self.source_menu.selected.len();
        let mut i: usize = 0;
        while i < n
            invariant
                i <= n,
                n == self.source_menu.selected@.len(),
                sel == self.source_menu.selected@,
                names == app_names(self.source_menu.azure_apps@),
                azure_added(source_views(old(self).sources@), names, sel, 0) == azure_added(
                    source_views(self.sources@),
                    names,
                    sel,
                    i as int,
                ),
                unique_ids(source_views(old(self).sources@)) ==> unique_ids(
                    source_views(self.sources@),
                ),
                self.mode == old(self).mode,
                self.active_pane == old(self).active_pane,
                self.store == old(self).store,
                self.selected_source == old(self).selected_source,
                self.selected_pattern == old(self).selected_pattern,
                self.search_query == old(self).search_query,
                self.filtered_view == old(self).filtered_view,
                self.paused == old(self).paused,
                self.profiles == old(self).profiles,
                self.profile_index == old(self).profile_index,
                self.theme_override == old(self).theme_override,
                self.should_quit == old(self).should_quit,
                self.log_count == old(self).log_count,
                self.show_normalized == old(self).show_normalized,
                self.detail_scroll == old(self).detail_scroll,
                self.tick_count == old(self).tick_count,
                self.source_menu == old(self).source_menu,
                self.needs_clear == old(self).needs_clear,
                self.active_source_filter == old(self).active_source_filter,
                self.source_rates == old(self).source_rates,
                self.collapsed_groups == old(self).collapsed_groups,
                self.azure_token == old(self).azure_token,
                self.show_banner == old(self).show_banner,
            decreases n - i,
        {
            let idx = self.source_menu.selected[i];
            if idx < self.source_menu.azure_apps.len() {
                proof {
                    assert(names[idx as int] == (self.source_menu.azure_apps@[idx as int]).name@);
                }
                let name = self.source_menu.azure_apps[idx].name.clone();
                let rg = self.source_menu.azure_apps[idx].resource_group.clone();
                let sub = self.source_menu.azure_apps[idx].subscription_id.clone();
                self.add_azure_source(name, rg, sub);
            }
            i = i + 1;
        }
        proof {
            assert(azure_added(source_views(self.sources@), names, sel, n as int) == source_views(
                self.sources@,
            ));
        }
    }
}

/// The container names on the docker discovery screen, in order.
pub open spec fn container_names(cs: Seq<crate::discovery::DockerContainer>) -> Seq<Seq<char>> {
    cs.map_values(|c: crate::discovery::DockerContainer| c.name@)
}

/// The app names on the cloud discovery screen, in order.
pub open spec fn app_names(cs: Seq<crate::discovery::AzureContainerApp>) -> Seq<Seq<char>> {
    cs.map_values(|c: crate::discovery::AzureContainerApp| c.name@)
}

/// The sources after spawning the selected containers: one new source per
/// valid index whose name is not already attached.
pub open spec fn docker_added(
    sv: Seq<SourceInfoV>,
    names: Seq<Seq<char>>,
    sel: Seq<usize>,
    i: int,
) -> Seq<SourceInfoV>
    decreases sel.len() - i,
{
    if i < 0 || i >= sel.len() {
        sv
    } else {
        let sv2 = if sel[i] < names.len() {
            source_added(sv, "docker"@, "docker"@, names[sel[i] as int])
        } else {
            sv
        };
        docker_added(sv2, names, sel, i + 1)
    }
}

/// The sources after spawning the selected container apps: one new source
/// per valid index whose app is not already attached.
pub open spec fn azure_added(
    sv: Seq<SourceInfoV>,
    names: Seq<Seq<char>>,
    sel: Seq<usize>,
    i: int,
) -> Seq<SourceInfoV>
    decreases sel.len() - i,
{
    if i < 0 || i >= sel.len() {
        sv
    } else {
        let sv2 = if sel[i] < names.len() {
            source_added(sv, "azure"@, "azure"@, names[sel[i] as int])
        } else {
            sv
        };
        azure_added(sv2, names, sel, i + 1)
    }
}

} // verus!

verus! {

/// An ordering of all pattern indices as `sorted_indices` hands them out:
/// every index once, by one-minute rate then recency.
pub open spec fn order_ok(ps: Seq<crate::pattern::PatternV>, order: Seq<usize>) -> bool {
    &&& order.len() == ps.len()
    &&& forall|i: int| 0 <= i < order.len() ==> (#[trigger] order[i]) < ps.len()
    &&& forall|i: int, j: int| 0 <= i < j < order.len() ==> order[i] != order[j]
    &&& forall|i: int, j: int|
        0 <= i <= j < order.len() ==> crate::pattern::pat_before(
            ps[#[trigger] order[i] as int],
            ps[#[trigger] order[j] as int],
        )
}

/// The rows that survive the source filter: a row stays when its pattern
/// exists and the filtering source contributed to it.
pub open spec fn filter_rows(
    rows: Seq<crate::search::SearchResultV>,
    ps: Seq<crate::pattern::PatternV>,
    filt: Seq<char>,
) -> Seq<crate::search::SearchResultV>
    decreases rows.len(),
{
    if rows.len() == 0 {
        rows
    } else {
        let rest = filter_rows(rows.drop_first(), ps, filt);
        if rows[0].index < ps.len() && ps[rows[0].index as int].sources.contains(filt) {
            seq![rows[0]] + rest
        } else {
            rest
        }
    }
}

impl App {
    /// Recompute the filtered pattern view: the store's display order, the
    /// fuzzy ranking when a query stands, then the source filter; the cursor
    /// is clamped to the new view. Returns the display order used.
    pub fn update_filtered_view(&mut self) -> (order: Ghost<Seq<usize>>)
        requires
            old(self).wf(),
        ensures
            final(self).wf(),
            final(self).mode == old(self).mode,
            final(self).active_pane == old(self).active_pane,
            final(self).sources == old(self).sources,
            final(self).store == old(self).store,
            final(self).selected_source == old(self).selected_source,
            final(self).search_query == old(self).search_query,
            final(self).paused == old(self).paused,
            final(self).profiles == old(self).profiles,
            final(self).profile_index == old(self).profile_index,
            final(self).theme_override == old(self).theme_override,
            final(self).should_quit == old(self).should_quit,
            final(self).log_count == old(self).log_count,
            final(self).show_normalized == old(self).show_normalized,
            final(self).detail_scroll == old(self).detail_scroll,
            final(self).tick_count == old(self).tick_count,
            final(self).source_menu == old(self).source_menu,
            final(self).needs_clear == old(self).needs_clear,
            final(self).active_source_filter == old(self).active_source_filter,
            final(self).source_rates == old(self).source_rates,
            final(self).collapsed_groups == old(self).collapsed_groups,
            final(self).azure_token == old(self).azure_token,
            final(self).show_banner == old(self).show_banner,
            order_ok(old(self).store.spec_patterns(), order@),
            ({
                let ranked = if old(self).search_query@.len() == 0 {
                    crate::search::all_rows(order@)
                } else {
                    crate::search::sort_rows(
                        crate::search::fuzzy_rows_from(
                            old(self).store.spec_patterns(),
                            order@,
                            old(self).search_query@,
                            0,
                        ),
                    )
                };
                crate::search::result_views(final(self).filtered_view@) == (match old(self).active_source_filter {
                    Some(f) => filter_rows(ranked, old(self).store.spec_patterns(), f@),
                    None => ranked,
                })
            }),
            // with a source filter, every visible pattern has that source
            old(self).active_source_filter matches Some(f) ==> forall|i: int|
                0 <= i < final(self).filtered_view@.len() ==> (#[trigger] final(self).filtered_view@[i]).index < old(self).store.spec_patterns().len() && old(self).store.spec_patterns()[final(self).filtered_view@[i].index as int].sources.contains(
                    f@,
                ),
            final(self).selected_pattern == (if final(self).filtered_view@.len() == 0 {
                0
            } else if old(self).selected_pattern >= final(self).filtered_view@.len() {
                (final(self).filtered_view@.len() - 1) as usize
            } else {
                old(self).selected_pattern
            }),
    {
        let sorted = self.store.sorted_indices();
        let ghost ord = sorted@;
        let pats_slice = self.store.patterns();
        proof {
            assert(crate::pattern::pattern_views(pats_slice@) =~~= self.store.spec_patterns());
        }
        let mut results = crate::search::fuzzy_search(
            self.search_query.as_str(),
            pats_slice,
            sorted.as_slice(),
        );
        let ghost ranked = crate::search::result_views(results@);
        let has_filter = match &self.active_source_filter {
            Some(_) => true,
            None => false,
        };
        if has_filter {
            let mut kept: Vec<crate::search::SearchResult> = Vec::new();
            let ghost mut seen = Seq::<crate::search::SearchResultV>::empty();
            while results.len() > 0
                invariant
                    old(self).active_source_filter matches Some(f2) ==> {
                        &&& self.active_source_filter == old(self).active_source_filter
                        &&& filter_rows(ranked, self.store.spec_patterns(), f2@) == crate::search::result_views(kept@)
                            + filter_rows(
                            crate::search::result_views(results@),
                            self.store.spec_patterns(),
                            f2@,
                        )
                        &&& forall|i: int|
                            0 <= i < kept@.len() ==> (#[trigger] kept@[i]).index
                                < self.store.spec_patterns().len()
                                && self.store.spec_patterns()[kept@[i].index as int].sources.contains(
                                f2@,
                            )
                    },
                    old(self).active_source_filter is Some,
                    self.store == old(self).store,
                    self.active_source_filter == old(self).active_source_filter,
                decreases results@.len(),
            {
                let ghost resv = crate::search::result_views(results@);
                let x = results.remove(0);
                let ghost xv = x@;
                proof {
                    assert(crate::search::result_views(results@) =~~= resv.drop_first());
                    assert(resv[0] == xv);
                }
                let keep = {
                    let pats = self.store.patterns();
                    if x.index < pats.len() {
                        match &self.active_source_filter {
                            Some(f) => crate::pattern::contains_string(&pats[x.index].sources, f),
                            None => false,
                        }
                    } else {
                        false
                    }
                };
                if keep {
                    let ghost kept0 = crate::search::result_views(kept@);
                    kept.push(x);
                    proof {
                        assert(crate::search::result_views(kept@) =~~= kept0 + seq![xv]);
                        if let Some(f2) = old(self).active_source_filter {
                            assert(filter_rows(resv, self.store.spec_patterns(), f2@) == seq![xv]
                                + filter_rows(
                                resv.drop_first(),
                                self.store.spec_patterns(),
                                f2@,
                            ));
                            assert(kept0 + (seq![xv] + filter_rows(
                                resv.drop_first(),
                                self.store.spec_patterns(),
                                f2@,
                            )) =~~= (kept0 + seq![xv]) + filter_rows(
                                resv.drop_first(),
                                self.store.spec_patterns(),
                                f2@,
                            ));
                        }
                    }
                } else {
                    proof {
                        if let Some(f2) = old(self).active_source_filter {
                            assert(filter_rows(resv, self.store.spec_patterns(), f2@)
                                == filter_rows(
                                resv.drop_first(),
                                self.store.spec_patterns(),
                                f2@,
                            ));
                        }
                    }
                }
            }
            proof {
                if let Some(f2) = old(self).active_source_filter {
                    assert(filter_rows(
                        crate::search::result_views(results@),
                        self.store.spec_patterns(),
                        f2@,
                    ) =~~= Seq::<crate::search::SearchResultV>::empty());
                    assert(crate::search::result_views(kept@) + Seq::<
                        crate::search::SearchResultV,
                    >::empty() =~~= crate::search::result_views(kept@));
                }
            }
            self.filtered_view = kept;
        } else {
            self.filtered_view = results;
        }
        if self.filtered_view.len() == 0 {
            self.selected_pattern = 0;
        } else if self.selected_pattern >= self.filtered_view.len() {
            self.selected_pattern = self.filtered_view.len() - 1;
        }
        Ghost(ord)
    }
}

} // verus!
