//! Keyboard dispatch: the state machine that turns one key press into a
//! state change, by mode and screen. The shell reads keys from the terminal
//! and hands them here as plain values.

use vstd::prelude::*;
use crate::app::{App, AppMode, Pane, app_unchanged, azure_added, docker_added, app_names,
    container_names, source_activated, source_views, source_rows_of, SourceInfoV};
use crate::ingest::{source_id_of, SourceStatus};
use crate::pattern::{cleared, max64};
use crate::source_menu::{SourceMenuScreen, MAIN_MENU_COUNT};
use crate::theme;
use crate::util;

verus! {

/// One key press, as the state machine sees it.
#[derive(Debug, Clone, Copy, PartialEq, Eq, Structural)]
pub enum Key {
    Char(char),
    Up,
    Down,
    Enter,
    Esc,
    Backspace,
    Tab,
    BackTab,
    Other,
}


/// Search mode: printable characters grow the query, backspace shrinks it,
/// enter locks the filter in, escape abandons it.
pub open spec fn search_step(o: &App, n: &App, key: Key) -> bool {
    match key {
        Key::Esc => {
        &&& n.active_pane == o.active_pane
        &&& n.sources == o.sources
        &&& n.store == o.store
        &&& n.selected_source == o.selected_source
        &&& n.filtered_view == o.filtered_view
        &&& n.paused == o.paused
        &&& n.profiles == o.profiles
        &&& n.profile_index == o.profile_index
        &&& n.theme_override == o.theme_override
        &&& n.should_quit == o.should_quit
        &&& n.log_count == o.log_count
        &&& n.show_normalized == o.show_normalized
        &&& n.detail_scroll == o.detail_scroll
        &&& n.tick_count == o.tick_count
        &&& n.source_menu == o.source_menu
        &&& n.active_source_filter == o.active_source_filter
        &&& n.source_rates == o.source_rates
        &&& n.collapsed_groups == o.collapsed_groups
        &&& n.azure_token == o.azure_token
        &&& n.show_banner == o.show_banner
            &&& n.mode is Normal
            &&& n.search_query@.len() == 0
            &&& n.selected_pattern == 0
            &&& n.needs_clear
        },
        Key::Enter => {
        &&& n.active_pane == o.active_pane
        &&& n.sources == o.sources
        &&& n.store == o.store
        &&& n.selected_source == o.selected_source
        &&& n.search_query == o.search_query
        &&& n.filtered_view == o.filtered_view
        &&& n.paused == o.paused
        &&& n.profiles == o.profiles
        &&& n.profile_index == o.profile_index
        &&& n.theme_override == o.theme_override
        &&& n.should_quit == o.should_quit
        &&& n.log_count == o.log_count
        &&& n.show_normalized == o.show_normalized
        &&& n.detail_scroll == o.detail_scroll
        &&& n.tick_count == o.tick_count
        &&& n.source_menu == o.source_menu
        &&& n.active_source_filter == o.active_source_filter
        &&& n.source_rates == o.source_rates
        &&& n.collapsed_groups == o.collapsed_groups
        &&& n.azure_token == o.azure_token
        &&& n.show_banner == o.show_banner
            &&& n.mode is Normal
            &&& n.selected_pattern == 0
            &&& n.needs_clear
        },
        Key::Backspace => {
        &&& n.mode == o.mode
        &&& n.active_pane == o.active_pane
        &&& n.sources == o.sources
        &&& n.store == o.store
        &&& n.selected_source == o.selected_source
        &&& n.selected_pattern == o.selected_pattern
        &&& n.filtered_view == o.filtered_view
        &&& n.paused == o.paused
        &&& n.profiles == o.profiles
        &&& n.profile_index == o.profile_index
        &&& n.theme_override == o.theme_override
        &&& n.should_quit == o.should_quit
        &&& n.log_count == o.log_count
        &&& n.show_normalized == o.show_normalized
        &&& n.detail_scroll == o.detail_scroll
        &&& n.tick_count == o.tick_count
        &&& n.source_menu == o.source_menu
        &&& n.needs_clear == o.needs_clear
        &&& n.active_source_filter == o.active_source_filter
        &&& n.source_rates == o.source_rates
        &&& n.collapsed_groups == o.collapsed_groups
        &&& n.azure_token == o.azure_token
        &&& n.show_banner == o.show_banner
            &&& n.search_query@ == (if o.search_query@.len() == 0 {
                o.search_query@
            } else {
                o.search_query@.drop_last()
            })
        },
        Key::Char(c) => {
        &&& n.mode == o.mode
        &&& n.active_pane == o.active_pane
        &&& n.sources == o.sources
        &&& n.store == o.store
        &&& n.selected_source == o.selected_source
        &&& n.selected_pattern == o.selected_pattern
        &&& n.filtered_view == o.filtered_view
        &&& n.paused == o.paused
        &&& n.profiles == o.profiles
        &&& n.profile_index == o.profile_index
        &&& n.theme_override == o.theme_override
        &&& n.should_quit == o.should_quit
        &&& n.log_count == o.log_count
        &&& n.show_normalized == o.show_normalized
        &&& n.detail_scroll == o.detail_scroll
        &&& n.tick_count == o.tick_count
        &&& n.source_menu == o.source_menu
        &&& n.needs_clear == o.needs_clear
        &&& n.active_source_filter == o.active_source_filter
        &&& n.source_rates == o.source_rates
        &&& n.collapsed_groups == o.collapsed_groups
        &&& n.azure_token == o.azure_token
        &&& n.show_banner == o.show_banner
            &&& n.search_query@ == o.search_query@.push(c)
        },
        _ => app_unchanged(o, n),
    }
}

/// The profile picker: arrows move, enter and escape close it.
pub open spec fn picker_step(o: &App, n: &App, key: Key) -> bool {
    match key {
        Key::Esc => {
        &&& n.active_pane == o.active_pane
        &&& n.sources == o.sources
        &&& n.store == o.store
        &&& n.selected_source == o.selected_source
        &&& n.selected_pattern == o.selected_pattern
        &&& n.search_query == o.search_query
        &&& n.filtered_view == o.filtered_view
        &&& n.paused == o.paused
        &&& n.profiles == o.profiles
        &&& n.profile_index == o.profile_index
        &&& n.theme_override == o.theme_override
        &&& n.should_quit == o.should_quit
        &&& n.log_count == o.log_count
        &&& n.show_normalized == o.show_normalized
        &&& n.detail_scroll == o.detail_scroll
        &&& n.tick_count == o.tick_count
        &&& n.source_menu == o.source_menu
        &&& n.needs_clear == o.needs_clear
        &&& n.active_source_filter == o.active_source_filter
        &&& n.source_rates == o.source_rates
        &&& n.collapsed_groups == o.collapsed_groups
        &&& n.azure_token == o.azure_token
        &&& n.show_banner == o.show_banner
            &&& n.mode is Normal
        },
        Key::Enter => {
        &&& n.active_pane == o.active_pane
        &&& n.sources == o.sources
        &&& n.store == o.store
        &&& n.selected_source == o.selected_source
        &&& n.selected_pattern == o.selected_pattern
        &&& n.search_query == o.search_query
        &&& n.filtered_view == o.filtered_view
        &&& n.paused == o.paused
        &&& n.profiles == o.profiles
        &&& n.profile_index == o.profile_index
        &&& n.theme_override == o.theme_override
        &&& n.should_quit == o.should_quit
        &&& n.log_count == o.log_count
        &&& n.show_normalized == o.show_normalized
        &&& n.detail_scroll == o.detail_scroll
        &&& n.tick_count == o.tick_count
        &&& n.source_menu == o.source_menu
        &&& n.needs_clear == o.needs_clear
        &&& n.active_source_filter == o.active_source_filter
        &&& n.source_rates == o.source_rates
        &&& n.collapsed_groups == o.collapsed_groups
        &&& n.azure_token == o.azure_token
        &&& n.show_banner == o.show_banner
            &&& n.mode is Normal
        },
        Key::Up => {
        &&& n.mode == o.mode
        &&& n.active_pane == o.active_pane
        &&& n.sources == o.sources
        &&& n.store == o.store
        &&& n.selected_source == o.selected_source
        &&& n.selected_pattern == o.selected_pattern
        &&& n.search_query == o.search_query
        &&& n.filtered_view == o.filtered_view
        &&& n.paused == o.paused
        &&& n.profiles == o.profiles
        &&& n.theme_override == o.theme_override
        &&& n.should_quit == o.should_quit
        &&& n.log_count == o.log_count
        &&& n.show_normalized == o.show_normalized
        &&& n.detail_scroll == o.detail_scroll
        &&& n.tick_count == o.tick_count
        &&& n.source_menu == o.source_menu
        &&& n.needs_clear == o.needs_clear
        &&& n.active_source_filter == o.active_source_filter
        &&& n.source_rates == o.source_rates
        &&& n.collapsed_groups == o.collapsed_groups
        &&& n.azure_token == o.azure_token
        &&& n.show_banner == o.show_banner
            &&& n.profile_index == (if o.profile_index > 0 {
                (o.profile_index - 1) as usize
            } else {
                o.profile_index
            })
        },
        Key::Down => {
        &&& n.mode == o.mode
        &&& n.active_pane == o.active_pane
        &&& n.sources == o.sources
        &&& n.store == o.store
        &&& n.selected_source == o.selected_source
        &&& n.selected_pattern == o.selected_pattern
        &&& n.search_query == o.search_query
        &&& n.filtered_view == o.filtered_view
        &&& n.paused == o.paused
        &&& n.profiles == o.profiles
        &&& n.theme_override == o.theme_override
        &&& n.should_quit == o.should_quit
        &&& n.log_count == o.log_count
        &&& n.show_normalized == o.show_normalized
        &&& n.detail_scroll == o.detail_scroll
        &&& n.tick_count == o.tick_count
        &&& n.source_menu == o.source_menu
        &&& n.needs_clear == o.needs_clear
        &&& n.active_source_filter == o.active_source_filter
        &&& n.source_rates == o.source_rates
        &&& n.collapsed_groups == o.collapsed_groups
        &&& n.azure_token == o.azure_token
        &&& n.show_banner == o.show_banner
            &&& n.profile_index == (if o.profile_index + 1 < o.profiles@.len() {
                (o.profile_index + 1) as usize
            } else {
                o.profile_index
            })
        },
        Key::Char(c) => if c == 'k' {
        &&& n.mode == o.mode
        &&& n.active_pane == o.active_pane
        &&& n.sources == o.sources
        &&& n.store == o.store
        &&& n.selected_source == o.selected_source
        &&& n.selected_pattern == o.selected_pattern
        &&& n.search_query == o.search_query
        &&& n.filtered_view == o.filtered_view
        &&& n.paused == o.paused
        &&& n.profiles == o.profiles
        &&& n.theme_override == o.theme_override
        &&& n.should_quit == o.should_quit
        &&& n.log_count == o.log_count
        &&& n.show_normalized == o.show_normalized
        &&& n.detail_scroll == o.detail_scroll
        &&& n.tick_count == o.tick_count
        &&& n.source_menu == o.source_menu
        &&& n.needs_clear == o.needs_clear
        &&& n.active_source_filter == o.active_source_filter
        &&& n.source_rates == o.source_rates
        &&& n.collapsed_groups == o.collapsed_groups
        &&& n.azure_token == o.azure_token
        &&& n.show_banner == o.show_banner
            &&& n.profile_index == (if o.profile_index > 0 {
                (o.profile_index - 1) as usize
            } else {
                o.profile_index
            })
        } else if c == 'j' {
        &&& n.mode == o.mode
        &&& n.active_pane == o.active_pane
        &&& n.sources == o.sources
        &&& n.store == o.store
        &&& n.selected_source == o.selected_source
        &&& n.selected_pattern == o.selected_pattern
        &&& n.search_query == o.search_query
        &&& n.filtered_view == o.filtered_view
        &&& n.paused == o.paused
        &&& n.profiles == o.profiles
        &&& n.theme_override == o.theme_override
        &&& n.should_quit == o.should_quit
        &&& n.log_count == o.log_count
        &&& n.show_normalized == o.show_normalized
        &&& n.detail_scroll == o.detail_scroll
        &&& n.tick_count == o.tick_count
        &&& n.source_menu == o.source_menu
        &&& n.needs_clear == o.needs_clear
        &&& n.active_source_filter == o.active_source_filter
        &&& n.source_rates == o.source_rates
        &&& n.collapsed_groups == o.collapsed_groups
        &&& n.azure_token == o.azure_token
        &&& n.show_banner == o.show_banner
            &&& n.profile_index == (if o.profile_index + 1 < o.profiles@.len() {
                (o.profile_index + 1) as usize
            } else {
                o.profile_index
            })
        } else {
            app_unchanged(o, n)
        },
        _ => app_unchanged(o, n),
    }
}

/// The help overlay: escape, `?` and `q` close it.
pub open spec fn help_step(o: &App, n: &App, key: Key) -> bool {
    if key is Esc || key == Key::Char('?') || key == Key::Char('q') {
        &&& n.active_pane == o.active_pane
        &&& n.sources == o.sources
        &&& n.store == o.store
        &&& n.selected_source == o.selected_source
        &&& n.selected_pattern == o.selected_pattern
        &&& n.search_query == o.search_query
        &&& n.filtered_view == o.filtered_view
        &&& n.paused == o.paused
        &&& n.profiles == o.profiles
        &&& n.profile_index == o.profile_index
        &&& n.theme_override == o.theme_override
        &&& n.should_quit == o.should_quit
        &&& n.log_count == o.log_count
        &&& n.show_normalized == o.show_normalized
        &&& n.detail_scroll == o.detail_scroll
        &&& n.tick_count == o.tick_count
        &&& n.source_menu == o.source_menu
        &&& n.active_source_filter == o.active_source_filter
        &&& n.source_rates == o.source_rates
        &&& n.collapsed_groups == o.collapsed_groups
        &&& n.azure_token == o.azure_token
        &&& n.show_banner == o.show_banner
        &&& n.mode is Normal
        &&& n.needs_clear
    } else {
        app_unchanged(o, n)
    }
}

/// Whether the drilldown can scroll one sample further down.
pub open spec fn can_scroll_down(o: &App) -> bool {
    &&& o.selected_pattern < o.filtered_view@.len()
    &&& (o.filtered_view@[o.selected_pattern as int]).index < o.store.spec_patterns().len()
    &&& o.detail_scroll + 1 < o.store.spec_patterns()[(
    o.filtered_view@[o.selected_pattern as int]).index as int].samples.len()
}

/// The drilldown: scroll samples, toggle raw and normalized, back out.
pub open spec fn drill_step(o: &App, n: &App, key: Key) -> bool {
    match key {
        Key::Esc => {
        &&& n.active_pane == o.active_pane
        &&& n.sources == o.sources
        &&& n.store == o.store
        &&& n.selected_source == o.selected_source
        &&& n.selected_pattern == o.selected_pattern
        &&& n.search_query == o.search_query
        &&& n.filtered_view == o.filtered_view
        &&& n.paused == o.paused
        &&& n.profiles == o.profiles
        &&& n.profile_index == o.profile_index
        &&& n.theme_override == o.theme_override
        &&& n.should_quit == o.should_quit
        &&& n.log_count == o.log_count
        &&& n.show_normalized == o.show_normalized
        &&& n.tick_count == o.tick_count
        &&& n.source_menu == o.source_menu
        &&& n.active_source_filter == o.active_source_filter
        &&& n.source_rates == o.source_rates
        &&& n.collapsed_groups == o.collapsed_groups
        &&& n.azure_token == o.azure_token
        &&& n.show_banner == o.show_banner
            &&& n.mode is Normal
            &&& n.detail_scroll == 0
            &&& n.needs_clear
        },
        Key::Up => {
        &&& n.mode == o.mode
        &&& n.active_pane == o.active_pane
        &&& n.sources == o.sources
        &&& n.store == o.store
        &&& n.selected_source == o.selected_source
        &&& n.selected_pattern == o.selected_pattern
        &&& n.search_query == o.search_query
        &&& n.filtered_view == o.filtered_view
        &&& n.paused == o.paused
        &&& n.profiles == o.profiles
        &&& n.profile_index == o.profile_index
        &&& n.theme_override == o.theme_override
        &&& n.should_quit == o.should_quit
        &&& n.log_count == o.log_count
        &&& n.show_normalized == o.show_normalized
        &&& n.tick_count == o.tick_count
        &&& n.source_menu == o.source_menu
        &&& n.needs_clear == o.needs_clear
        &&& n.active_source_filter == o.active_source_filter
        &&& n.source_rates == o.source_rates
        &&& n.collapsed_groups == o.collapsed_groups
        &&& n.azure_token == o.azure_token
        &&& n.show_banner == o.show_banner
            &&& n.detail_scroll == (if o.detail_scroll > 0 {
                (o.detail_scroll - 1) as usize
            } else {
                o.detail_scroll
            })
        },
        Key::Down => {
        &&& n.mode == o.mode
        &&& n.active_pane == o.active_pane
        &&& n.sources == o.sources
        &&& n.store == o.store
        &&& n.selected_source == o.selected_source
        &&& n.selected_pattern == o.selected_pattern
        &&& n.search_query == o.search_query
        &&& n.filtered_view == o.filtered_view
        &&& n.paused == o.paused
        &&& n.profiles == o.profiles
        &&& n.profile_index == o.profile_index
        &&& n.theme_override == o.theme_override
        &&& n.should_quit == o.should_quit
        &&& n.log_count == o.log_count
        &&& n.show_normalized == o.show_normalized
        &&& n.tick_count == o.tick_count
        &&& n.source_menu == o.source_menu
        &&& n.needs_clear == o.needs_clear
        &&& n.active_source_filter == o.active_source_filter
        &&& n.source_rates == o.source_rates
        &&& n.collapsed_groups == o.collapsed_groups
        &&& n.azure_token == o.azure_token
        &&& n.show_banner == o.show_banner
            &&& n.detail_scroll == (if can_scroll_down(o) {
                (o.detail_scroll + 1) as usize
            } else {
                o.detail_scroll
            })
        },
        Key::Char(c) => if c == 'b' {
        &&& n.active_pane == o.active_pane
        &&& n.sources == o.sources
        &&& n.store == o.store
        &&& n.selected_source == o.selected_source
        &&& n.selected_pattern == o.selected_pattern
        &&& n.search_query == o.search_query
        &&& n.filtered_view == o.filtered_view
        &&& n.paused == o.paused
        &&& n.profiles == o.profiles
        &&& n.profile_index == o.profile_index
        &&& n.theme_override == o.theme_override
        &&& n.should_quit == o.should_quit
        &&& n.log_count == o.log_count
        &&& n.show_normalized == o.show_normalized
        &&& n.tick_count == o.tick_count
        &&& n.source_menu == o.source_menu
        &&& n.active_source_filter == o.active_source_filter
        &&& n.source_rates == o.source_rates
        &&& n.collapsed_groups == o.collapsed_groups
        &&& n.azure_token == o.azure_token
        &&& n.show_banner == o.show_banner
            &&& n.mode is Normal
            &&& n.detail_scroll == 0
            &&& n.needs_clear
        } else if c == 'k' {
        &&& n.mode == o.mode
        &&& n.active_pane == o.active_pane
        &&& n.sources == o.sources
        &&& n.store == o.store
        &&& n.selected_source == o.selected_source
        &&& n.selected_pattern == o.selected_pattern
        &&& n.search_query == o.search_query
        &&& n.filtered_view == o.filtered_view
        &&& n.paused == o.paused
        &&& n.profiles == o.profiles
        &&& n.profile_index == o.profile_index
        &&& n.theme_override == o.theme_override
        &&& n.should_quit == o.should_quit
        &&& n.log_count == o.log_count
        &&& n.show_normalized == o.show_normalized
        &&& n.tick_count == o.tick_count
        &&& n.source_menu == o.source_menu
        &&& n.needs_clear == o.needs_clear
        &&& n.active_source_filter == o.active_source_filter
        &&& n.source_rates == o.source_rates
        &&& n.collapsed_groups == o.collapsed_groups
        &&& n.azure_token == o.azure_token
        &&& n.show_banner == o.show_banner
            &&& n.detail_scroll == (if o.detail_scroll > 0 {
                (o.detail_scroll - 1) as usize
            } else {
                o.detail_scroll
            })
        } else if c == 'j' {
        &&& n.mode == o.mode
        &&& n.active_pane == o.active_pane
        &&& n.sources == o.sources
        &&& n.store == o.store
        &&& n.selected_source == o.selected_source
        &&& n.selected_pattern == o.selected_pattern
        &&& n.search_query == o.search_query
        &&& n.filtered_view == o.filtered_view
        &&& n.paused == o.paused
        &&& n.profiles == o.profiles
        &&& n.profile_index == o.profile_index
        &&& n.theme_override == o.theme_override
        &&& n.should_quit == o.should_quit
        &&& n.log_count == o.log_count
        &&& n.show_normalized == o.show_normalized
        &&& n.tick_count == o.tick_count
        &&& n.source_menu == o.source_menu
        &&& n.needs_clear == o.needs_clear
        &&& n.active_source_filter == o.active_source_filter
        &&& n.source_rates == o.source_rates
        &&& n.collapsed_groups == o.collapsed_groups
        &&& n.azure_token == o.azure_token
        &&& n.show_banner == o.show_banner
            &&& n.detail_scroll == (if can_scroll_down(o) {
                (o.detail_scroll + 1) as usize
            } else {
                o.detail_scroll
            })
        } else if c == 'n' {
        &&& n.mode == o.mode
        &&& n.active_pane == o.active_pane
        &&& n.sources == o.sources
        &&& n.store == o.store
        &&& n.selected_source == o.selected_source
        &&& n.selected_pattern == o.selected_pattern
        &&& n.search_query == o.search_query
        &&& n.filtered_view == o.filtered_view
        &&& n.paused == o.paused
        &&& n.profiles == o.profiles
        &&& n.profile_index == o.profile_index
        &&& n.theme_override == o.theme_override
        &&& n.should_quit == o.should_quit
        &&& n.log_count == o.log_count
        &&& n.detail_scroll == o.detail_scroll
        &&& n.tick_count == o.tick_count
        &&& n.source_menu == o.source_menu
        &&& n.needs_clear == o.needs_clear
        &&& n.active_source_filter == o.active_source_filter
        &&& n.source_rates == o.source_rates
        &&& n.collapsed_groups == o.collapsed_groups
        &&& n.azure_token == o.azure_token
        &&& n.show_banner == o.show_banner
            &&& n.show_normalized == !o.show_normalized
        } else if c == 'q' {
        &&& n.mode == o.mode
        &&& n.active_pane == o.active_pane
        &&& n.sources == o.sources
        &&& n.store == o.store
        &&& n.selected_source == o.selected_source
        &&& n.selected_pattern == o.selected_pattern
        &&& n.search_query == o.search_query
        &&& n.filtered_view == o.filtered_view
        &&& n.paused == o.paused
        &&& n.profiles == o.profiles
        &&& n.profile_index == o.profile_index
        &&& n.theme_override == o.theme_override
        &&& n.log_count == o.log_count
        &&& n.show_normalized == o.show_normalized
        &&& n.detail_scroll == o.detail_scroll
        &&& n.tick_count == o.tick_count
        &&& n.source_menu == o.source_menu
        &&& n.needs_clear == o.needs_clear
        &&& n.active_source_filter == o.active_source_filter
        &&& n.source_rates == o.source_rates
        &&& n.collapsed_groups == o.collapsed_groups
        &&& n.azure_token == o.azure_token
        &&& n.show_banner == o.show_banner
            &&& n.should_quit
        } else {
            app_unchanged(o, n)
        },
        _ => app_unchanged(o, n),
    }
}

/// Normal mode, the dashboard itself: navigation, filters, the store's
/// reset and counter-clear, pausing, themes, and the overlays.
pub open spec fn normal_step(o: &App, n: &App, key: Key, now: u64) -> bool {
    match key {
        Key::Esc => if o.search_query@.len() > 0 {
        &&& n.mode == o.mode
        &&& n.active_pane == o.active_pane
        &&& n.sources == o.sources
        &&& n.store == o.store
        &&& n.selected_source == o.selected_source
        &&& n.filtered_view == o.filtered_view
        &&& n.paused == o.paused
        &&& n.profiles == o.profiles
        &&& n.profile_index == o.profile_index
        &&& n.theme_override == o.theme_override
        &&& n.should_quit == o.should_quit
        &&& n.log_count == o.log_count
        &&& n.show_normalized == o.show_normalized
        &&& n.detail_scroll == o.detail_scroll
        &&& n.tick_count == o.tick_count
        &&& n.source_menu == o.source_menu
        &&& n.active_source_filter == o.active_source_filter
        &&& n.source_rates == o.source_rates
        &&& n.collapsed_groups == o.collapsed_groups
        &&& n.azure_token == o.azure_token
        &&& n.show_banner == o.show_banner
            &&& n.search_query@.len() == 0
            &&& n.selected_pattern == 0
            &&& n.needs_clear
        } else if o.active_source_filter is Some {
        &&& n.mode == o.mode
        &&& n.active_pane == o.active_pane
        &&& n.sources == o.sources
        &&& n.store == o.store
        &&& n.selected_source == o.selected_source
        &&& n.search_query == o.search_query
        &&& n.filtered_view == o.filtered_view
        &&& n.paused == o.paused
        &&& n.profiles == o.profiles
        &&& n.profile_index == o.profile_index
        &&& n.theme_override == o.theme_override
        &&& n.should_quit == o.should_quit
        &&& n.log_count == o.log_count
        &&& n.show_normalized == o.show_normalized
        &&& n.detail_scroll == o.detail_scroll
        &&& n.tick_count == o.tick_count
        &&& n.source_menu == o.source_menu
        &&& n.source_rates == o.source_rates
        &&& n.collapsed_groups == o.collapsed_groups
        &&& n.azure_token == o.azure_token
        &&& n.show_banner == o.show_banner
            &&& n.active_source_filter is None
            &&& n.selected_pattern == 0
            &&& n.needs_clear
        } else {
            app_unchanged(o, n)
        },
        Key::Tab => {
        &&& n.mode == o.mode
        &&& n.sources == o.sources
        &&& n.store == o.store
        &&& n.selected_source == o.selected_source
        &&& n.selected_pattern == o.selected_pattern
        &&& n.search_query == o.search_query
        &&& n.filtered_view == o.filtered_view
        &&& n.paused == o.paused
        &&& n.profiles == o.profiles
        &&& n.profile_index == o.profile_index
        &&& n.theme_override == o.theme_override
        &&& n.should_quit == o.should_quit
        &&& n.log_count == o.log_count
        &&& n.show_normalized == o.show_normalized
        &&& n.detail_scroll == o.detail_scroll
        &&& n.tick_count == o.tick_count
        &&& n.source_menu == o.source_menu
        &&& n.needs_clear == o.needs_clear
        &&& n.active_source_filter == o.active_source_filter
        &&& n.source_rates == o.source_rates
        &&& n.collapsed_groups == o.collapsed_groups
        &&& n.azure_token == o.azure_token
        &&& n.show_banner == o.show_banner
            &&& n.active_pane == (match o.active_pane {
                Pane::Sources => Pane::Patterns,
                Pane::Patterns => Pane::Details,
                Pane::Details => Pane::Sources,
            })
        },
        Key::BackTab => {
        &&& n.mode == o.mode
        &&& n.sources == o.sources
        &&& n.store == o.store
        &&& n.selected_source == o.selected_source
        &&& n.selected_pattern == o.selected_pattern
        &&& n.search_query == o.search_query
        &&& n.filtered_view == o.filtered_view
        &&& n.paused == o.paused
        &&& n.profiles == o.profiles
        &&& n.profile_index == o.profile_index
        &&& n.theme_override == o.theme_override
        &&& n.should_quit == o.should_quit
        &&& n.log_count == o.log_count
        &&& n.show_normalized == o.show_normalized
        &&& n.detail_scroll == o.detail_scroll
        &&& n.tick_count == o.tick_count
        &&& n.source_menu == o.source_menu
        &&& n.needs_clear == o.needs_clear
        &&& n.active_source_filter == o.active_source_filter
        &&& n.source_rates == o.source_rates
        &&& n.collapsed_groups == o.collapsed_groups
        &&& n.azure_token == o.azure_token
        &&& n.show_banner == o.show_banner
            &&& n.active_pane == (match o.active_pane {
                Pane::Sources => Pane::Details,
                Pane::Patterns => Pane::Sources,
                Pane::Details => Pane::Patterns,
            })
        },
        Key::Up => moved_up(o, n),
        Key::Down => moved_down(o, n),
        Key::Enter => if o.active_pane is Patterns && o.selected_pattern < o.filtered_view@.len()
            && (o.filtered_view@[o.selected_pattern as int]).index < o.store.spec_patterns().len() {
        &&& n.active_pane == o.active_pane
        &&& n.sources == o.sources
        &&& n.store == o.store
        &&& n.selected_source == o.selected_source
        &&& n.selected_pattern == o.selected_pattern
        &&& n.search_query == o.search_query
        &&& n.filtered_view == o.filtered_view
        &&& n.paused == o.paused
        &&& n.profiles == o.profiles
        &&& n.profile_index == o.profile_index
        &&& n.theme_override == o.theme_override
        &&& n.should_quit == o.should_quit
        &&& n.log_count == o.log_count
        &&& n.show_normalized == o.show_normalized
        &&& n.tick_count == o.tick_count
        &&& n.source_menu == o.source_menu
        &&& n.active_source_filter == o.active_source_filter
        &&& n.source_rates == o.source_rates
        &&& n.collapsed_groups == o.collapsed_groups
        &&& n.azure_token == o.azure_token
        &&& n.show_banner == o.show_banner
            &&& n.mode is Drilldown
            &&& n.detail_scroll == 0
            &&& n.needs_clear
        } else if o.active_pane is Sources {
            source_activated(o, n)
        } else {
            app_unchanged(o, n)
        },
        Key::Char(c) => if c == 'q' {
        &&& n.mode == o.mode
        &&& n.active_pane == o.active_pane
        &&& n.sources == o.sources
        &&& n.store == o.store
        &&& n.selected_source == o.selected_source
        &&& n.selected_pattern == o.selected_pattern
        &&& n.search_query == o.search_query
        &&& n.filtered_view == o.filtered_view
        &&& n.paused == o.paused
        &&& n.profiles == o.profiles
        &&& n.profile_index == o.profile_index
        &&& n.theme_override == o.theme_override
        &&& n.log_count == o.log_count
        &&& n.show_normalized == o.show_normalized
        &&& n.detail_scroll == o.detail_scroll
        &&& n.tick_count == o.tick_count
        &&& n.source_menu == o.source_menu
        &&& n.needs_clear == o.needs_clear
        &&& n.active_source_filter == o.active_source_filter
        &&& n.source_rates == o.source_rates
        &&& n.collapsed_groups == o.collapsed_groups
        &&& n.azure_token == o.azure_token
        &&& n.show_banner == o.show_banner
            &&& n.should_quit
        } else if c == '?' {
        &&& n.active_pane == o.active_pane
        &&& n.sources == o.sources
        &&& n.store == o.store
        &&& n.selected_source == o.selected_source
        &&& n.selected_pattern == o.selected_pattern
        &&& n.search_query == o.search_query
        &&& n.filtered_view == o.filtered_view
        &&& n.paused == o.paused
        &&& n.profiles == o.profiles
        &&& n.profile_index == o.profile_index
        &&& n.theme_override == o.theme_override
        &&& n.should_quit == o.should_quit
        &&& n.log_count == o.log_count
        &&& n.show_normalized == o.show_normalized
        &&& n.detail_scroll == o.detail_scroll
        &&& n.tick_count == o.tick_count
        &&& n.source_menu == o.source_menu
        &&& n.needs_clear == o.needs_clear
        &&& n.active_source_filter == o.active_source_filter
        &&& n.source_rates == o.source_rates
        &&& n.collapsed_groups == o.collapsed_groups
        &&& n.azure_token == o.azure_token
        &&& n.show_banner == o.show_banner
            &&& n.mode is Help
        } else if c == '/' {
        &&& n.sources == o.sources
        &&& n.store == o.store
        &&& n.selected_source == o.selected_source
        &&& n.selected_pattern == o.selected_pattern
        &&& n.filtered_view == o.filtered_view
        &&& n.paused == o.paused
        &&& n.profiles == o.profiles
        &&& n.profile_index == o.profile_index
        &&& n.theme_override == o.theme_override
        &&& n.should_quit == o.should_quit
        &&& n.log_count == o.log_count
        &&& n.show_normalized == o.show_normalized
        &&& n.detail_scroll == o.detail_scroll
        &&& n.tick_count == o.tick_count
        &&& n.source_menu == o.source_menu
        &&& n.needs_clear == o.needs_clear
        &&& n.active_source_filter == o.active_source_filter
        &&& n.source_rates == o.source_rates
        &&& n.collapsed_groups == o.collapsed_groups
        &&& n.azure_token == o.azure_token
        &&& n.show_banner == o.show_banner
            &&& n.mode is Search
            &&& n.search_query@.len() == 0
            &&& n.active_pane is Patterns
        } else if c == 'a' {
        &&& n.active_pane == o.active_pane
        &&& n.sources == o.sources
        &&& n.store == o.store
        &&& n.selected_source == o.selected_source
        &&& n.selected_pattern == o.selected_pattern
        &&& n.search_query == o.search_query
        &&& n.filtered_view == o.filtered_view
        &&& n.paused == o.paused
        &&& n.profiles == o.profiles
        &&& n.profile_index == o.profile_index
        &&& n.theme_override == o.theme_override
        &&& n.should_quit == o.should_quit
        &&& n.log_count == o.log_count
        &&& n.show_normalized == o.show_normalized
        &&& n.detail_scroll == o.detail_scroll
        &&& n.tick_count == o.tick_count
        &&& n.needs_clear == o.needs_clear
        &&& n.active_source_filter == o.active_source_filter
        &&& n.source_rates == o.source_rates
        &&& n.collapsed_groups == o.collapsed_groups
        &&& n.azure_token == o.azure_token
        &&& n.show_banner == o.show_banner
            &&& n.mode is SourceMenu
            &&& n.source_menu.docker_loading
            &&& n.source_menu.azure_loading
            &&& n.source_menu.screen is MainMenu
            &&& n.source_menu.selected@.len() == 0
        } else if c == 'p' {
        &&& n.mode == o.mode
        &&& n.active_pane == o.active_pane
        &&& n.sources == o.sources
        &&& n.store == o.store
        &&& n.selected_source == o.selected_source
        &&& n.selected_pattern == o.selected_pattern
        &&& n.search_query == o.search_query
        &&& n.filtered_view == o.filtered_view
        &&& n.profiles == o.profiles
        &&& n.profile_index == o.profile_index
        &&& n.theme_override == o.theme_override
        &&& n.should_quit == o.should_quit
        &&& n.log_count == o.log_count
        &&& n.show_normalized == o.show_normalized
        &&& n.detail_scroll == o.detail_scroll
        &&& n.tick_count == o.tick_count
        &&& n.source_menu == o.source_menu
        &&& n.needs_clear == o.needs_clear
        &&& n.active_source_filter == o.active_source_filter
        &&& n.source_rates == o.source_rates
        &&& n.collapsed_groups == o.collapsed_groups
        &&& n.azure_token == o.azure_token
        &&& n.show_banner == o.show_banner
            &&& n.paused == !o.paused
        } else if c == 'P' {
        &&& n.active_pane == o.active_pane
        &&& n.sources == o.sources
        &&& n.store == o.store
        &&& n.selected_source == o.selected_source
        &&& n.selected_pattern == o.selected_pattern
        &&& n.search_query == o.search_query
        &&& n.filtered_view == o.filtered_view
        &&& n.paused == o.paused
        &&& n.profiles == o.profiles
        &&& n.profile_index == o.profile_index
        &&& n.theme_override == o.theme_override
        &&& n.should_quit == o.should_quit
        &&& n.log_count == o.log_count
        &&& n.show_normalized == o.show_normalized
        &&& n.detail_scroll == o.detail_scroll
        &&& n.tick_count == o.tick_count
        &&& n.source_menu == o.source_menu
        &&& n.needs_clear == o.needs_clear
        &&& n.active_source_filter == o.active_source_filter
        &&& n.source_rates == o.source_rates
        &&& n.collapsed_groups == o.collapsed_groups
        &&& n.azure_token == o.azure_token
        &&& n.show_banner == o.show_banner
            &&& n.mode is ProfilePicker
        } else if c == 'r' {
        &&& n.mode == o.mode
        &&& n.active_pane == o.active_pane
        &&& n.sources == o.sources
        &&& n.selected_source == o.selected_source
        &&& n.selected_pattern == o.selected_pattern
        &&& n.search_query == o.search_query
        &&& n.filtered_view == o.filtered_view
        &&& n.paused == o.paused
        &&& n.profiles == o.profiles
        &&& n.profile_index == o.profile_index
        &&& n.theme_override == o.theme_override
        &&& n.should_quit == o.should_quit
        &&& n.log_count == o.log_count
        &&& n.show_normalized == o.show_normalized
        &&& n.detail_scroll == o.detail_scroll
        &&& n.tick_count == o.tick_count
        &&& n.source_menu == o.source_menu
        &&& n.active_source_filter == o.active_source_filter
        &&& n.source_rates == o.source_rates
        &&& n.collapsed_groups == o.collapsed_groups
        &&& n.azure_token == o.azure_token
        &&& n.show_banner == o.show_banner
            &&& n.store.spec_patterns().len() == 0
            &&& n.store.spec_index().len() == 0
            &&& n.needs_clear
        } else if c == 'c' {
        &&& n.mode == o.mode
        &&& n.active_pane == o.active_pane
        &&& n.sources == o.sources
        &&& n.selected_source == o.selected_source
        &&& n.selected_pattern == o.selected_pattern
        &&& n.search_query == o.search_query
        &&& n.filtered_view == o.filtered_view
        &&& n.paused == o.paused
        &&& n.profiles == o.profiles
        &&& n.profile_index == o.profile_index
        &&& n.theme_override == o.theme_override
        &&& n.should_quit == o.should_quit
        &&& n.log_count == o.log_count
        &&& n.show_normalized == o.show_normalized
        &&& n.detail_scroll == o.detail_scroll
        &&& n.tick_count == o.tick_count
        &&& n.source_menu == o.source_menu
        &&& n.active_source_filter == o.active_source_filter
        &&& n.source_rates == o.source_rates
        &&& n.collapsed_groups == o.collapsed_groups
        &&& n.azure_token == o.azure_token
        &&& n.show_banner == o.show_banner
            &&& n.store.spec_patterns() == o.store.spec_patterns().map_values(
                |p: crate::pattern::PatternV| cleared(p, max64(now, o.store.spec_latest())),
            )
            &&& n.store.spec_index() == o.store.spec_index()
            &&& n.needs_clear
        } else if c == 'n' {
        &&& n.mode == o.mode
        &&& n.active_pane == o.active_pane
        &&& n.sources == o.sources
        &&& n.store == o.store
        &&& n.selected_source == o.selected_source
        &&& n.selected_pattern == o.selected_pattern
        &&& n.search_query == o.search_query
        &&& n.filtered_view == o.filtered_view
        &&& n.paused == o.paused
        &&& n.profiles == o.profiles
        &&& n.profile_index == o.profile_index
        &&& n.theme_override == o.theme_override
        &&& n.should_quit == o.should_quit
        &&& n.log_count == o.log_count
        &&& n.detail_scroll == o.detail_scroll
        &&& n.tick_count == o.tick_count
        &&& n.source_menu == o.source_menu
        &&& n.needs_clear == o.needs_clear
        &&& n.active_source_filter == o.active_source_filter
        &&& n.source_rates == o.source_rates
        &&& n.collapsed_groups == o.collapsed_groups
        &&& n.azure_token == o.azure_token
        &&& n.show_banner == o.show_banner
            &&& n.show_normalized == !o.show_normalized
        } else if c == 't' {
        &&& n.mode == o.mode
        &&& n.active_pane == o.active_pane
        &&& n.sources == o.sources
        &&& n.store == o.store
        &&& n.selected_source == o.selected_source
        &&& n.selected_pattern == o.selected_pattern
        &&& n.search_query == o.search_query
        &&& n.filtered_view == o.filtered_view
        &&& n.paused == o.paused
        &&& n.profiles == o.profiles
        &&& n.profile_index == o.profile_index
        &&& n.should_quit == o.should_quit
        &&& n.log_count == o.log_count
        &&& n.show_normalized == o.show_normalized
        &&& n.detail_scroll == o.detail_scroll
        &&& n.tick_count == o.tick_count
        &&& n.source_menu == o.source_menu
        &&& n.needs_clear == o.needs_clear
        &&& n.active_source_filter == o.active_source_filter
        &&& n.source_rates == o.source_rates
        &&& n.collapsed_groups == o.collapsed_groups
        &&& n.azure_token == o.azure_token
        &&& n.show_banner == o.show_banner
            &&& n.theme_override matches Some(t) && t@ == theme::spec_next_theme(o.active_theme())
        } else if c == 'k' {
            moved_up(o, n)
        } else if c == 'j' {
            moved_down(o, n)
        } else {
            app_unchanged(o, n)
        },
        _ => app_unchanged(o, n),
    }
}

/// The selection of the active pane moved up by one, stopping at the top.
pub open spec fn moved_up(o: &App, n: &App) -> bool {
        &&& n.mode == o.mode
        &&& n.active_pane == o.active_pane
        &&& n.sources == o.sources
        &&& n.store == o.store
        &&& n.search_query == o.search_query
        &&& n.filtered_view == o.filtered_view
        &&& n.paused == o.paused
        &&& n.profiles == o.profiles
        &&& n.profile_index == o.profile_index
        &&& n.theme_override == o.theme_override
        &&& n.should_quit == o.should_quit
        &&& n.log_count == o.log_count
        &&& n.show_normalized == o.show_normalized
        &&& n.tick_count == o.tick_count
        &&& n.source_menu == o.source_menu
        &&& n.needs_clear == o.needs_clear
        &&& n.active_source_filter == o.active_source_filter
        &&& n.source_rates == o.source_rates
        &&& n.collapsed_groups == o.collapsed_groups
        &&& n.azure_token == o.azure_token
        &&& n.show_banner == o.show_banner
    &&& n.selected_source == (if o.active_pane is Sources && o.selected_source > 0 {
        (o.selected_source - 1) as usize
    } else {
        o.selected_source
    })
    &&& n.selected_pattern == (if o.active_pane is Patterns && o.selected_pattern > 0 {
        (o.selected_pattern - 1) as usize
    } else {
        o.selected_pattern
    })
    &&& n.detail_scroll == (if o.active_pane is Details && o.detail_scroll > 0 {
        (o.detail_scroll - 1) as usize
    } else {
        o.detail_scroll
    })
}

/// The selection of the active pane moved down by one, stopping at the end.
pub open spec fn moved_down(o: &App, n: &App) -> bool {
        &&& n.mode == o.mode
        &&& n.active_pane == o.active_pane
        &&& n.sources == o.sources
        &&& n.store == o.store
        &&& n.search_query == o.search_query
        &&& n.filtered_view == o.filtered_view
        &&& n.paused == o.paused
        &&& n.profiles == o.profiles
        &&& n.profile_index == o.profile_index
        &&& n.theme_override == o.theme_override
        &&& n.should_quit == o.should_quit
        &&& n.log_count == o.log_count
        &&& n.show_normalized == o.show_normalized
        &&& n.tick_count == o.tick_count
        &&& n.source_menu == o.source_menu
        &&& n.needs_clear == o.needs_clear
        &&& n.active_source_filter == o.active_source_filter
        &&& n.source_rates == o.source_rates
        &&& n.collapsed_groups == o.collapsed_groups
        &&& n.azure_token == o.azure_token
        &&& n.show_banner == o.show_banner
    &&& n.selected_source == (if o.active_pane is Sources && source_rows_of(o).len() > 0
        && o.selected_source < source_rows_of(o).len() - 1 {
        (o.selected_source + 1) as usize
    } else {
        o.selected_source
    })
    &&& n.selected_pattern == (if o.active_pane is Patterns && o.selected_pattern + 1
        < o.filtered_view@.len() {
        (o.selected_pattern + 1) as usize
    } else {
        o.selected_pattern
    })
    &&& n.detail_scroll == (if o.active_pane is Details && o.detail_scroll < usize::MAX {
        (o.detail_scroll + 1) as usize
    } else {
        o.detail_scroll
    })
}

/// The add-source menu's main screen.
pub open spec fn menu_main_step(o: &App, n: &App, key: Key) -> bool {
    match key {
        Key::Esc => {
        &&& n.active_pane == o.active_pane
        &&& n.sources == o.sources
        &&& n.store == o.store
        &&& n.selected_source == o.selected_source
        &&& n.selected_pattern == o.selected_pattern
        &&& n.search_query == o.search_query
        &&& n.filtered_view == o.filtered_view
        &&& n.paused == o.paused
        &&& n.profiles == o.profiles
        &&& n.profile_index == o.profile_index
        &&& n.theme_override == o.theme_override
        &&& n.should_quit == o.should_quit
        &&& n.log_count == o.log_count
        &&& n.show_normalized == o.show_normalized
        &&& n.detail_scroll == o.detail_scroll
        &&& n.tick_count == o.tick_count
        &&& n.source_menu == o.source_menu
        &&& n.active_source_filter == o.active_source_filter
        &&& n.source_rates == o.source_rates
        &&& n.collapsed_groups == o.collapsed_groups
        &&& n.azure_token == o.azure_token
        &&& n.show_banner == o.show_banner
            &&& n.mode is Normal
            &&& n.needs_clear
        },
        Key::Up => menu_main_moved_up(o, n),
        Key::Down => menu_main_moved_down(o, n),
        Key::Enter => {
        &&& n.mode == o.mode
        &&& n.active_pane == o.active_pane
        &&& n.sources == o.sources
        &&& n.store == o.store
        &&& n.selected_source == o.selected_source
        &&& n.selected_pattern == o.selected_pattern
        &&& n.search_query == o.search_query
        &&& n.filtered_view == o.filtered_view
        &&& n.paused == o.paused
        &&& n.profiles == o.profiles
        &&& n.profile_index == o.profile_index
        &&& n.theme_override == o.theme_override
        &&& n.should_quit == o.should_quit
        &&& n.log_count == o.log_count
        &&& n.show_normalized == o.show_normalized
        &&& n.detail_scroll == o.detail_scroll
        &&& n.tick_count == o.tick_count
        &&& n.needs_clear == o.needs_clear
        &&& n.active_source_filter == o.active_source_filter
        &&& n.source_rates == o.source_rates
        &&& n.collapsed_groups == o.collapsed_groups
        &&& n.azure_token == o.azure_token
        &&& n.show_banner == o.show_banner
            &&& (o.source_menu.main_cursor == 0 ==> {
                &&& n.source_menu.main_cursor == o.source_menu.main_cursor
                &&& n.source_menu.text_input == o.source_menu.text_input
                &&& n.source_menu.docker_containers == o.source_menu.docker_containers
                &&& n.source_menu.azure_apps == o.source_menu.azure_apps
                &&& n.source_menu.docker_loading == o.source_menu.docker_loading
                &&& n.source_menu.azure_loading == o.source_menu.azure_loading
                &&& n.source_menu.docker_error == o.source_menu.docker_error
                &&& n.source_menu.azure_error == o.source_menu.azure_error
                &&& n.source_menu.screen is DockerDiscovery
                &&& n.source_menu.discovery_cursor == 0
                &&& n.source_menu.selected@.len() == 0
            })
            &&& (o.source_menu.main_cursor == 1 ==> {
                &&& n.source_menu.main_cursor == o.source_menu.main_cursor
                &&& n.source_menu.discovery_cursor == o.source_menu.discovery_cursor
                &&& n.source_menu.selected == o.source_menu.selected
                &&& n.source_menu.docker_containers == o.source_menu.docker_containers
                &&& n.source_menu.azure_apps == o.source_menu.azure_apps
                &&& n.source_menu.docker_loading == o.source_menu.docker_loading
                &&& n.source_menu.azure_loading == o.source_menu.azure_loading
                &&& n.source_menu.docker_error == o.source_menu.docker_error
                &&& n.source_menu.azure_error == o.source_menu.azure_error
                &&& n.source_menu.screen is FileInput
                &&& n.source_menu.text_input@.len() == 0
            })
            &&& (o.source_menu.main_cursor == 2 ==> {
                &&& n.source_menu.main_cursor == o.source_menu.main_cursor
                &&& n.source_menu.text_input == o.source_menu.text_input
                &&& n.source_menu.docker_containers == o.source_menu.docker_containers
                &&& n.source_menu.azure_apps == o.source_menu.azure_apps
                &&& n.source_menu.docker_loading == o.source_menu.docker_loading
                &&& n.source_menu.azure_loading == o.source_menu.azure_loading
                &&& n.source_menu.docker_error == o.source_menu.docker_error
                &&& n.source_menu.azure_error == o.source_menu.azure_error
                &&& n.source_menu.screen is AzureDiscovery
                &&& n.source_menu.discovery_cursor == 0
                &&& n.source_menu.selected@.len() == 0
            })
            &&& (o.source_menu.main_cursor == 3 ==> {
                &&& n.source_menu.main_cursor == o.source_menu.main_cursor
                &&& n.source_menu.discovery_cursor == o.source_menu.discovery_cursor
                &&& n.source_menu.selected == o.source_menu.selected
                &&& n.source_menu.docker_containers == o.source_menu.docker_containers
                &&& n.source_menu.azure_apps == o.source_menu.azure_apps
                &&& n.source_menu.docker_loading == o.source_menu.docker_loading
                &&& n.source_menu.azure_loading == o.source_menu.azure_loading
                &&& n.source_menu.docker_error == o.source_menu.docker_error
                &&& n.source_menu.azure_error == o.source_menu.azure_error
                &&& n.source_menu.screen is CommandInput
                &&& n.source_menu.text_input@.len() == 0
            })
            &&& (o.source_menu.main_cursor >= MAIN_MENU_COUNT ==> n.source_menu
                == o.source_menu)
        },
        Key::Char(c) => if c == 'k' {
            menu_main_moved_up(o, n)
        } else if c == 'j' {
            menu_main_moved_down(o, n)
        } else {
            app_unchanged(o, n)
        },
        _ => app_unchanged(o, n),
    }
}

pub open spec fn menu_main_moved_up(o: &App, n: &App) -> bool {
        &&& n.mode == o.mode
        &&& n.active_pane == o.active_pane
        &&& n.sources == o.sources
        &&& n.store == o.store
        &&& n.selected_source == o.selected_source
        &&& n.selected_pattern == o.selected_pattern
        &&& n.search_query == o.search_query
        &&& n.filtered_view == o.filtered_view
        &&& n.paused == o.paused
        &&& n.profiles == o.profiles
        &&& n.profile_index == o.profile_index
        &&& n.theme_override == o.theme_override
        &&& n.should_quit == o.should_quit
        &&& n.log_count == o.log_count
        &&& n.show_normalized == o.show_normalized
        &&& n.detail_scroll == o.detail_scroll
        &&& n.tick_count == o.tick_count
        &&& n.needs_clear == o.needs_clear
        &&& n.active_source_filter == o.active_source_filter
        &&& n.source_rates == o.source_rates
        &&& n.collapsed_groups == o.collapsed_groups
        &&& n.azure_token == o.azure_token
        &&& n.show_banner == o.show_banner
        &&& n.source_menu.screen == o.source_menu.screen
        &&& n.source_menu.discovery_cursor == o.source_menu.discovery_cursor
        &&& n.source_menu.selected == o.source_menu.selected
        &&& n.source_menu.text_input == o.source_menu.text_input
        &&& n.source_menu.docker_containers == o.source_menu.docker_containers
        &&& n.source_menu.azure_apps == o.source_menu.azure_apps
        &&& n.source_menu.docker_loading == o.source_menu.docker_loading
        &&& n.source_menu.azure_loading == o.source_menu.azure_loading
        &&& n.source_menu.docker_error == o.source_menu.docker_error
        &&& n.source_menu.azure_error == o.source_menu.azure_error
    &&& n.source_menu.main_cursor == (if o.source_menu.main_cursor > 0 {
        (o.source_menu.main_cursor - 1) as usize
    } else {
        0
    })
}

pub open spec fn menu_main_moved_down(o: &App, n: &App) -> bool {
        &&& n.mode == o.mode
        &&& n.active_pane == o.active_pane
        &&& n.sources == o.sources
        &&& n.store == o.store
        &&& n.selected_source == o.selected_source
        &&& n.selected_pattern == o.selected_pattern
        &&& n.search_query == o.search_query
        &&& n.filtered_view == o.filtered_view
        &&& n.paused == o.paused
        &&& n.profiles == o.profiles
        &&& n.profile_index == o.profile_index
        &&& n.theme_override == o.theme_override
        &&& n.should_quit == o.should_quit
        &&& n.log_count == o.log_count
        &&& n.show_normalized == o.show_normalized
        &&& n.detail_scroll == o.detail_scroll
        &&& n.tick_count == o.tick_count
        &&& n.needs_clear == o.needs_clear
        &&& n.active_source_filter == o.active_source_filter
        &&& n.source_rates == o.source_rates
        &&& n.collapsed_groups == o.collapsed_groups
        &&& n.azure_token == o.azure_token
        &&& n.show_banner == o.show_banner
        &&& n.source_menu.screen == o.source_menu.screen
        &&& n.source_menu.discovery_cursor == o.source_menu.discovery_cursor
        &&& n.source_menu.selected == o.source_menu.selected
        &&& n.source_menu.text_input == o.source_menu.text_input
        &&& n.source_menu.docker_containers == o.source_menu.docker_containers
        &&& n.source_menu.azure_apps == o.source_menu.azure_apps
        &&& n.source_menu.docker_loading == o.source_menu.docker_loading
        &&& n.source_menu.azure_loading == o.source_menu.azure_loading
        &&& n.source_menu.docker_error == o.source_menu.docker_error
        &&& n.source_menu.azure_error == o.source_menu.azure_error
    &&& n.source_menu.main_cursor == (if o.source_menu.main_cursor + 1 < MAIN_MENU_COUNT {
        (o.source_menu.main_cursor + 1) as usize
    } else {
        o.source_menu.main_cursor
    })
}

/// A discovery screen's cursor moved, bounded by the listed items.
pub open spec fn menu_disc_moved(o: &App, n: &App, up: bool) -> bool {
        &&& n.mode == o.mode
        &&& n.active_pane == o.active_pane
        &&& n.sources == o.sources
        &&& n.store == o.store
        &&& n.selected_source == o.selected_source
        &&& n.selected_pattern == o.selected_pattern
        &&& n.search_query == o.search_query
        &&& n.filtered_view == o.filtered_view
        &&& n.paused == o.paused
        &&& n.profiles == o.profiles
        &&& n.profile_index == o.profile_index
        &&& n.theme_override == o.theme_override
        &&& n.should_quit == o.should_quit
        &&& n.log_count == o.log_count
        &&& n.show_normalized == o.show_normalized
        &&& n.detail_scroll == o.detail_scroll
        &&& n.tick_count == o.tick_count
        &&& n.needs_clear == o.needs_clear
        &&& n.active_source_filter == o.active_source_filter
        &&& n.source_rates == o.source_rates
        &&& n.collapsed_groups == o.collapsed_groups
        &&& n.azure_token == o.azure_token
        &&& n.show_banner == o.show_banner
        &&& n.source_menu.screen == o.source_menu.screen
        &&& n.source_menu.main_cursor == o.source_menu.main_cursor
        &&& n.source_menu.selected == o.source_menu.selected
        &&& n.source_menu.text_input == o.source_menu.text_input
        &&& n.source_menu.docker_containers == o.source_menu.docker_containers
        &&& n.source_menu.azure_apps == o.source_menu.azure_apps
        &&& n.source_menu.docker_loading == o.source_menu.docker_loading
        &&& n.source_menu.azure_loading == o.source_menu.azure_loading
        &&& n.source_menu.docker_error == o.source_menu.docker_error
        &&& n.source_menu.azure_error == o.source_menu.azure_error
    &&& n.source_menu.discovery_cursor == (if up {
        if o.source_menu.discovery_cursor > 0 {
            (o.source_menu.discovery_cursor - 1) as usize
        } else {
            0
        }
    } else {
        if o.source_menu.spec_item_count() > 0 && o.source_menu.discovery_cursor + 1
            < o.source_menu.spec_item_count() {
            (o.source_menu.discovery_cursor + 1) as usize
        } else {
            o.source_menu.discovery_cursor
        }
    })
}

/// A discovery list was set loading again for a retry.
pub open spec fn menu_reload(o: &App, n: &App, docker: bool) -> bool {
        &&& n.mode == o.mode
        &&& n.active_pane == o.active_pane
        &&& n.sources == o.sources
        &&& n.store == o.store
        &&& n.selected_source == o.selected_source
        &&& n.selected_pattern == o.selected_pattern
        &&& n.search_query == o.search_query
        &&& n.filtered_view == o.filtered_view
        &&& n.paused == o.paused
        &&& n.profiles == o.profiles
        &&& n.profile_index == o.profile_index
        &&& n.theme_override == o.theme_override
        &&& n.should_quit == o.should_quit
        &&& n.log_count == o.log_count
        &&& n.show_normalized == o.show_normalized
        &&& n.detail_scroll == o.detail_scroll
        &&& n.tick_count == o.tick_count
        &&& n.needs_clear == o.needs_clear
        &&& n.active_source_filter == o.active_source_filter
        &&& n.source_rates == o.source_rates
        &&& n.collapsed_groups == o.collapsed_groups
        &&& n.azure_token == o.azure_token
        &&& n.show_banner == o.show_banner
    &&& n.source_menu.screen == o.source_menu.screen
    &&& n.source_menu.main_cursor == o.source_menu.main_cursor
    &&& n.source_menu.discovery_cursor == 0
    &&& n.source_menu.selected@.len() == 0
    &&& n.source_menu.text_input == o.source_menu.text_input
    &&& (if docker {
        &&& n.source_menu.docker_loading
        &&& n.source_menu.docker_error is None
        &&& n.source_menu.docker_containers@.len() == 0
        &&& n.source_menu.azure_apps == o.source_menu.azure_apps
        &&& n.source_menu.azure_loading == o.source_menu.azure_loading
        &&& n.source_menu.azure_error == o.source_menu.azure_error
    } else {
        &&& n.source_menu.azure_loading
        &&& n.source_menu.azure_error is None
        &&& n.source_menu.azure_apps@.len() == 0
        &&& n.source_menu.docker_containers == o.source_menu.docker_containers
        &&& n.source_menu.docker_loading == o.source_menu.docker_loading
        &&& n.source_menu.docker_error == o.source_menu.docker_error
    })
}

/// The container discovery screen.
pub open spec fn menu_docker_step(o: &App, n: &App, key: Key) -> bool {
    match key {
        Key::Esc => {
        &&& n.mode == o.mode
        &&& n.active_pane == o.active_pane
        &&& n.sources == o.sources
        &&& n.store == o.store
        &&& n.selected_source == o.selected_source
        &&& n.selected_pattern == o.selected_pattern
        &&& n.search_query == o.search_query
        &&& n.filtered_view == o.filtered_view
        &&& n.paused == o.paused
        &&& n.profiles == o.profiles
        &&& n.profile_index == o.profile_index
        &&& n.theme_override == o.theme_override
        &&& n.should_quit == o.should_quit
        &&& n.log_count == o.log_count
        &&& n.show_normalized == o.show_normalized
        &&& n.detail_scroll == o.detail_scroll
        &&& n.tick_count == o.tick_count
        &&& n.needs_clear == o.needs_clear
        &&& n.active_source_filter == o.active_source_filter
        &&& n.source_rates == o.source_rates
        &&& n.collapsed_groups == o.collapsed_groups
        &&& n.azure_token == o.azure_token
        &&& n.show_banner == o.show_banner
        &&& n.source_menu.main_cursor == o.source_menu.main_cursor
        &&& n.source_menu.discovery_cursor == o.source_menu.discovery_cursor
        &&& n.source_menu.selected == o.source_menu.selected
        &&& n.source_menu.text_input == o.source_menu.text_input
        &&& n.source_menu.docker_containers == o.source_menu.docker_containers
        &&& n.source_menu.azure_apps == o.source_menu.azure_apps
        &&& n.source_menu.docker_loading == o.source_menu.docker_loading
        &&& n.source_menu.azure_loading == o.source_menu.azure_loading
        &&& n.source_menu.docker_error == o.source_menu.docker_error
        &&& n.source_menu.azure_error == o.source_menu.azure_error
            &&& n.source_menu.screen is MainMenu
        },
        Key::Up => menu_disc_moved(o, n, true),
        Key::Down => menu_disc_moved(o, n, false),
        Key::Enter => {
        &&& n.active_pane == o.active_pane
        &&& n.store == o.store
        &&& n.selected_source == o.selected_source
        &&& n.selected_pattern == o.selected_pattern
        &&& n.search_query == o.search_query
        &&& n.filtered_view == o.filtered_view
        &&& n.paused == o.paused
        &&& n.profiles == o.profiles
        &&& n.profile_index == o.profile_index
        &&& n.theme_override == o.theme_override
        &&& n.should_quit == o.should_quit
        &&& n.log_count == o.log_count
        &&& n.show_normalized == o.show_normalized
        &&& n.detail_scroll == o.detail_scroll
        &&& n.tick_count == o.tick_count
        &&& n.source_menu == o.source_menu
        &&& n.active_source_filter == o.active_source_filter
        &&& n.source_rates == o.source_rates
        &&& n.collapsed_groups == o.collapsed_groups
        &&& n.azure_token == o.azure_token
        &&& n.show_banner == o.show_banner
            &&& source_views(n.sources@) == docker_added(
                source_views(o.sources@),
                container_names(o.source_menu.docker_containers@),
                o.source_menu.selected@,
                0,
            )
            &&& n.mode is Normal
            &&& n.needs_clear
        },
        Key::Char(c) => if c == 'k' {
            menu_disc_moved(o, n, true)
        } else if c == 'j' {
            menu_disc_moved(o, n, false)
        } else if c == ' ' {
        &&& n.mode == o.mode
        &&& n.active_pane == o.active_pane
        &&& n.sources == o.sources
        &&& n.store == o.store
        &&& n.selected_source == o.selected_source
        &&& n.selected_pattern == o.selected_pattern
        &&& n.search_query == o.search_query
        &&& n.filtered_view == o.filtered_view
        &&& n.paused == o.paused
        &&& n.profiles == o.profiles
        &&& n.profile_index == o.profile_index
        &&& n.theme_override == o.theme_override
        &&& n.should_quit == o.should_quit
        &&& n.log_count == o.log_count
        &&& n.show_normalized == o.show_normalized
        &&& n.detail_scroll == o.detail_scroll
        &&& n.tick_count == o.tick_count
        &&& n.needs_clear == o.needs_clear
        &&& n.active_source_filter == o.active_source_filter
        &&& n.source_rates == o.source_rates
        &&& n.collapsed_groups == o.collapsed_groups
        &&& n.azure_token == o.azure_token
        &&& n.show_banner == o.show_banner
        &&& n.source_menu.screen == o.source_menu.screen
        &&& n.source_menu.main_cursor == o.source_menu.main_cursor
        &&& n.source_menu.discovery_cursor == o.source_menu.discovery_cursor
        &&& n.source_menu.text_input == o.source_menu.text_input
        &&& n.source_menu.docker_containers == o.source_menu.docker_containers
        &&& n.source_menu.azure_apps == o.source_menu.azure_apps
        &&& n.source_menu.docker_loading == o.source_menu.docker_loading
        &&& n.source_menu.azure_loading == o.source_menu.azure_loading
        &&& n.source_menu.docker_error == o.source_menu.docker_error
        &&& n.source_menu.azure_error == o.source_menu.azure_error
        } else if c == 'r' {
            menu_reload(o, n, true)
        } else {
            app_unchanged(o, n)
        },
        _ => app_unchanged(o, n),
    }
}

/// The cloud discovery screen.
pub open spec fn menu_azure_step(o: &App, n: &App, key: Key) -> bool {
    match key {
        Key::Esc => {
        &&& n.mode == o.mode
        &&& n.active_pane == o.active_pane
        &&& n.sources == o.sources
        &&& n.store == o.store
        &&& n.selected_source == o.selected_source
        &&& n.selected_pattern == o.selected_pattern
        &&& n.search_query == o.search_query
        &&& n.filtered_view == o.filtered_view
        &&& n.paused == o.paused
        &&& n.profiles == o.profiles
        &&& n.profile_index == o.profile_index
        &&& n.theme_override == o.theme_override
        &&& n.should_quit == o.should_quit
        &&& n.log_count == o.log_count
        &&& n.show_normalized == o.show_normalized
        &&& n.detail_scroll == o.detail_scroll
        &&& n.tick_count == o.tick_count
        &&& n.needs_clear == o.needs_clear
        &&& n.active_source_filter == o.active_source_filter
        &&& n.source_rates == o.source_rates
        &&& n.collapsed_groups == o.collapsed_groups
        &&& n.azure_token == o.azure_token
        &&& n.show_banner == o.show_banner
        &&& n.source_menu.main_cursor == o.source_menu.main_cursor
        &&& n.source_menu.discovery_cursor == o.source_menu.discovery_cursor
        &&& n.source_menu.selected == o.source_menu.selected
        &&& n.source_menu.text_input == o.source_menu.text_input
        &&& n.source_menu.docker_containers == o.source_menu.docker_containers
        &&& n.source_menu.azure_apps == o.source_menu.azure_apps
        &&& n.source_menu.docker_loading == o.source_menu.docker_loading
        &&& n.source_menu.azure_loading == o.source_menu.azure_loading
        &&& n.source_menu.docker_error == o.source_menu.docker_error
        &&& n.source_menu.azure_error == o.source_menu.azure_error
            &&& n.source_menu.screen is MainMenu
        },
        Key::Up => menu_disc_moved(o, n, true),
        Key::Down => menu_disc_moved(o, n, false),
        Key::Enter => {
        &&& n.active_pane == o.active_pane
        &&& n.store == o.store
        &&& n.selected_source == o.selected_source
        &&& n.selected_pattern == o.selected_pattern
        &&& n.search_query == o.search_query
        &&& n.filtered_view == o.filtered_view
        &&& n.paused == o.paused
        &&& n.profiles == o.profiles
        &&& n.profile_index == o.profile_index
        &&& n.theme_override == o.theme_override
        &&& n.should_quit == o.should_quit
        &&& n.log_count == o.log_count
        &&& n.show_normalized == o.show_normalized
        &&& n.detail_scroll == o.detail_scroll
        &&& n.tick_count == o.tick_count
        &&& n.source_menu == o.source_menu
        &&& n.active_source_filter == o.active_source_filter
        &&& n.source_rates == o.source_rates
        &&& n.collapsed_groups == o.collapsed_groups
        &&& n.azure_token == o.azure_token
        &&& n.show_banner == o.show_banner
            &&& source_views(n.sources@) == azure_added(
                source_views(o.sources@),
                app_names(o.source_menu.azure_apps@),
                o.source_menu.selected@,
                0,
            )
            &&& n.mode is Normal
            &&& n.needs_clear
        },
        Key::Char(c) => if c == 'k' {
            menu_disc_moved(o, n, true)
        } else if c == 'j' {
            menu_disc_moved(o, n, false)
        } else if c == ' ' {
        &&& n.mode == o.mode
        &&& n.active_pane == o.active_pane
        &&& n.sources == o.sources
        &&& n.store == o.store
        &&& n.selected_source == o.selected_source
        &&& n.selected_pattern == o.selected_pattern
        &&& n.search_query == o.search_query
        &&& n.filtered_view == o.filtered_view
        &&& n.paused == o.paused
        &&& n.profiles == o.profiles
        &&& n.profile_index == o.profile_index
        &&& n.theme_override == o.theme_override
        &&& n.should_quit == o.should_quit
        &&& n.log_count == o.log_count
        &&& n.show_normalized == o.show_normalized
        &&& n.detail_scroll == o.detail_scroll
        &&& n.tick_count == o.tick_count
        &&& n.needs_clear == o.needs_clear
        &&& n.active_source_filter == o.active_source_filter
        &&& n.source_rates == o.source_rates
        &&& n.collapsed_groups == o.collapsed_groups
        &&& n.azure_token == o.azure_token
        &&& n.show_banner == o.show_banner
        &&& n.source_menu.screen == o.source_menu.screen
        &&& n.source_menu.main_cursor == o.source_menu.main_cursor
        &&& n.source_menu.discovery_cursor == o.source_menu.discovery_cursor
        &&& n.source_menu.text_input == o.source_menu.text_input
        &&& n.source_menu.docker_containers == o.source_menu.docker_containers
        &&& n.source_menu.azure_apps == o.source_menu.azure_apps
        &&& n.source_menu.docker_loading == o.source_menu.docker_loading
        &&& n.source_menu.azure_loading == o.source_menu.azure_loading
        &&& n.source_menu.docker_error == o.source_menu.docker_error
        &&& n.source_menu.azure_error == o.source_menu.azure_error
        } else if c == 'r' {
            menu_reload(o, n, false)
        } else {
            app_unchanged(o, n)
        },
        _ => app_unchanged(o, n),
    }
}

/// A text-entry screen: `file` selects file tails, otherwise commands.
pub open spec fn menu_text_step(o: &App, n: &App, key: Key, file: bool) -> bool {
    match key {
        Key::Esc => {
        &&& n.mode == o.mode
        &&& n.active_pane == o.active_pane
        &&& n.sources == o.sources
        &&& n.store == o.store
        &&& n.selected_source == o.selected_source
        &&& n.selected_pattern == o.selected_pattern
        &&& n.search_query == o.search_query
        &&& n.filtered_view == o.filtered_view
        &&& n.paused == o.paused
        &&& n.profiles == o.profiles
        &&& n.profile_index == o.profile_index
        &&& n.theme_override == o.theme_override
        &&& n.should_quit == o.should_quit
        &&& n.log_count == o.log_count
        &&& n.show_normalized == o.show_normalized
        &&& n.detail_scroll == o.detail_scroll
        &&& n.tick_count == o.tick_count
        &&& n.needs_clear == o.needs_clear
        &&& n.active_source_filter == o.active_source_filter
        &&& n.source_rates == o.source_rates
        &&& n.collapsed_groups == o.collapsed_groups
        &&& n.azure_token == o.azure_token
        &&& n.show_banner == o.show_banner
        &&& n.source_menu.main_cursor == o.source_menu.main_cursor
        &&& n.source_menu.discovery_cursor == o.source_menu.discovery_cursor
        &&& n.source_menu.selected == o.source_menu.selected
        &&& n.source_menu.text_input == o.source_menu.text_input
        &&& n.source_menu.docker_containers == o.source_menu.docker_containers
        &&& n.source_menu.azure_apps == o.source_menu.azure_apps
        &&& n.source_menu.docker_loading == o.source_menu.docker_loading
        &&& n.source_menu.azure_loading == o.source_menu.azure_loading
        &&& n.source_menu.docker_error == o.source_menu.docker_error
        &&& n.source_menu.azure_error == o.source_menu.azure_error
            &&& n.source_menu.screen is MainMenu
        },
        Key::Backspace => {
        &&& n.mode == o.mode
        &&& n.active_pane == o.active_pane
        &&& n.sources == o.sources
        &&& n.store == o.store
        &&& n.selected_source == o.selected_source
        &&& n.selected_pattern == o.selected_pattern
        &&& n.search_query == o.search_query
        &&& n.filtered_view == o.filtered_view
        &&& n.paused == o.paused
        &&& n.profiles == o.profiles
        &&& n.profile_index == o.profile_index
        &&& n.theme_override == o.theme_override
        &&& n.should_quit == o.should_quit
        &&& n.log_count == o.log_count
        &&& n.show_normalized == o.show_normalized
        &&& n.detail_scroll == o.detail_scroll
        &&& n.tick_count == o.tick_count
        &&& n.needs_clear == o.needs_clear
        &&& n.active_source_filter == o.active_source_filter
        &&& n.source_rates == o.source_rates
        &&& n.collapsed_groups == o.collapsed_groups
        &&& n.azure_token == o.azure_token
        &&& n.show_banner == o.show_banner
        &&& n.source_menu.screen == o.source_menu.screen
        &&& n.source_menu.main_cursor == o.source_menu.main_cursor
        &&& n.source_menu.discovery_cursor == o.source_menu.discovery_cursor
        &&& n.source_menu.selected == o.source_menu.selected
        &&& n.source_menu.docker_containers == o.source_menu.docker_containers
        &&& n.source_menu.azure_apps == o.source_menu.azure_apps
        &&& n.source_menu.docker_loading == o.source_menu.docker_loading
        &&& n.source_menu.azure_loading == o.source_menu.azure_loading
        &&& n.source_menu.docker_error == o.source_menu.docker_error
        &&& n.source_menu.azure_error == o.source_menu.azure_error
            &&& n.source_menu.text_input@ == (if o.source_menu.text_input@.len() == 0 {
                o.source_menu.text_input@
            } else {
                o.source_menu.text_input@.drop_last()
            })
        },
        Key::Char(c) => {
        &&& n.mode == o.mode
        &&& n.active_pane == o.active_pane
        &&& n.sources == o.sources
        &&& n.store == o.store
        &&& n.selected_source == o.selected_source
        &&& n.selected_pattern == o.selected_pattern
        &&& n.search_query == o.search_query
        &&& n.filtered_view == o.filtered_view
        &&& n.paused == o.paused
        &&& n.profiles == o.profiles
        &&& n.profile_index == o.profile_index
        &&& n.theme_override == o.theme_override
        &&& n.should_quit == o.should_quit
        &&& n.log_count == o.log_count
        &&& n.show_normalized == o.show_normalized
        &&& n.detail_scroll == o.detail_scroll
        &&& n.tick_count == o.tick_count
        &&& n.needs_clear == o.needs_clear
        &&& n.active_source_filter == o.active_source_filter
        &&& n.source_rates == o.source_rates
        &&& n.collapsed_groups == o.collapsed_groups
        &&& n.azure_token == o.azure_token
        &&& n.show_banner == o.show_banner
        &&& n.source_menu.screen == o.source_menu.screen
        &&& n.source_menu.main_cursor == o.source_menu.main_cursor
        &&& n.source_menu.discovery_cursor == o.source_menu.discovery_cursor
        &&& n.source_menu.selected == o.source_menu.selected
        &&& n.source_menu.docker_containers == o.source_menu.docker_containers
        &&& n.source_menu.azure_apps == o.source_menu.azure_apps
        &&& n.source_menu.docker_loading == o.source_menu.docker_loading
        &&& n.source_menu.azure_loading == o.source_menu.azure_loading
        &&& n.source_menu.docker_error == o.source_menu.docker_error
        &&& n.source_menu.azure_error == o.source_menu.azure_error
            &&& n.source_menu.text_input@ == o.source_menu.text_input@.push(c)
        },
        Key::Enter => {
        &&& n.active_pane == o.active_pane
        &&& n.store == o.store
        &&& n.selected_source == o.selected_source
        &&& n.selected_pattern == o.selected_pattern
        &&& n.search_query == o.search_query
        &&& n.filtered_view == o.filtered_view
        &&& n.paused == o.paused
        &&& n.profiles == o.profiles
        &&& n.profile_index == o.profile_index
        &&& n.theme_override == o.theme_override
        &&& n.should_quit == o.should_quit
        &&& n.log_count == o.log_count
        &&& n.show_normalized == o.show_normalized
        &&& n.detail_scroll == o.detail_scroll
        &&& n.tick_count == o.tick_count
        &&& n.source_menu == o.source_menu
        &&& n.active_source_filter == o.active_source_filter
        &&& n.source_rates == o.source_rates
        &&& n.collapsed_groups == o.collapsed_groups
        &&& n.azure_token == o.azure_token
        &&& n.show_banner == o.show_banner
            &&& ({
                let t = util::spec_trimmed(o.source_menu.text_input@);
                if t.len() == 0 {
                    n.sources == o.sources
                } else if file {
                    source_views(n.sources@) == crate::app::source_added(
                        source_views(o.sources@),
                        "file"@,
                        "file"@,
                        t,
                    )
                } else {
                    source_views(n.sources@) == crate::app::source_added(
                        source_views(o.sources@),
                        "cmd"@,
                        "command"@,
                        crate::app::first_token(t),
                    )
                }
            })
            &&& n.mode is Normal
            &&& n.needs_clear
        },
        _ => app_unchanged(o, n),
    }
}

/// The add-source menu, by screen.
pub open spec fn menu_step(o: &App, n: &App, key: Key) -> bool {
    match o.source_menu.screen {
        SourceMenuScreen::MainMenu => menu_main_step(o, n, key),
        SourceMenuScreen::DockerDiscovery => menu_docker_step(o, n, key),
        SourceMenuScreen::AzureDiscovery => menu_azure_step(o, n, key),
        SourceMenuScreen::FileInput => menu_text_step(o, n, key, true),
        SourceMenuScreen::CommandInput => menu_text_step(o, n, key, false),
    }
}

} // verus!

verus! {

/// Dispatch one key press on the add-source menu.
#[verifier::rlimit(100)]
pub fn handle_source_menu_key(app: &mut App, key: Key)
    requires
        old(app).wf(),
    ensures
        final(app).wf(),
        menu_step(old(app), final(app), key),
{
    match app.source_menu.screen {
        SourceMenuScreen::MainMenu => {
            match key {
                Key::Esc => {
                    app.mode = AppMode::Normal;
                    app.needs_clear = true;
                },
                Key::Up => {
                    if app.source_menu.main_cursor > 0 {
                        app.source_menu.main_cursor = app.source_menu.main_cursor - 1;
                    }
                },
                Key::Down => {
                    if app.source_menu.main_cursor < MAIN_MENU_COUNT - 1 {
                        app.source_menu.main_cursor = app.source_menu.main_cursor + 1;
                    }
                },
                Key::Enter => {
                    if app.source_menu.main_cursor == 0 {
                        app.source_menu.screen = SourceMenuScreen::DockerDiscovery;
                        app.source_menu.discovery_cursor = 0;
                        app.source_menu.selected = Vec::new();
                    } else if app.source_menu.main_cursor == 1 {
                        app.source_menu.screen = SourceMenuScreen::FileInput;
                        app.source_menu.text_input = String::new();
                    } else if app.source_menu.main_cursor == 2 {
                        app.source_menu.screen = SourceMenuScreen::AzureDiscovery;
                        app.source_menu.discovery_cursor = 0;
                        app.source_menu.selected = Vec::new();
                    } else if app.source_menu.main_cursor == 3 {
                        app.source_menu.screen = SourceMenuScreen::CommandInput;
                        app.source_menu.text_input = String::new();
                    }
                },
                Key::Char(c) => {
                    if c == 'k' {
                        if app.source_menu.main_cursor > 0 {
                            app.source_menu.main_cursor = app.source_menu.main_cursor - 1;
                        }
                    } else if c == 'j' {
                        if app.source_menu.main_cursor < MAIN_MENU_COUNT - 1 {
                            app.source_menu.main_cursor = app.source_menu.main_cursor + 1;
                        }
                    }
                },
                _ => {},
            }
        },
        SourceMenuScreen::DockerDiscovery => {
            match key {
                Key::Esc => {
                    app.source_menu.screen = SourceMenuScreen::MainMenu;
                },
                Key::Up => {
                    menu_cursor_up(app);
                },
                Key::Down => {
                    menu_cursor_down(app);
                },
                Key::Enter => {
                    app.spawn_selected_docker_sources();
                    app.mode = AppMode::Normal;
                    app.needs_clear = true;
                },
                Key::Char(c) => {
                    if c == 'k' {
                        menu_cursor_up(app);
                    } else if c == 'j' {
                        menu_cursor_down(app);
                    } else if c == ' ' {
                        app.source_menu.toggle_selection();
                    } else if c == 'r' {
                        app.source_menu.docker_loading = true;
                        app.source_menu.docker_error = None;
                        app.source_menu.docker_containers = Vec::new();
                        app.source_menu.selected = Vec::new();
                        app.source_menu.discovery_cursor = 0;
                    }
                },
                _ => {},
            }
        },
        SourceMenuScreen::AzureDiscovery => {
            match key {
                Key::Esc => {
                    app.source_menu.screen = SourceMenuScreen::MainMenu;
                },
                Key::Up => {
                    menu_cursor_up(app);
                },
                Key::Down => {
                    menu_cursor_down(app);
                },
                Key::Enter => {
                    app.spawn_selected_azure_sources();
                    app.mode = AppMode::Normal;
                    app.needs_clear = true;
                },
                Key::Char(c) => {
                    if c == 'k' {
                        menu_cursor_up(app);
                    } else if c == 'j' {
                        menu_cursor_down(app);
                    } else if c == ' ' {
                        app.source_menu.toggle_selection();
                    } else if c == 'r' {
                        app.source_menu.azure_loading = true;
                        app.source_menu.azure_error = None;
                        app.source_menu.azure_apps = Vec::new();
                        app.source_menu.selected = Vec::new();
                        app.source_menu.discovery_cursor = 0;
                    }
                },
                _ => {},
            }
        },
        SourceMenuScreen::FileInput => {
            match key {
                Key::Esc => {
                    app.source_menu.screen = SourceMenuScreen::MainMenu;
                },
                Key::Backspace => {
                    let q = util::pop_last(&app.source_menu.text_input);
                    app.source_menu.text_input = q;
                },
                Key::Enter => {
                    let path = util::trim_spaces(app.source_menu.text_input.as_str());
                    if !path.as_str().is_empty() {
                        app.add_file_source(path);
                    }
                    app.mode = AppMode::Normal;
                    app.needs_clear = true;
                },
                Key::Char(c) => {
                    util::push_char(&mut app.source_menu.text_input, c);
                },
                _ => {},
            }
        },
        SourceMenuScreen::CommandInput => {
            match key {
                Key::Esc => {
                    app.source_menu.screen = SourceMenuScreen::MainMenu;
                },
                Key::Backspace => {
                    let q = util::pop_last(&app.source_menu.text_input);
                    app.source_menu.text_input = q;
                },
                Key::Enter => {
                    let cmd = util::trim_spaces(app.source_menu.text_input.as_str());
                    if !cmd.as_str().is_empty() {
                        app.add_command_source(cmd);
                    }
                    app.mode = AppMode::Normal;
                    app.needs_clear = true;
                },
                Key::Char(c) => {
                    util::push_char(&mut app.source_menu.text_input, c);
                },
                _ => {},
            }
        },
    }
}

/// Move a discovery screen's cursor up.
fn menu_cursor_up(app: &mut App)
    ensures
        menu_disc_moved(old(app), final(app), true),
{
    if app.source_menu.discovery_cursor > 0 {
        app.source_menu.discovery_cursor = app.source_menu.discovery_cursor - 1;
    }
}

/// Move a discovery screen's cursor down, bounded by the listed items.
fn menu_cursor_down(app: &mut App)
    ensures
        menu_disc_moved(old(app), final(app), false),
{
    let count = app.source_menu.discovery_item_count();
    if count > 0 && app.source_menu.discovery_cursor < count - 1 {
        app.source_menu.discovery_cursor = app.source_menu.discovery_cursor + 1;
    }
}

/// Dispatch one key press by the current mode, at `now` on the monotonic
/// clock (the counter-clear key stamps the store with it).
#[verifier::rlimit(100)]
pub fn handle_key_event(app: &mut App, key: Key, now: u64)
    requires
        old(app).wf(),
    ensures
        final(app).wf(),
        old(app).mode is Search ==> search_step(old(app), final(app), key),
        old(app).mode is SourceMenu ==> menu_step(old(app), final(app), key),
        old(app).mode is ProfilePicker ==> picker_step(old(app), final(app), key),
        old(app).mode is Help ==> help_step(old(app), final(app), key),
        old(app).mode is Drilldown ==> drill_step(old(app), final(app), key),
        old(app).mode is Normal ==> normal_step(old(app), final(app), key, now),
{
    match app.mode {
        AppMode::Search => {
            match key {
                Key::Esc => app.exit_search(false),
                Key::Enter => app.exit_search(true),
                Key::Backspace => {
                    let q = util::pop_last(&app.search_query);
                    app.search_query = q;
                },
                Key::Char(c) => util::push_char(&mut app.search_query, c),
                _ => {},
            }
        },
        AppMode::SourceMenu => handle_source_menu_key(app, key),
        AppMode::ProfilePicker => {
            match key {
                Key::Esc => app.mode = AppMode::Normal,
                Key::Enter => app.mode = AppMode::Normal,
                Key::Up => app.prev_profile(),
                Key::Down => app.next_profile(),
                Key::Char(c) => {
                    if c == 'k' {
                        app.prev_profile();
                    } else if c == 'j' {
                        app.next_profile();
                    }
                },
                _ => {},
            }
        },
        AppMode::Help => {
            if key == Key::Esc || key == Key::Char('?') || key == Key::Char('q') {
                app.mode = AppMode::Normal;
                app.needs_clear = true;
            }
        },
        AppMode::Drilldown => {
            match key {
                Key::Esc => {
                    app.mode = AppMode::Normal;
                    app.detail_scroll = 0;
                    app.needs_clear = true;
                },
                Key::Up => {
                    if app.detail_scroll > 0 {
                        app.detail_scroll = app.detail_scroll - 1;
                    }
                },
                Key::Down => drill_scroll_down(app),
                Key::Char(c) => {
                    if c == 'b' {
                        app.mode = AppMode::Normal;
                        app.detail_scroll = 0;
                        app.needs_clear = true;
                    } else if c == 'k' {
                        if app.detail_scroll > 0 {
                            app.detail_scroll = app.detail_scroll - 1;
                        }
                    } else if c == 'j' {
                        drill_scroll_down(app);
                    } else if c == 'n' {
                        app.show_normalized = !app.show_normalized;
                    } else if c == 'q' {
                        app.should_quit = true;
                    }
                },
                _ => {},
            }
        },
        AppMode::Normal => {
            match key {
                Key::Esc => {
                    if !app.search_query.as_str().is_empty() {
                        app.search_query = String::new();
                        app.selected_pattern = 0;
                        app.needs_clear = true;
                    } else {
                        let filtered = match &app.active_source_filter {
                            Some(_) => true,
                            None => false,
                        };
                        if filtered {
                            app.active_source_filter = None;
                            app.selected_pattern = 0;
                            app.needs_clear = true;
                        }
                    }
                },
                Key::Tab => app.next_pane(),
                Key::BackTab => app.prev_pane(),
                Key::Up => app.move_up(),
                Key::Down => app.move_down(),
                Key::Enter => {
                    let open_drill = app.active_pane == Pane::Patterns
                        && app.selected_pattern_data().is_some();
                    if open_drill {
                        app.mode = AppMode::Drilldown;
                        app.detail_scroll = 0;
                        app.needs_clear = true;
                    } else if app.active_pane == Pane::Sources {
                        app.activate_selected_source();
                    }
                },
                Key::Char(c) => {
                    if c == 'q' {
                        app.should_quit = true;
                    } else if c == '?' {
                        app.mode = AppMode::Help;
                    } else if c == '/' {
                        app.enter_search();
                    } else if c == 'a' {
                        app.open_source_menu();
                    } else if c == 'p' {
                        app.paused = !app.paused;
                    } else if c == 'P' {
                        app.mode = AppMode::ProfilePicker;
                    } else if c == 'r' {
                        app.store.reset();
                        app.needs_clear = true;
                    } else if c == 'c' {
                        app.store.clear_counters(now);
                        app.needs_clear = true;
                    } else if c == 'n' {
                        app.show_normalized = !app.show_normalized;
                    } else if c == 't' {
                        app.toggle_theme();
                    } else if c == 'k' {
                        app.move_up();
                    } else if c == 'j' {
                        app.move_down();
                    }
                },
                _ => {},
            }
        },
    }
}

/// Scroll the drilldown one sample down, stopping at the last sample.
fn drill_scroll_down(app: &mut App)
    ensures
        final(app).wf() == old(app).wf(),
        drill_scroll_spec(old(app), final(app)),
{
    let can = match app.selected_pattern_data() {
        Some(p) => p.samples.len() > 0 && app.detail_scroll < p.samples.len() - 1,
        None => false,
    };
    if can {
        app.detail_scroll = app.detail_scroll + 1;
    }
}

/// The drilldown scrolled down by one where a further sample exists.
pub open spec fn drill_scroll_spec(o: &App, n: &App) -> bool {
    &&& n.mode == o.mode
    &&& n.active_pane == o.active_pane
    &&& n.sources == o.sources
    &&& n.store == o.store
    &&& n.selected_source == o.selected_source
    &&& n.selected_pattern == o.selected_pattern
    &&& n.search_query == o.search_query
    &&& n.filtered_view == o.filtered_view
    &&& n.paused == o.paused
    &&& n.profiles == o.profiles
    &&& n.profile_index == o.profile_index
    &&& n.theme_override == o.theme_override
    &&& n.should_quit == o.should_quit
    &&& n.log_count == o.log_count
    &&& n.show_normalized == o.show_normalized
    &&& n.tick_count == o.tick_count
    &&& n.source_menu == o.source_menu
    &&& n.needs_clear == o.needs_clear
    &&& n.active_source_filter == o.active_source_filter
    &&& n.source_rates == o.source_rates
    &&& n.collapsed_groups == o.collapsed_groups
    &&& n.azure_token == o.azure_token
    &&& n.show_banner == o.show_banner
    &&& n.detail_scroll == (if can_scroll_down(o) {
        (o.detail_scroll + 1) as usize
    } else {
        o.detail_scroll
    })
}

} // verus!
