use logradar::app::{App, AppMode, Pane};
use logradar::discovery::{parse_docker_ps, DockerContainer};
use logradar::source_menu::{SourceMenuScreen, SourceMenuState};
use logradar::discovery::subscription_from_resource_id;
use logradar::ingest::{SourceEvent, SourceStatus};
use logradar::keys::{handle_key_event, Key};
use logradar::profile::Profile;

fn fresh() -> App {
    App::with_profiles(Profile::all_profiles(), None)
}

fn log(app: &mut App, source: &str, line: &str, now: u64) {
    app.process_event(
        SourceEvent::Log {
            source: source.to_string(),
            line: line.to_string(),
        },
        now,
    );
}

#[test]
fn pause_drops_lines_entirely() {
    let mut app = fresh();
    app.add_docker_source("web".to_string());
    app.paused = true;
    for i in 0..100 {
        log(&mut app, "docker/web", &format!("[INFO] served {} req", i), i);
    }
    assert_eq!(app.store.len(), 0);
    assert_eq!(app.log_count, 0);
    // status events still apply while paused
    app.process_event(
        SourceEvent::Status {
            source: "docker/web".to_string(),
            status: SourceStatus::Running,
        },
        200,
    );
    assert!(app.sources[0].status.is_active());
    assert!(matches!(app.sources[0].status, SourceStatus::Running));
}

#[test]
fn severity_below_profile_minimum_is_dropped() {
    let mut app = fresh();
    // default profile admits Info and up
    log(&mut app, "cmd/x", "[DEBUG] noisy detail", 0);
    assert_eq!(app.store.len(), 0);
    log(&mut app, "cmd/x", "[ERROR] broken", 1);
    assert_eq!(app.store.len(), 1);
    assert_eq!(app.log_count, 1);
}

#[test]
fn filter_composition_restricts_to_one_source() {
    let mut app = fresh();
    log(&mut app, "docker/a", "[INFO] alpha message one", 0);
    log(&mut app, "docker/b", "[INFO] alpha message two", 1);
    assert_eq!(app.store.len(), 2);
    // a query that matches both patterns, plus a filter on source a
    app.search_query = "alpha".to_string();
    app.active_source_filter = Some("docker/a".to_string());
    app.update_filtered_view();
    assert_eq!(app.filtered_view.len(), 1);
    let idx = app.filtered_view[0].index;
    assert!(app.store.patterns()[idx]
        .sources
        .contains(&"docker/a".to_string()));
}

#[test]
fn update_filtered_view_without_query_or_filter_shows_all() {
    let mut app = fresh();
    log(&mut app, "cmd/x", "[INFO] one", 0);
    log(&mut app, "cmd/x", "[INFO] two", 1);
    app.update_filtered_view();
    assert_eq!(app.filtered_view.len(), 2);
}

#[test]
fn keyboard_drives_the_mode_machine() {
    let mut app = fresh();
    assert_eq!(app.mode, AppMode::Normal);
    handle_key_event(&mut app, Key::Char('/'), 0);
    assert_eq!(app.mode, AppMode::Search);
    handle_key_event(&mut app, Key::Char('a'), 0);
    assert_eq!(app.search_query, "a");
    handle_key_event(&mut app, Key::Backspace, 0);
    assert_eq!(app.search_query, "");
    handle_key_event(&mut app, Key::Esc, 0);
    assert_eq!(app.mode, AppMode::Normal);
    handle_key_event(&mut app, Key::Char('?'), 0);
    assert_eq!(app.mode, AppMode::Help);
    handle_key_event(&mut app, Key::Esc, 0);
    assert_eq!(app.mode, AppMode::Normal);
    handle_key_event(&mut app, Key::Char('p'), 0);
    assert!(app.paused);
    handle_key_event(&mut app, Key::Char('q'), 0);
    assert!(app.should_quit);
}

#[test]
fn reset_key_empties_the_store() {
    let mut app = fresh();
    log(&mut app, "cmd/x", "[INFO] something", 0);
    assert_eq!(app.store.len(), 1);
    handle_key_event(&mut app, Key::Char('r'), 0);
    assert_eq!(app.store.len(), 0);
    assert!(app.needs_clear);
}

#[test]
fn clear_counters_key_zeroes_counts() {
    let mut app = fresh();
    log(&mut app, "cmd/x", "[INFO] something", 0);
    log(&mut app, "cmd/x", "[INFO] something", 1);
    handle_key_event(&mut app, Key::Char('c'), 2);
    assert_eq!(app.store.len(), 1);
    assert_eq!(app.store.patterns()[0].count_total, 0);
}

#[test]
fn panes_cycle_forward_and_back() {
    let mut app = fresh();
    assert_eq!(app.active_pane, Pane::Patterns);
    app.next_pane();
    assert_eq!(app.active_pane, Pane::Details);
    app.next_pane();
    assert_eq!(app.active_pane, Pane::Sources);
    app.prev_pane();
    assert_eq!(app.active_pane, Pane::Details);
}

#[test]
fn source_ids_and_rows() {
    let mut app = fresh();
    app.add_docker_source("web".to_string());
    app.add_file_source("/var/log/syslog".to_string());
    app.add_command_source("  journalctl -f ".to_string());
    assert_eq!(app.sources[0].id, "docker/web");
    assert_eq!(app.sources[1].id, "file//var/log/syslog");
    assert_eq!(app.sources[2].id, "cmd/journalctl");
    let rows = app.visible_source_rows();
    // three groups, each with a header and one source
    assert_eq!(rows.len(), 6);
    assert!(rows[0].header);
    assert_eq!(rows[0].kind, "docker");
    assert_eq!(rows[1].source_index, Some(0));
}

#[test]
fn per_source_rates_track_and_prune() {
    let mut app = fresh();
    log(&mut app, "cmd/x", "[INFO] a", 0);
    log(&mut app, "cmd/x", "[INFO] b", 10);
    log(&mut app, "cmd/y", "[INFO] c", 20);
    assert_eq!(app.source_rate_1m("cmd/x"), 2);
    assert_eq!(app.source_rate_1m("cmd/y"), 1);
    assert_eq!(app.source_rate_1m("cmd/z"), 0);
    app.tick_source_rates(61_000);
    assert_eq!(app.source_rate_1m("cmd/x"), 0);
}

#[test]
fn subscription_parsed_from_resource_id() {
    let id = "/subscriptions/abc-123/resourceGroups/rg/providers/Microsoft.App/containerApps/x";
    assert_eq!(subscription_from_resource_id(id), "abc-123");
    assert_eq!(subscription_from_resource_id("no slashes"), "");
}

#[test]
fn theme_toggle_cycles_from_profile_theme() {
    let mut app = fresh();
    assert_eq!(app.theme(), "matrix");
    app.toggle_theme();
    assert_eq!(app.theme(), "nebula");
    app.toggle_theme();
    assert_eq!(app.theme(), "frostbyte");
}

#[test]
fn docker_listing_parses_rows() {
    let text = "abc123\tweb\tnginx:latest\tUp 2 hours\n\ndef456\tdb\tpostgres:16\tUp 5 minutes (healthy)\nbadline\n";
    let rows = parse_docker_ps(text);
    assert_eq!(rows.len(), 2);
    assert_eq!(rows[0].id, "abc123");
    assert_eq!(rows[0].name, "web");
    assert_eq!(rows[0].image, "nginx:latest");
    assert_eq!(rows[0].status, "Up 2 hours");
    assert_eq!(rows[1].name, "db");
    assert_eq!(rows[1].status, "Up 5 minutes (healthy)");
}

#[test]
fn menu_selection_toggles() {
    let mut menu = SourceMenuState::new();
    menu.screen = SourceMenuScreen::DockerDiscovery;
    menu.docker_containers.push(DockerContainer {
        name: "web".into(),
        image: "nginx".into(),
        status: "Up".into(),
        id: "abc".into(),
    });
    menu.discovery_cursor = 0;
    menu.toggle_selection();
    assert_eq!(menu.selected, vec![0]);
    menu.toggle_selection();
    assert!(menu.selected.is_empty());
}

#[test]
fn duplicate_source_ids_are_not_recorded() {
    let mut app = fresh();
    app.add_docker_source("web".to_string());
    app.add_docker_source("web".to_string());
    app.add_file_source("/var/log/app.log".to_string());
    app.add_command_source("journalctl -f".to_string());
    app.add_command_source("journalctl --user".to_string());
    // one docker source, one file source, one command source: the second
    // docker add and the command sharing a first token are skipped
    assert_eq!(app.sources.len(), 3);
    assert_eq!(app.sources[0].id, "docker/web");
    assert_eq!(app.sources[1].id, "file//var/log/app.log");
    assert_eq!(app.sources[2].id, "cmd/journalctl");
}

#[test]
fn enter_on_sources_toggles_filter_and_collapse() {
    let mut app = fresh();
    app.add_docker_source("web".to_string());
    app.active_pane = Pane::Sources;
    // row 0 is the docker header, row 1 the source
    app.selected_source = 1;
    app.activate_selected_source();
    assert_eq!(app.active_source_filter, Some("docker/web".to_string()));
    assert_eq!(app.selected_pattern, 0);
    assert!(app.needs_clear);
    app.activate_selected_source();
    assert_eq!(app.active_source_filter, None);
    // the header collapses the group: only the header row remains
    app.selected_source = 0;
    app.activate_selected_source();
    assert_eq!(app.collapsed_groups, vec!["docker".to_string()]);
    assert_eq!(app.visible_source_rows().len(), 1);
    app.activate_selected_source();
    assert!(app.collapsed_groups.is_empty());
    assert_eq!(app.visible_source_rows().len(), 2);
}
