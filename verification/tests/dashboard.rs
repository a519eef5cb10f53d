use qcker::tui_app::{
    Action, ActiveTab, App, AppMode, ConfirmAction, ContainerInfo, Listing, MarketplaceExt,
};
use qcker::tui_event::{ClickRegion, EventHandler};
use qcker::tui_keys::{execute_action, handle_click_event, handle_key_event, Key, Mouse, MouseKind};
use qcker::tui_rows::{
    container_row, default_networks, image_row, marketplace, sort_newest_first, text_contains,
    volume_row, ContainerRecord, ExtensionRecord, ImageRecord, VolumeRecord,
};
use qcker::tui_text::{status_tone, truncate, StatusTone};

fn container(id: &str, name: &str, created: &str) -> ContainerInfo {
    ContainerInfo {
        id: id.to_string(),
        name: name.to_string(),
        status: "running".to_string(),
        image: "alpine".to_string(),
        pid: Some(1),
        created: created.to_string(),
    }
}

fn ext(id: &str, built_in: bool, installed: bool) -> MarketplaceExt {
    MarketplaceExt {
        id: id.to_string(),
        name: format!("{} ext", id),
        version: "1.0".to_string(),
        description: "d".to_string(),
        author: "a".to_string(),
        category: "c".to_string(),
        built_in,
        installed,
    }
}

fn app_with_containers(n: usize) -> App {
    let mut app = App::new("/data".to_string());
    app.containers = (0..n).map(|i| container(&format!("id{}", i), &format!("c{}", i), "t")).collect();
    app
}

fn args_of(action: &Action) -> Vec<String> {
    match action {
        Action::RunAndReload(a) | Action::RunAndRefresh(a) | Action::Create(a) | Action::Exec(a) => a.clone(),
        _ => vec![],
    }
}

#[test]
fn new_dashboard_starts_on_containers() {
    let app = App::new("/data".to_string());
    assert_eq!(app.active_tab, ActiveTab::Containers);
    assert_eq!(app.mode, AppMode::Normal);
    assert_eq!(app.status_message, "Qcker Dashboard \u{2014} Press h for help");
    assert_eq!(app.tab_label(), "Containers");
    assert!(!app.should_quit);
}

#[test]
fn tabs_cycle_through_seven() {
    let mut app = App::new("/data".to_string());
    app.next_tab();
    assert_eq!(app.active_tab, ActiveTab::Images);
    app.prev_tab();
    app.prev_tab();
    assert_eq!(app.active_tab, ActiveTab::Logs);
    for _ in 0..7 {
        app.next_tab();
    }
    assert_eq!(app.active_tab, ActiveTab::Logs);
    app.click_tab(4);
    assert_eq!(app.active_tab, ActiveTab::Stats);
    assert_eq!(app.status_message, "Switched to Stats tab");
    app.click_tab(9);
    assert_eq!(app.active_tab, ActiveTab::Stats);
}

#[test]
fn selection_wraps_both_ways() {
    let mut app = app_with_containers(3);
    app.prev_item();
    assert_eq!(app.selected_index, 2);
    app.next_item();
    assert_eq!(app.selected_index, 0);
    app.next_item();
    app.prev_item();
    assert_eq!(app.selected_index, 0);
    let mut empty = App::new("/d".to_string());
    empty.next_item();
    assert_eq!(empty.selected_index, 0);
}

#[test]
fn scrolling_follows_the_selection() {
    let mut app = app_with_containers(20);
    for _ in 0..15 {
        app.next_item();
    }
    assert_eq!(app.selected_index, 15);
    assert_eq!(app.scroll_offset, 3);
    app.selected_index = 2;
    app.prev_item();
    assert_eq!(app.scroll_offset, 1);
}

#[test]
fn start_and_stop_run_the_picked_container() {
    let mut app = App::new("/data".to_string());
    assert!(matches!(app.start_container(), Action::Nothing));
    app.selected_container = Some("abc".to_string());
    let a = app.start_container();
    assert_eq!(args_of(&a), vec!["start", "abc"]);
    assert_eq!(app.status_message, "Started: abc");
    let b = app.stop_container();
    assert_eq!(args_of(&b), vec!["kill", "abc"]);
    assert_eq!(app.status_message, "Stopped: abc");
}

#[test]
fn delete_asks_then_runs() {
    let mut app = app_with_containers(2);
    app.selected_index = 1;
    app.delete_container();
    assert_eq!(app.mode, AppMode::ConfirmDelete);
    assert_eq!(app.confirm_message, "Delete 'c1'?");
    let act = handle_key_event(&mut app, Key::Char('y'));
    assert_eq!(args_of(&act), vec!["delete", "--force", "id1"]);
    assert_eq!(app.status_message, "Deleted: id1");
    assert_eq!(app.mode, AppMode::Normal);
    assert!(app.confirm_action.is_none());
}

#[test]
fn question_ignores_other_keys_and_esc_cancels() {
    let mut app = app_with_containers(1);
    app.delete_container();
    let act = handle_key_event(&mut app, Key::Char('x'));
    assert!(matches!(act, Action::Nothing));
    assert_eq!(app.mode, AppMode::ConfirmDelete);
    handle_key_event(&mut app, Key::Esc);
    assert_eq!(app.mode, AppMode::Normal);
    assert!(app.confirm_action.is_none());
    assert_eq!(app.status_message, "Cancelled");
}

#[test]
fn exec_typing_and_running() {
    let mut app = app_with_containers(1);
    handle_key_event(&mut app, Key::Char('i'));
    assert_eq!(app.mode, AppMode::ExecCommand);
    for c in "lsx".chars() {
        handle_key_event(&mut app, Key::Char(c));
    }
    handle_key_event(&mut app, Key::Backspace);
    assert_eq!(app.exec_cmd, "ls");
    assert_eq!(app.status_message, "> ls");
    let act = handle_key_event(&mut app, Key::Enter);
    assert_eq!(args_of(&act), vec!["exec", "id0", "ls"]);
    let next = app.exec_done(Some("a\nb\n".to_string()));
    assert!(matches!(next, Action::Refresh));
    assert_eq!(app.logs, vec!["$ ls", "a", "b"]);
    assert_eq!(app.active_tab, ActiveTab::Logs);
    assert_eq!(app.mode, AppMode::Normal);
    assert!(app.exec_cmd.is_empty());
}

#[test]
fn new_container_form() {
    let mut app = App::new("/data".to_string());
    handle_key_event(&mut app, Key::Char('n'));
    assert_eq!(app.mode, AppMode::NewContainer);
    let refused = handle_key_event(&mut app, Key::Enter);
    assert!(matches!(refused, Action::Nothing));
    assert_eq!(app.status_message, "Name required!");
    handle_key_event(&mut app, Key::Tab);
    assert_eq!(app.new_name, "my-container");
    handle_key_event(&mut app, Key::Tab);
    assert_eq!(app.new_image, "alpine:latest");
    let act = handle_key_event(&mut app, Key::Enter);
    assert_eq!(args_of(&act), vec!["run", "--name", "my-container", "--image", "alpine:latest", "/bin/sh"]);
    assert_eq!(app.mode, AppMode::Normal);
    assert!(matches!(app.created(Ok(())), Action::Reload));
    assert_eq!(app.status_message, "Created: my-container");
    app.created(Err("no space".to_string()));
    assert_eq!(app.status_message, "Failed: no space");
}

#[test]
fn new_container_splits_the_command() {
    let mut app = App::new("/data".to_string());
    app.open_new_container();
    app.new_name = "web".to_string();
    app.new_cmd = "nginx  -g daemon".to_string();
    let act = app.execute_new_container();
    assert_eq!(args_of(&act), vec!["run", "--name", "web", "nginx", "-g", "daemon"]);
}

#[test]
fn pull_form() {
    let mut app = App::new("/data".to_string());
    app.next_tab();
    handle_key_event(&mut app, Key::Char('p'));
    assert_eq!(app.mode, AppMode::ImagePull);
    assert_eq!(app.status_message, "Image:");
    for c in "redis".chars() {
        handle_key_event(&mut app, Key::Char(c));
    }
    assert_eq!(app.status_message, "Pulling: redis");
    let act = handle_key_event(&mut app, Key::Enter);
    assert_eq!(args_of(&act), vec!["pull", "redis"]);
    assert_eq!(app.status_message, "Pulled: ");
    assert!(app.pull_input.is_empty());
}

#[test]
fn quit_closes_help_first() {
    let mut app = App::new("/data".to_string());
    handle_key_event(&mut app, Key::Char('h'));
    assert!(app.show_help);
    handle_key_event(&mut app, Key::Char('q'));
    assert!(!app.show_help);
    assert!(!app.should_quit);
    handle_key_event(&mut app, Key::Esc);
    assert!(app.should_quit);
}

#[test]
fn logs_mode_scrolling() {
    let mut app = app_with_containers(1);
    app.logs = (0..30).map(|i| format!("line {}", i)).collect();
    let act = handle_key_event(&mut app, Key::Char('w'));
    assert_eq!(args_of(&act), vec!["logs", "id0"]);
    assert_eq!(app.mode, AppMode::WatchingLogs);
    handle_key_event(&mut app, Key::Char('G'));
    assert_eq!(app.scroll_offset, 10);
    handle_key_event(&mut app, Key::Down);
    assert_eq!(app.scroll_offset, 11);
    handle_key_event(&mut app, Key::Char('g'));
    handle_key_event(&mut app, Key::Up);
    assert_eq!(app.scroll_offset, 0);
    let r = handle_key_event(&mut app, Key::Char('r'));
    assert!(matches!(r, Action::RunAndRefresh(_)));
    handle_key_event(&mut app, Key::Char('q'));
    assert_eq!(app.mode, AppMode::Normal);
    assert_eq!(app.status_message, "Stopped watching");
}

#[test]
fn extension_actions() {
    let mut app = App::new("/data".to_string());
    app.extensions = vec![ext("core", true, true), ext("net", false, false), ext("gpu", false, true)];
    app.click_tab(5);
    app.install_extension();
    assert_eq!(app.status_message, "Built-in: core ext");
    app.selected_index = 1;
    match app.install_extension() {
        Action::Install { id, name, manifest } => {
            assert_eq!(id, "net");
            assert_eq!(name, "net ext");
            assert_eq!(
                manifest,
                "{\"extension\":{\"id\":\"net\",\"name\":\"net ext\",\"version\":\"1.0\",\"api_version\":\"1.0.0\",\"author\":\"a\",\"description\":\"d\",\"capabilities\":[\"ContainerLifecycle\"]}}"
            );
        },
        _ => panic!("an uninstalled extension is installed"),
    }
    assert!(matches!(app.installed("net ext", true), Action::ReloadExtensions));
    assert_eq!(app.status_message, "Installed: net ext");
    app.enable_extension();
    assert_eq!(app.status_message, "Not installed: net ext");
    app.selected_index = 2;
    let e = app.enable_extension();
    assert_eq!(args_of(&e), vec!["extension", "enable", "gpu"]);
    app.uninstall_extension();
    assert_eq!(app.mode, AppMode::ConfirmDelete);
    assert_eq!(app.confirm_message, "Uninstall gpu ext?");
    assert!(matches!(app.confirm_action, Some(ConfirmAction::UninstallExtension(ref id)) if id == "gpu"));
    match app.execute_confirm() {
        Action::Uninstall(id) => assert_eq!(id, "gpu"),
        _ => panic!("the uninstall is carried out"),
    }
    assert_eq!(app.status_message, "Uninstalled");
}

#[test]
fn mouse_buttons_and_rows() {
    let mut app = app_with_containers(3);
    handle_click_event(&mut app, Mouse { kind: MouseKind::Down, row: 3, column: 0 });
    assert_eq!(app.selected_index, 1);
    handle_click_event(&mut app, Mouse { kind: MouseKind::Down, row: 0, column: 25 });
    assert_eq!(app.selected_action, 3);
    assert_eq!(app.mode, AppMode::ConfirmDelete);
    assert_eq!(app.confirm_message, "Delete 'c1'?");
    let mut other = app_with_containers(3);
    handle_click_event(&mut other, Mouse { kind: MouseKind::Down, row: 0, column: 3 });
    assert_eq!(other.mode, AppMode::NewContainer);
    let mut far = app_with_containers(3);
    handle_click_event(&mut far, Mouse { kind: MouseKind::Down, row: 0, column: 60 });
    assert_eq!(far.mode, AppMode::Normal);
    handle_click_event(&mut far, Mouse { kind: MouseKind::ScrollDown, row: 5, column: 5 });
    assert_eq!(far.selected_index, 1);
    let act = execute_action(&mut far, 9);
    assert!(matches!(act, Action::Nothing));
}

#[test]
fn refreshed_lists_and_status() {
    let mut app = App::new("/data".to_string());
    let listing = Listing {
        containers: vec![container("a", "a", "t")],
        images: vec![],
        networks: default_networks(),
        volumes: vec![],
        extensions: vec![],
    };
    app.refreshed(listing, "12:30:00");
    assert_eq!(app.status_message, "Containers (12:30:00)");
    assert_eq!(app.containers.len(), 1);
    assert_eq!(app.networks.len(), 3);
}

#[test]
fn uptime_text() {
    assert_eq!(App::format_uptime(90061), "1d1h1m");
    assert_eq!(App::format_uptime(7200), "2h0m");
    assert_eq!(App::format_uptime(3599), "59m");
    assert_eq!(App::format_uptime(0), "0m");
}

#[test]
fn click_region_codes() {
    assert_eq!(ClickRegion::Tab(3).to_u16(), 3);
    assert_eq!(ClickRegion::ContainerRow(5).to_u16(), 105);
    assert_eq!(ClickRegion::DetailButton(2).to_u16(), 902);
    assert_eq!(ClickRegion::HelpButton.to_u16(), 950);
    assert_eq!(ClickRegion::CloseButton.to_u16(), 951);
    let events = EventHandler::new(std::time::Duration::from_millis(250));
    assert_eq!(events.wait(), std::time::Duration::from_millis(250));
}

#[test]
fn cells_are_shortened() {
    assert_eq!(truncate("hello world", 8), "hello...");
    assert_eq!(truncate("hi", 2), "hi");
    assert_eq!(truncate("abcdef", 2), "...");
    assert_eq!(truncate("h\u{e9}llo w\u{f6}rld", 9), "h\u{e9}llo ...");
}

#[test]
fn status_tones() {
    assert_eq!(status_tone("Running"), StatusTone::Running);
    assert_eq!(status_tone("Dead"), StatusTone::Stopped);
    assert_eq!(status_tone("Stopped"), StatusTone::Stopped);
    assert_eq!(status_tone("Paused"), StatusTone::Paused);
    assert_eq!(status_tone("running"), StatusTone::Other);
}

#[test]
fn container_rows_from_records() {
    let row = container_row(&ContainerRecord {
        id: Some("abc".to_string()),
        name: None,
        state: Some("Running".to_string()),
        pid: Some(4294967297),
        image: None,
        created_at: None,
    });
    assert_eq!(row.name, "abc (default)");
    assert_eq!(row.status, "running");
    assert_eq!(row.image, "unknown");
    assert_eq!(row.pid, Some(1));
    assert_eq!(row.created, "N/A");
    let named = container_row(&ContainerRecord {
        id: None,
        name: Some("web".to_string()),
        state: Some("Exited".to_string()),
        pid: None,
        image: Some("nginx".to_string()),
        created_at: Some("2024".to_string()),
    });
    assert_eq!(named.id, "unknown");
    assert_eq!(named.name, "web");
    assert_eq!(named.status, "Exited");
}

#[test]
fn container_rows_newest_first() {
    let rows = vec![
        container("a", "a", "2024-01-01"),
        container("b", "b", "2024-03-01"),
        container("c", "c", "2024-02-01"),
        container("d", "d", "2024-03-01"),
    ];
    let sorted = sort_newest_first(rows);
    let ids: Vec<&str> = sorted.iter().map(|c| c.id.as_str()).collect();
    assert_eq!(ids, vec!["b", "d", "c", "a"]);
}

#[test]
fn marketplace_rows_and_local_extensions() {
    let registry = vec![
        ExtensionRecord {
            id: Some("qcker-gpu".to_string()),
            display_name: None,
            name: Some("GPU".to_string()),
            version: None,
            description: None,
            author: None,
            category: None,
            built_in: None,
        },
        ExtensionRecord {
            id: Some("net".to_string()),
            display_name: Some("Networking".to_string()),
            name: Some("net".to_string()),
            version: Some("2.0".to_string()),
            description: Some("nets".to_string()),
            author: Some("me".to_string()),
            category: Some("network".to_string()),
            built_in: Some(true),
        },
    ];
    let installed = vec!["gpu".to_string(), "local-tool".to_string(), "local-tool".to_string()];
    let rows = marketplace(&registry, &installed);
    assert_eq!(rows.len(), 4);
    assert_eq!(rows[0].name, "GPU");
    assert_eq!(rows[0].version, "0.0");
    assert_eq!(rows[0].author, "Unknown");
    assert_eq!(rows[0].category, "other");
    assert!(rows[0].installed);
    assert_eq!(rows[1].name, "Networking");
    assert!(rows[1].built_in);
    assert!(!rows[1].installed);
    assert_eq!(rows[2].id, "gpu");
    assert_eq!(rows[3].id, "local-tool");
    assert_eq!(rows[3].version, "?");
    assert_eq!(rows[3].description, "Local extension");
    assert_eq!(rows[3].author, "Local");
    assert!(rows[3].installed);
}

#[test]
fn substring_search() {
    assert!(text_contains("qcker-gpu", "gpu"));
    assert!(text_contains("abc", ""));
    assert!(!text_contains("gpu", "qcker-gpu"));
    assert!(!text_contains("abcd", "bd"));
}

#[test]
fn image_and_volume_rows() {
    let img = image_row(
        &ImageRecord {
            id: Some("sha".to_string()),
            tags: Some(vec!["a:1".to_string(), "a:latest".to_string()]),
            created_at: None,
        },
        "1.5KB".to_string(),
    );
    assert_eq!(img.tags, "a:1, a:latest");
    assert_eq!(img.created, "N/A");
    let none = image_row(&ImageRecord { id: None, tags: None, created_at: None }, "0B".to_string());
    assert_eq!(none.tags, "<none>");
    assert_eq!(none.id, "unknown");
    let vol = volume_row(&VolumeRecord { name: None, driver: None, mountpoint: None });
    assert_eq!(vol.name, "unknown");
    assert_eq!(vol.driver, "local");
    assert_eq!(vol.mountpoint, "N/A");
    let nets = default_networks();
    assert_eq!(nets[2].subnet, "172.17.0.0/16");
}

#[test]
fn container_counts_split_running_from_the_rest() {
    let mut app = app_with_containers(4);
    assert_eq!(app.container_counts(), (4, 0));
    app.containers[1].status = "stopped".to_string();
    app.containers[3].status = "Running".to_string();
    assert_eq!(app.container_counts(), (2, 2));
    assert_eq!(App::new("/data".to_string()).container_counts(), (0, 0));
}
