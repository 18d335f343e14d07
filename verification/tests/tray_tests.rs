use waka_tray::durations::ApiResponse;
use waka_tray::durations::DataItem;
use waka_tray::poll::POLL_INTERVAL_SECS;
use waka_tray::poll::WorkerDirective;
use waka_tray::poll::worker_continues;
use waka_tray::poll::worker_step;
use waka_tray::remote::FetchError;
use waka_tray::tray::MenuEntry;
use waka_tray::tray::TrayModel;
use waka_tray::tray::TrayPhase;
use waka_tray::tray::UiAction;
use waka_tray::tray::about_copyright;
use waka_tray::tray::about_name;
use waka_tray::tray::menu_label;
use waka_tray::tray::menu_layout;
use waka_tray::tray::startup_title;
use waka_tray::tray::tooltip;

fn response_with_seconds(secs: u64) -> ApiResponse {
    ApiResponse {
        data: vec![DataItem {
            color: None,
            duration_millis: secs * 1000,
            project: String::new(),
            time_millis: 0,
        }],
        end: String::new(),
        start: String::new(),
        timezone: String::new(),
    }
}

#[test]
fn controller_starts_before_init() {
    let model = TrayModel::new();
    assert!(matches!(model.phase, TrayPhase::PreInit));
}

#[test]
fn first_tick_creates_the_icon_with_startup_title() {
    let mut model = TrayModel::new();
    let action = model.on_init();
    assert!(matches!(model.phase, TrayPhase::Running));
    assert_eq!(model.title, "startup");
    match action {
        UiAction::CreateIcon { title, tooltip } => {
            assert_eq!(title, "startup");
            assert_eq!(tooltip, "waka tray - coding time at tray");
        }
        _ => panic!("expected the icon to be created"),
    }
}

#[test]
fn a_response_sets_a_formatted_title() {
    let mut model = TrayModel::new();
    model.on_init();
    let action = model.on_response(&response_with_seconds(3661));
    assert!(matches!(model.phase, TrayPhase::Updated));
    assert_eq!(model.title, "1h1m");
    match action {
        UiAction::SetTitle { title } => assert_eq!(title, "1h1m"),
        _ => panic!("expected the title to be set"),
    }
}

#[test]
fn a_later_response_overwrites_the_title() {
    let mut model = TrayModel::new();
    model.on_init();
    model.on_response(&response_with_seconds(3661));
    model.on_response(&response_with_seconds(8100));
    assert_eq!(model.title, "2h15m");
}

#[test]
fn quit_releases_the_icon_and_exits() {
    let mut model = TrayModel::new();
    model.on_init();
    model.on_response(&response_with_seconds(8100));
    let action = model.on_menu(MenuEntry::Quit);
    assert!(matches!(model.phase, TrayPhase::ShuttingDown));
    assert!(matches!(action, UiAction::ReleaseIconAndExit));
}

#[test]
fn entering_the_api_key_opens_the_config_and_changes_nothing() {
    let mut model = TrayModel::new();
    model.on_init();
    model.on_response(&response_with_seconds(3661));
    let action = model.on_menu(MenuEntry::EnterApiKey);
    assert!(matches!(action, UiAction::OpenConfig));
    assert!(matches!(model.phase, TrayPhase::Updated));
    assert_eq!(model.title, "1h1m");
}

#[test]
fn menu_is_about_separator_key_quit() {
    let layout = menu_layout();
    assert_eq!(layout.len(), 4);
    assert!(matches!(layout[0], MenuEntry::About));
    assert!(matches!(layout[1], MenuEntry::Separator));
    assert!(matches!(layout[2], MenuEntry::EnterApiKey));
    assert!(matches!(layout[3], MenuEntry::Quit));
}

#[test]
fn menu_labels_are_exact() {
    assert_eq!(menu_label(&MenuEntry::About), "About waka tray");
    assert_eq!(menu_label(&MenuEntry::Separator), "");
    assert_eq!(menu_label(&MenuEntry::EnterApiKey), "Enter WakaTime API key");
    assert_eq!(menu_label(&MenuEntry::Quit), "Quit");
}

#[test]
fn fixed_strings_are_exact() {
    assert_eq!(about_name(), "waka tray");
    assert_eq!(about_copyright(), "@2024 goverclock");
    assert_eq!(tooltip(), "waka tray - coding time at tray");
    assert_eq!(startup_title(), "startup");
}

#[test]
fn poll_interval_is_one_minute() {
    assert_eq!(POLL_INTERVAL_SECS, 60);
}

#[test]
fn a_fetched_response_is_delivered() {
    let d = worker_step(Ok(response_with_seconds(60)));
    match d {
        WorkerDirective::Deliver(resp) => assert_eq!(resp.title(), "0h1m"),
        _ => panic!("expected a delivery"),
    }
}

#[test]
fn a_failed_fetch_is_logged_and_waited_out() {
    let d = worker_step(Err(FetchError::Network));
    assert!(matches!(d, WorkerDirective::LogAndWait(FetchError::Network)));
}

#[test]
fn the_worker_stops_once_the_ui_is_gone() {
    assert!(worker_continues(true));
    assert!(!worker_continues(false));
}
