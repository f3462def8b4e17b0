use ratatai::app::{bug_row, ActivePanel, App, Screen, UiAction};
use ratatai::events::{dispatch_message, handle_key_events, KeyInput};
use ratatai::fake::FakeClient;
use ratatai::fetch::get_project_bug_tasks;
use ratatai::messages::{bug_message, bugs_message, check_monitor, LpMessage, TaskError};
use ratatai::model::LaunchpadError;
use ratatai::status::StatusFilter;

fn app_with_bugs() -> App {
    let client = FakeClient::new();
    let bugs = get_project_bug_tasks(&client, "nova", Some(StatusFilter::New)).unwrap();
    let mut app = App::new();
    app.update_bugs(bugs);
    app
}

#[test]
fn test_new_app_initial_state() {
    let app = App::new();
    assert_eq!(app.bug_table_items.len(), 0);
    assert_eq!(app.bug_table_selected, None);
    assert_eq!(app.active_panel, ActivePanel::Left);
    assert_eq!(app.current_screen, Screen::BugList);
    assert!(!app.spinner_enabled);
    assert_eq!(app.spinner_label_index, 0);
    assert_eq!(app.response_text, "Loading response from Gemini...");
}

#[test]
fn test_navigation_wraps() {
    let mut app = app_with_bugs();
    assert_eq!(app.bug_table_selected, Some(0));

    app.bug_table_previous_item();
    assert_eq!(app.bug_table_selected, Some(3));
    assert_eq!(app.bug_table_scroll_position, 3);

    app.bug_table_next_item();
    assert_eq!(app.bug_table_selected, Some(0));
}

#[test]
fn test_page_and_ends() {
    let mut app = app_with_bugs();
    app.bug_table_page_down_item();
    assert_eq!(app.bug_table_selected, Some(3));
    app.bug_table_page_up_item();
    assert_eq!(app.bug_table_selected, Some(0));
    app.bug_table_go_to_end();
    assert_eq!(app.bug_table_selected, Some(3));
    app.bug_table_go_to_start();
    assert_eq!(app.bug_table_selected, Some(0));
}

#[test]
fn test_toggle_spinner_cycles_labels() {
    let mut app = App::new();
    app.toggle_spinner();
    assert!(app.spinner_enabled);
    assert_eq!(app.spinner_label_index, 1);
    for _ in 0..4 {
        app.toggle_spinner();
    }
    assert!(app.spinner_enabled);
    assert_eq!(app.spinner_label_index, 0);
}

#[test]
fn test_update_bugs_resets_table() {
    let app = app_with_bugs();
    assert_eq!(app.bug_table_items.len(), 4);
    assert_eq!(app.bug_table_selected, Some(0));
    assert_eq!(app.bug_table_scroll_position, 0);
    assert_eq!(app.bug_table_content_length, 4);
    assert!(!app.spinner_enabled);
}

#[test]
fn test_quit_key() {
    let mut app = App::new();
    let r = handle_key_events(KeyInput::Char('q'), &mut app);
    assert_eq!(r, UiAction::Quit);
}

#[test]
fn test_spinner_key_is_global() {
    let mut app = App::new();
    let r = handle_key_events(KeyInput::Char('s'), &mut app);
    assert_eq!(r, UiAction::Idle);
    assert!(app.spinner_enabled);
}

#[test]
fn test_tab_switches_panel() {
    let mut app = app_with_bugs();
    handle_key_events(KeyInput::Tab, &mut app);
    assert_eq!(app.active_panel, ActivePanel::Right);
    handle_key_events(KeyInput::Tab, &mut app);
    assert_eq!(app.active_panel, ActivePanel::Left);
}

#[test]
fn test_enter_on_selected_row_requests_its_record() {
    let mut app = app_with_bugs();
    let r = handle_key_events(KeyInput::Enter, &mut app);
    assert_eq!(r, UiAction::FetchBug(2093869));
    assert!(app.spinner_enabled);
}

#[test]
fn test_refresh_key_requests_the_project() {
    let mut app = app_with_bugs();
    let r = handle_key_events(KeyInput::Char('r'), &mut app);
    assert_eq!(r, UiAction::FetchBugs("nova".to_string()));
    assert!(app.spinner_enabled);
}

#[test]
fn test_escape_leaves_editing_screen() {
    let mut app = app_with_bugs();
    app.current_screen = Screen::BugEditing;
    app.active_panel = ActivePanel::Right;
    handle_key_events(KeyInput::Esc, &mut app);
    assert_eq!(app.current_screen, Screen::BugList);
    assert_eq!(app.active_panel, ActivePanel::Left);
}

#[test]
fn test_description_enter_moves_to_editing() {
    let mut app = app_with_bugs();
    app.active_panel = ActivePanel::Right;
    let r = handle_key_events(KeyInput::Enter, &mut app);
    assert_eq!(r, UiAction::Idle);
    assert_eq!(app.current_screen, Screen::BugEditing);
    assert_eq!(app.active_panel, ActivePanel::Left);
    assert_eq!(app.bug_reply_text, "No bug replied yet.");
}

#[test]
fn test_description_scrolls() {
    let mut app = app_with_bugs();
    app.active_panel = ActivePanel::Right;
    handle_key_events(KeyInput::Down, &mut app);
    handle_key_events(KeyInput::PageDown, &mut app);
    assert_eq!(app.bug_desc_scroll, 11);
    handle_key_events(KeyInput::Up, &mut app);
    assert_eq!(app.bug_desc_scroll, 10);
    handle_key_events(KeyInput::Home, &mut app);
    assert_eq!(app.bug_desc_scroll, 0);
    handle_key_events(KeyInput::End, &mut app);
    assert!(app.bug_desc_scroll_to_end);
}

#[test]
fn test_dispatch_bugs_message() {
    let client = FakeClient::new();
    let bugs = get_project_bug_tasks(&client, "nova", Some(StatusFilter::New)).unwrap();
    let mut app = App::new();
    let r = dispatch_message(&mut app, LpMessage::Bugs(bugs));
    assert!(r.is_ok());
    assert_eq!(app.bug_table_items.len(), 4);
    assert_eq!(app.bug_table_selected, Some(0));
}

#[test]
fn test_dispatch_error_message_stops_the_loop() {
    let mut app = App::new();
    let r = dispatch_message(
        &mut app,
        LpMessage::Error(LaunchpadError::InvalidProject("zorglub".to_string())),
    );
    assert_eq!(
        r.unwrap_err(),
        LaunchpadError::InvalidProject("zorglub".to_string())
    );
}

#[test]
fn test_bugs_message_sorts_newest_first() {
    let client = FakeClient::new();
    let bugs = get_project_bug_tasks(&client, "nova", Some(StatusFilter::New)).unwrap();
    let msg = bugs_message(Ok(bugs));
    let sorted = match msg {
        LpMessage::Bugs(v) => v,
        _ => panic!("expected a record list"),
    };
    let links: Vec<&str> = sorted.iter().map(|b| b.bug_link.as_str()).collect();
    // Newest first; the entry without a creation date comes last.
    assert_eq!(
        links,
        [
            "https://api.launchpad.net/1.0/bugs/2093869",
            "https://api.launchpad.net/1.0/bugs/2066206",
            "https://api.launchpad.net/1.0/bugs/2093879",
            "https://api.launchpad.net/1.0/bugs/2067081",
        ]
    );
}

#[test]
fn test_bugs_message_keeps_arrival_order_on_equal_dates() {
    // Three entries: two share a creation date, one is newer.  The sort
    // must put the newer one first and keep the tied pair in arrival
    // order.
    fn entry(n: u32, date: &str) -> String {
        format!(
            "{{\"self_link\": \"https://api.launchpad.net/1.0/nova/+bug/{n}\", \
              \"web_link\": \"https://bugs.launchpad.net/nova/+bug/{n}\", \
              \"resource_type_link\": \"https://api.launchpad.net/1.0/#bug_task\", \
              \"bug_link\": \"https://api.launchpad.net/1.0/bugs/{n}\", \
              \"status\": \"New\", \"importance\": \"Undecided\", \
              \"bug_target_display_name\": \"OpenStack Compute (nova)\", \
              \"bug_target_name\": \"nova\", \"date_created\": \"{date}\", \
              \"target_link\": \"https://api.launchpad.net/1.0/nova\", \"title\": \"t\", \
              \"related_tasks_collection_link\": \"https://api.launchpad.net/1.0/nova/+bug/{n}/rt\", \
              \"is_complete\": false, \"http_etag\": \"e\"}}"
        )
    }
    let page = format!(
        "{{\"start\": 0, \"total_size\": 3, \"entries\": [{}, {}, {}]}}",
        entry(1, "2025-02-01T00:00:00+00:00"),
        entry(2, "2025-02-01T00:00:00+00:00"),
        entry(3, "2025-03-01T00:00:00+00:00"),
    );
    let p = ratatai::decode::decode_page_payload(&page).unwrap();
    let msg = bugs_message(Ok(p.entries));
    let sorted = match msg {
        LpMessage::Bugs(v) => v,
        _ => panic!("expected a record list"),
    };
    let ids: Vec<Option<u32>> = sorted.iter().map(|b| b.get_id()).collect();
    assert_eq!(ids, [Some(3), Some(1), Some(2)]);
}

#[test]
fn test_bugs_message_wraps_errors() {
    let msg = bugs_message(Err(LaunchpadError::HttpRequest("down".to_string())));
    assert!(matches!(
        msg,
        LpMessage::Error(LaunchpadError::HttpRequest(_))
    ));
}

#[test]
fn test_bug_message() {
    let client = FakeClient::new();
    let bug = ratatai::fetch::get_bug(&client, 666).unwrap();
    let msg = bug_message(Ok(bug));
    match msg {
        LpMessage::Bug(b) => assert_eq!(b.id, 666),
        _ => panic!("expected a record"),
    }
}

#[test]
fn test_update_bug_fills_response_buffer() {
    let client = FakeClient::new();
    let bug = ratatai::fetch::get_bug(&client, 666).unwrap();
    let mut app = App::new();
    app.bug_desc_scroll = 7;
    app.update_bug(bug);
    assert_eq!(app.bug_desc_scroll, 0);
    assert!(!app.spinner_enabled);
    assert_eq!(
        app.response_text,
        "Steps to reproduce: run the offline client."
    );
    assert_eq!(app.current_bug.as_ref().unwrap().id, 666);
}

#[test]
fn test_check_monitor() {
    assert!(!check_monitor(None));
    assert!(check_monitor(Some(Ok(()))));
    assert!(check_monitor(Some(Err(TaskError::Panicked))));
}

#[test]
fn test_bug_row_extracts_id_and_title() {
    let app = app_with_bugs();
    let row = bug_row(&app.bug_table_items[0]);
    assert_eq!(row.bug_id, 2093869);
    assert_eq!(row.title, "Instance resize fails");
    assert_eq!(row.date, "2025-01-13");
    assert_eq!(row.description, "");
}

#[test]
fn test_status_filter_tokens() {
    let cases: [(StatusFilter, &str); 11] = [
        (StatusFilter::New, "New"),
        (StatusFilter::Incomplete, "Incomplete"),
        (StatusFilter::Opinion, "Opinion"),
        (StatusFilter::Invalid, "Invalid"),
        (StatusFilter::WontFix, "Won't+Fix"),
        (StatusFilter::Confirmed, "Confirmed"),
        (StatusFilter::Triaged, "Triaged"),
        (StatusFilter::InProgress, "In+Progress"),
        (StatusFilter::Deferred, "Deferred"),
        (StatusFilter::FixCommitted, "Fix+Committed"),
        (StatusFilter::FixReleased, "Fix+Released"),
    ];
    for (f, tok) in cases {
        assert_eq!(f.token(), tok);
    }
}
