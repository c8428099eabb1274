use kanban_ui::body::{board_heading, card_heading, due_date_style, priority_style, status_style, CardTextStyle};
use kanban_ui::config::{get_config_items, AppConfig};
use kanban_ui::due_date::{card_due_date_urgency, days_until_due, due_date_urgency, DueDateUrgency, DUE_DATE_FORMAT};
use kanban_ui::geometry::Rect;
use kanban_ui::kanban::{CardPriority, CardStatus};
use kanban_ui::lists::{command_highlights, key_for_action, row_height};
use kanban_ui::notices::check_size;
use kanban_ui::popups::render_time;
use kanban_ui::text::{decimal_string, flag_string, marked, shorten};

fn rows(items: &[(&str, &str)]) -> Vec<Vec<String>> {
    items.iter().map(|(k, v)| vec![k.to_string(), v.to_string()]).collect()
}

#[test]
fn config_items_of_loaded_settings() {
    let config = AppConfig {
        disable_scrollbars: true,
        warning_delta: 7,
        tickrate: 250,
        no_of_cards_to_show: 4,
        no_of_boards_to_show: 65535,
        enable_mouse_support: false,
    };
    assert_eq!(
        get_config_items(Ok(config)),
        rows(&[
            ("Disable Scrollbars", "true"),
            ("Number of Days to Warn Before Due Date", "7"),
            ("Tickrate", "250"),
            ("Number of Cards to Show per board", "4"),
            ("Number of Boards to Show", "65535"),
            ("Enable Mouse Support", "false"),
        ])
    );
}

#[test]
fn config_items_fall_back_to_defaults() {
    assert_eq!(
        get_config_items(Err("no config file".to_string())),
        rows(&[
            ("Disable Scrollbars", "false"),
            ("Number of Days to Warn Before Due Date", "3"),
            ("Tickrate", "50"),
            ("Number of Cards to Show per board", "2"),
            ("Number of Boards to Show", "3"),
            ("Enable Mouse Support", "true"),
        ])
    );
    assert_eq!(get_config_items(Err(String::new())), AppConfig::default().to_list());
}

#[test]
fn decimal_strings() {
    assert_eq!(decimal_string(0), "0");
    assert_eq!(decimal_string(9), "9");
    assert_eq!(decimal_string(10), "10");
    assert_eq!(decimal_string(1203), "1203");
    assert_eq!(decimal_string(u64::MAX), "18446744073709551615");
    assert_eq!(flag_string(true), "true");
    assert_eq!(flag_string(false), "false");
}

#[test]
fn titles_are_cut_to_length() {
    assert_eq!(shorten("short", 20), "short");
    assert_eq!(shorten("exactly twenty chars", 20), "exactly twenty chars");
    assert_eq!(shorten("one more than twenty!", 20), "one more than twenty...");
    assert_eq!(shorten("äöü-äöü", 3), "äöü...");
    assert_eq!(shorten("abc", 0), "...");
    assert_eq!(shorten("", 0), "");
    assert_eq!(marked(">>", "title"), ">> title");
}

#[test]
fn headings_of_boards_and_cards() {
    assert_eq!(board_heading("Backlog", 12, false), "Backlog (12)");
    assert_eq!(board_heading("Backlog", 0, true), ">> Backlog (0)");
    assert_eq!(
        board_heading("A board with a very long name", 3, true),
        ">> A board with a very ... (3)"
    );
    assert_eq!(card_heading("Write tests", false), "Write tests");
    assert_eq!(card_heading("Write tests", true), ">> Write tests");
    assert_eq!(card_heading("A card with a very long name", false), "A card with a very l...");
}

#[test]
fn size_messages() {
    assert_eq!(check_size(&Rect::new(0, 0, 110, 30)), "Size OK");
    assert_eq!(check_size(&Rect::new(0, 0, 65535, 65535)), "Size OK");
    assert_eq!(
        check_size(&Rect::new(0, 0, 109, 30)),
        "For optimal viewing experience, Terminal width should be >= 110, (current width 109)"
    );
    assert_eq!(
        check_size(&Rect::new(0, 0, 110, 29)),
        "For optimal viewing experience, Terminal height should be >= 30, (current height 29)"
    );
    assert_eq!(
        check_size(&Rect::new(0, 0, 0, 0)),
        "For optimal viewing experience, Terminal width should be >= 110, (current width 0)"
    );
}

#[test]
fn render_times() {
    assert_eq!(render_time(0), "0μs");
    assert_eq!(render_time(1000), "1000μs");
    assert_eq!(render_time(1001), "1ms");
    assert_eq!(render_time(2999), "2ms");
    assert_eq!(render_time(u64::MAX), "18446744073709551ms");
}

#[test]
fn urgency_from_days_left() {
    assert_eq!(due_date_urgency(None, 3), DueDateUrgency::Default);
    assert_eq!(due_date_urgency(Some(-1), 3), DueDateUrgency::Critical);
    assert_eq!(due_date_urgency(Some(i64::MIN), 0), DueDateUrgency::Critical);
    assert_eq!(due_date_urgency(Some(0), 3), DueDateUrgency::Warning);
    assert_eq!(due_date_urgency(Some(3), 3), DueDateUrgency::Warning);
    assert_eq!(due_date_urgency(Some(4), 3), DueDateUrgency::Default);
    assert_eq!(due_date_urgency(Some(0), 0), DueDateUrgency::Warning);
    assert_eq!(due_date_urgency(Some(1), 0), DueDateUrgency::Default);
    assert_eq!(due_date_urgency(Some(65535), 65535), DueDateUrgency::Warning);
    assert_eq!(due_date_urgency(Some(i64::MAX), 65535), DueDateUrgency::Default);
}

#[test]
fn due_dates_are_read_in_the_card_format() {
    assert!(days_until_due("01/01/2000-00:00:00").unwrap() < -9000);
    assert!(days_until_due("01/01/2999-00:00:00").unwrap() > 300000);
    assert_eq!(days_until_due(""), None);
    assert_eq!(days_until_due("not a date"), None);
    assert_eq!(days_until_due("01/01/2000"), None);
    assert_eq!(days_until_due("2000-01-01 00:00:00"), None);
    assert_eq!(days_until_due("31/02/2024-10:00:00"), None);
    assert_eq!(days_until_due("01/01/2000-00:00:00 "), None);
    let now = chrono::Local::now().naive_local();
    let soon = now + chrono::TimeDelta::hours(50);
    assert_eq!(days_until_due(&soon.format(DUE_DATE_FORMAT).to_string()), Some(2));
    let past = now - chrono::TimeDelta::hours(50);
    assert_eq!(days_until_due(&past.format(DUE_DATE_FORMAT).to_string()), Some(-2));
}

#[test]
fn urgency_of_a_card() {
    assert_eq!(card_due_date_urgency("01/01/2000-00:00:00", 3), DueDateUrgency::Critical);
    assert_eq!(card_due_date_urgency("01/01/2999-00:00:00", 3), DueDateUrgency::Default);
    assert_eq!(card_due_date_urgency("tomorrow", 3), DueDateUrgency::Default);
    assert_eq!(card_due_date_urgency("", 3), DueDateUrgency::Default);
    let now = chrono::Local::now().naive_local();
    let soon = (now + chrono::TimeDelta::hours(50)).format(DUE_DATE_FORMAT).to_string();
    assert_eq!(card_due_date_urgency(&soon, 3), DueDateUrgency::Warning);
    assert_eq!(card_due_date_urgency(&soon, 2), DueDateUrgency::Warning);
    assert_eq!(card_due_date_urgency(&soon, 1), DueDateUrgency::Default);
}

#[test]
fn colours_of_card_details() {
    assert_eq!(status_style(CardStatus::Active, false), CardTextStyle::StatusActive);
    assert_eq!(status_style(CardStatus::Complete, false), CardTextStyle::StatusCompleted);
    assert_eq!(status_style(CardStatus::Stale, false), CardTextStyle::StatusStale);
    assert_eq!(status_style(CardStatus::Stale, true), CardTextStyle::Inactive);
    assert_eq!(priority_style(CardPriority::High), CardTextStyle::PriorityHigh);
    assert_eq!(priority_style(CardPriority::Medium), CardTextStyle::PriorityMedium);
    assert_eq!(priority_style(CardPriority::Low), CardTextStyle::PriorityLow);
    assert_eq!(due_date_style(DueDateUrgency::Default, false), CardTextStyle::DueDefault);
    assert_eq!(due_date_style(DueDateUrgency::Warning, false), CardTextStyle::DueWarning);
    assert_eq!(due_date_style(DueDateUrgency::Critical, false), CardTextStyle::DueCritical);
    assert_eq!(due_date_style(DueDateUrgency::Critical, true), CardTextStyle::Inactive);
}

#[test]
fn keys_bound_to_actions() {
    let store: Vec<Vec<String>> = vec![
        vec!["<Up>".into(), "Go up".into()],
        vec!["only one entry".into()],
        Vec::new(),
        vec!["j".into(), "Go down".into(), "extra".into()],
        vec!["<Down>".into(), "Go down".into()],
        vec!["".into(), "Nothing".into()],
    ];
    assert_eq!(key_for_action(&store, "Go up"), "<Up>");
    assert_eq!(key_for_action(&store, "Go down"), "j");
    assert_eq!(key_for_action(&store, "Nothing"), "");
    assert_eq!(key_for_action(&store, "Focus next"), "");
    assert_eq!(key_for_action(&store, "only one entry"), "");
    assert_eq!(key_for_action(&store, "go up"), "");
    assert_eq!(key_for_action(&Vec::new(), "Go up"), "");
}

#[test]
fn heights_of_table_rows() {
    assert_eq!(row_height(&Vec::new()), 1);
    assert_eq!(row_height(&vec!["one line".to_string()]), 1);
    assert_eq!(row_height(&vec!["a\nb".to_string(), "x".to_string()]), 2);
    assert_eq!(row_height(&vec!["a".to_string(), "\n\n\n".to_string(), "b\nc".to_string()]), 4);
    assert_eq!(row_height(&vec!["ä\nö\n".to_string()]), 3);
    assert_eq!(row_height(&vec!["\n".repeat(70000)]), 65535);
}

#[test]
fn characters_that_match_the_search_text() {
    assert_eq!(command_highlights("Save", "as"), vec![true, true, false, false]);
    assert_eq!(command_highlights("Save", "AS"), vec![true, true, false, false]);
    assert_eq!(command_highlights("Go Up", ""), vec![false; 5]);
    assert_eq!(command_highlights("", "abc"), Vec::<bool>::new());
    assert_eq!(command_highlights("Ärger", "ä"), vec![true, false, false, false, false]);
    assert_eq!(command_highlights("a b", "x y"), vec![false, true, false]);
}
