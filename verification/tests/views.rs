use kanban_ui::body::{body_in, body_layout, body_view, render_body, BodyLayout, BoardSlot, CardSlot};
use kanban_ui::config::AppConfig;
use kanban_ui::config_views::{
    config_in, draw_config_table_selector, edit_dialog_in, edited_row, keybindings_in, render_config,
    render_edit_config, render_edit_keybindings, render_edit_specific_keybinding, render_select_default_view,
    select_default_view_in, ChoiceAreas, ConfigAreas, EditDialogAreas, KeybindingsAreas,
};
use kanban_ui::focus::{Focus, PointerState, PopupMode};
use kanban_ui::forms::{calculate_cursor_position, render_new_board_form, render_new_card_form};
use kanban_ui::geometry::{Position, Rect};
use kanban_ui::kanban::{visible_boards_and_cards, Board, BoardCardViewState, Card, CardPriority, CardStatus};
use kanban_ui::layout::{centered_rect, clip, split, splittable, top_left_rect, Constraint, Direction};
use kanban_ui::load_save::{load_save_in, render_load_save, LoadSaveAreas, PreviewKind};
use kanban_ui::main_views::{
    help_menu_in, logs_in, main_menu_in, main_view_in, HelpMenuAreas, MainAreas, MainMenuAreas, render_body_help, render_body_help_log, render_body_log, render_help_menu, render_logs_only, render_main_menu,
    render_title_body, render_title_body_help, render_title_body_help_log, render_title_body_log, render_zen_mode,
};
use kanban_ui::notices::{draw_loading_screen, draw_size_error};
use kanban_ui::panes::{
    help_box, HelpAreas, cursor_in_box, draw_config_help, draw_help, draw_logs, draw_main_menu, draw_title, help_rows_on_the_left,
    render_close_button,
};
use kanban_ui::popups::{
    change_card_status_in, change_ui_mode_in, command_palette_in, view_card_in, CardPopupAreas, CommandPaletteAreas,
    command_list_height, render_change_current_card_status_popup, render_change_ui_mode_popup, render_command_palette,
    render_debug_panel, render_view_card,
};
use kanban_ui::state::{AppState, AppStatus, StyleKind};
use kanban_ui::viewport::Window;

const SCREEN: Rect = Rect { x: 0, y: 0, width: 120, height: 40 };

fn card(id: u128) -> Card {
    Card {
        id,
        name: format!("card {}", id),
        description: String::new(),
        date_created: String::new(),
        date_modified: String::new(),
        date_due: String::new(),
        date_completed: String::new(),
        priority: CardPriority::Low,
        card_status: CardStatus::Active,
        tags: Vec::new(),
        comments: Vec::new(),
    }
}

fn board(id: u128, cards: &[u128]) -> Board {
    Board {
        id,
        name: format!("board {}", id),
        description: String::new(),
        cards: cards.iter().map(|c| card(*c)).collect(),
    }
}

fn sample_boards() -> Vec<Board> {
    vec![board(1, &[11, 12, 13]), board(2, &[21]), board(3, &[31, 32])]
}

fn pointing(x: u16, y: u16) -> AppState {
    let mut state = AppState::default();
    state.pointer = PointerState { x, y, pressed: None };
    state
}

fn inside(area: Rect) -> (u16, u16) {
    (area.x + area.width / 2, area.y + area.height / 2)
}

fn nowhere() -> AppState {
    pointing(60000, 60000)
}

#[test]
fn split_gives_one_rectangle_for_each_constraint() {
    let area = Rect::new(2, 2, 10, 10);
    let chunks = split(area, Direction::Vertical, 0, &vec![Constraint::Length(5), Constraint::Min(0)]).unwrap();
    assert_eq!(chunks, vec![Rect::new(2, 2, 10, 5), Rect::new(2, 7, 10, 5)]);
    let halves = split(
        Rect::new(0, 0, 100, 4),
        Direction::Horizontal,
        0,
        &vec![Constraint::Percentage(50), Constraint::Percentage(50)],
    )
    .unwrap();
    assert_eq!(halves, vec![Rect::new(0, 0, 50, 4), Rect::new(50, 0, 50, 4)]);
    let inner = split(Rect::new(0, 0, 10, 10), Direction::Vertical, 1, &vec![Constraint::Percentage(100)]).unwrap();
    assert_eq!(inner, vec![Rect::new(1, 1, 8, 8)]);
    assert_eq!(split(SCREEN, Direction::Vertical, 0, &Vec::new()), Some(Vec::new()));
}

#[test]
fn split_refuses_what_the_solver_does_not_take() {
    let one = vec![Constraint::Percentage(100)];
    assert_eq!(split(Rect::new(0, 0, 656, 4), Direction::Horizontal, 0, &one), None);
    assert!(split(Rect::new(0, 0, 655, 4), Direction::Horizontal, 0, &one).is_some());
    assert!(split(Rect::new(0, 0, 656, 4), Direction::Vertical, 0, &one).is_some());
    assert!(split(Rect::new(0, 0, 656, 4), Direction::Horizontal, 0, &vec![Constraint::Length(7)]).is_some());
    assert_eq!(split(Rect::new(65535, 0, 1, 1), Direction::Horizontal, 0, &vec![Constraint::Length(1)]), None);
    assert_eq!(split(Rect::new(0, 65535, 1, 1), Direction::Horizontal, 0, &vec![Constraint::Length(1)]), None);
    assert_eq!(split(Rect::new(0, 0, 10, 10), Direction::Horizontal, 32768, &vec![Constraint::Length(1)]), None);
    assert!(split(Rect::new(0, 0, 10, 10), Direction::Horizontal, 32767, &vec![Constraint::Length(1)]).is_some());
    assert!(!splittable(Rect::new(65535, 0, 0, 0), Direction::Vertical, 1, &Vec::new()));
    assert!(splittable(Rect::new(65534, 0, 1, 0), Direction::Vertical, 1, &Vec::new()));
    assert!(splittable(Rect::new(0, 0, 657, 4), Direction::Horizontal, 1, &one));
    assert!(!splittable(Rect::new(0, 0, 658, 4), Direction::Horizontal, 1, &one));
    assert!(!splittable(Rect::new(0, 0, 657, 4), Direction::Horizontal, 0, &one));
}

#[test]
fn centered_and_corner_rectangles() {
    assert_eq!(centered_rect(50, 50, Rect::new(0, 0, 100, 100)), Some(Rect::new(25, 25, 50, 50)));
    assert_eq!(centered_rect(101, 50, Rect::new(0, 0, 100, 100)), None);
    assert_eq!(centered_rect(50, 101, Rect::new(0, 0, 100, 100)), None);
    assert_eq!(centered_rect(50, 50, Rect::new(0, 0, 100, 2000)), None);
    assert_eq!(top_left_rect(30, 30, Rect::new(0, 0, 100, 100)), Some(Rect::new(0, 0, 30, 30)));
    assert_eq!(top_left_rect(130, 30, Rect::new(0, 0, 100, 100)), None);
    assert_eq!(render_debug_panel(Rect::new(0, 0, 100, 100), None).unwrap().area, Rect::new(0, 0, 30, 30));
    assert_eq!(render_debug_panel(Rect::new(0, 0, 100, 3000), Some(5)), None);
}

#[test]
fn title_bar_styles() {
    let area = Rect::new(0, 0, 120, 3);
    assert_eq!(draw_title(&nowhere(), area).style, StyleKind::Default);
    assert_eq!(draw_title(&pointing(5, 1), area).style, StyleKind::MouseHighlight);
    let mut state = nowhere();
    state.focus = Focus::Title;
    assert_eq!(draw_title(&state, area).style, StyleKind::Focused);
    let mut state = pointing(5, 1);
    state.popup_mode = Some(PopupMode::ViewCard);
    state.focus = Focus::Title;
    assert_eq!(draw_title(&state, area).style, StyleKind::Inactive);
    assert_eq!(draw_title(&state, area).area, area);
}

#[test]
fn log_box_styles() {
    let area = Rect::new(0, 30, 120, 8);
    let mut state = pointing(5, 33);
    assert_eq!(draw_logs(&state, true, false, area).style, StyleKind::MouseHighlight);
    assert_eq!(draw_logs(&state, true, true, area).style, StyleKind::Inactive);
    assert!(draw_logs(&state, true, true, area).muted);
    state.popup_mode = Some(PopupMode::EditGeneralConfig);
    state.focus = Focus::Log;
    assert_eq!(draw_logs(&state, true, false, area).style, StyleKind::Focused);
    assert_eq!(draw_logs(&state, false, false, area).style, StyleKind::Default);
    assert!(!draw_logs(&state, false, false, area).muted);
}

#[test]
fn help_box_styles_and_columns() {
    let area = Rect::new(0, 20, 120, 5);
    let pane = draw_help(&nowhere(), area).unwrap();
    assert_eq!((pane.left.x, pane.left.y, pane.left.height), (1, 21, 3));
    assert_eq!(pane.separator.x, pane.left.x + pane.left.width);
    assert_eq!(pane.right.x, pane.separator.x + pane.separator.width);
    assert_eq!(pane.right.x + pane.right.width, 119);
    assert_eq!(pane.style, StyleKind::Default);
    assert_eq!(pane.row_style, StyleKind::Focused);
    assert_eq!(pane.separator_style, StyleKind::Default);
    let mut state = nowhere();
    state.focus = Focus::MainMenuHelp;
    assert_eq!(draw_help(&state, area).unwrap().style, StyleKind::Focused);
    state.focus = Focus::Help;
    assert_eq!(draw_help(&state, area).unwrap().style, StyleKind::Focused);
    state.popup_mode = Some(PopupMode::ViewCard);
    let pane = draw_help(&state, area).unwrap();
    assert_eq!((pane.style, pane.row_style, pane.separator_style), (
        StyleKind::Inactive,
        StyleKind::Inactive,
        StyleKind::Inactive,
    ));
    assert_eq!(draw_help(&pointing(3, 22), area).unwrap().style, StyleKind::MouseHighlight);
    assert_eq!(draw_help(&nowhere(), Rect::new(0, 0, 1400, 5)), None);
    assert_eq!(help_rows_on_the_left(7), 3);
    assert_eq!(help_rows_on_the_left(0), 0);
}

#[test]
fn close_button_and_lists() {
    assert_eq!(render_close_button(&nowhere(), Rect::new(0, 0, 2, 40)), None);
    let button = render_close_button(&nowhere(), SCREEN).unwrap();
    assert_eq!(button.area, Rect::new(117, 0, 3, 3));
    assert_eq!(button.style, StyleKind::Error);
    assert_eq!(render_close_button(&pointing(118, 2), SCREEN).unwrap().style, StyleKind::MouseHighlight);
    let menu = draw_main_menu(&nowhere(), Rect::new(0, 3, 120, 16));
    assert_eq!((menu.border_style, menu.text_style, menu.highlight_style), (
        StyleKind::Default,
        StyleKind::Default,
        StyleKind::ListSelect,
    ));
    let help = draw_config_help(Focus::ConfigHelp, false, Rect::new(0, 0, 5, 5));
    assert_eq!((help.style, help.text_style, help.key_style), (
        StyleKind::Focused,
        StyleKind::Default,
        StyleKind::HelpKey,
    ));
    let help = draw_config_help(Focus::ConfigHelp, true, Rect::new(0, 0, 5, 5));
    assert_eq!((help.style, help.text_style, help.key_style), (
        StyleKind::Inactive,
        StyleKind::Inactive,
        StyleKind::Inactive,
    ));
    assert_eq!(draw_config_help(Focus::Body, false, Rect::new(0, 0, 5, 5)).style, StyleKind::Default);
}

#[test]
fn cursor_in_a_box() {
    let area = Rect::new(10, 5, 12, 4);
    assert_eq!(cursor_in_box(area, 0), Some(Position { x: 11, y: 6 }));
    assert_eq!(cursor_in_box(area, 9), Some(Position { x: 20, y: 6 }));
    assert_eq!(cursor_in_box(area, 10), Some(Position { x: 11, y: 7 }));
    assert_eq!(cursor_in_box(area, 25), Some(Position { x: 16, y: 8 }));
    assert_eq!(cursor_in_box(Rect::new(0, 0, 2, 4), 0), None);
    assert_eq!(cursor_in_box(Rect::new(0, 0, 3, 4), 70000), None);
    assert_eq!(cursor_in_box(Rect::new(65530, 0, 12, 4), 9), None);
    assert_eq!(cursor_in_box(area, usize::MAX), None);
}

#[test]
fn cursor_in_wrapped_lines() {
    let lines: Vec<String> = vec!["Memory safety".into(), "without garbage".into(), "collection.".into()];
    let area = Rect::new(10, 5, 17, 5);
    assert_eq!(calculate_cursor_position(&lines, 0, area), Some(Position { x: 11, y: 6 }));
    assert_eq!(calculate_cursor_position(&lines, 13, area), Some(Position { x: 24, y: 6 }));
    assert_eq!(calculate_cursor_position(&lines, 14, area), Some(Position { x: 12, y: 7 }));
    assert_eq!(calculate_cursor_position(&lines, 28, area), Some(Position { x: 26, y: 7 }));
    assert_eq!(calculate_cursor_position(&lines, 29, area), Some(Position { x: 12, y: 8 }));
    assert_eq!(calculate_cursor_position(&lines, 50, area), Some(Position { x: 33, y: 8 }));
    assert_eq!(calculate_cursor_position(&Vec::new(), 4, area), Some(Position { x: 15, y: 6 }));
    assert_eq!(calculate_cursor_position(&lines, 70000, area), None);
    assert_eq!(calculate_cursor_position(&vec!["äöü".to_string(), "x".to_string()], 4, area), Some(Position { x: 12, y: 7 }));
}

#[test]
fn main_views_have_the_parts_that_their_names_say() {
    let boards = sample_boards();
    let config = AppConfig::default();
    let (_, visible) = visible_boards_and_cards(&boards, 3, 2, None, None);
    let cases: Vec<(bool, bool, bool)> = vec![
        (false, false, false),
        (true, false, false),
        (false, true, false),
        (false, false, true),
        (true, true, false),
        (true, false, true),
        (false, true, true),
        (true, true, true),
    ];
    for (title, help, log) in cases {
        let mut state = nowhere();
        let view = match (title, help, log) {
            (false, false, false) => render_zen_mode(SCREEN, &mut state, &config, &boards, &visible),
            (true, false, false) => render_title_body(SCREEN, &mut state, &config, &boards, &visible),
            (false, true, false) => render_body_help(SCREEN, &mut state, &config, &boards, &visible),
            (false, false, true) => render_body_log(SCREEN, &mut state, &config, &boards, &visible),
            (true, true, false) => render_title_body_help(SCREEN, &mut state, &config, &boards, &visible),
            (true, false, true) => render_title_body_log(SCREEN, &mut state, &config, &boards, &visible),
            (false, true, true) => render_body_help_log(SCREEN, &mut state, &config, &boards, &visible),
            (true, true, true) => render_title_body_help_log(SCREEN, &mut state, &config, &boards, &visible),
        }
        .unwrap();
        assert_eq!(view.title.is_some(), title);
        assert_eq!(view.help.is_some(), help);
        assert_eq!(view.log.is_some(), log);
        assert_eq!(state, nowhere());
        assert_eq!(view.body.boards.len(), 3);
        assert_eq!(view.body.boards[0].cards.len(), 2);
        assert_eq!(view.body.boards[1].cards.len(), 1);
        assert!(view.body.gauge.is_some());
        let mut top = 0;
        if let Some(t) = view.title {
            assert_eq!((t.area.x, t.area.y, t.area.width), (0, 0, 120));
            top = t.area.height;
        }
        assert_eq!(view.body.boards[0].area.y, top);
        let gauge = view.body.gauge.unwrap().area;
        let mut bottom = gauge.y + gauge.height;
        if let Some(h) = view.help {
            assert_eq!(h.area.y, bottom);
            bottom = h.area.y + h.area.height;
        }
        if let Some(l) = view.log {
            assert_eq!(l.area.y, bottom);
            bottom = l.area.y + l.area.height;
        }
        assert_eq!(bottom, 40);
    }
    let mut state = nowhere();
    let view = render_title_body_help_log(SCREEN, &mut state, &config, &boards, &visible).unwrap();
    assert_eq!(view.title.unwrap().area, Rect::new(0, 0, 120, 3));
    assert_eq!(view.help.unwrap().area, Rect::new(0, 27, 120, 5));
    assert_eq!(view.log.unwrap().area, Rect::new(0, 32, 120, 8));
}

#[test]
fn pointer_takes_focus_in_a_main_view() {
    let boards = sample_boards();
    let config = AppConfig::default();
    let (_, visible) = visible_boards_and_cards(&boards, 3, 2, None, None);
    let mut probe = nowhere();
    let layout = render_title_body_help_log(SCREEN, &mut probe, &config, &boards, &visible).unwrap();

    let (x, y) = inside(layout.title.unwrap().area);
    let mut state = pointing(x, y);
    let view = render_title_body_help_log(SCREEN, &mut state, &config, &boards, &visible).unwrap();
    assert_eq!(state.focus, Focus::Title);
    assert_eq!(state.mouse_focus, Some(Focus::Title));
    assert_eq!(view.title.unwrap().style, StyleKind::MouseHighlight);
    assert_eq!(view.log.unwrap().style, StyleKind::Default);

    let (x, y) = inside(layout.help.unwrap().area);
    let mut state = pointing(x, y);
    render_title_body_help_log(SCREEN, &mut state, &config, &boards, &visible).unwrap();
    assert_eq!(state.focus, Focus::Help);

    let (x, y) = inside(layout.log.unwrap().area);
    let mut state = pointing(x, y);
    let view = render_title_body_help_log(SCREEN, &mut state, &config, &boards, &visible).unwrap();
    assert_eq!(state.focus, Focus::Log);
    assert_eq!(view.log.unwrap().style, StyleKind::MouseHighlight);

    let card = layout.body.boards[2].cards[1];
    assert_eq!(card.card_id, 32);
    let (x, y) = inside(card.area);
    let mut state = pointing(x, y);
    let view = render_title_body_help_log(SCREEN, &mut state, &config, &boards, &visible).unwrap();
    assert_eq!(state.focus, Focus::Body);
    assert_eq!(state.current_board_id, Some(3));
    assert_eq!(state.current_card_id, Some(32));
    assert_eq!(view.body.boards[2].cards[1].style, StyleKind::MouseHighlight);
    assert_eq!(view.body.boards[2].border_style, StyleKind::MouseHighlight);
    assert_eq!(view.body.boards[0].border_style, StyleKind::Default);

    let mut state = pointing(x, y);
    state.popup_mode = Some(PopupMode::CommandPalette);
    state.focus = Focus::CommandPalette;
    let before = state;
    let view = render_title_body_help_log(SCREEN, &mut state, &config, &boards, &visible).unwrap();
    assert_eq!(state, before);
    assert_eq!(view.body.boards[2].cards[1].style, StyleKind::Inactive);
    assert_eq!(view.title.unwrap().style, StyleKind::Inactive);
    assert_eq!(view.log.unwrap().style, StyleKind::Inactive);
    assert_eq!(view.body.progress_style, StyleKind::Inactive);
}

#[test]
fn views_that_cannot_be_laid_out_leave_the_state_alone() {
    let boards = sample_boards();
    let config = AppConfig::default();
    let (_, visible) = visible_boards_and_cards(&boards, 3, 2, None, None);
    let huge = Rect::new(0, 0, 2000, 2000);
    let mut state = pointing(5, 1);
    assert!(render_title_body_help_log(huge, &mut state, &config, &boards, &visible).is_none());
    assert!(render_zen_mode(huge, &mut state, &config, &boards, &visible).is_none());
    assert!(render_body(huge, &mut state, &config, &boards, &visible).is_none());
    assert!(render_main_menu(Rect::new(65535, 0, 5, 5), &mut state, 5).is_none());
    assert!(render_help_menu(huge, &mut state, &config).is_none());
    assert!(render_logs_only(huge, &mut state, &config).is_none());
    assert!(render_config(Rect::new(0, 0, 2000, 20), &mut state, &config, 6).is_none());
    assert!(render_edit_config(huge, &mut state, &config, 6, None, 3).is_none());
    assert!(render_new_board_form(Rect::new(0, 65535, 2, 2), &mut state, &config, "a", "b").is_none());
    assert!(render_load_save(huge, &mut state, &config, 3, None, &Vec::new()).is_none());
    assert!(render_command_palette(huge, &mut state, &config, 3, 0).is_none());
    assert!(render_change_ui_mode_popup(Rect::new(0, 0, 100, 5), &mut state, &config, 9).is_none());
    assert!(render_change_ui_mode_popup(Rect::new(0, 0, 100, 0), &mut state, &config, 9).is_none());
    assert_eq!(state, pointing(5, 1));
}

#[test]
fn body_without_boards_is_empty() {
    let config = AppConfig::default();
    let mut state = pointing(5, 5);
    let view = render_body(SCREEN, &mut state, &config, &Vec::new(), &Vec::new()).unwrap();
    assert!(view.is_empty());
    assert_eq!(view.area, SCREEN);
    assert!(view.gauge.is_none());
    assert_eq!(view.error_style, StyleKind::Error);
    assert_eq!(state, pointing(5, 5));
    let view = render_body(Rect::new(0, 0, 3000, 3000), &mut state, &config, &Vec::new(), &Vec::new()).unwrap();
    assert!(view.is_empty());
}

#[test]
fn body_layout_has_a_slot_for_each_board_and_card_on_screen() {
    let boards = sample_boards();
    let mut config = AppConfig::default();
    config.no_of_boards_to_show = 2;
    config.no_of_cards_to_show = 2;
    let (_, visible) = visible_boards_and_cards(&boards, 2, 2, None, None);
    let layout = body_layout(Rect::new(0, 0, 100, 30), &config, &visible).unwrap();
    assert_eq!(layout.boards.len(), 2);
    assert_eq!(layout.boards[0].cards.len(), 2);
    assert_eq!(layout.boards[1].cards.len(), 1);
    assert!(layout.gauge.is_some());
    assert!(layout.boards[0].track.is_some());
    assert_eq!((layout.boards[0].area.x, layout.boards[0].area.width), (0, 50));
    assert_eq!((layout.boards[1].area.x, layout.boards[1].area.width), (50, 50));
    let gauge = layout.gauge.unwrap();
    assert_eq!(gauge.y, layout.boards[0].area.height);
    assert_eq!(gauge.y + gauge.height, 30);
    config.disable_scrollbars = true;
    let layout = body_layout(Rect::new(0, 0, 100, 30), &config, &visible).unwrap();
    assert!(layout.gauge.is_none());
    assert!(layout.boards[0].track.is_none());
    assert_eq!(layout.boards[0].area, Rect::new(0, 0, 50, 30));
    let all: Vec<BoardCardViewState> = visible_boards_and_cards(&boards, 9, 9, None, None).1;
    let layout = body_layout(Rect::new(0, 0, 100, 30), &config, &all).unwrap();
    assert_eq!(layout.boards.len(), 2);
    assert_eq!(layout.boards[0].cards.len(), 2);
}

fn slot(x: u16, y: u16) -> CardSlot {
    CardSlot {
        area: Rect::new(x, y, 20, 8),
        text_area: Rect::new(x + 1, y + 1, 18, 3),
        info_area: Rect::new(x + 1, y + 4, 18, 3),
    }
}

fn hand_made_layout() -> BodyLayout {
    BodyLayout {
        area: Rect::new(0, 0, 60, 21),
        boards_area: Rect::new(0, 0, 60, 20),
        boards: vec![
            BoardSlot {
                area: Rect::new(0, 0, 30, 20),
                track: Some(Rect::new(0, 0, 1, 12)),
                cards_area: Rect::new(1, 0, 29, 20),
                cards: vec![slot(2, 1), slot(2, 10)],
            },
            BoardSlot {
                area: Rect::new(30, 0, 30, 20),
                track: Some(Rect::new(30, 0, 1, 1)),
                cards_area: Rect::new(31, 0, 29, 20),
                cards: vec![slot(32, 1)],
            },
        ],
        gauge: Some(Rect::new(0, 20, 60, 1)),
    }
}

#[test]
fn body_view_for_given_places() {
    let boards = vec![board(1, &[11, 12, 13, 14]), board(2, &[21]), board(3, &[])];
    let config = AppConfig { no_of_boards_to_show: 2, ..AppConfig::default() };
    let visible = vec![
        BoardCardViewState {
            board_id: 1,
            window: Window { start: 2, len: 2 },
            selected_card: Some(13),
            visible_cards: vec![13, 14],
        },
        BoardCardViewState {
            board_id: 2,
            window: Window { start: 0, len: 1 },
            selected_card: None,
            visible_cards: vec![77],
        },
    ];
    let mut state = pointing(5, 12);
    state.focus = Focus::Body;
    state.current_board_id = Some(1);
    state.current_card_id = Some(13);
    let view = body_view(&hand_made_layout(), &state, &config, &boards, &visible);
    assert_eq!(view.boards.len(), 2);
    let first = &view.boards[0];
    assert_eq!(first.board_id, 1);
    assert_eq!(first.position, Some(0));
    assert!(first.is_current);
    assert_eq!(first.border_style, StyleKind::MouseHighlight);
    assert_eq!(first.style, StyleKind::Default);
    let track = first.scroll.unwrap();
    assert_eq!(track.area, Rect::new(0, 0, 1, 12));
    assert_eq!(track.blocks, 7);
    assert_eq!(first.cards.len(), 2);
    assert_eq!(first.cards[0].card_id, 13);
    assert!(first.cards[0].found);
    assert!(first.cards[0].is_current);
    assert_eq!(first.cards[0].style, StyleKind::Focused);
    assert_eq!(first.cards[1].card_id, 14);
    assert!(!first.cards[1].is_current);
    assert_eq!(first.cards[1].style, StyleKind::MouseHighlight);
    assert_eq!(first.cards[1].area, Rect::new(2, 10, 20, 8));
    let second = &view.boards[1];
    assert_eq!(second.position, Some(1));
    assert!(!second.is_current);
    assert_eq!(second.border_style, StyleKind::Default);
    assert_eq!(second.scroll.unwrap().blocks, 0);
    assert!(!second.cards[0].found);
    assert_eq!(second.cards[0].card_id, 77);
    let gauge = view.gauge.unwrap();
    assert_eq!(gauge.percent, 33);
    assert_eq!(view.progress_style, StyleKind::ProgressBar);

    state.current_card_id = None;
    state.pointer = PointerState { x: 500, y: 500, pressed: None };
    let view = body_view(&hand_made_layout(), &state, &config, &boards, &visible);
    assert_eq!(view.boards[0].border_style, StyleKind::Focused);
    assert_eq!(view.boards[0].scroll.unwrap().blocks, 2);
    assert_eq!(view.boards[0].cards[0].style, StyleKind::Default);

    state.current_board_id = Some(3);
    let view = body_view(&hand_made_layout(), &state, &config, &boards, &visible);
    assert_eq!(view.gauge.unwrap().percent, 100);
    assert_eq!(view.boards[0].border_style, StyleKind::Default);
}

#[test]
fn boards_that_are_gone_are_not_drawn() {
    let boards = vec![board(2, &[21])];
    let config = AppConfig { no_of_boards_to_show: 2, ..AppConfig::default() };
    let visible = vec![
        BoardCardViewState {
            board_id: 1,
            window: Window { start: 0, len: 2 },
            selected_card: None,
            visible_cards: vec![13, 14],
        },
        BoardCardViewState {
            board_id: 2,
            window: Window { start: 0, len: 1 },
            selected_card: None,
            visible_cards: vec![21],
        },
    ];
    let mut state = pointing(5, 12);
    let view = body_view(&hand_made_layout(), &state, &config, &boards, &visible);
    assert_eq!(view.boards[0].position, None);
    assert!(view.boards[0].cards.is_empty());
    assert!(view.boards[0].scroll.is_none());
    assert_eq!(view.boards[1].position, Some(0));
    let shown = render_body(Rect::new(0, 0, 100, 30), &mut state, &config, &boards, &visible).unwrap();
    assert_eq!(shown.boards[0].position, None);
    assert_eq!(state, pointing(5, 12));
}

#[test]
fn main_menu_view() {
    let mut probe = nowhere();
    let layout = render_main_menu(SCREEN, &mut probe, 5).unwrap();
    assert_eq!(layout.title.area, Rect::new(0, 0, 120, 3));
    assert_eq!(layout.menu.area, Rect::new(0, 3, 120, 16));
    assert_eq!(layout.log.area, Rect::new(0, 32, 120, 8));
    let mut state = pointing(10, 6);
    let view = render_main_menu(SCREEN, &mut state, 5).unwrap();
    assert_eq!(state.focus, Focus::MainMenu);
    assert_eq!(state.main_menu_state, Some(2));
    assert_eq!(view.menu.border_style, StyleKind::MouseHighlight);
    let mut state = pointing(10, 12);
    render_main_menu(SCREEN, &mut state, 5).unwrap();
    assert_eq!(state.focus, Focus::MainMenu);
    assert_eq!(state.main_menu_state, None);
}

#[test]
fn help_and_log_views() {
    let config = AppConfig::default();
    let mut state = pointing(118, 1);
    let view = render_help_menu(SCREEN, &mut state, &config).unwrap();
    assert_eq!(state.focus, Focus::CloseButton);
    assert_eq!(view.close.unwrap().style, StyleKind::MouseHighlight);
    assert_eq!(view.help.style, StyleKind::MouseHighlight);
    assert_eq!(view.log.area.y, view.help.area.y + view.help.area.height);
    assert_eq!(view.log.area.y + view.log.area.height, 40);
    let quiet = AppConfig { enable_mouse_support: false, ..config };
    let mut state = pointing(118, 1);
    let view = render_help_menu(SCREEN, &mut state, &quiet).unwrap();
    assert_eq!(view.close, None);
    assert_eq!(state.focus, Focus::Help);

    let mut state = pointing(50, 20);
    state.focus = Focus::Log;
    let view = render_logs_only(SCREEN, &mut state, &config).unwrap();
    assert_eq!(view.log.area, SCREEN);
    assert_eq!(view.log.style, StyleKind::MouseHighlight);
    assert_eq!(state.mouse_focus, Some(Focus::Log));
    let mut state = nowhere();
    state.focus = Focus::Log;
    assert_eq!(render_logs_only(SCREEN, &mut state, &config).unwrap().log.style, StyleKind::Default);
}

#[test]
fn config_view() {
    let config = AppConfig::default();
    let mut probe = nowhere();
    let layout = render_config(SCREEN, &mut probe, &config, 6).unwrap();
    assert_eq!(layout.title.area, Rect::new(0, 0, 120, 3));
    assert_eq!(layout.reset_all.area.height, 3);
    assert_eq!(layout.reset_all.area.width, 60);
    assert_eq!(layout.reset_all.style, StyleKind::Default);

    let mut state = pointing(10, layout.table.area.y + 3);
    let view = render_config(SCREEN, &mut state, &config, 6).unwrap();
    assert_eq!(state.focus, Focus::ConfigTable);
    assert_eq!(state.config_state, Some(2));
    assert_eq!(view.table.border_style, StyleKind::MouseHighlight);

    let (x, y) = inside(layout.reset_config.area);
    let mut state = pointing(x, y);
    let view = render_config(SCREEN, &mut state, &config, 6).unwrap();
    assert_eq!(state.focus, Focus::ExtraFocus);
    assert_eq!(view.reset_config.style, StyleKind::MouseHighlight);
    let (x, y) = inside(layout.reset_all.area);
    let mut state = pointing(x, y);
    render_config(SCREEN, &mut state, &config, 6).unwrap();
    assert_eq!(state.focus, Focus::SubmitButton);

    let mut state = nowhere();
    state.focus = Focus::SubmitButton;
    let view = render_config(SCREEN, &mut state, &config, 6).unwrap();
    assert_eq!(view.reset_all.style, StyleKind::Error);
    assert_eq!(view.reset_config.style, StyleKind::Default);

    let mut state = nowhere();
    state.config_state = Some(4);
    state.pointer.y = 15;
    let table = draw_config_table_selector(&state, Rect::new(0, 10, 50, 12));
    assert_eq!(table.highlight_style, StyleKind::MouseHighlight);
    state.pointer.y = 14;
    assert_eq!(draw_config_table_selector(&state, Rect::new(0, 10, 50, 12)).highlight_style, StyleKind::Default);
    state.focus = Focus::ConfigTable;
    assert_eq!(draw_config_table_selector(&state, Rect::new(0, 10, 50, 12)).highlight_style, StyleKind::Focused);
}

#[test]
fn edit_popups() {
    let config = AppConfig::default();
    let mut probe = nowhere();
    probe.popup_mode = Some(PopupMode::EditGeneralConfig);
    let layout = render_edit_config(SCREEN, &mut probe, &config, 6, None, 4).unwrap();
    assert_eq!(layout.cursor, None);
    assert!(layout.submit.is_some());
    assert_eq!(layout.submit.unwrap().area.height, 3);
    assert_eq!(layout.log.style, StyleKind::Default);

    let (x, y) = inside(layout.edit.area);
    let mut state = pointing(x, y);
    state.popup_mode = Some(PopupMode::EditGeneralConfig);
    state.app_status = AppStatus::UserInput;
    let view = render_edit_config(SCREEN, &mut state, &config, 6, None, 4).unwrap();
    assert_eq!(state.focus, Focus::EditGeneralConfigPopup);
    assert_eq!(view.edit.style, StyleKind::MouseHighlight);
    assert_eq!(view.cursor, Some(Position { x: view.edit.area.x + 5, y: view.edit.area.y + 1 }));
    state.current_cursor_position = Some(2);
    let view = render_edit_config(SCREEN, &mut state, &config, 6, None, 4).unwrap();
    assert_eq!(view.cursor, Some(Position { x: view.edit.area.x + 3, y: view.edit.area.y + 1 }));

    let mut state = pointing(x, y);
    state.app_status = AppStatus::UserInput;
    render_edit_config(SCREEN, &mut state, &config, 6, None, 4).unwrap();
    assert_eq!(state.focus, Focus::NoFocus);

    let mut state = nowhere();
    state.popup_mode = Some(PopupMode::EditSpecificKeyBinding);
    state.app_status = AppStatus::KeyBindMode;
    let view = render_edit_specific_keybinding(SCREEN, &mut state, &config, 9, 0).unwrap();
    assert_eq!(view.edit.style, StyleKind::Focused);
    assert_eq!(view.submit.unwrap().style, StyleKind::Focused);
    assert_eq!(view.cursor, Some(Position { x: view.edit.area.x + 1, y: view.edit.area.y + 1 }));
    let (x, y) = inside(view.submit.unwrap().area);
    state.pointer = PointerState { x, y, pressed: None };
    render_edit_specific_keybinding(SCREEN, &mut state, &config, 9, 0).unwrap();
    assert_eq!(state.focus, Focus::SubmitButton);

    let quiet = AppConfig { enable_mouse_support: false, ..config };
    let mut state = nowhere();
    let view = render_edit_config(SCREEN, &mut state, &quiet, 6, None, 0).unwrap();
    assert!(view.submit.is_none());
    assert!(view.close.is_none());

    assert_eq!(edited_row(6, None), Some(0));
    assert_eq!(edited_row(6, Some(5)), Some(5));
    assert_eq!(edited_row(6, Some(6)), None);
    assert_eq!(edited_row(0, None), None);
}

#[test]
fn default_view_popup_selects_the_row_under_the_pointer() {
    let config = AppConfig::default();
    let mut probe = nowhere();
    let layout = render_select_default_view(SCREEN, &mut probe, &config, 8).unwrap();
    assert_eq!(layout.area, Rect::new(18, 6, 84, 28));
    assert_eq!(layout.frame, Rect::new(12, 4, 96, 32));
    let mut state = pointing(30, layout.area.y + 4);
    state.popup_mode = Some(PopupMode::SelectDefaultView);
    render_select_default_view(SCREEN, &mut state, &config, 8).unwrap();
    assert_eq!(state.focus, Focus::SelectDefaultView);
    assert_eq!(state.default_view_state, Some(3));
    let mut state = pointing(30, layout.area.y + 4);
    render_select_default_view(SCREEN, &mut state, &config, 8).unwrap();
    assert_eq!(state.default_view_state, None);
}

#[test]
fn keybindings_view() {
    let config = AppConfig::default();
    let mut state = nowhere();
    state.edit_keybindings_state = Some(4);
    let view = render_edit_keybindings(SCREEN, &mut state, &config, 10).unwrap();
    assert_eq!(view.table.area.y, 3);
    assert_eq!(view.reset.area, Rect::new(0, 37, 120, 3));
    assert_eq!(view.scroll.y, 3);
    assert_eq!(view.scroll.x, 118);
    assert_eq!(view.scroll.blocks, (view.table.area.height - 1) / 2);
    assert_eq!(view.scroll.style, StyleKind::ProgressBar);
    assert_eq!(view.table.highlight_style, StyleKind::Focused);
    let mut state = pointing(10, 9);
    render_edit_keybindings(SCREEN, &mut state, &config, 10).unwrap();
    assert_eq!(state.focus, Focus::EditKeybindingsTable);
    assert_eq!(state.edit_keybindings_state, Some(5));
    let mut state = pointing(10, 38);
    let view = render_edit_keybindings(SCREEN, &mut state, &config, 10).unwrap();
    assert_eq!(state.focus, Focus::SubmitButton);
    assert_eq!(view.reset.style, StyleKind::MouseHighlight);
    let mut state = nowhere();
    let view = render_edit_keybindings(SCREEN, &mut state, &config, 0).unwrap();
    assert_eq!(view.scroll.blocks, 0);
}

#[test]
fn new_board_form() {
    let config = AppConfig::default();
    let size = Rect::new(0, 0, 19, 40);
    let mut state = nowhere();
    state.focus = Focus::NewBoardDescription;
    state.app_status = AppStatus::UserInput;
    state.current_cursor_position = Some(14);
    let view = render_new_board_form(size, &mut state, &config, "Board", "Memory safety without garbage collection.").unwrap();
    assert_eq!(view.fields.len(), 2);
    assert_eq!(view.fields[0].pane.area, Rect::new(0, 3, 19, 5));
    assert_eq!(view.fields[0].lines, vec!["Board"]);
    assert_eq!(view.fields[0].pane.style, StyleKind::Default);
    assert_eq!(view.fields[1].lines, vec!["Memory safety", "without garbage", "collection."]);
    assert_eq!(view.fields[1].pane.style, StyleKind::Focused);
    assert_eq!(view.cursor, Some(Position { x: 2, y: view.fields[1].pane.area.y + 2 }));
    assert_eq!(view.submit.area, Rect::new(0, 37, 19, 3));
    assert_eq!(view.key_style, StyleKind::HelpKey);

    state.current_cursor_position = None;
    let view = render_new_board_form(size, &mut state, &config, "Board", "text").unwrap();
    assert_eq!(view.cursor, Some(Position { x: 1, y: view.fields[1].pane.area.y + 1 }));
    state.app_status = AppStatus::Initialized;
    let view = render_new_board_form(size, &mut state, &config, "Board", "text").unwrap();
    assert_eq!(view.cursor, None);

    let mut state = pointing(5, 5);
    let view = render_new_board_form(size, &mut state, &config, "", "").unwrap();
    assert_eq!(state.focus, Focus::NewBoardName);
    assert_eq!(view.fields[0].pane.style, StyleKind::MouseHighlight);
    assert_eq!(view.fields[0].lines, vec![""]);
    let mut state = pointing(5, 38);
    render_new_board_form(size, &mut state, &config, "", "").unwrap();
    assert_eq!(state.focus, Focus::SubmitButton);
}

#[test]
fn new_card_form() {
    let config = AppConfig::default();
    let mut state = nowhere();
    state.focus = Focus::NewCardDueDate;
    state.app_status = AppStatus::UserInput;
    state.current_cursor_position = Some(3);
    let view = render_new_card_form(SCREEN, &mut state, &config, "Card", "What to do", "01/02/2030").unwrap();
    assert_eq!(view.fields.len(), 3);
    assert_eq!(view.fields[2].lines, vec!["01/02/2030"]);
    assert_eq!(view.fields[2].pane.area.height, 3);
    assert_eq!(view.fields[2].pane.style, StyleKind::Focused);
    assert_eq!(view.cursor, Some(Position { x: 4, y: view.fields[2].pane.area.y + 1 }));
    let (x, y) = inside(view.fields[1].pane.area);
    let mut state = pointing(x, y);
    render_new_card_form(SCREEN, &mut state, &config, "Card", "What to do", "").unwrap();
    assert_eq!(state.focus, Focus::NewCardDescription);
    let (x, y) = inside(view.fields[2].pane.area);
    let mut state = pointing(x, y);
    state.popup_mode = Some(PopupMode::ViewCard);
    let shown = render_new_card_form(SCREEN, &mut state, &config, "Card", "What to do", "").unwrap();
    assert_eq!(state.focus, Focus::NoFocus);
    assert_eq!(shown.fields[2].pane.style, StyleKind::Inactive);
    assert_eq!(shown.heading.style, StyleKind::Inactive);
}

#[test]
fn load_save_view() {
    let config = AppConfig::default();
    let boards = sample_boards();
    let (_, visible) = visible_boards_and_cards(&boards, 3, 2, None, None);
    let mut state = nowhere();
    let view = render_load_save(SCREEN, &mut state, &config, 4, None, &Vec::new()).unwrap();
    assert_eq!(view.preview, PreviewKind::SelectHint);
    assert!(view.body.is_none());
    assert!(view.has_saves);
    assert_eq!((view.list.area.x, view.list.area.y, view.list.area.height), (0, 3, 28));
    assert!(view.list.area.width >= 30);

    let mut state = pointing(5, 6);
    let view = render_load_save(SCREEN, &mut state, &config, 4, None, &Vec::new()).unwrap();
    assert_eq!(state.focus, Focus::LoadSave);
    assert_eq!(state.load_save_state, Some(2));
    assert_eq!(view.preview, PreviewKind::SelectHint);
    let view = render_load_save(SCREEN, &mut state, &config, 4, None, &Vec::new()).unwrap();
    assert_eq!(view.preview, PreviewKind::Waiting);
    let view = render_load_save(SCREEN, &mut state, &config, 4, Some(&boards), &visible).unwrap();
    assert_eq!(view.preview, PreviewKind::Boards);
    assert_eq!(view.body.unwrap().boards.len(), 3);

    let mut state = pointing(5, 6);
    state.popup_mode = Some(PopupMode::CommandPalette);
    render_load_save(SCREEN, &mut state, &config, 4, None, &Vec::new()).unwrap();
    assert_eq!(state.load_save_state, None);
    let mut state = pointing(5, 6);
    state.popup_mode = Some(PopupMode::ViewCard);
    render_load_save(SCREEN, &mut state, &config, 4, None, &Vec::new()).unwrap();
    assert_eq!((state.focus, state.load_save_state), (Focus::NoFocus, None));
    let mut state = pointing(5, 6);
    let view = render_load_save(SCREEN, &mut state, &config, 0, None, &Vec::new()).unwrap();
    assert!(!view.has_saves);
    assert_eq!(state, pointing(5, 6));

    let mut state = nowhere();
    state.load_save_state = Some(0);
    let probe = render_load_save(SCREEN, &mut state, &config, 4, Some(&boards), &visible).unwrap();
    let card = probe.body.unwrap().boards[1].cards[0];
    let (x, y) = inside(card.area);
    state.pointer = PointerState { x, y, pressed: None };
    render_load_save(SCREEN, &mut state, &config, 4, Some(&boards), &visible).unwrap();
    assert_eq!(state.current_card_id, Some(21));
    assert_eq!(state.current_board_id, Some(2));
}

#[test]
fn card_popup() {
    let config = AppConfig::default();
    let boards = sample_boards();
    let mut state = nowhere();
    let empty = render_view_card(SCREEN, &mut state, &config, &boards).unwrap();
    assert_eq!((empty.board, empty.card, empty.close), (None, None, None));
    assert_eq!(empty.area, Rect::new(6, 2, 108, 36));
    assert_eq!(state, nowhere());
    state.current_board_id = Some(3);
    state.current_card_id = Some(32);
    let view = render_view_card(SCREEN, &mut state, &config, &boards).unwrap();
    assert_eq!(view.board, Some(2));
    assert_eq!(view.card, Some(1));
    assert_eq!(view.area, Rect::new(6, 2, 108, 36));
    assert_eq!(view.info_area.height, 12);
    state.current_card_id = Some(11);
    let view = render_view_card(SCREEN, &mut state, &config, &boards).unwrap();
    assert_eq!(view.card, None);
    state.pointer = PointerState { x: 119, y: 0, pressed: None };
    state.popup_mode = Some(PopupMode::ViewCard);
    let view = render_view_card(SCREEN, &mut state, &config, &boards).unwrap();
    assert_eq!(state.focus, Focus::CloseButton);
    assert_eq!(view.close.unwrap().style, StyleKind::MouseHighlight);
    let with_zero = vec![board(0, &[0])];
    let mut state = nowhere();
    let view = render_view_card(SCREEN, &mut state, &config, &with_zero).unwrap();
    assert_eq!((view.board, view.card), (Some(0), Some(0)));
}

#[test]
fn command_palette() {
    let config = AppConfig::default();
    let mut state = nowhere();
    state.popup_mode = Some(PopupMode::CommandPalette);
    let view = render_command_palette(SCREEN, &mut state, &config, 5, 3).unwrap();
    assert_eq!((view.search_area.x, view.search_area.width), (12, 96));
    assert_eq!((view.results_area.x, view.results_area.width), (12, 96));
    assert_eq!(view.cursor, Some(Position { x: 16, y: view.search_area.y + 1 }));
    assert_eq!(command_list_height(0, 40), 3);
    assert_eq!(command_list_height(1, 40), 3);
    assert_eq!(command_list_height(2, 40), 4);
    assert_eq!(command_list_height(5, 40), 7);
    assert_eq!(command_list_height(31, 40), 33);
    assert_eq!(command_list_height(32, 40), 33);
    assert_eq!(command_list_height(500, 40), 33);
    assert_eq!(command_list_height(usize::MAX, 40), 33);
    assert_eq!(command_list_height(usize::MAX, 65535), 65528);
    assert_eq!(command_list_height(5, 7), 0);
    assert_eq!(command_list_height(5, 3), 0);
    assert_eq!(command_list_height(1, 3), 3);
    state.pointer = PointerState { x: 20, y: view.results_area.y + 3, pressed: None };
    state.current_cursor_position = Some(1);
    let view = render_command_palette(SCREEN, &mut state, &config, 5, 3).unwrap();
    assert_eq!(state.focus, Focus::CommandPalette);
    assert_eq!(state.command_palette_list_state, Some(2));
    assert_eq!(view.cursor, Some(Position { x: 14, y: view.search_area.y + 1 }));
}

#[test]
fn list_popups() {
    let config = AppConfig::default();
    let mut state = nowhere();
    state.popup_mode = Some(PopupMode::ChangeUIMode);
    let view = render_change_ui_mode_popup(SCREEN, &mut state, &config, 9).unwrap();
    assert_eq!(view.area, Rect::new(30, 14, 60, 12));
    state.pointer = PointerState { x: 40, y: 17, pressed: None };
    render_change_ui_mode_popup(SCREEN, &mut state, &config, 9).unwrap();
    assert_eq!(state.focus, Focus::ChangeUiModePopup);
    assert_eq!(state.default_view_state, Some(2));

    let mut state = pointing(40, 18);
    state.popup_mode = Some(PopupMode::ChangeCurrentCardStatus);
    let view = render_change_current_card_status_popup(SCREEN, &mut state, &config, 3).unwrap();
    assert_eq!((view.area.x, view.area.width), (30, 60));
    state.pointer = PointerState { x: 40, y: view.area.y + 2, pressed: None };
    render_change_current_card_status_popup(SCREEN, &mut state, &config, 3).unwrap();
    assert_eq!(state.focus, Focus::ChangeCardStatusPopup);
    assert_eq!(state.card_status_selector_state, Some(1));
    assert!(render_change_current_card_status_popup(SCREEN, &mut state, &config, 38).is_none());
    assert!(render_change_current_card_status_popup(SCREEN, &mut state, &config, 37).is_some());
}

#[test]
fn notices() {
    let view = draw_size_error(&Rect::new(0, 0, 50, 20)).unwrap();
    assert_eq!(view.title.area, Rect::new(0, 0, 50, 3));
    assert_eq!(view.body_area, Rect::new(0, 3, 50, 17));
    assert_eq!(view.title.style, StyleKind::MouseHighlight);
    let view = draw_loading_screen(&Rect::new(5, 5, 50, 20)).unwrap();
    assert_eq!(view.title.style, StyleKind::Default);
    assert_eq!(view.title.area, Rect::new(5, 5, 50, 3));
    assert!(draw_loading_screen(&Rect::new(65535, 5, 50, 20)).is_none());
}

fn help_places(y: u16) -> HelpAreas {
    HelpAreas {
        area: Rect::new(0, y, 100, 5),
        left: Rect::new(1, y + 1, 49, 3),
        separator: Rect::new(50, y + 1, 1, 3),
        right: Rect::new(51, y + 1, 48, 3),
    }
}

#[test]
fn main_view_in_given_places() {
    let boards = vec![board(1, &[11, 12, 13, 14]), board(2, &[21]), board(3, &[])];
    let config = AppConfig { no_of_boards_to_show: 2, ..AppConfig::default() };
    let visible = vec![
        BoardCardViewState {
            board_id: 1,
            window: Window { start: 2, len: 2 },
            selected_card: Some(13),
            visible_cards: vec![13, 14],
        },
        BoardCardViewState {
            board_id: 2,
            window: Window { start: 0, len: 1 },
            selected_card: None,
            visible_cards: vec![21],
        },
    ];
    let mut layout = hand_made_layout();
    for slot in layout.boards.iter_mut() {
        slot.area.y += 3;
        if let Some(track) = slot.track.as_mut() {
            track.y += 3;
        }
        for card in slot.cards.iter_mut() {
            card.area.y += 3;
        }
    }
    let areas = MainAreas {
        title: Some(Rect::new(0, 0, 100, 2)),
        body: layout,
        help: Some(help_places(30)),
        log: Some(Rect::new(0, 36, 100, 8)),
    };
    let mut state = pointing(50, 1);
    let view = main_view_in(&areas, &mut state, &config, &boards, &visible);
    assert_eq!(state.focus, Focus::Title);
    assert_eq!(view.title.unwrap().style, StyleKind::MouseHighlight);
    assert_eq!(view.help.unwrap().left, Rect::new(1, 31, 49, 3));
    assert_eq!(view.log.unwrap().area, Rect::new(0, 36, 100, 8));
    assert_eq!(view.body.boards[0].area, Rect::new(0, 3, 30, 20));

    let mut state = pointing(40, 8);
    let view = main_view_in(&areas, &mut state, &config, &boards, &visible);
    assert_eq!((state.focus, state.current_board_id, state.current_card_id), (Focus::Body, Some(2), Some(21)));
    assert_eq!(view.body.boards[1].cards[0].style, StyleKind::MouseHighlight);

    let mut state = pointing(55, 20);
    main_view_in(&areas, &mut state, &config, &boards, &visible);
    assert_eq!((state.focus, state.current_board_id, state.current_card_id), (Focus::Body, Some(2), None));

    let mut state = pointing(50, 33);
    main_view_in(&areas, &mut state, &config, &boards, &visible);
    assert_eq!(state.focus, Focus::Help);
    let mut state = pointing(50, 40);
    main_view_in(&areas, &mut state, &config, &boards, &visible);
    assert_eq!(state.focus, Focus::Log);
    let mut state = pointing(50, 28);
    main_view_in(&areas, &mut state, &config, &boards, &visible);
    assert_eq!(state, pointing(50, 28));

    let bare = MainAreas { title: None, body: hand_made_layout(), help: None, log: None };
    let mut state = pointing(5, 12);
    let view = main_view_in(&bare, &mut state, &config, &boards, &visible);
    assert!(view.title.is_none() && view.help.is_none() && view.log.is_none());
    assert_eq!((state.current_board_id, state.current_card_id), (Some(1), Some(14)));
    let mut state = pointing(5, 12);
    let body = body_in(&hand_made_layout(), &mut state, &config, &boards, &visible);
    assert_eq!(body, view.body);
    assert_eq!((state.current_board_id, state.current_card_id), (Some(1), Some(14)));
}

#[test]
fn menu_help_and_log_views_in_given_places() {
    let areas = MainMenuAreas {
        title: Rect::new(0, 0, 100, 3),
        menu: Rect::new(0, 4, 100, 10),
        help: help_places(15),
        log: Rect::new(0, 21, 100, 8),
    };
    let mut state = pointing(7, 8);
    let view = main_menu_in(areas, &mut state, 5);
    assert_eq!((state.focus, state.main_menu_state), (Focus::MainMenu, Some(3)));
    assert_eq!(view.menu.border_style, StyleKind::MouseHighlight);
    assert_eq!(view.help, help_box(&pointing(7, 8), help_places(15)));
    let mut state = pointing(7, 11);
    main_menu_in(areas, &mut state, 5);
    assert_eq!((state.focus, state.main_menu_state), (Focus::MainMenu, None));
    let mut state = pointing(7, 13);
    main_menu_in(areas, &mut state, 50);
    assert_eq!((state.focus, state.main_menu_state), (Focus::MainMenu, Some(8)));
    let mut state = pointing(7, 14);
    main_menu_in(areas, &mut state, 50);
    assert_eq!((state.focus, state.main_menu_state), (Focus::MainMenu, None));
    let short = MainMenuAreas { menu: Rect::new(0, 3, 20, 5), ..areas };
    let mut state = pointing(7, 7);
    main_menu_in(short, &mut state, 5);
    assert_eq!((state.focus, state.main_menu_state), (Focus::MainMenu, Some(3)));
    let mut state = pointing(7, 12);
    main_menu_in(areas, &mut state, 50);
    assert_eq!(state.main_menu_state, Some(7));

    let config = AppConfig::default();
    let screen = Rect::new(0, 0, 100, 30);
    let places = HelpMenuAreas { help: help_places(0), log: Rect::new(0, 6, 100, 4) };
    let mut state = pointing(98, 1);
    let view = help_menu_in(places, screen, &mut state, &config);
    assert_eq!(state.focus, Focus::CloseButton);
    assert_eq!(view.close.unwrap().area, Rect::new(97, 0, 3, 3));
    let mut state = pointing(98, 1);
    state.popup_mode = Some(PopupMode::ViewCard);
    let view = help_menu_in(places, screen, &mut state, &config);
    assert_eq!((state.focus, state.mouse_focus), (Focus::NoFocus, None));
    assert!(view.close.is_some());
    let mut state = pointing(50, 8);
    state.popup_mode = Some(PopupMode::ViewCard);
    let view = help_menu_in(places, screen, &mut state, &config);
    assert_eq!(state.focus, Focus::NoFocus);
    assert_eq!(view.log.style, StyleKind::Inactive);

    let mut state = pointing(50, 8);
    state.focus = Focus::Log;
    let view = logs_in(Rect::new(0, 5, 100, 20), screen, &mut state, &config);
    assert_eq!(view.log.style, StyleKind::MouseHighlight);
    state.pointer = PointerState { x: 50, y: 2, pressed: None };
    let view = logs_in(Rect::new(0, 5, 100, 20), screen, &mut state, &config);
    assert_eq!(view.log.style, StyleKind::Default);
}

#[test]
fn config_views_in_given_places() {
    let config = AppConfig::default();
    let screen = Rect::new(0, 0, 100, 40);
    let areas = ConfigAreas {
        title: Rect::new(0, 0, 100, 3),
        table: Rect::new(0, 4, 100, 12),
        reset_all: Rect::new(0, 17, 49, 3),
        reset_config: Rect::new(50, 17, 50, 3),
        help: Rect::new(0, 21, 100, 5),
        log: Rect::new(0, 27, 100, 5),
    };
    let mut state = pointing(10, 9);
    state.config_state = Some(4);
    let view = config_in(areas, screen, &mut state, &config, 6);
    assert_eq!((state.focus, state.config_state), (Focus::ConfigTable, Some(4)));
    assert_eq!(view.table.highlight_style, StyleKind::MouseHighlight);
    assert_eq!(view.reset_all.style, StyleKind::Default);
    let mut state = pointing(10, 12);
    state.config_state = Some(4);
    config_in(areas, screen, &mut state, &config, 6);
    assert_eq!((state.focus, state.config_state), (Focus::ConfigTable, Some(4)));
    let mut state = pointing(60, 18);
    let view = config_in(areas, screen, &mut state, &config, 6);
    assert_eq!(state.focus, Focus::ExtraFocus);
    assert_eq!(view.reset_config.style, StyleKind::MouseHighlight);
    let mut state = pointing(60, 23);
    config_in(areas, screen, &mut state, &config, 6);
    assert_eq!(state.focus, Focus::NoFocus);

    let keys = KeybindingsAreas {
        title: Rect::new(0, 0, 100, 3),
        table: Rect::new(0, 3, 100, 20),
        track: Rect::new(95, 3, 5, 21),
        help: Rect::new(0, 24, 100, 5),
        reset: Rect::new(0, 30, 100, 3),
    };
    let mut state = nowhere();
    state.edit_keybindings_state = Some(2);
    let view = keybindings_in(keys, screen, &mut state, &config, 4);
    assert_eq!((view.scroll.x, view.scroll.y, view.scroll.blocks), (98, 3, 15));
    assert_eq!(view.track, keys.track);
    state.edit_keybindings_state = Some(9);
    assert_eq!(keybindings_in(keys, screen, &mut state, &config, 4).scroll.blocks, 20);
    let tiny = KeybindingsAreas { track: Rect::new(0, 3, 1, 0), ..keys };
    let view = keybindings_in(tiny, screen, &mut state, &config, 4);
    assert_eq!((view.scroll.x, view.scroll.blocks), (0, 0));

    let choice = ChoiceAreas {
        frame: Rect::new(10, 4, 80, 32),
        area: Rect::new(15, 6, 70, 28),
        list: Rect::new(15, 6, 70, 23),
        help: Rect::new(15, 29, 70, 5),
    };
    let mut state = pointing(20, 7);
    state.popup_mode = Some(PopupMode::SelectDefaultView);
    let view = select_default_view_in(choice, screen, &mut state, &config, 8);
    assert_eq!((state.focus, state.default_view_state), (Focus::SelectDefaultView, Some(0)));
    assert_eq!((view.frame, view.list_area, view.help_area), (choice.frame, choice.list, choice.help));
}

#[test]
fn edit_popup_in_given_places() {
    let config = AppConfig::default();
    let screen = Rect::new(0, 0, 100, 40);
    let areas = EditDialogAreas {
        frame: Rect::new(10, 4, 80, 32),
        item: Rect::new(15, 6, 70, 8),
        edit: Rect::new(15, 14, 12, 8),
        log: Rect::new(15, 22, 70, 4),
        submit: Some(Rect::new(15, 26, 70, 3)),
    };
    let mut state = pointing(16, 15);
    state.popup_mode = Some(PopupMode::EditGeneralConfig);
    state.app_status = AppStatus::UserInput;
    state.current_cursor_position = Some(23);
    let view = edit_dialog_in(
        areas,
        screen,
        &mut state,
        &config,
        Focus::EditGeneralConfigPopup,
        PopupMode::EditGeneralConfig,
        AppStatus::UserInput,
        2,
        30,
    );
    assert_eq!(state.focus, Focus::EditGeneralConfigPopup);
    assert_eq!(view.cursor, Some(Position { x: 19, y: 17 }));
    assert_eq!(view.edit.style, StyleKind::MouseHighlight);
    assert_eq!(view.submit.unwrap().style, StyleKind::Default);
    assert_eq!(view.log.style, StyleKind::Default);
    assert_eq!((view.frame, view.item_area), (areas.frame, areas.item));
    state.pointer = PointerState { x: 20, y: 27, pressed: None };
    state.current_cursor_position = None;
    let view = edit_dialog_in(
        areas,
        screen,
        &mut state,
        &config,
        Focus::EditGeneralConfigPopup,
        PopupMode::EditGeneralConfig,
        AppStatus::UserInput,
        2,
        30,
    );
    assert_eq!(state.focus, Focus::SubmitButton);
    assert_eq!(view.cursor, Some(Position { x: 16, y: 18 }));
    assert_eq!(view.edit.style, StyleKind::Focused);
    state.popup_mode = None;
    state.focus = Focus::Body;
    edit_dialog_in(
        areas,
        screen,
        &mut state,
        &config,
        Focus::EditGeneralConfigPopup,
        PopupMode::EditGeneralConfig,
        AppStatus::UserInput,
        2,
        30,
    );
    assert_eq!(state.focus, Focus::Body);
}

#[test]
fn popups_in_given_places() {
    let config = AppConfig::default();
    let screen = Rect::new(0, 0, 100, 40);
    let boards = sample_boards();
    let card_areas = CardPopupAreas {
        area: Rect::new(5, 2, 90, 36),
        description: Rect::new(6, 3, 88, 22),
        info: Rect::new(6, 25, 88, 12),
    };
    let mut state = nowhere();
    let empty = view_card_in(card_areas, screen, &mut state, &config, &boards, None);
    assert_eq!((empty.area, empty.board, empty.card, empty.close), (card_areas.area, None, None, None));
    let mut state = pointing(98, 1);
    state.popup_mode = Some(PopupMode::ViewCard);
    view_card_in(card_areas, screen, &mut state, &config, &boards, None);
    assert_eq!((state.focus, state.mouse_focus), (Focus::NoFocus, None));
    state.current_board_id = Some(2);
    let view = view_card_in(card_areas, screen, &mut state, &config, &boards, None);
    assert_eq!((state.focus, state.mouse_focus), (Focus::CloseButton, Some(Focus::CloseButton)));
    assert_eq!((view.board, view.card), (Some(1), None));
    assert_eq!((view.area, view.description_area, view.info_area), (
        card_areas.area,
        card_areas.description,
        card_areas.info,
    ));
    state.current_card_id = Some(21);
    assert_eq!(view_card_in(card_areas, screen, &mut state, &config, &boards, None).card, Some(0));

    let palette = CommandPaletteAreas { search: Rect::new(10, 2, 80, 3), results: Rect::new(10, 5, 80, 7) };
    let mut state = pointing(30, 10);
    state.popup_mode = Some(PopupMode::CommandPalette);
    let view = command_palette_in(palette, screen, &mut state, &config, 9, 100);
    assert_eq!((state.focus, state.command_palette_list_state), (Focus::CommandPalette, Some(4)));
    assert_eq!(view.cursor, Some(Position { x: 33, y: 4 }));
    let mut state = pointing(30, 11);
    state.popup_mode = Some(PopupMode::CommandPalette);
    command_palette_in(palette, screen, &mut state, &config, 9, 100);
    assert_eq!((state.focus, state.command_palette_list_state), (Focus::CommandPalette, Some(5)));
    let mut state = pointing(30, 12);
    state.popup_mode = Some(PopupMode::CommandPalette);
    command_palette_in(palette, screen, &mut state, &config, 9, 100);
    assert_eq!((state.focus, state.command_palette_list_state), (Focus::CommandPalette, None));
    let mut state = pointing(30, 11);
    state.popup_mode = Some(PopupMode::CommandPalette);
    command_palette_in(palette, screen, &mut state, &config, 5, 100);
    assert_eq!((state.focus, state.command_palette_list_state), (Focus::CommandPalette, None));
    let mut state = pointing(98, 1);
    state.popup_mode = Some(PopupMode::CommandPalette);
    command_palette_in(palette, screen, &mut state, &config, 9, 100);
    assert_eq!(state.focus, Focus::CloseButton);
    let mut state = pointing(98, 1);
    state.popup_mode = Some(PopupMode::ViewCard);
    command_palette_in(palette, screen, &mut state, &config, 9, 100);
    assert_eq!((state.focus, state.mouse_focus), (Focus::NoFocus, None));

    let area = Rect::new(25, 14, 50, 12);
    let mut state = pointing(30, 16);
    state.popup_mode = Some(PopupMode::ChangeUIMode);
    let view = change_ui_mode_in(area, screen, &mut state, &config, 9);
    assert_eq!((state.focus, state.default_view_state), (Focus::ChangeUiModePopup, Some(1)));
    assert_eq!(view.area, area);
    let mut state = pointing(30, 16);
    state.popup_mode = Some(PopupMode::ChangeCurrentCardStatus);
    change_card_status_in(area, screen, &mut state, &config, 3);
    assert_eq!((state.focus, state.card_status_selector_state), (Focus::ChangeCardStatusPopup, Some(1)));
    assert_eq!(state.default_view_state, None);
    let mut state = pointing(30, 16);
    state.popup_mode = Some(PopupMode::ChangeUIMode);
    change_card_status_in(area, screen, &mut state, &config, 3);
    assert_eq!(state.focus, Focus::NoFocus);
}

#[test]
fn load_save_in_given_places() {
    let config = AppConfig { no_of_boards_to_show: 2, ..AppConfig::default() };
    let screen = Rect::new(0, 0, 100, 40);
    let boards = vec![board(1, &[11, 12, 13, 14]), board(2, &[21])];
    let visible = vec![
        BoardCardViewState {
            board_id: 1,
            window: Window { start: 0, len: 2 },
            selected_card: None,
            visible_cards: vec![11, 12],
        },
        BoardCardViewState {
            board_id: 2,
            window: Window { start: 0, len: 1 },
            selected_card: None,
            visible_cards: vec![21],
        },
    ];
    let mut layout = hand_made_layout();
    for slot in layout.boards.iter_mut() {
        slot.area.x += 35;
        for card in slot.cards.iter_mut() {
            card.area.x += 35;
        }
    }
    let plain = LoadSaveAreas {
        heading: Rect::new(0, 0, 30, 3),
        list: Rect::new(0, 3, 30, 28),
        help: Rect::new(0, 31, 30, 9),
        preview: Rect::new(35, 0, 62, 40),
        body: None,
    };
    let mut state = pointing(5, 5);
    let view = load_save_in(&plain, screen, &mut state, &config, 3, None, &visible);
    assert_eq!((state.focus, state.load_save_state), (Focus::LoadSave, Some(1)));
    assert_eq!(view.preview, PreviewKind::SelectHint);
    assert_eq!(view.preview_area, plain.preview);
    let view = load_save_in(&plain, screen, &mut state, &config, 3, None, &visible);
    assert_eq!(view.preview, PreviewKind::Waiting);
    let with_boards = LoadSaveAreas { body: Some(layout), ..plain };
    state.pointer = PointerState { x: 70, y: 5, pressed: None };
    let view = load_save_in(&with_boards, screen, &mut state, &config, 3, Some(&boards), &visible);
    assert_eq!(view.preview, PreviewKind::Boards);
    assert_eq!(view.body.unwrap().boards.len(), 2);
    assert_eq!((state.focus, state.current_board_id, state.current_card_id), (Focus::Body, Some(2), Some(21)));
}

#[test]
fn clipping_keeps_what_lies_in_the_area() {
    let area = Rect::new(10, 20, 30, 40);
    assert_eq!(clip(Rect::new(10, 20, 30, 40), area), Rect::new(10, 20, 30, 40));
    assert_eq!(clip(Rect::new(15, 25, 5, 5), area), Rect::new(15, 25, 5, 5));
    assert_eq!(clip(Rect::new(40, 60, 0, 0), area), Rect::new(40, 60, 0, 0));
    assert_eq!(clip(Rect::new(5, 25, 10, 5), area), Rect::new(10, 25, 5, 5));
    assert_eq!(clip(Rect::new(35, 55, 10, 10), area), Rect::new(35, 55, 5, 5));
    assert_eq!(clip(Rect::new(0, 0, 100, 100), area), area);
    assert_eq!(clip(Rect::new(0, 0, 5, 5), area), Rect::new(10, 20, 0, 0));
    assert_eq!(clip(Rect::new(50, 70, 5, 5), area), Rect::new(40, 60, 0, 0));
    assert_eq!(clip(Rect::new(0, 30, 5, 5), area), Rect::new(10, 30, 0, 5));
    assert_eq!(clip(Rect::new(65535, 65535, 65535, 65535), area), Rect::new(40, 60, 0, 0));
    assert_eq!(clip(Rect::new(3, 4, 5, 6), Rect::new(0, 0, 0, 0)), Rect::new(0, 0, 0, 0));
    assert_eq!(
        clip(Rect::new(0, 0, 65535, 65535), Rect::new(65535, 65535, 0, 0)),
        Rect::new(65535, 65535, 0, 0)
    );
}

fn roomy_screens() -> Vec<Rect> {
    vec![
        Rect::new(0, 0, 0, 0),
        Rect::new(0, 0, 1, 1),
        Rect::new(0, 0, 2, 2),
        Rect::new(0, 0, 3, 7),
        Rect::new(0, 0, 10, 5),
        Rect::new(0, 0, 80, 24),
        Rect::new(0, 0, 120, 40),
        Rect::new(7, 9, 200, 60),
        Rect::new(0, 0, 655, 655),
        Rect::new(64879, 64879, 655, 655),
        Rect::new(65534, 65534, 0, 0),
    ]
}

#[test]
fn every_roomy_area_can_be_split() {
    for area in roomy_screens() {
        for direction in [Direction::Horizontal, Direction::Vertical] {
            for margin in [0u16, 1] {
                let parts = vec![
                    Constraint::Percentage(100),
                    Constraint::Length(3),
                    Constraint::Min(8),
                    Constraint::Percentage(0),
                    Constraint::Length(65535),
                ];
                let chunks = split(area, direction, margin, &parts).unwrap();
                assert_eq!(chunks.len(), 5);
                for chunk in chunks {
                    assert!(area.holds(chunk));
                }
            }
        }
        let middle = centered_rect(70, 100, area).unwrap();
        assert!(area.holds(middle));
        let corner = top_left_rect(0, 30, area).unwrap();
        assert!(area.holds(corner));
        assert!(area.holds(render_debug_panel(area, Some(7)).unwrap().area));
    }
}

#[test]
fn every_roomy_screen_has_its_views() {
    let boards = sample_boards();
    for mouse in [true, false] {
        for scrollbars in [true, false] {
            let config =
                AppConfig { enable_mouse_support: mouse, disable_scrollbars: !scrollbars, ..AppConfig::default() };
            let (_, visible) = visible_boards_and_cards(&boards, 3, 2, None, None);
            for size in roomy_screens() {
                let mut state = pointing(size.x, size.y);
                state.current_board_id = Some(1);
                state.load_save_state = Some(0);
                let main = [
                    render_zen_mode(size, &mut state, &config, &boards, &visible),
                    render_title_body(size, &mut state, &config, &boards, &visible),
                    render_body_help(size, &mut state, &config, &boards, &visible),
                    render_body_log(size, &mut state, &config, &boards, &visible),
                    render_title_body_help(size, &mut state, &config, &boards, &visible),
                    render_title_body_log(size, &mut state, &config, &boards, &visible),
                    render_body_help_log(size, &mut state, &config, &boards, &visible),
                    render_title_body_help_log(size, &mut state, &config, &boards, &visible),
                ];
                for view in main {
                    let view = view.unwrap();
                    assert!(size.holds(view.body.area));
                    for pane in &view.body.boards {
                        assert!(view.body.area.holds(pane.area));
                        for card in &pane.cards {
                            assert!(view.body.area.holds(card.area));
                            assert!(card.area.holds(card.text_area) && card.area.holds(card.info_area));
                        }
                    }
                    if let Some(pane) = view.title {
                        assert!(size.holds(pane.area));
                    }
                    if let Some(pane) = view.help {
                        assert!(size.holds(pane.area) && pane.area.holds(pane.left) && pane.area.holds(pane.right));
                    }
                    if let Some(pane) = view.log {
                        assert!(size.holds(pane.area));
                    }
                }
                let body = render_body(size, &mut state, &config, &boards, &visible).unwrap();
                assert_eq!(body.area, size);
                let menu = render_main_menu(size, &mut state, 5).unwrap();
                assert!(size.holds(menu.title.area) && size.holds(menu.menu.area) && size.holds(menu.log.area));
                let help = render_help_menu(size, &mut state, &config).unwrap();
                assert!(size.holds(help.help.area) && size.holds(help.log.area));
                assert!(render_logs_only(size, &mut state, &config).is_some());
                let settings = render_config(size, &mut state, &config, 6).unwrap();
                assert!(size.holds(settings.table.area) && size.holds(settings.reset_config.area));
                let edit = render_edit_config(size, &mut state, &config, 6, None, 3).unwrap();
                assert!(size.holds(edit.frame) && size.holds(edit.edit.area) && size.holds(edit.log.area));
                assert_eq!(edit.submit.is_some(), mouse);
                let edit = render_edit_specific_keybinding(size, &mut state, &config, 9, 3).unwrap();
                assert!(size.holds(edit.item_area));
                let choice = render_select_default_view(size, &mut state, &config, 8).unwrap();
                assert!(size.holds(choice.area) && choice.area.holds(choice.list_area));
                let keys = render_edit_keybindings(size, &mut state, &config, 9).unwrap();
                assert!(size.holds(keys.table.area) && keys.table.area.holds(keys.track));
                assert!(render_new_board_form(size, &mut state, &config, "a", "b").is_some());
                assert!(render_new_card_form(size, &mut state, &config, "a", "b", "c").is_some());
                let saves = render_load_save(size, &mut state, &config, 4, Some(&boards), &visible).unwrap();
                assert!(size.holds(saves.list.area) && size.holds(saves.preview_area));
                assert_eq!(saves.body.unwrap().area, saves.preview_area);
                let card = render_view_card(size, &mut state, &config, &boards).unwrap();
                assert!(size.holds(card.area) && card.area.holds(card.info_area));
                let palette = render_command_palette(size, &mut state, &config, 12, 4).unwrap();
                assert!(size.holds(palette.search_area) && size.holds(palette.results_area));
                let fits = size.height > 0 && (9 + 3) * 100 / u32::from(size.height.max(1)) <= 100;
                let modes = render_change_ui_mode_popup(size, &mut state, &config, 9);
                assert_eq!(modes.is_some(), fits);
                if let Some(popup) = modes {
                    assert!(size.holds(popup.area));
                }
                let statuses = render_change_current_card_status_popup(size, &mut state, &config, 9);
                assert_eq!(statuses.is_some(), fits);
                assert!(draw_size_error(&size).is_some());
                assert!(draw_loading_screen(&size).is_some());
            }
        }
    }
}

#[test]
fn views_without_boards_need_only_the_first_split() {
    let config = AppConfig::default();
    let wide = Rect::new(0, 0, 60000, 5000);
    let mut state = nowhere();
    let none: Vec<Board> = Vec::new();
    let nothing: Vec<BoardCardViewState> = Vec::new();
    assert!(render_title_body(wide, &mut state, &config, &none, &nothing).is_none());
    assert!(render_title_body(Rect::new(0, 0, 60000, 800), &mut state, &config, &none, &nothing).is_some());
    assert!(render_zen_mode(Rect::new(0, 0, 60000, 655), &mut state, &config, &none, &nothing).is_some());
    assert!(render_zen_mode(Rect::new(0, 0, 60000, 656), &mut state, &config, &none, &nothing).is_none());
    assert!(render_body_log(Rect::new(0, 0, 5, 819), &mut state, &config, &none, &nothing).is_some());
    assert!(render_body_log(Rect::new(0, 0, 5, 820), &mut state, &config, &none, &nothing).is_none());
    assert!(render_title_body_log(Rect::new(0, 0, 5, 873), &mut state, &config, &none, &nothing).is_some());
    assert!(render_title_body_log(Rect::new(0, 0, 5, 874), &mut state, &config, &none, &nothing).is_none());
}

#[test]
fn an_area_that_the_margin_uses_up_leaves_parts_without_cells() {
    let area = Rect::new(5, 6, 1, 1);
    let chunks = split(area, Direction::Vertical, 1, &vec![Constraint::Length(1), Constraint::Min(0)]).unwrap();
    assert_eq!(chunks.len(), 2);
    for chunk in chunks {
        assert!(area.holds(chunk));
        assert_eq!(chunk.area(), 0);
    }
}
