use kanban_ui::body::{body_in, render_body, BoardSlot, BodyLayout, CardSlot};
use kanban_ui::config::AppConfig;
use kanban_ui::config_views::{
    choice_row_parts, config_button_parts, edit_dialog_in, edit_item_text, keybindings_column_parts, render_edit_config,
    render_edit_specific_keybinding, EditDialogAreas,
};
use kanban_ui::due_date::{shown_due_date_urgency, DueDateUrgency};
use kanban_ui::focus::{Focus, PointerState, PopupMode};
use kanban_ui::forms::{form_in, render_new_board_form, render_new_card_form};
use kanban_ui::geometry::Rect;
use kanban_ui::kanban::{Board, BoardCardViewState, Card, CardPriority, CardStatus};
use kanban_ui::layout::{centered_in, first_of, middle_of, top_left_in, Constraint};
use kanban_ui::load_save::save_list_row_parts;
use kanban_ui::main_views::{render_body_help, render_help_menu, render_main_menu};
use kanban_ui::panes::{draw_help, help_box, HelpAreas};
use kanban_ui::popups::{
    card_popup_row_parts, command_palette_column_parts, command_palette_in, command_palette_row_parts,
    current_board_and_card, debug_panel_in, render_command_palette, render_debug_panel, render_view_card,
    view_card_in, CardPopupAreas, CommandPaletteAreas,
};
use kanban_ui::state::{AppState, AppStatus};
use kanban_ui::viewport::Window;

const FULL: Rect = Rect { x: 0, y: 0, width: 120, height: 40 };

fn due_card(id: u128, date_due: &str) -> Card {
    Card {
        id,
        name: format!("card {}", id),
        description: String::new(),
        date_created: String::new(),
        date_modified: String::new(),
        date_due: date_due.to_string(),
        date_completed: String::new(),
        priority: CardPriority::Low,
        card_status: CardStatus::Active,
        tags: Vec::new(),
        comments: Vec::new(),
    }
}

fn due_board(id: u128, cards: Vec<Card>) -> Board {
    Board { id, name: format!("board {}", id), description: String::new(), cards }
}

fn away() -> AppState {
    let mut state = AppState::default();
    state.pointer = PointerState { x: 60000, y: 60000, pressed: None };
    state
}

#[test]
fn stale_selection_gives_no_key_binding_popup() {
    let config = AppConfig::default();
    for (rows, selected) in [(9, Some(9)), (9, Some(10)), (9, Some(usize::MAX)), (0, None), (0, Some(0))] {
        let mut state = away();
        state.popup_mode = Some(PopupMode::EditSpecificKeyBinding);
        state.app_status = AppStatus::KeyBindMode;
        state.edit_keybindings_state = selected;
        let before = state.clone();
        assert_eq!(render_edit_specific_keybinding(FULL, &mut state, &config, rows, 4), None);
        assert_eq!(state, before);
    }
    let mut probe = away();
    let layout = render_edit_specific_keybinding(FULL, &mut probe, &config, 9, 4).unwrap();
    let mut state = AppState::default();
    state.pointer =
        PointerState { x: layout.edit.area.x + 1, y: layout.edit.area.y + 1, pressed: None };
    state.popup_mode = Some(PopupMode::EditSpecificKeyBinding);
    state.edit_keybindings_state = Some(9);
    let before = state.clone();
    assert_eq!(render_edit_specific_keybinding(FULL, &mut state, &config, 9, 4), None);
    assert_eq!(state, before);
    state.edit_keybindings_state = Some(8);
    let view = render_edit_specific_keybinding(FULL, &mut state, &config, 9, 4).unwrap();
    assert_eq!(view.row, 8);
    assert_eq!(state.focus, Focus::EditSpecificKeyBindingPopup);
    assert_eq!(state.edit_keybindings_state, Some(8));
    state.edit_keybindings_state = None;
    assert_eq!(render_edit_specific_keybinding(FULL, &mut state, &config, 9, 4).unwrap().row, 0);
    assert_eq!(render_edit_specific_keybinding(FULL, &mut state, &config, 1, 4).unwrap().row, 0);
}

#[test]
fn setting_popup_is_about_the_chosen_setting() {
    let config = AppConfig::default();
    let mut state = away();
    state.popup_mode = Some(PopupMode::EditGeneralConfig);
    assert_eq!(render_edit_config(FULL, &mut state, &config, 6, None, 0).unwrap().row, 0);
    assert_eq!(render_edit_config(FULL, &mut state, &config, 6, Some(0), 0).unwrap().row, 0);
    assert_eq!(render_edit_config(FULL, &mut state, &config, 6, Some(5), 0).unwrap().row, 5);
    let before = state.clone();
    assert_eq!(render_edit_config(FULL, &mut state, &config, 6, Some(6), 0), None);
    assert_eq!(render_edit_config(FULL, &mut state, &config, 0, None, 0), None);
    assert_eq!(render_edit_config(FULL, &mut state, &config, 0, Some(0), 0), None);
    assert_eq!(state, before);
    let areas = EditDialogAreas {
        frame: Rect::new(10, 4, 100, 32),
        item: Rect::new(15, 6, 90, 6),
        edit: Rect::new(15, 12, 90, 6),
        log: Rect::new(15, 18, 90, 4),
        submit: Some(Rect::new(15, 22, 90, 3)),
    };
    let view = edit_dialog_in(
        areas,
        FULL,
        &mut state,
        &config,
        Focus::EditGeneralConfigPopup,
        PopupMode::EditGeneralConfig,
        AppStatus::UserInput,
        4,
        0,
    );
    assert_eq!((view.row, view.item_area), (4, areas.item));
    assert_eq!(
        edit_item_text("50"),
        "Current Value is 50\n\nPress 'i' to edit, or 'Esc' to cancel, Press 'Enter' to stop editing and press \
         'Enter' again to save"
    );
    assert!(edit_item_text("").starts_with("Current Value is \n\nPress"));
}

#[test]
fn card_popup_colours_the_due_date() {
    let config = AppConfig { warning_delta: 3, ..AppConfig::default() };
    let boards = vec![due_board(
        1,
        vec![
            due_card(11, "01/01/2000-00:00:00"),
            due_card(12, "01/01/2999-00:00:00"),
            due_card(13, "tomorrow"),
            due_card(14, ""),
        ],
    )];
    let mut state = away();
    state.current_board_id = Some(1);
    let expected = [
        (11, DueDateUrgency::Critical),
        (12, DueDateUrgency::Default),
        (13, DueDateUrgency::Default),
        (14, DueDateUrgency::Default),
        (99, DueDateUrgency::Default),
    ];
    for (card, due) in expected {
        state.current_card_id = Some(card);
        let view = render_view_card(FULL, &mut state, &config, &boards).unwrap();
        assert_eq!(view.due, due);
        assert_eq!(view.card.is_some(), card != 99);
    }
    assert_eq!(current_board_and_card(&state, &boards), (Some(0), None));
    state.current_card_id = Some(13);
    assert_eq!(current_board_and_card(&state, &boards), (Some(0), Some(2)));
    state.current_board_id = Some(5);
    assert_eq!(current_board_and_card(&state, &boards), (None, None));
    assert_eq!(render_view_card(FULL, &mut state, &config, &boards).unwrap().due, DueDateUrgency::Default);

    let areas = CardPopupAreas {
        area: Rect::new(5, 2, 90, 36),
        description: Rect::new(6, 3, 88, 22),
        info: Rect::new(6, 25, 88, 12),
    };
    state.current_board_id = Some(1);
    state.current_card_id = Some(12);
    let days = [
        (Some(-1), DueDateUrgency::Critical),
        (Some(i64::MIN), DueDateUrgency::Critical),
        (Some(0), DueDateUrgency::Warning),
        (Some(3), DueDateUrgency::Warning),
        (Some(4), DueDateUrgency::Default),
        (None, DueDateUrgency::Default),
    ];
    for (left, due) in days {
        assert_eq!(view_card_in(areas, FULL, &mut state, &config, &boards, left).due, due);
    }
    state.current_card_id = Some(99);
    assert_eq!(view_card_in(areas, FULL, &mut state, &config, &boards, Some(-1)).due, DueDateUrgency::Default);

    assert_eq!(shown_due_date_urgency("", 3), None);
    assert_eq!(shown_due_date_urgency("soon", 3), Some(DueDateUrgency::Default));
    assert_eq!(shown_due_date_urgency("01/01/2000-00:00:00", 3), Some(DueDateUrgency::Critical));
}

#[test]
fn help_box_divides_the_key_bindings() {
    let area = Rect::new(0, 20, 100, 5);
    for (count, left, right) in [(0, 0, 0), (1, 0, 1), (2, 1, 1), (7, 3, 4), (usize::MAX, usize::MAX / 2, usize::MAX / 2 + 1)] {
        let mut state = away();
        state.keybind_count = count;
        let pane = draw_help(&state, area).unwrap();
        assert_eq!((pane.left_rows, pane.right_rows), (left, right));
        let places = HelpAreas {
            area,
            left: Rect::new(1, 21, 48, 3),
            separator: Rect::new(49, 21, 1, 3),
            right: Rect::new(50, 21, 49, 3),
        };
        let boxed = help_box(&state, places);
        assert_eq!((boxed.left_rows, boxed.right_rows), (left, right));
    }
    let config = AppConfig::default();
    let mut state = away();
    state.keybind_count = 9;
    let view = render_body_help(FULL, &mut state, &config, &Vec::new(), &Vec::new()).unwrap();
    assert_eq!((view.help.unwrap().left_rows, view.help.unwrap().right_rows), (4, 5));
    let menu = render_main_menu(FULL, &mut state, 5).unwrap();
    assert_eq!((menu.help.left_rows, menu.help.right_rows), (4, 5));
    let help = render_help_menu(FULL, &mut state, &config).unwrap();
    assert_eq!((help.help.left_rows, help.help.right_rows), (4, 5));
    assert_eq!(state.keybind_count, 9);
}

#[test]
fn debug_panel_says_how_long_drawing_took() {
    let area = Rect::new(0, 0, 30, 12);
    assert_eq!(debug_panel_in(area, None).render_time, "UI Render Time: None");
    assert_eq!(debug_panel_in(area, Some(0)).render_time, "UI Render Time: 0μs");
    assert_eq!(debug_panel_in(area, Some(1000)).render_time, "UI Render Time: 1000μs");
    assert_eq!(debug_panel_in(area, Some(1001)).render_time, "UI Render Time: 1ms");
    assert_eq!(debug_panel_in(area, Some(2500)).render_time, "UI Render Time: 2ms");
    assert_eq!(debug_panel_in(area, Some(2500)).area, area);
    let panel = render_debug_panel(Rect::new(0, 0, 100, 100), Some(2500)).unwrap();
    assert_eq!((panel.area, panel.render_time.as_str()), (Rect::new(0, 0, 30, 30), "UI Render Time: 2ms"));
    let panel = render_debug_panel(Rect::new(0, 0, 100, 100), None).unwrap();
    assert_eq!(panel.render_time, "UI Render Time: None");
}

#[test]
fn form_in_given_rows() {
    let config = AppConfig::default();
    let rows = vec![
        Rect::new(0, 0, 80, 3),
        Rect::new(0, 3, 80, 5),
        Rect::new(0, 8, 80, 10),
        Rect::new(0, 18, 80, 3),
        Rect::new(0, 21, 80, 4),
        Rect::new(0, 25, 80, 3),
    ];
    let targets = vec![Focus::NewCardName, Focus::NewCardDescription, Focus::NewCardDueDate];
    let texts = vec!["name", "what to do", "01/01/2030-00:00:00"];
    let mut state = AppState::default();
    state.pointer = PointerState { x: 5, y: 19, pressed: None };
    let view = form_in(&rows, FULL, &mut state, &config, &targets, &texts);
    assert_eq!(view.heading.area, rows[0]);
    assert_eq!(view.fields.len(), 3);
    for i in 0..3 {
        assert_eq!(view.fields[i].pane.area, rows[i + 1]);
        assert_eq!(view.fields[i].lines, vec![texts[i].to_string()]);
    }
    assert_eq!((view.help.area, view.submit.area), (rows[4], rows[5]));
    assert_eq!(state.focus, Focus::NewCardDueDate);
    state.pointer = PointerState { x: 5, y: 26, pressed: None };
    form_in(&rows, FULL, &mut state, &config, &targets, &texts);
    assert_eq!(state.focus, Focus::SubmitButton);
    state.pointer = PointerState { x: 5, y: 1, pressed: None };
    let before = state.clone();
    form_in(&rows, FULL, &mut state, &config, &targets, &texts);
    assert_eq!(state, before);

    for size in [FULL, Rect::new(0, 0, 30, 10), Rect::new(7, 9, 200, 90), Rect::new(0, 0, 0, 0)] {
        let mut state = away();
        let card = render_new_card_form(size, &mut state, &config, "a", "b", "c").unwrap();
        let board = render_new_board_form(size, &mut state, &config, "a", "b").unwrap();
        for form in [&card, &board] {
            assert!(size.holds(form.heading.area) && size.holds(form.help.area) && size.holds(form.submit.area));
            for field in form.fields.iter() {
                assert!(size.holds(field.pane.area));
            }
        }
    }
    let mut state = away();
    let card = render_new_card_form(FULL, &mut state, &config, "a", "b", "c").unwrap();
    let tops: Vec<u16> = card.fields.iter().map(|f| f.pane.area.y).collect();
    assert_eq!(card.heading.area, Rect::new(0, 0, 120, 3));
    assert_eq!(tops[0], 3);
    assert!(tops[0] < tops[1] && tops[1] < tops[2] && tops[2] < card.help.area.y);
    assert!(card.help.area.y < card.submit.area.y);
}

#[test]
fn shares_of_the_inner_splits() {
    assert_eq!(
        command_palette_column_parts(),
        vec![Constraint::Percentage(10), Constraint::Percentage(80), Constraint::Percentage(10)]
    );
    let rows = |count: usize, height: u16, list: u16| {
        assert_eq!(
            command_palette_row_parts(count, height),
            vec![Constraint::Length(2), Constraint::Length(3), Constraint::Length(list), Constraint::Length(2)]
        );
    };
    rows(0, 40, 3);
    rows(1, 40, 3);
    rows(2, 40, 4);
    rows(5, 40, 7);
    rows(31, 40, 33);
    rows(32, 40, 33);
    rows(500, 40, 33);
    rows(5, 7, 0);
    rows(5, 3, 0);
    rows(1, 3, 3);
    rows(usize::MAX, 65535, 65528);
    assert_eq!(card_popup_row_parts(), vec![Constraint::Min(5), Constraint::Length(12)]);
    assert_eq!(config_button_parts(), vec![Constraint::Percentage(50), Constraint::Percentage(50)]);
    assert_eq!(choice_row_parts(), vec![Constraint::Min(8), Constraint::Length(5)]);
    assert_eq!(keybindings_column_parts(), vec![Constraint::Percentage(95), Constraint::Length(1)]);
    assert_eq!(
        save_list_row_parts(),
        vec![Constraint::Length(3), Constraint::Min(10), Constraint::Length(9)]
    );
    let config = AppConfig::default();
    let mut state = away();
    let few = render_command_palette(FULL, &mut state, &config, 2, 0).unwrap();
    let many = render_command_palette(FULL, &mut state, &config, 20, 3).unwrap();
    assert_eq!((few.results_area.height, many.results_area.height), (4, 22));
    assert_eq!((few.hint, many.hint), (true, false));
    let areas = CommandPaletteAreas { search: Rect::new(10, 2, 80, 3), results: Rect::new(10, 5, 80, 7) };
    assert!(command_palette_in(areas, FULL, &mut state, &config, 5, 0).hint);
    assert!(!command_palette_in(areas, FULL, &mut state, &config, 5, 1).hint);
}

#[test]
fn parts_that_a_centred_rectangle_is_made_of() {
    let rows = vec![Rect::new(0, 0, 100, 10), Rect::new(0, 10, 100, 30), Rect::new(0, 40, 100, 10)];
    assert_eq!(middle_of(&rows), Some(rows[1]));
    assert_eq!(first_of(&rows), Some(rows[0]));
    assert_eq!(middle_of(&rows[..2].to_vec()), None);
    assert_eq!(first_of(&Vec::new()), None);
    assert_eq!(centered_in(&rows, 50), Some(Rect::new(25, 10, 50, 30)));
    assert_eq!(centered_in(&rows, 100), Some(Rect::new(0, 10, 100, 30)));
    assert_eq!(centered_in(&rows, 101), None);
    assert_eq!(centered_in(&rows[..2].to_vec(), 50), None);
    assert_eq!(top_left_in(&rows, 30), Some(Rect::new(0, 0, 30, 10)));
    assert_eq!(top_left_in(&rows, 101), None);
    let wide = vec![Rect::new(0, 0, 3000, 10), Rect::new(0, 10, 100, 30), Rect::new(0, 40, 100, 10)];
    assert_eq!(top_left_in(&wide, 30), None);
    assert_eq!(centered_in(&wide, 50), Some(Rect::new(25, 10, 50, 30)));
}

#[test]
fn cards_on_screen_colour_their_due_dates() {
    let config = AppConfig { warning_delta: 3, disable_scrollbars: true, ..AppConfig::default() };
    let boards = vec![due_board(
        1,
        vec![
            due_card(11, "01/01/2000-00:00:00"),
            due_card(12, "01/01/2999-00:00:00"),
            due_card(13, "tomorrow"),
            due_card(14, ""),
        ],
    )];
    let visible = vec![BoardCardViewState {
        board_id: 1,
        window: Window { start: 0, len: 5 },
        selected_card: None,
        visible_cards: vec![11, 12, 13, 14, 99],
    }];
    let frame = Rect::new(0, 0, 40, 50);
    let slot = |y: u16| {
        let area = Rect::new(1, y, 38, 8);
        CardSlot { area, text_area: area, info_area: area }
    };
    let layout = BodyLayout {
        area: frame,
        boards_area: frame,
        boards: vec![BoardSlot {
            area: frame,
            track: None,
            cards_area: frame,
            cards: vec![slot(1), slot(10), slot(19), slot(28), slot(37)],
        }],
        gauge: None,
    };
    let expected = [
        Some(DueDateUrgency::Critical),
        Some(DueDateUrgency::Default),
        Some(DueDateUrgency::Default),
        None,
        None,
    ];
    let wide = AppConfig { no_of_cards_to_show: 5, ..config };
    let view = body_in(&layout, &mut away(), &wide, &boards, &visible);
    let shown: Vec<Option<DueDateUrgency>> = view.boards[0].cards.iter().map(|c| c.due).collect();
    assert_eq!(shown, expected);
    assert_eq!(view.boards[0].cards.iter().map(|c| c.found).collect::<Vec<bool>>(), [true, true, true, true, false]);
    let view = render_body(Rect::new(0, 0, 100, 60), &mut away(), &wide, &boards, &visible).unwrap();
    let shown: Vec<Option<DueDateUrgency>> = view.boards[0].cards.iter().map(|c| c.due).collect();
    assert_eq!(shown, expected);
}
