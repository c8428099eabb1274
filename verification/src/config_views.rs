//! The views in which the settings and the key bindings are edited.

use vstd::prelude::*;
use vstd::string::*;
use crate::config::AppConfig;
use crate::focus::Focus;
use crate::focus::ListKind;
use crate::focus::PopupMode;
use crate::focus::Region;
use crate::geometry::Position;
use crate::geometry::Rect;
use crate::layout::can_split;
use crate::layout::is_roomy;
use crate::layout::modest;
use crate::layout::centered_rect;
use crate::layout::split;
use crate::layout::Constraint;
use crate::layout::Direction;
use crate::panes::close_button_if;
use crate::panes::close_regions;
use crate::panes::config_help_pane;
use crate::panes::cursor_cell;
use crate::panes::cursor_in_box;
use crate::panes::draw_config_help;
use crate::panes::draw_logs;
use crate::panes::draw_title;
use crate::panes::list_region;
use crate::panes::list_region_of;
use crate::panes::log_pane;
use crate::panes::plain_region;
use crate::panes::push_close_region;
use crate::panes::region;
use crate::panes::render_close_button;
use crate::panes::title_pane;
use crate::panes::ConfigHelpPane;
use crate::panes::ListPane;
use crate::panes::LogPane;
use crate::panes::Pane;
use crate::state::emphasis;
use crate::state::muted_or;
use crate::state::style_for;
use crate::state::AppState;
use crate::state::AppStatus;
use crate::state::StyleKind;
use crate::viewport::scroll_ratio;
use crate::viewport::scroll_ratio_of;

verus! {

/// The table of settings in `area`: its frame is accented while the table
/// has the focus. The selected row is highlighted where the pointer is on its
/// line, and accented while the table has the focus.
pub open spec fn config_table_pane(state: AppState, area: Rect) -> ListPane {
    let muted = state.popup_mode is Some;
    let selected = match state.config_state {
        Some(row) => row,
        None => 0,
    };
    ListPane {
        area,
        border_style: emphasis(
            muted,
            state.points_at(area),
            state.focus == Focus::ConfigTable,
            StyleKind::Focused,
        ),
        text_style: if muted {
            StyleKind::Inactive
        } else {
            StyleKind::Default
        },
        highlight_style: emphasis(
            muted,
            state.pointer.y == selected + area.y + 1,
            state.focus == Focus::ConfigTable,
            StyleKind::Focused,
        ),
    }
}

/// Decides how the table of settings is drawn.
pub fn draw_config_table_selector(state: &AppState, area: Rect) -> (pane: ListPane)
    ensures
        pane == config_table_pane(*state, area),
{
    let muted = state.popup_mode.is_some();
    let selected: u128 = match state.config_state {
        Some(row) => row as u128,
        None => 0,
    };
    let on_selected_row = state.pointer.y as u128 == selected + area.y as u128 + 1;
    ListPane {
        area,
        border_style: style_for(
            muted,
            state.is_pointing_at(area),
            state.focus == Focus::ConfigTable,
            StyleKind::Focused,
        ),
        text_style: muted_or(muted, StyleKind::Default),
        highlight_style: style_for(
            muted,
            on_selected_row,
            state.focus == Focus::ConfigTable,
            StyleKind::Focused,
        ),
    }
}

/// The view of the settings.
#[derive(Clone, Copy, Debug, PartialEq, Eq, Structural)]
pub struct ConfigView {
    pub title: Pane,
    pub table: ListPane,
    /// The button that resets settings and key bindings.
    pub reset_all: Pane,
    /// The button that resets the settings alone.
    pub reset_config: Pane,
    pub help: ConfigHelpPane,
    pub log: LogPane,
    pub close: Option<Pane>,
}

/// The rows of the view of the settings.
pub open spec fn config_rows() -> Seq<Constraint> {
    seq![
        Constraint::Length(3),
        Constraint::Min(8),
        Constraint::Length(3),
        Constraint::Length(5),
        Constraint::Length(5),
    ]
}

/// A button of the main view in `area` that stands for the focus `target`:
/// drawn in the warning colour while it has the focus.
pub open spec fn reset_button(state: AppState, target: Focus, area: Rect) -> Pane {
    Pane {
        area,
        style: emphasis(
            state.popup_mode is Some,
            state.points_at(area),
            state.focus == target,
            StyleKind::Error,
        ),
    }
}

fn draw_reset_button(state: &AppState, target: Focus, area: Rect) -> (pane: Pane)
    ensures
        pane == reset_button(*state, target, area),
{
    Pane {
        area,
        style: style_for(
            state.popup_mode.is_some(),
            state.is_pointing_at(area),
            state.focus == target,
            StyleKind::Error,
        ),
    }
}

/// `view` is the view of the settings as it is drawn in the places that the
/// view itself names.
pub open spec fn shows_config(view: ConfigView, state: AppState, config: AppConfig, size: Rect) -> bool {
    &&& view.title == title_pane(state, view.title.area)
    &&& view.table == config_table_pane(state, view.table.area)
    &&& view.reset_all == reset_button(state, Focus::SubmitButton, view.reset_all.area)
    &&& view.reset_config == reset_button(state, Focus::ExtraFocus, view.reset_config.area)
    &&& view.help == config_help_pane(state.focus, state.popup_mode is Some, view.help.area)
    &&& view.log == log_pane(state, true, state.popup_mode is Some, view.log.area)
    &&& view.close == close_button_if(config.enable_mouse_support, state, size)
}

/// The regions of the view of the settings, for a table of `item_count` rows.
pub open spec fn config_regions(view: ConfigView, state: AppState, item_count: nat) -> Seq<Region> {
    seq![
        plain_region(Focus::Title, view.title.area, None),
        list_region_of(
            state,
            Focus::ConfigTable,
            ListKind::Config,
            view.table.area,
            item_count,
            None,
        ),
        plain_region(Focus::SubmitButton, view.reset_all.area, None),
        plain_region(Focus::ExtraFocus, view.reset_config.area, None),
        plain_region(Focus::Log, view.log.area, None),
    ] + close_regions(None, view.close)
}

/// Where the view of the settings is drawn.
#[derive(Clone, Copy, Debug, PartialEq, Eq, Structural)]
pub struct ConfigAreas {
    pub title: Rect,
    pub table: Rect,
    pub reset_all: Rect,
    pub reset_config: Rect,
    pub help: Rect,
    pub log: Rect,
}

/// The places in which `view` is drawn.
pub open spec fn config_places(view: ConfigView) -> ConfigAreas {
    ConfigAreas {
        title: view.title.area,
        table: view.table.area,
        reset_all: view.reset_all.area,
        reset_config: view.reset_config.area,
        help: view.help.area,
        log: view.log.area,
    }
}

/// Every part of the view of the settings lies on a screen of the size
/// `size`.
pub open spec fn config_within(areas: ConfigAreas, size: Rect) -> bool {
    &&& size.encloses(areas.title)
    &&& size.encloses(areas.table)
    &&& size.encloses(areas.reset_all)
    &&& size.encloses(areas.reset_config)
    &&& size.encloses(areas.help)
    &&& size.encloses(areas.log)
}

/// The columns of the row of buttons below the settings: two halves.
pub open spec fn config_button_columns() -> Seq<Constraint> {
    seq![Constraint::Percentage(50), Constraint::Percentage(50)]
}

/// Builds the columns of the row of buttons below the settings.
pub fn config_button_parts() -> (parts: Vec<Constraint>)
    ensures
        parts@ == config_button_columns(),
        modest(parts@),
{
    let mut parts: Vec<Constraint> = Vec::new();
    parts.push(Constraint::Percentage(50));
    parts.push(Constraint::Percentage(50));
    proof {
        assert(parts@ =~= config_button_columns());
    }
    parts
}

/// The places of the view of the settings whose rows are `rows`, from the
/// top: title bar, table, the row of the two buttons, help and log, and whose
/// buttons are `buttons`, from the left: the one that resets everything and
/// the one that resets the settings. Other numbers of parts make no view.
pub open spec fn config_areas_from(rows: Seq<Rect>, buttons: Seq<Rect>) -> Option<ConfigAreas> {
    if rows.len() == 5 && buttons.len() == 2 {
        Some(
            ConfigAreas {
                title: rows[0],
                table: rows[1],
                reset_all: buttons[0],
                reset_config: buttons[1],
                help: rows[3],
                log: rows[4],
            },
        )
    } else {
        None
    }
}

/// Names the rows and the buttons of the view of the settings.
pub fn config_areas_of(rows: &Vec<Rect>, buttons: &Vec<Rect>) -> (areas: Option<ConfigAreas>)
    ensures
        areas == config_areas_from(rows@, buttons@),
{
    if rows.len() == 5 && buttons.len() == 2 {
        Some(
            ConfigAreas {
                title: rows[0],
                table: rows[1],
                reset_all: buttons[0],
                reset_config: buttons[1],
                help: rows[3],
                log: rows[4],
            },
        )
    } else {
        None
    }
}

/// Lays out the view of the settings. There is no layout where the layout
/// solver does not take one of the areas; a roomy screen can always be laid
/// out. Every part lies on the screen.
pub fn config_areas(size: Rect) -> (areas: Option<ConfigAreas>)
    ensures
        !can_split(size, Direction::Vertical, 0, config_rows()) ==> areas is None,
        is_roomy(size) ==> areas is Some,
        areas matches Some(a) ==> config_within(a, size),
{
    let mut rows: Vec<Constraint> = Vec::new();
    rows.push(Constraint::Length(3));
    rows.push(Constraint::Min(8));
    rows.push(Constraint::Length(3));
    rows.push(Constraint::Length(5));
    rows.push(Constraint::Length(5));
    assert(rows@ =~= config_rows());
    let chunks = split(size, Direction::Vertical, 0, &rows)?;
    let buttons = split(chunks[2], Direction::Horizontal, 0, &config_button_parts())?;
    config_areas_of(&chunks, &buttons)
}

/// Resolves the view of the settings in the places of `areas`, for a table
/// of `item_count` rows: the pointer takes the focus for the part that it is
/// on, and on the table it selects the row that it is on.
pub fn config_in(
    areas: ConfigAreas,
    size: Rect,
    state: &mut AppState,
    config: &AppConfig,
    item_count: usize,
) -> (view: ConfigView)
    ensures
        shows_config(view, *old(state), *config, size),
        config_places(view) == areas,
        *final(state) == old(state).after_pass(config_regions(view, *old(state), item_count as nat)),
{
    let close = if config.enable_mouse_support {
        render_close_button(state, size)
    } else {
        None
    };
    let view = ConfigView {
        title: draw_title(state, areas.title),
        table: draw_config_table_selector(state, areas.table),
        reset_all: draw_reset_button(state, Focus::SubmitButton, areas.reset_all),
        reset_config: draw_reset_button(state, Focus::ExtraFocus, areas.reset_config),
        help: draw_config_help(state.focus, state.popup_mode.is_some(), areas.help),
        log: draw_logs(state, true, state.popup_mode.is_some(), areas.log),
        close,
    };
    let mut regions: Vec<Region> = Vec::new();
    regions.push(region(Focus::Title, areas.title, None));
    regions.push(
        list_region(state, Focus::ConfigTable, ListKind::Config, areas.table, item_count, None),
    );
    regions.push(region(Focus::SubmitButton, areas.reset_all, None));
    regions.push(region(Focus::ExtraFocus, areas.reset_config, None));
    regions.push(region(Focus::Log, areas.log, None));
    push_close_region(None, close, &mut regions);
    proof {
        assert(regions@ =~= config_regions(view, *state, item_count as nat));
    }
    state.resolve_pointer(&regions);
    view
}

/// Lays out and resolves the view of the settings for a table of
/// `item_count` rows. There is no view, and the state stays as it is, where
/// the layout solver does not take one of the areas; on a roomy screen there
/// always is a view. Its parts lie on the screen.
pub fn render_config(size: Rect, state: &mut AppState, config: &AppConfig, item_count: usize) -> (view:
    Option<ConfigView>)
    ensures
        view is None ==> *final(state) == *old(state),
        view matches Some(v) ==> shows_config(v, *old(state), *config, size),
        view matches Some(v) ==> *final(state) == old(state).after_pass(
            config_regions(v, *old(state), item_count as nat),
        ),
        view matches Some(v) ==> config_within(config_places(v), size),
        !can_split(size, Direction::Vertical, 0, config_rows()) ==> view is None,
        is_roomy(size) ==> view is Some,
{
    let areas = config_areas(size)?;
    Some(config_in(areas, size, state, config, item_count))
}

/// A popup in which one value is edited.
#[derive(Clone, Copy, Debug, PartialEq, Eq, Structural)]
pub struct EditDialogView {
    /// The row of the table that the popup is about.
    pub row: usize,
    /// The area that the popup clears and frames.
    pub frame: Rect,
    /// Where the current value is shown.
    pub item_area: Rect,
    /// The box in which the new value is typed.
    pub edit: Pane,
    pub log: LogPane,
    pub submit: Option<Pane>,
    pub close: Option<Pane>,
    /// Where the text cursor is drawn, while the value is being typed.
    pub cursor: Option<Position>,
}

/// The rows of an edit popup: with a submit button where the pointer is in
/// use.
pub open spec fn edit_dialog_rows(with_pointer: bool) -> Seq<Constraint> {
    if with_pointer {
        seq![
            Constraint::Min(6),
            Constraint::Min(6),
            Constraint::Length(4),
            Constraint::Length(3),
        ]
    } else {
        seq![Constraint::Percentage(40), Constraint::Percentage(40), Constraint::Length(4)]
    }
}

/// The box of an edit popup: highlighted under the pointer, accented while
/// the application is in the status `editing`.
pub open spec fn edit_box(state: AppState, editing: AppStatus, area: Rect) -> Pane {
    Pane {
        area,
        style: emphasis(false, state.points_at(area), state.app_status == editing, StyleKind::Focused),
    }
}

/// Where the text cursor of an edit popup is drawn: in the edit box, at the
/// cursor position or else at the end of the text of `input_len` characters,
/// and only while the application is in the status `editing`.
pub open spec fn edit_cursor(state: AppState, editing: AppStatus, area: Rect, input_len: nat) -> Option<
    Position,
> {
    if state.app_status == editing {
        cursor_cell(
            area,
            match state.current_cursor_position {
                Some(at) => at as nat,
                None => input_len,
            },
        )
    } else {
        None
    }
}

/// `view` is the edit popup about the row `row`, as it is drawn in the
/// places that the view itself names.
pub open spec fn shows_edit_dialog(
    view: EditDialogView,
    state: AppState,
    config: AppConfig,
    size: Rect,
    editing: AppStatus,
    row: usize,
    input_len: nat,
) -> bool {
    &&& view.row == row
    &&& view.edit == edit_box(state, editing, view.edit.area)
    &&& view.log == log_pane(state, true, false, view.log.area)
    &&& view.submit is Some <==> config.enable_mouse_support
    &&& view.submit matches Some(button) ==> button == edit_box(
        state,
        AppStatus::KeyBindMode,
        button.area,
    )
    &&& view.close == close_button_if(config.enable_mouse_support, state, size)
    &&& view.cursor == edit_cursor(state, editing, view.edit.area, input_len)
}

/// The regions of an edit popup.
pub open spec fn edit_dialog_regions(
    view: EditDialogView,
    state: AppState,
    target: Focus,
    layer: PopupMode,
) -> Seq<Region> {
    seq![plain_region(target, view.edit.area, Some(layer))] + (match view.submit {
        Some(button) => seq![plain_region(Focus::SubmitButton, button.area, Some(layer))],
        None => Seq::empty(),
    }) + close_regions(Some(layer), view.close)
}

/// Where an edit popup is drawn.
#[derive(Clone, Copy, Debug, PartialEq, Eq, Structural)]
pub struct EditDialogAreas {
    pub frame: Rect,
    pub item: Rect,
    pub edit: Rect,
    pub log: Rect,
    /// The submit button, where the pointer is in use.
    pub submit: Option<Rect>,
}

/// `view` is drawn in the places of `areas`.
pub open spec fn places_edit_dialog(view: EditDialogView, areas: EditDialogAreas) -> bool {
    &&& view.frame == areas.frame
    &&& view.item_area == areas.item
    &&& view.edit.area == areas.edit
    &&& view.log.area == areas.log
    &&& match (view.submit, areas.submit) {
        (Some(button), Some(area)) => button.area == area,
        (None, None) => true,
        _ => false,
    }
}

/// Every part of the edit popup lies on a screen of the size `size`.
pub open spec fn edit_dialog_within(areas: EditDialogAreas, size: Rect) -> bool {
    &&& size.encloses(areas.frame)
    &&& size.encloses(areas.item)
    &&& size.encloses(areas.edit)
    &&& size.encloses(areas.log)
    &&& areas.submit matches Some(area) ==> size.encloses(area)
}

/// The parts of the edit popup lie on a screen of the size `size`.
pub open spec fn edit_dialog_on_screen(view: EditDialogView, size: Rect) -> bool {
    &&& size.encloses(view.frame)
    &&& size.encloses(view.item_area)
    &&& size.encloses(view.edit.area)
    &&& size.encloses(view.log.area)
    &&& view.submit matches Some(button) ==> size.encloses(button.area)
}

/// The places of an edit popup with the frame `frame` whose rows are `rows`,
/// from the top: the value, the edit box, the log and, where the pointer is
/// in use, the submit button. Another number of rows makes no popup.
pub open spec fn edit_dialog_areas_from(frame: Rect, rows: Seq<Rect>, with_pointer: bool) -> Option<
    EditDialogAreas,
> {
    if rows.len() == edit_dialog_rows(with_pointer).len() {
        Some(
            EditDialogAreas {
                frame,
                item: rows[0],
                edit: rows[1],
                log: rows[2],
                submit: if with_pointer {
                    Some(rows[3])
                } else {
                    None
                },
            },
        )
    } else {
        None
    }
}

/// Names the rows of an edit popup with the frame `frame`.
pub fn edit_dialog_areas_of(frame: Rect, rows: &Vec<Rect>, with_pointer: bool) -> (areas: Option<
    EditDialogAreas,
>)
    ensures
        areas == edit_dialog_areas_from(frame, rows@, with_pointer),
{
    if with_pointer {
        if rows.len() == 4 {
            Some(
                EditDialogAreas {
                    frame,
                    item: rows[0],
                    edit: rows[1],
                    log: rows[2],
                    submit: Some(rows[3]),
                },
            )
        } else {
            None
        }
    } else {
        if rows.len() == 3 {
            Some(EditDialogAreas { frame, item: rows[0], edit: rows[1], log: rows[2], submit: None })
        } else {
            None
        }
    }
}

/// Lays out an edit popup in the middle of the screen. There is no layout
/// where the layout solver does not take one of the areas; a roomy screen can
/// always be laid out. Every part lies on the screen.
pub fn edit_dialog_areas(size: Rect, config: &AppConfig) -> (areas: Option<EditDialogAreas>)
    ensures
        areas matches Some(a) ==> (a.submit is Some <==> config.enable_mouse_support),
        areas matches Some(a) ==> edit_dialog_within(a, size),
        !can_split(size, Direction::Vertical, 0, crate::layout::centered_parts(70)) ==> areas is None,
        is_roomy(size) ==> areas is Some,
{
    let area = centered_rect(70, 70, size)?;
    let frame = centered_rect(80, 80, size)?;
    let mut rows: Vec<Constraint> = Vec::new();
    if config.enable_mouse_support {
        rows.push(Constraint::Min(6));
        rows.push(Constraint::Min(6));
        rows.push(Constraint::Length(4));
        rows.push(Constraint::Length(3));
    } else {
        rows.push(Constraint::Percentage(40));
        rows.push(Constraint::Percentage(40));
        rows.push(Constraint::Length(4));
    }
    assert(rows@ =~= edit_dialog_rows(config.enable_mouse_support));
    let chunks = split(area, Direction::Vertical, 0, &rows)?;
    edit_dialog_areas_of(frame, &chunks, config.enable_mouse_support)
}

/// Resolves an edit popup of the layer `layer` about the row `row` in the
/// places of `areas`. Its box stands for the focus `target`, is accented
/// while the application is in the status `editing`, and then holds the text
/// cursor, for a text of `input_len` characters.
pub fn edit_dialog_in(
    areas: EditDialogAreas,
    size: Rect,
    state: &mut AppState,
    config: &AppConfig,
    target: Focus,
    layer: PopupMode,
    editing: AppStatus,
    row: usize,
    input_len: usize,
) -> (view: EditDialogView)
    requires
        areas.submit is Some <==> config.enable_mouse_support,
    ensures
        shows_edit_dialog(view, *old(state), *config, size, editing, row, input_len as nat),
        places_edit_dialog(view, areas),
        *final(state) == old(state).after_pass(
            edit_dialog_regions(view, *old(state), target, layer),
        ),
{
    let is_editing = state.app_status == editing;
    let cursor = if is_editing {
        cursor_in_box(
            areas.edit,
            match state.current_cursor_position {
                Some(at) => at,
                None => input_len,
            },
        )
    } else {
        None
    };
    let submit = match areas.submit {
        Some(area) => Some(
            Pane {
                area,
                style: style_for(
                    false,
                    state.is_pointing_at(area),
                    state.app_status == AppStatus::KeyBindMode,
                    StyleKind::Focused,
                ),
            },
        ),
        None => None,
    };
    let close = if config.enable_mouse_support {
        render_close_button(state, size)
    } else {
        None
    };
    let view = EditDialogView {
        row,
        frame: areas.frame,
        item_area: areas.item,
        edit: Pane {
            area: areas.edit,
            style: style_for(false, state.is_pointing_at(areas.edit), is_editing, StyleKind::Focused),
        },
        log: draw_logs(state, true, false, areas.log),
        submit,
        close,
        cursor,
    };
    let mut regions: Vec<Region> = Vec::new();
    regions.push(region(target, areas.edit, Some(layer)));
    if let Some(area) = areas.submit {
        regions.push(region(Focus::SubmitButton, area, Some(layer)));
    }
    push_close_region(Some(layer), close, &mut regions);
    proof {
        assert(regions@ =~= edit_dialog_regions(view, *state, target, layer));
    }
    state.resolve_pointer(&regions);
    view
}

/// What an edit popup says below the value it is about.
pub const EDIT_POPUP_HELP: &'static str =
    "Press 'i' to edit, or 'Esc' to cancel, Press 'Enter' to stop editing and press 'Enter' again to save";

/// The text of an edit popup about a row whose value is `value`: the value,
/// and below it how to edit it.
pub open spec fn edit_popup_text(value: Seq<char>) -> Seq<char> {
    "Current Value is "@ + value + "\n\n"@ + EDIT_POPUP_HELP@
}

/// Writes the text of an edit popup about a row whose value is `value`.
pub fn edit_item_text(value: &str) -> (text: String)
    ensures
        text@ == edit_popup_text(value@),
{
    let mut text = String::from_str("Current Value is ");
    text.append(value);
    text.append("\n\n");
    text.append(EDIT_POPUP_HELP);
    proof {
        assert(text@ =~= edit_popup_text(value@));
    }
    text
}

/// The row of a table of `item_count` rows that an edit popup is about: the
/// chosen one, or the first where none is chosen. There is none where the
/// table has no such row, as when the choice was made of a longer table.
pub open spec fn row_in_question(item_count: nat, chosen: Option<usize>) -> Option<usize> {
    match chosen {
        Some(at) => if at < item_count {
            Some(at)
        } else {
            None
        },
        None => if 0 < item_count {
            Some(0usize)
        } else {
            None
        },
    }
}

/// Finds the row of a table of `item_count` rows that an edit popup is
/// about.
pub fn edited_row(item_count: usize, chosen: Option<usize>) -> (row: Option<usize>)
    ensures
        row == row_in_question(item_count as nat, chosen),
{
    let at: usize = match chosen {
        Some(at) => at,
        None => 0,
    };
    if at < item_count {
        Some(at)
    } else {
        None
    }
}

/// Lays out and resolves an edit popup about the chosen row of a table of
/// `item_count` rows. There is no popup, and the state stays as it is, where
/// the table has no such row or the layout solver does not take one of the
/// areas; on a roomy screen the row alone decides. Its parts lie on the
/// screen.
fn edit_dialog(
    size: Rect,
    state: &mut AppState,
    config: &AppConfig,
    target: Focus,
    layer: PopupMode,
    editing: AppStatus,
    item_count: usize,
    chosen: Option<usize>,
    input_len: usize,
) -> (view: Option<EditDialogView>)
    ensures
        view is None ==> *final(state) == *old(state),
        row_in_question(item_count as nat, chosen) is None ==> view is None,
        view matches Some(v) ==> row_in_question(item_count as nat, chosen) == Some(v.row),
        view matches Some(v) ==> shows_edit_dialog(
            v,
            *old(state),
            *config,
            size,
            editing,
            v.row,
            input_len as nat,
        ),
        view matches Some(v) ==> *final(state) == old(state).after_pass(
            edit_dialog_regions(v, *old(state), target, layer),
        ),
        view matches Some(v) ==> edit_dialog_on_screen(v, size),
        !can_split(size, Direction::Vertical, 0, crate::layout::centered_parts(70)) ==> view is None,
        is_roomy(size) ==> (view is Some <==> row_in_question(item_count as nat, chosen) is Some),
{
    let row = edited_row(item_count, chosen)?;
    let areas = edit_dialog_areas(size, config)?;
    Some(edit_dialog_in(areas, size, state, config, target, layer, editing, row, input_len))
}

/// Lays out and resolves the popup in which a setting is edited: the chosen
/// one of `item_count` settings, or the first where none is chosen. The box
/// holds a text of `input_len` characters; it is accented and holds the text
/// cursor while text is typed. There is no popup, and the state stays as it
/// is, where there is no such setting or the layout solver does not take one
/// of the areas; on a roomy screen the setting alone decides. The parts of
/// the popup lie on the screen.
pub fn render_edit_config(
    size: Rect,
    state: &mut AppState,
    config: &AppConfig,
    item_count: usize,
    chosen: Option<usize>,
    input_len: usize,
) -> (view: Option<EditDialogView>)
    ensures
        view is None ==> *final(state) == *old(state),
        row_in_question(item_count as nat, chosen) is None ==> view is None,
        view matches Some(v) ==> row_in_question(item_count as nat, chosen) == Some(v.row),
        view matches Some(v) ==> shows_edit_dialog(
            v,
            *old(state),
            *config,
            size,
            AppStatus::UserInput,
            v.row,
            input_len as nat,
        ),
        view matches Some(v) ==> *final(state) == old(state).after_pass(
            edit_dialog_regions(
                v,
                *old(state),
                Focus::EditGeneralConfigPopup,
                PopupMode::EditGeneralConfig,
            ),
        ),
        view matches Some(v) ==> edit_dialog_on_screen(v, size),
        !can_split(size, Direction::Vertical, 0, crate::layout::centered_parts(70)) ==> view is None,
        is_roomy(size) ==> (view is Some <==> row_in_question(item_count as nat, chosen) is Some),
{
    edit_dialog(
        size,
        state,
        config,
        Focus::EditGeneralConfigPopup,
        PopupMode::EditGeneralConfig,
        AppStatus::UserInput,
        item_count,
        chosen,
        input_len,
    )
}

/// Lays out and resolves the popup in which a key binding is edited: the one
/// that is selected in the table of `row_count` key bindings, or the first
/// where none is selected. The box holds a text of `input_len` characters; it
/// is accented and holds the text cursor while keys are recorded. There is no
/// popup, and the state stays as it is, where the selection is not a row of
/// the table or the layout solver does not take one of the areas; on a roomy
/// screen the selection alone decides. The parts of the popup lie on the
/// screen.
pub fn render_edit_specific_keybinding(
    size: Rect,
    state: &mut AppState,
    config: &AppConfig,
    row_count: usize,
    input_len: usize,
) -> (view: Option<EditDialogView>)
    ensures
        view is None ==> *final(state) == *old(state),
        row_in_question(row_count as nat, old(state).edit_keybindings_state) is None ==> view is None,
        view matches Some(v) ==> row_in_question(row_count as nat, old(state).edit_keybindings_state)
            == Some(v.row),
        view matches Some(v) ==> shows_edit_dialog(
            v,
            *old(state),
            *config,
            size,
            AppStatus::KeyBindMode,
            v.row,
            input_len as nat,
        ),
        view matches Some(v) ==> *final(state) == old(state).after_pass(
            edit_dialog_regions(
                v,
                *old(state),
                Focus::EditSpecificKeyBindingPopup,
                PopupMode::EditSpecificKeyBinding,
            ),
        ),
        view matches Some(v) ==> edit_dialog_on_screen(v, size),
        !can_split(size, Direction::Vertical, 0, crate::layout::centered_parts(70)) ==> view is None,
        is_roomy(size) ==> (view is Some <==> row_in_question(
            row_count as nat,
            old(state).edit_keybindings_state,
        ) is Some),
{
    let chosen = state.edit_keybindings_state;
    edit_dialog(
        size,
        state,
        config,
        Focus::EditSpecificKeyBindingPopup,
        PopupMode::EditSpecificKeyBinding,
        AppStatus::KeyBindMode,
        row_count,
        chosen,
        input_len,
    )
}

/// A popup that holds a list to choose from.
#[derive(Clone, Copy, Debug, PartialEq, Eq, Structural)]
pub struct ChoiceView {
    /// The area that the popup clears and frames.
    pub frame: Rect,
    /// The area in which the pointer selects.
    pub area: Rect,
    pub list_area: Rect,
    pub help_area: Rect,
    pub close: Option<Pane>,
}

/// The regions of the popup in which the default view is chosen, for a list
/// of `item_count` views.
pub open spec fn default_view_regions(view: ChoiceView, state: AppState, item_count: nat) -> Seq<
    Region,
> {
    seq![
        list_region_of(
            state,
            Focus::SelectDefaultView,
            ListKind::DefaultView,
            view.area,
            item_count,
            Some(PopupMode::SelectDefaultView),
        ),
    ] + close_regions(Some(PopupMode::SelectDefaultView), view.close)
}

/// Where the popup in which the default view is chosen is drawn.
#[derive(Clone, Copy, Debug, PartialEq, Eq, Structural)]
pub struct ChoiceAreas {
    pub frame: Rect,
    pub area: Rect,
    pub list: Rect,
    pub help: Rect,
}

/// The popup in which the default view is chosen, as it is drawn in the
/// places of `areas` on a screen of the size `size`.
pub open spec fn choice_view(state: AppState, config: AppConfig, size: Rect, areas: ChoiceAreas) -> ChoiceView {
    ChoiceView {
        frame: areas.frame,
        area: areas.area,
        list_area: areas.list,
        help_area: areas.help,
        close: close_button_if(config.enable_mouse_support, state, size),
    }
}

/// Every part of the popup lies on a screen of the size `size`, the list
/// and the help in the area in which the pointer selects.
pub open spec fn choice_within(areas: ChoiceAreas, size: Rect) -> bool {
    &&& size.encloses(areas.frame)
    &&& size.encloses(areas.area)
    &&& areas.area.encloses(areas.list)
    &&& areas.area.encloses(areas.help)
}

/// The places in which `view` is drawn.
pub open spec fn choice_places(view: ChoiceView) -> ChoiceAreas {
    ChoiceAreas { frame: view.frame, area: view.area, list: view.list_area, help: view.help_area }
}

/// The rows of the popup in which the default view is chosen: the list, and
/// five lines for its help text.
pub open spec fn choice_rows() -> Seq<Constraint> {
    seq![Constraint::Min(8), Constraint::Length(5)]
}

/// Builds the rows of the popup in which the default view is chosen.
pub fn choice_row_parts() -> (parts: Vec<Constraint>)
    ensures
        parts@ == choice_rows(),
        modest(parts@),
{
    let mut parts: Vec<Constraint> = Vec::new();
    parts.push(Constraint::Min(8));
    parts.push(Constraint::Length(5));
    proof {
        assert(parts@ =~= choice_rows());
    }
    parts
}

/// The places of the popup in which the default view is chosen, with the
/// frame `frame` around the area `area` whose rows are `rows`, from the top:
/// the list and its help text. Another number of rows makes no popup.
pub open spec fn choice_areas_from(frame: Rect, area: Rect, rows: Seq<Rect>) -> Option<ChoiceAreas> {
    if rows.len() == 2 {
        Some(ChoiceAreas { frame, area, list: rows[0], help: rows[1] })
    } else {
        None
    }
}

/// Names the rows of the popup in which the default view is chosen.
pub fn choice_areas_of(frame: Rect, area: Rect, rows: &Vec<Rect>) -> (areas: Option<ChoiceAreas>)
    ensures
        areas == choice_areas_from(frame, area, rows@),
{
    if rows.len() == 2 {
        Some(ChoiceAreas { frame, area, list: rows[0], help: rows[1] })
    } else {
        None
    }
}

/// Lays out the popup in which the default view is chosen. There is no
/// layout where the layout solver does not take one of the areas; a roomy
/// screen can always be laid out. Every part lies on the screen.
pub fn choice_areas(size: Rect) -> (areas: Option<ChoiceAreas>)
    ensures
        !can_split(size, Direction::Vertical, 0, crate::layout::centered_parts(70)) ==> areas is None,
        is_roomy(size) ==> areas is Some,
        areas matches Some(a) ==> choice_within(a, size),
        areas matches Some(a) ==> can_split(a.area, Direction::Vertical, 0, choice_rows()),
{
    let area = centered_rect(70, 70, size)?;
    let frame = centered_rect(80, 80, size)?;
    let chunks = split(area, Direction::Vertical, 0, &choice_row_parts())?;
    choice_areas_of(frame, area, &chunks)
}

/// Resolves the popup in which the default view is chosen from a list of
/// `item_count` views, in the places of `areas`: the pointer selects the view
/// that it is on.
pub fn select_default_view_in(
    areas: ChoiceAreas,
    size: Rect,
    state: &mut AppState,
    config: &AppConfig,
    item_count: usize,
) -> (view: ChoiceView)
    ensures
        view == choice_view(*old(state), *config, size, areas),
        *final(state) == old(state).after_pass(
            default_view_regions(view, *old(state), item_count as nat),
        ),
{
    let close = if config.enable_mouse_support {
        render_close_button(state, size)
    } else {
        None
    };
    let view = ChoiceView {
        frame: areas.frame,
        area: areas.area,
        list_area: areas.list,
        help_area: areas.help,
        close,
    };
    let mut regions: Vec<Region> = Vec::new();
    regions.push(
        list_region(
            state,
            Focus::SelectDefaultView,
            ListKind::DefaultView,
            areas.area,
            item_count,
            Some(PopupMode::SelectDefaultView),
        ),
    );
    push_close_region(Some(PopupMode::SelectDefaultView), close, &mut regions);
    proof {
        assert(regions@ =~= default_view_regions(view, *state, item_count as nat));
    }
    state.resolve_pointer(&regions);
    view
}

/// Lays out and resolves the popup in which the default view is chosen from
/// a list of `item_count` views. There is no view, and the state stays as it
/// is, where the layout solver does not take one of the areas; on a roomy
/// screen there always is a popup. Its parts lie on the screen.
pub fn render_select_default_view(
    size: Rect,
    state: &mut AppState,
    config: &AppConfig,
    item_count: usize,
) -> (view: Option<ChoiceView>)
    ensures
        view is None ==> *final(state) == *old(state),
        view matches Some(v) ==> v.close == close_button_if(
            config.enable_mouse_support,
            *old(state),
            size,
        ),
        view matches Some(v) ==> *final(state) == old(state).after_pass(
            default_view_regions(v, *old(state), item_count as nat),
        ),
        view matches Some(v) ==> choice_within(choice_places(v), size),
        !can_split(size, Direction::Vertical, 0, crate::layout::centered_parts(70)) ==> view is None,
        is_roomy(size) ==> view is Some,
{
    let areas = choice_areas(size)?;
    Some(select_default_view_in(areas, size, state, config, item_count))
}

/// The scroll indicator beside the table of key bindings: a column of
/// blocks.
#[derive(Clone, Copy, Debug, PartialEq, Eq, Structural)]
pub struct ScrollColumn {
    /// The column of the blocks.
    pub x: u16,
    /// The row of the first block.
    pub y: u16,
    /// How many blocks are drawn, one below the other.
    pub blocks: u16,
    pub style: StyleKind,
}

/// The view of the key bindings.
#[derive(Clone, Copy, Debug, PartialEq, Eq, Structural)]
pub struct KeybindingsView {
    pub title: Pane,
    pub table: ListPane,
    /// The column beside the table that holds the scroll indicator.
    pub track: Rect,
    pub scroll: ScrollColumn,
    pub help: Pane,
    /// The button that resets the key bindings.
    pub reset: Pane,
    pub close: Option<Pane>,
}

/// The rows of the view of the key bindings.
pub open spec fn keybindings_rows() -> Seq<Constraint> {
    seq![
        Constraint::Length(3),
        Constraint::Min(8),
        Constraint::Length(5),
        Constraint::Length(3),
    ]
}

/// The table of key bindings in `area`.
pub open spec fn keybindings_table(state: AppState, area: Rect) -> ListPane {
    let muted = state.popup_mode is Some;
    ListPane {
        area,
        border_style: emphasis(
            muted,
            state.points_at(area),
            state.focus == Focus::EditKeybindingsTable,
            StyleKind::Focused,
        ),
        text_style: if muted {
            StyleKind::Inactive
        } else {
            StyleKind::Default
        },
        highlight_style: if muted {
            StyleKind::Inactive
        } else {
            StyleKind::Focused
        },
    }
}

/// The scroll indicator of the table of key bindings, for a track in
/// `track`: the blocks stand in the last column but one of the track, from
/// its top, and fill the track but for its last cell as far as the selected
/// row is through the `row_count` rows.
pub open spec fn keybindings_scroll(state: AppState, track: Rect, row_count: nat) -> ScrollColumn {
    let right = if track.right_edge() <= u16::MAX {
        track.right_edge()
    } else {
        u16::MAX as int
    };
    ScrollColumn {
        x: if right >= 2 {
            (right - 2) as u16
        } else {
            0
        },
        y: track.y,
        blocks: scroll_ratio_of(
            row_count,
            match state.edit_keybindings_state {
                Some(row) => Some(row as nat),
                None => None,
            },
        ).scaled(
            if track.height >= 1 {
                (track.height - 1) as nat
            } else {
                0
            },
        ) as u16,
        style: if state.popup_mode is Some {
            StyleKind::Inactive
        } else {
            StyleKind::ProgressBar
        },
    }
}

/// The regions of the view of the key bindings, for a table of `row_count`
/// rows.
pub open spec fn keybindings_regions(view: KeybindingsView, state: AppState, row_count: nat) -> Seq<
    Region,
> {
    seq![
        plain_region(Focus::Title, view.title.area, None),
        list_region_of(
            state,
            Focus::EditKeybindingsTable,
            ListKind::EditKeybindings,
            view.table.area,
            row_count,
            None,
        ),
        plain_region(Focus::SubmitButton, view.reset.area, None),
    ] + close_regions(None, view.close)
}

/// Where the view of the key bindings is drawn.
#[derive(Clone, Copy, Debug, PartialEq, Eq, Structural)]
pub struct KeybindingsAreas {
    pub title: Rect,
    pub table: Rect,
    /// The column beside the table that holds the scroll indicator.
    pub track: Rect,
    pub help: Rect,
    pub reset: Rect,
}

/// The view of the key bindings for a table of `row_count` rows, as it is
/// drawn in the places of `areas` on a screen of the size `size`.
pub open spec fn keybindings_view(
    state: AppState,
    config: AppConfig,
    size: Rect,
    areas: KeybindingsAreas,
    row_count: nat,
) -> KeybindingsView {
    KeybindingsView {
        title: title_pane(state, areas.title),
        table: keybindings_table(state, areas.table),
        track: areas.track,
        scroll: keybindings_scroll(state, areas.track, row_count),
        help: Pane {
            area: areas.help,
            style: if state.popup_mode is Some {
                StyleKind::Inactive
            } else {
                StyleKind::Default
            },
        },
        reset: reset_button(state, Focus::SubmitButton, areas.reset),
        close: close_button_if(config.enable_mouse_support, state, size),
    }
}

/// The places in which `view` is drawn.
pub open spec fn keybindings_places(view: KeybindingsView) -> KeybindingsAreas {
    KeybindingsAreas {
        title: view.title.area,
        table: view.table.area,
        track: view.track,
        help: view.help.area,
        reset: view.reset.area,
    }
}

/// Every part of the view of the key bindings lies on a screen of the size
/// `size`, the track of the scroll indicator in the table.
pub open spec fn keybindings_within(areas: KeybindingsAreas, size: Rect) -> bool {
    &&& size.encloses(areas.title)
    &&& size.encloses(areas.table)
    &&& areas.table.encloses(areas.track)
    &&& size.encloses(areas.help)
    &&& size.encloses(areas.reset)
}

/// The columns of the table of key bindings: the table, and one cell for
/// its scroll indicator.
pub open spec fn keybindings_columns() -> Seq<Constraint> {
    seq![Constraint::Percentage(95), Constraint::Length(1)]
}

/// Builds the columns of the table of key bindings.
pub fn keybindings_column_parts() -> (parts: Vec<Constraint>)
    ensures
        parts@ == keybindings_columns(),
        modest(parts@),
{
    let mut parts: Vec<Constraint> = Vec::new();
    parts.push(Constraint::Percentage(95));
    parts.push(Constraint::Length(1));
    proof {
        assert(parts@ =~= keybindings_columns());
    }
    parts
}

/// The places of the view of the key bindings whose rows are `rows`, from
/// the top: title bar, table, help and reset button, and whose table has the
/// columns `columns`, the second of them for the scroll indicator. Other
/// numbers of parts make no view.
pub open spec fn keybindings_areas_from(rows: Seq<Rect>, columns: Seq<Rect>) -> Option<
    KeybindingsAreas,
> {
    if rows.len() == 4 && columns.len() == 2 {
        Some(
            KeybindingsAreas {
                title: rows[0],
                table: rows[1],
                track: columns[1],
                help: rows[2],
                reset: rows[3],
            },
        )
    } else {
        None
    }
}

/// Names the rows of the view of the key bindings and the columns of its
/// table.
pub fn keybindings_areas_of(rows: &Vec<Rect>, columns: &Vec<Rect>) -> (areas: Option<KeybindingsAreas>)
    ensures
        areas == keybindings_areas_from(rows@, columns@),
{
    if rows.len() == 4 && columns.len() == 2 {
        Some(
            KeybindingsAreas {
                title: rows[0],
                table: rows[1],
                track: columns[1],
                help: rows[2],
                reset: rows[3],
            },
        )
    } else {
        None
    }
}

/// Lays out the view of the key bindings. There is no layout where the
/// layout solver does not take one of the areas; a roomy screen can always be
/// laid out. Every part lies on the screen.
pub fn keybindings_areas(size: Rect) -> (areas: Option<KeybindingsAreas>)
    ensures
        !can_split(size, Direction::Vertical, 0, keybindings_rows()) ==> areas is None,
        is_roomy(size) ==> areas is Some,
        areas matches Some(a) ==> keybindings_within(a, size),
        areas matches Some(a) ==> can_split(a.table, Direction::Horizontal, 0, keybindings_columns()),
{
    let mut rows: Vec<Constraint> = Vec::new();
    rows.push(Constraint::Length(3));
    rows.push(Constraint::Min(8));
    rows.push(Constraint::Length(5));
    rows.push(Constraint::Length(3));
    assert(rows@ =~= keybindings_rows());
    let chunks = split(size, Direction::Vertical, 0, &rows)?;
    let table_chunks = split(chunks[1], Direction::Horizontal, 0, &keybindings_column_parts())?;
    keybindings_areas_of(&chunks, &table_chunks)
}

/// Resolves the view of the key bindings in the places of `areas`, for a
/// table of `row_count` rows: the pointer takes the focus for the part that
/// it is on, and on the table it selects the row that it is on.
pub fn keybindings_in(
    areas: KeybindingsAreas,
    size: Rect,
    state: &mut AppState,
    config: &AppConfig,
    row_count: usize,
) -> (view: KeybindingsView)
    ensures
        view == keybindings_view(*old(state), *config, size, areas, row_count as nat),
        *final(state) == old(state).after_pass(
            keybindings_regions(view, *old(state), row_count as nat),
        ),
{
    let muted = state.popup_mode.is_some();
    let track = areas.track;
    let right: u16 = track.right();
    let ratio = scroll_ratio(row_count, state.edit_keybindings_state);
    let scroll = ScrollColumn {
        x: if right >= 2 {
            right - 2
        } else {
            0
        },
        y: track.y,
        blocks: ratio.indicator_blocks(
            if track.height >= 1 {
                track.height - 1
            } else {
                0
            },
        ),
        style: muted_or(muted, StyleKind::ProgressBar),
    };
    assert(scroll == keybindings_scroll(*state, track, row_count as nat));
    let close = if config.enable_mouse_support {
        render_close_button(state, size)
    } else {
        None
    };
    let view = KeybindingsView {
        title: draw_title(state, areas.title),
        table: ListPane {
            area: areas.table,
            border_style: style_for(
                muted,
                state.is_pointing_at(areas.table),
                state.focus == Focus::EditKeybindingsTable,
                StyleKind::Focused,
            ),
            text_style: muted_or(muted, StyleKind::Default),
            highlight_style: muted_or(muted, StyleKind::Focused),
        },
        track,
        scroll,
        help: Pane { area: areas.help, style: muted_or(muted, StyleKind::Default) },
        reset: draw_reset_button(state, Focus::SubmitButton, areas.reset),
        close,
    };
    let mut regions: Vec<Region> = Vec::new();
    regions.push(region(Focus::Title, areas.title, None));
    regions.push(
        list_region(
            state,
            Focus::EditKeybindingsTable,
            ListKind::EditKeybindings,
            areas.table,
            row_count,
            None,
        ),
    );
    regions.push(region(Focus::SubmitButton, areas.reset, None));
    push_close_region(None, close, &mut regions);
    proof {
        assert(regions@ =~= keybindings_regions(view, *state, row_count as nat));
    }
    state.resolve_pointer(&regions);
    view
}

/// Lays out and resolves the view of the key bindings for a table of
/// `row_count` rows. There is no view, and the state stays as it is, where
/// the layout solver does not take one of the areas; on a roomy screen there
/// always is a view. Its parts lie on the screen.
pub fn render_edit_keybindings(
    size: Rect,
    state: &mut AppState,
    config: &AppConfig,
    row_count: usize,
) -> (view: Option<KeybindingsView>)
    ensures
        view is None ==> *final(state) == *old(state),
        view matches Some(v) ==> v == keybindings_view(
            *old(state),
            *config,
            size,
            keybindings_places(v),
            row_count as nat,
        ),
        view matches Some(v) ==> *final(state) == old(state).after_pass(
            keybindings_regions(v, *old(state), row_count as nat),
        ),
        view matches Some(v) ==> keybindings_within(keybindings_places(v), size),
        !can_split(size, Direction::Vertical, 0, keybindings_rows()) ==> view is None,
        is_roomy(size) ==> view is Some,
{
    let areas = keybindings_areas(size)?;
    Some(keybindings_in(areas, size, state, config, row_count))
}

} // verus!
