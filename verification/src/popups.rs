//! The popups: a card in full, the command palette, and the lists from which
//! a view or a card status is chosen.

use vstd::prelude::*;
use vstd::string::*;
use crate::body::current_or_first;
use crate::config::AppConfig;
use crate::due_date::days_until_due;
use crate::due_date::due_date_urgency;
use crate::due_date::is_urgency_of;
use crate::due_date::urgency_of;
use crate::due_date::DueDateUrgency;
use crate::focus::Focus;
use crate::focus::ListKind;
use crate::focus::PopupMode;
use crate::focus::Region;
use crate::geometry::Position;
use crate::geometry::Rect;
use crate::kanban::find_board;
use crate::kanban::ids_of_boards;
use crate::kanban::Board;
use crate::layout::centered_rect;
use crate::layout::is_roomy;
use crate::layout::split;
use crate::layout::top_left_rect;
use crate::layout::Constraint;
use crate::layout::Direction;
use crate::panes::close_button_if;
use crate::panes::close_regions;
use crate::panes::cursor_cell;
use crate::panes::cursor_in_box;
use crate::panes::list_region;
use crate::panes::list_region_of;
use crate::panes::push_close_region;
use crate::panes::render_close_button;
use crate::panes::Pane;
use crate::state::lemma_pass_over_nothing;
use crate::state::AppState;
use crate::text::decimal;
use crate::text::push_decimal;
use crate::viewport::first_position;
use crate::viewport::lemma_first_position;
use crate::viewport::position_of;

verus! {

/// The popup that shows the current card in full. The popup covers its area
/// whatever the state holds; without the current board nothing is drawn in
/// it.
#[derive(Clone, Copy, Debug, PartialEq, Eq, Structural)]
pub struct CardPopupView {
    pub area: Rect,
    pub description_area: Rect,
    pub info_area: Rect,
    /// Where the current board stands among the boards; without it the popup
    /// is empty.
    pub board: Option<usize>,
    /// Where the current card stands among the cards of that board; without
    /// it the popup says that the board has no such card.
    pub card: Option<usize>,
    /// How pressing the due date of that card is; it decides the colour of
    /// the date.
    pub due: DueDateUrgency,
    pub close: Option<Pane>,
}

/// Where the popup that shows a card is drawn.
#[derive(Clone, Copy, Debug, PartialEq, Eq, Structural)]
pub struct CardPopupAreas {
    pub area: Rect,
    pub description: Rect,
    pub info: Rect,
}

/// The popup lies on a screen of the size `size`, and its two parts in the
/// popup.
pub open spec fn card_popup_within(areas: CardPopupAreas, size: Rect) -> bool {
    &&& size.encloses(areas.area)
    &&& areas.area.encloses(areas.description)
    &&& areas.area.encloses(areas.info)
}

/// The rows of the popup that shows a card: the description, and twelve
/// lines for the details.
pub open spec fn card_popup_rows() -> Seq<Constraint> {
    seq![Constraint::Min(5), Constraint::Length(12)]
}

/// Builds the rows of the popup that shows a card.
pub fn card_popup_row_parts() -> (parts: Vec<Constraint>)
    ensures
        parts@ == card_popup_rows(),
        crate::layout::modest(parts@),
{
    let mut parts: Vec<Constraint> = Vec::new();
    parts.push(Constraint::Min(5));
    parts.push(Constraint::Length(12));
    proof {
        assert(parts@ =~= card_popup_rows());
    }
    parts
}

/// The places of the popup that shows a card in the area `area`, whose rows
/// inside its frame are `rows`, from the top: the description and the
/// details. Another number of rows makes no popup.
pub open spec fn card_popup_areas_from(area: Rect, rows: Seq<Rect>) -> Option<CardPopupAreas> {
    if rows.len() == 2 {
        Some(CardPopupAreas { area, description: rows[0], info: rows[1] })
    } else {
        None
    }
}

/// Names the rows of the popup that shows a card.
pub fn card_popup_areas_of(area: Rect, rows: &Vec<Rect>) -> (areas: Option<CardPopupAreas>)
    ensures
        areas == card_popup_areas_from(area, rows@),
{
    if rows.len() == 2 {
        Some(CardPopupAreas { area, description: rows[0], info: rows[1] })
    } else {
        None
    }
}

/// Lays out the popup that shows a card. There is no layout where the layout
/// solver does not take one of the areas; a roomy screen can always be laid
/// out. The popup lies on the screen.
pub fn card_popup_areas(size: Rect) -> (areas: Option<CardPopupAreas>)
    ensures
        !crate::layout::can_split(size, Direction::Vertical, 0, crate::layout::centered_parts(90))
            ==> areas is None,
        is_roomy(size) ==> areas is Some,
        areas matches Some(a) ==> card_popup_within(a, size),
        areas matches Some(a) ==> crate::layout::can_split(
            a.area,
            Direction::Vertical,
            1,
            card_popup_rows(),
        ),
{
    let area = centered_rect(90, 90, size)?;
    let chunks = split(area, Direction::Vertical, 1, &card_popup_row_parts())?;
    card_popup_areas_of(area, &chunks)
}

/// Where the current card stands among the cards of the board at `board`.
pub open spec fn shown_card(state: AppState, boards: Seq<Board>, board: Option<usize>) -> Option<
    usize,
> {
    match board {
        Some(at) if at < boards.len() => match first_position(
            boards[at as int].card_id_seq(),
            current_or_first(state.current_card_id),
        ) {
            Some(card) => Some(card as usize),
            None => None,
        },
        _ => None,
    }
}

/// `view` is the popup for the current card of `state` among `boards`, as it
/// is drawn in the places that the view itself names. The current board and
/// card are looked up by id; where none is set, the id zero counts as
/// current. Only a popup with a board has a close button.
pub open spec fn shows_card_popup(
    view: CardPopupView,
    state: AppState,
    config: AppConfig,
    size: Rect,
    boards: Seq<Board>,
) -> bool {
    &&& match first_position(ids_of_boards(boards), current_or_first(state.current_board_id)) {
        Some(at) => view.board == Some(at as usize) && at < boards.len(),
        None => view.board is None,
    }
    &&& view.card == shown_card(state, boards, view.board)
    &&& view.card matches Some(card) ==> view.board matches Some(board) && card
        < boards[board as int].cards@.len()
    &&& view.close == (if view.board is Some {
        close_button_if(config.enable_mouse_support, state, size)
    } else {
        None
    })
}

/// Looks up the current board among `boards` and the current card among the
/// cards of that board; where none is set, the id zero counts as current.
pub fn current_board_and_card(state: &AppState, boards: &Vec<Board>) -> (found: (
    Option<usize>,
    Option<usize>,
))
    ensures
        match first_position(ids_of_boards(boards@), current_or_first(state.current_board_id)) {
            Some(at) => found.0 == Some(at as usize) && at < boards@.len(),
            None => found.0 is None,
        },
        found.1 == shown_card(*state, boards@, found.0),
        found.1 matches Some(card) ==> found.0 matches Some(board) && card
            < boards@[board as int].cards@.len(),
{
    let current_board: u128 = match state.current_board_id {
        Some(id) => id,
        None => 0,
    };
    let current_card: u128 = match state.current_card_id {
        Some(id) => id,
        None => 0,
    };
    let board = find_board(boards, current_board);
    let card = match board {
        Some(at) => {
            let card_ids = boards[at].card_ids();
            proof {
                lemma_first_position(card_ids@, current_card);
            }
            position_of(&card_ids, current_card)
        },
        None => None,
    };
    (board, card)
}

/// How pressing the due date of the card shown is, where `days_left` are the
/// whole days left until it, or nothing for a date that could not be read: a
/// popup without a card has no pressing date.
pub open spec fn shown_urgency(view: CardPopupView, config: AppConfig, days_left: Option<i64>) -> DueDateUrgency {
    if view.card is Some {
        urgency_of(days_left, config.warning_delta)
    } else {
        DueDateUrgency::Default
    }
}

/// Resolves the popup that shows the current card in the places of `areas`,
/// where `days_left` are the whole days left until the due date of that card,
/// or nothing for a date that could not be read. The popup is there whatever
/// the state holds: without the current board it is empty and takes no
/// pointer.
pub fn view_card_in(
    areas: CardPopupAreas,
    size: Rect,
    state: &mut AppState,
    config: &AppConfig,
    boards: &Vec<Board>,
    days_left: Option<i64>,
) -> (view: CardPopupView)
    ensures
        view.area == areas.area,
        view.description_area == areas.description,
        view.info_area == areas.info,
        shows_card_popup(view, *old(state), *config, size, boards@),
        view.due == shown_urgency(view, *config, days_left),
        *final(state) == old(state).after_pass(
            close_regions(Some(PopupMode::ViewCard), view.close),
        ),
        view.board is None ==> *final(state) == *old(state),
{
    let (board, card) = current_board_and_card(state, boards);
    let due = if card.is_some() {
        due_date_urgency(days_left, config.warning_delta)
    } else {
        DueDateUrgency::Default
    };
    let close = if board.is_some() && config.enable_mouse_support {
        render_close_button(state, size)
    } else {
        None
    };
    let mut regions: Vec<Region> = Vec::new();
    push_close_region(Some(PopupMode::ViewCard), close, &mut regions);
    proof {
        assert(regions@ =~= close_regions(Some(PopupMode::ViewCard), close));
        if board is None {
            lemma_pass_over_nothing(*state);
        }
    }
    state.resolve_pointer(&regions);
    CardPopupView {
        area: areas.area,
        description_area: areas.description,
        info_area: areas.info,
        board,
        card,
        due,
        close,
    }
}

/// The due date of the card that the popup shows, as the card holds it.
pub open spec fn shown_due_date(view: CardPopupView, boards: Seq<Board>) -> Option<Seq<char>> {
    match (view.board, view.card) {
        (Some(board), Some(card)) => if board < boards.len() && card < boards[board as int].cards@.len() {
            Some(boards[board as int].cards@[card as int].date_due@)
        } else {
            None
        },
        _ => None,
    }
}

/// Lays out and resolves the popup that shows the current card, and reads
/// from the clock how pressing the due date of that card is today: a date
/// that has passed is critical, one within the warning period is a warning,
/// and a date further ahead or a text that is no date is neither. There is no
/// popup, and the state stays as it is, only where the layout solver does not
/// take one of the areas; a roomy screen always has its popup. The popup lies
/// on the screen.
pub fn render_view_card(size: Rect, state: &mut AppState, config: &AppConfig, boards: &Vec<Board>) -> (view:
    Option<CardPopupView>)
    ensures
        view is None ==> *final(state) == *old(state),
        !crate::layout::can_split(size, Direction::Vertical, 0, crate::layout::centered_parts(90))
            ==> view is None,
        is_roomy(size) ==> view is Some,
        view matches Some(v) ==> {
            &&& card_popup_within(
                CardPopupAreas {
                    area: v.area,
                    description: v.description_area,
                    info: v.info_area,
                },
                size,
            )
            &&& shows_card_popup(v, *old(state), *config, size, boards@)
            &&& match shown_due_date(v, boards@) {
                Some(date_due) => v.card is Some && is_urgency_of(v.due, date_due, config.warning_delta),
                None => v.card is None && v.due == DueDateUrgency::Default,
            }
            &&& *final(state) == old(state).after_pass(
                close_regions(Some(PopupMode::ViewCard), v.close),
            )
            &&& v.board is None ==> *final(state) == *old(state)
        },
{
    let areas = card_popup_areas(size)?;
    let days_left = match current_board_and_card(state, boards) {
        (Some(board), Some(card)) => days_until_due(boards[board].cards[card].date_due.as_str()),
        _ => None,
    };
    let view = view_card_in(areas, size, state, config, boards, days_left);
    proof {
        if view.card is Some {
            assert(view.due == urgency_of(days_left, config.warning_delta));
        }
    }
    Some(view)
}

/// The command palette: a search box above the list of commands.
#[derive(Clone, Copy, Debug, PartialEq, Eq, Structural)]
pub struct CommandPaletteView {
    pub search_area: Rect,
    pub results_area: Rect,
    /// Where the text cursor is drawn in the search box.
    pub cursor: Option<Position>,
    /// The search box shows a hint: nothing is typed yet.
    pub hint: bool,
    pub close: Option<Pane>,
}

/// The height of the list of commands: two lines more than there are
/// commands, three lines at least, and no more than the screen has lines
/// beyond seven.
pub open spec fn results_height(result_count: nat, screen_height: u16) -> nat {
    let room: nat = if screen_height >= 7 {
        (screen_height - 7) as nat
    } else {
        0
    };
    if result_count + 2 > 3 {
        if result_count + 2 > room {
            room
        } else {
            result_count + 2
        }
    } else {
        3
    }
}

/// The regions of the command palette, for a list of `result_count`
/// commands.
pub open spec fn command_palette_regions(
    view: CommandPaletteView,
    state: AppState,
    result_count: nat,
) -> Seq<Region> {
    seq![
        list_region_of(
            state,
            Focus::CommandPalette,
            ListKind::CommandPalette,
            view.results_area,
            result_count,
            Some(PopupMode::CommandPalette),
        ),
    ] + close_regions(Some(PopupMode::CommandPalette), view.close)
}

/// The height of the list of commands, with its frame.
pub fn command_list_height(result_count: usize, screen_height: u16) -> (height: u16)
    ensures
        height == results_height(result_count as nat, screen_height),
{
    let room: u16 = if screen_height >= 7 {
        screen_height - 7
    } else {
        0
    };
    if result_count > 1 {
        if result_count > room as usize || result_count + 2 > room as usize {
            room
        } else {
            (result_count + 2) as u16
        }
    } else {
        3
    }
}

/// Where the command palette is drawn.
#[derive(Clone, Copy, Debug, PartialEq, Eq, Structural)]
pub struct CommandPaletteAreas {
    pub search: Rect,
    pub results: Rect,
}

/// The columns of the command palette: it takes the middle four fifths of
/// the screen.
pub open spec fn command_palette_columns() -> Seq<Constraint> {
    seq![Constraint::Percentage(10), Constraint::Percentage(80), Constraint::Percentage(10)]
}

/// The command palette for a search text of `input_len` characters, as it is
/// drawn in the places of `areas` on a screen of the size `size`: the text
/// cursor stands in the search box at the cursor position or else at the end
/// of the text, and the box shows a hint while the text is empty.
pub open spec fn command_palette_view(
    state: AppState,
    config: AppConfig,
    size: Rect,
    areas: CommandPaletteAreas,
    input_len: nat,
) -> CommandPaletteView {
    CommandPaletteView {
        search_area: areas.search,
        results_area: areas.results,
        cursor: cursor_cell(
            areas.search,
            match state.current_cursor_position {
                Some(at) => at as nat,
                None => input_len,
            },
        ),
        hint: input_len == 0,
        close: close_button_if(config.enable_mouse_support, state, size),
    }
}

/// Both parts of the command palette lie on a screen of the size `size`.
pub open spec fn command_palette_within(areas: CommandPaletteAreas, size: Rect) -> bool {
    &&& size.encloses(areas.search)
    &&& size.encloses(areas.results)
}

/// The rows of the command palette on a screen of `screen_height` lines, for
/// a list of `result_count` commands: two lines free, three for the search
/// box, the list as high as `results_height` says, and two lines more.
pub open spec fn command_palette_rows(result_count: nat, screen_height: u16) -> Seq<Constraint> {
    seq![
        Constraint::Length(2),
        Constraint::Length(3),
        Constraint::Length(results_height(result_count, screen_height) as u16),
        Constraint::Length(2),
    ]
}

/// Builds the columns of the command palette.
pub fn command_palette_column_parts() -> (parts: Vec<Constraint>)
    ensures
        parts@ == command_palette_columns(),
        crate::layout::modest(parts@),
{
    let mut parts: Vec<Constraint> = Vec::new();
    parts.push(Constraint::Percentage(10));
    parts.push(Constraint::Percentage(80));
    parts.push(Constraint::Percentage(10));
    proof {
        assert(parts@ =~= command_palette_columns());
    }
    parts
}

/// Builds the rows of the command palette.
pub fn command_palette_row_parts(result_count: usize, screen_height: u16) -> (parts: Vec<Constraint>)
    ensures
        parts@ == command_palette_rows(result_count as nat, screen_height),
        crate::layout::modest(parts@),
{
    let mut parts: Vec<Constraint> = Vec::new();
    parts.push(Constraint::Length(2));
    parts.push(Constraint::Length(3));
    parts.push(Constraint::Length(command_list_height(result_count, screen_height)));
    parts.push(Constraint::Length(2));
    proof {
        assert(parts@ =~= command_palette_rows(result_count as nat, screen_height));
    }
    parts
}

/// The places of the command palette whose rows are `rows`: the search box
/// in the second row and the list in the third. Another number of rows than
/// four makes no palette.
pub open spec fn command_palette_areas_from(rows: Seq<Rect>) -> Option<CommandPaletteAreas> {
    if rows.len() == 4 {
        Some(CommandPaletteAreas { search: rows[1], results: rows[2] })
    } else {
        None
    }
}

/// Names the rows of the command palette.
pub fn command_palette_areas_of(rows: &Vec<Rect>) -> (areas: Option<CommandPaletteAreas>)
    ensures
        areas == command_palette_areas_from(rows@),
{
    if rows.len() == 4 {
        Some(CommandPaletteAreas { search: rows[1], results: rows[2] })
    } else {
        None
    }
}

/// Lays out the command palette for a list of `result_count` commands, in
/// the middle column of the screen. There is no layout where the layout
/// solver does not take one of the areas; a roomy screen can always be laid
/// out. Both parts lie on the screen.
pub fn command_palette_areas(size: Rect, result_count: usize) -> (areas: Option<CommandPaletteAreas>)
    ensures
        !crate::layout::can_split(size, Direction::Horizontal, 0, command_palette_columns())
            ==> areas is None,
        is_roomy(size) ==> areas is Some,
        areas matches Some(a) ==> command_palette_within(a, size),
{
    let across = split(size, Direction::Horizontal, 0, &command_palette_column_parts())?;
    let column = crate::layout::middle_of(&across)?;
    let rows = command_palette_row_parts(result_count, size.height);
    let chunks = split(column, Direction::Vertical, 0, &rows)?;
    command_palette_areas_of(&chunks)
}

/// Resolves the command palette in the places of `areas`, for a list of
/// `result_count` commands and a search text of `input_len` characters: the
/// pointer selects the command that it is on.
pub fn command_palette_in(
    areas: CommandPaletteAreas,
    size: Rect,
    state: &mut AppState,
    config: &AppConfig,
    result_count: usize,
    input_len: usize,
) -> (view: CommandPaletteView)
    ensures
        view == command_palette_view(*old(state), *config, size, areas, input_len as nat),
        *final(state) == old(state).after_pass(
            command_palette_regions(view, *old(state), result_count as nat),
        ),
{
    let at: usize = match state.current_cursor_position {
        Some(at) => at,
        None => input_len,
    };
    let close = if config.enable_mouse_support {
        render_close_button(state, size)
    } else {
        None
    };
    let view = CommandPaletteView {
        search_area: areas.search,
        results_area: areas.results,
        cursor: cursor_in_box(areas.search, at),
        hint: input_len == 0,
        close,
    };
    let mut regions: Vec<Region> = Vec::new();
    regions.push(
        list_region(
            state,
            Focus::CommandPalette,
            ListKind::CommandPalette,
            areas.results,
            result_count,
            Some(PopupMode::CommandPalette),
        ),
    );
    push_close_region(Some(PopupMode::CommandPalette), close, &mut regions);
    proof {
        assert(regions@ =~= command_palette_regions(view, *state, result_count as nat));
    }
    state.resolve_pointer(&regions);
    view
}

/// Lays out and resolves the command palette for a list of `result_count`
/// commands and a search text of `input_len` characters. There is no view,
/// and the state stays as it is, where the layout solver does not take one of
/// the areas; on a roomy screen there always is one. It lies on the screen.
pub fn render_command_palette(
    size: Rect,
    state: &mut AppState,
    config: &AppConfig,
    result_count: usize,
    input_len: usize,
) -> (view: Option<CommandPaletteView>)
    ensures
        view is None ==> *final(state) == *old(state),
        view matches Some(v) ==> v == command_palette_view(
            *old(state),
            *config,
            size,
            CommandPaletteAreas { search: v.search_area, results: v.results_area },
            input_len as nat,
        ),
        view matches Some(v) ==> *final(state) == old(state).after_pass(
            command_palette_regions(v, *old(state), result_count as nat),
        ),
        view matches Some(v) ==> command_palette_within(
            CommandPaletteAreas { search: v.search_area, results: v.results_area },
            size,
        ),
        !crate::layout::can_split(size, Direction::Horizontal, 0, command_palette_columns())
            ==> view is None,
        is_roomy(size) ==> view is Some,
{
    let areas = command_palette_areas(size, result_count)?;
    Some(command_palette_in(areas, size, state, config, result_count, input_len))
}

/// A popup that is one list.
#[derive(Clone, Copy, Debug, PartialEq, Eq, Structural)]
pub struct ListPopupView {
    pub area: Rect,
    pub close: Option<Pane>,
}

/// The share of the screen's height, in percent, that a popup with a list
/// of `item_count` entries takes: three lines more than it has entries.
pub open spec fn list_popup_share(item_count: nat, screen_height: u16) -> nat
    recommends
        screen_height > 0,
{
    (item_count + 3) * 100 / (screen_height as nat)
}

/// The regions of a popup that is one list.
pub open spec fn list_popup_regions(
    view: ListPopupView,
    state: AppState,
    target: Focus,
    list: ListKind,
    layer: PopupMode,
    item_count: nat,
) -> Seq<Region> {
    seq![list_region_of(state, target, list, view.area, item_count, Some(layer))] + close_regions(Some(layer),
        view.close,
    )
}

/// A popup that is one list, as it is drawn in `area` on a screen of the
/// size `size`.
pub open spec fn list_popup_view(state: AppState, config: AppConfig, size: Rect, area: Rect) -> ListPopupView {
    ListPopupView { area, close: close_button_if(config.enable_mouse_support, state, size) }
}

/// Lays out a popup that is a list of `item_count` entries: in the middle of
/// the screen, half as wide, and as high as the list with its frame. There is
/// none where the list does not fit on the screen or the layout solver does
/// not take one of the areas; on a roomy screen the height of the list alone
/// decides. The popup lies on the screen.
pub fn list_popup_area(size: Rect, item_count: usize) -> (area: Option<Rect>)
    ensures
        size.height == 0 || list_popup_share(item_count as nat, size.height) > 100 ==> area is None,
        is_roomy(size) ==> (area is Some <==> size.height > 0 && list_popup_share(
            item_count as nat,
            size.height,
        ) <= 100),
        area matches Some(a) ==> size.encloses(a),
{
    if size.height == 0 {
        return None;
    }
    let lines: u128 = item_count as u128 + 3;
    let share: u128 = lines * 100 / (size.height as u128);
    if share > 100 {
        return None;
    }
    centered_rect(50, share as u16, size)
}

fn list_popup_in(
    area: Rect,
    size: Rect,
    state: &mut AppState,
    config: &AppConfig,
    target: Focus,
    list: ListKind,
    layer: PopupMode,
    item_count: usize,
) -> (view: ListPopupView)
    ensures
        view == list_popup_view(*old(state), *config, size, area),
        *final(state) == old(state).after_pass(
            list_popup_regions(view, *old(state), target, list, layer, item_count as nat),
        ),
{
    let close = if config.enable_mouse_support {
        render_close_button(state, size)
    } else {
        None
    };
    let view = ListPopupView { area, close };
    let mut regions: Vec<Region> = Vec::new();
    regions.push(list_region(state, target, list, area, item_count, Some(layer)));
    push_close_region(Some(layer), close, &mut regions);
    proof {
        assert(regions@ =~= list_popup_regions(
            view,
            *state,
            target,
            list,
            layer,
            item_count as nat,
        ));
    }
    state.resolve_pointer(&regions);
    view
}

/// Resolves the popup in which the view is changed, drawn in `area`, for a
/// list of `mode_count` views: the pointer selects the view that it is on.
pub fn change_ui_mode_in(
    area: Rect,
    size: Rect,
    state: &mut AppState,
    config: &AppConfig,
    mode_count: usize,
) -> (view: ListPopupView)
    ensures
        view == list_popup_view(*old(state), *config, size, area),
        *final(state) == old(state).after_pass(
            list_popup_regions(
                view,
                *old(state),
                Focus::ChangeUiModePopup,
                ListKind::DefaultView,
                PopupMode::ChangeUIMode,
                mode_count as nat,
            ),
        ),
{
    list_popup_in(
        area,
        size,
        state,
        config,
        Focus::ChangeUiModePopup,
        ListKind::DefaultView,
        PopupMode::ChangeUIMode,
        mode_count,
    )
}

/// Resolves the popup in which the status of the current card is changed,
/// drawn in `area`, for a list of `status_count` statuses: the pointer
/// selects the status that it is on.
pub fn change_card_status_in(
    area: Rect,
    size: Rect,
    state: &mut AppState,
    config: &AppConfig,
    status_count: usize,
) -> (view: ListPopupView)
    ensures
        view == list_popup_view(*old(state), *config, size, area),
        *final(state) == old(state).after_pass(
            list_popup_regions(
                view,
                *old(state),
                Focus::ChangeCardStatusPopup,
                ListKind::CardStatus,
                PopupMode::ChangeCurrentCardStatus,
                status_count as nat,
            ),
        ),
{
    list_popup_in(
        area,
        size,
        state,
        config,
        Focus::ChangeCardStatusPopup,
        ListKind::CardStatus,
        PopupMode::ChangeCurrentCardStatus,
        status_count,
    )
}

/// Lays out and resolves the popup in which the view is changed, for a list
/// of `mode_count` views: the popup is as high as its list. There is no
/// popup, and the state stays as it is, where the list does not fit on the
/// screen or the layout solver does not take one of the areas; on a roomy
/// screen the height of the list alone decides. The popup lies on the screen.
pub fn render_change_ui_mode_popup(
    size: Rect,
    state: &mut AppState,
    config: &AppConfig,
    mode_count: usize,
) -> (view: Option<ListPopupView>)
    ensures
        view is None ==> *final(state) == *old(state),
        size.height == 0 || list_popup_share(mode_count as nat, size.height) > 100 ==> view is None,
        is_roomy(size) ==> (view is Some <==> size.height > 0 && list_popup_share(
            mode_count as nat,
            size.height,
        ) <= 100),
        view matches Some(v) ==> {
            &&& size.encloses(v.area)
            &&& v.close == close_button_if(config.enable_mouse_support, *old(state), size)
            &&& *final(state) == old(state).after_pass(
                list_popup_regions(
                    v,
                    *old(state),
                    Focus::ChangeUiModePopup,
                    ListKind::DefaultView,
                    PopupMode::ChangeUIMode,
                    mode_count as nat,
                ),
            )
        },
{
    let area = list_popup_area(size, mode_count)?;
    Some(change_ui_mode_in(area, size, state, config, mode_count))
}

/// Lays out and resolves the popup in which the status of the current card
/// is changed, for a list of `status_count` statuses: the popup is as high as
/// its list. There is no popup, and the state stays as it is, where the list
/// does not fit on the screen or the layout solver does not take one of the
/// areas; on a roomy screen the height of the list alone decides. The popup
/// lies on the screen.
pub fn render_change_current_card_status_popup(
    size: Rect,
    state: &mut AppState,
    config: &AppConfig,
    status_count: usize,
) -> (view: Option<ListPopupView>)
    ensures
        view is None ==> *final(state) == *old(state),
        size.height == 0 || list_popup_share(status_count as nat, size.height) > 100
            ==> view is None,
        is_roomy(size) ==> (view is Some <==> size.height > 0 && list_popup_share(
            status_count as nat,
            size.height,
        ) <= 100),
        view matches Some(v) ==> {
            &&& size.encloses(v.area)
            &&& v.close == close_button_if(config.enable_mouse_support, *old(state), size)
            &&& *final(state) == old(state).after_pass(
                list_popup_regions(
                    v,
                    *old(state),
                    Focus::ChangeCardStatusPopup,
                    ListKind::CardStatus,
                    PopupMode::ChangeCurrentCardStatus,
                    status_count as nat,
                ),
            )
        },
{
    let area = list_popup_area(size, status_count)?;
    Some(change_card_status_in(area, size, state, config, status_count))
}

/// A time in microseconds as the debug panel shows it: in whole milliseconds
/// from a thousand microseconds on.
pub open spec fn render_time_text(micros: u64) -> Seq<char> {
    if micros > 1000 {
        decimal((micros / 1000) as nat) + "ms"@
    } else {
        decimal(micros as nat) + "μs"@
    }
}

/// Writes the time that drawing took.
pub fn render_time(micros: u64) -> (text: String)
    ensures
        text@ == render_time_text(micros),
{
    let mut text = String::new();
    if micros > 1000 {
        push_decimal(&mut text, micros / 1000);
        text.append("ms");
    } else {
        push_decimal(&mut text, micros);
        text.append("μs");
    }
    proof {
        assert(text@ =~= render_time_text(micros));
    }
    text
}

/// The line of the debug panel on the time that drawing took; without a time
/// it says so.
pub open spec fn render_time_line(time: Option<u64>) -> Seq<char> {
    "UI Render Time: "@ + (match time {
        Some(micros) => render_time_text(micros),
        None => "None"@,
    })
}

/// The debug panel: where it is drawn, and its line on the time that drawing
/// took.
#[derive(Clone, Debug, PartialEq, Eq)]
pub struct DebugPanel {
    pub area: Rect,
    pub render_time: String,
}

/// The debug panel in `area`, for a drawing that took `time` microseconds.
pub fn debug_panel_in(area: Rect, time: Option<u64>) -> (panel: DebugPanel)
    ensures
        panel.area == area,
        panel.render_time@ == render_time_line(time),
{
    let mut line = String::from_str("UI Render Time: ");
    match time {
        Some(micros) => {
            let text = render_time(micros);
            line.append(text.as_str());
        },
        None => {
            line.append("None");
        },
    }
    proof {
        assert(line@ =~= render_time_line(time));
    }
    DebugPanel { area, render_time: line }
}

/// Places the debug panel, in the top left corner, three tenths of the screen
/// wide and high, and writes its line on the time that drawing took, `time`
/// microseconds. There is none where the layout solver does not take the
/// screen or its first row; a roomy screen always has one. The panel lies on
/// the screen.
pub fn render_debug_panel(size: Rect, time: Option<u64>) -> (panel: Option<DebugPanel>)
    ensures
        !crate::layout::can_split(size, Direction::Vertical, 0, crate::layout::leading_parts(30))
            ==> panel is None,
        is_roomy(size) ==> panel is Some,
        panel matches Some(p) ==> size.encloses(p.area) && p.render_time@ == render_time_line(time),
{
    let area = top_left_rect(30, 30, size)?;
    Some(debug_panel_in(area, time))
}

} // verus!
