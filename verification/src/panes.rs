//! The parts that the views share: title bar, help box, log box, close
//! button and lists. Each part is described by where it is and how it is
//! emphasised, and each interactive part hands a region to the focus resolver.

use vstd::prelude::*;
use crate::focus::Focus;
use crate::focus::ListKind;
use crate::focus::PopupMode;
use crate::focus::Region;
use crate::focus::Selection;
use crate::geometry::Position;
use crate::geometry::Rect;
use crate::layout::split;
use crate::layout::Constraint;
use crate::layout::Direction;
use crate::state::emphasis;
use crate::state::muted_or;
use crate::state::style_for;
use crate::state::AppState;
use crate::state::StyleKind;
use crate::viewport::hovered_row;
use crate::viewport::row_under;

verus! {

/// A part of a view: where it is drawn and how it is emphasised.
#[derive(Clone, Copy, Debug, PartialEq, Eq, Structural)]
pub struct Pane {
    pub area: Rect,
    pub style: StyleKind,
}

/// A region that selects nothing.
pub open spec fn plain_region(target: Focus, area: Rect, layer: Option<PopupMode>) -> Region {
    Region { target, area, layer, selection: Selection::Keep }
}

/// The region of a list of `item_count` rows: it selects the row under the
/// pointer, if the pointer is on a row.
pub open spec fn list_region_of(
    state: AppState,
    target: Focus,
    list: ListKind,
    area: Rect,
    item_count: nat,
    layer: Option<PopupMode>,
) -> Region {
    Region {
        target,
        area,
        layer,
        selection: match row_under(state.pointer.y, area, item_count) {
            Some(row) => Selection::Row { list, row: row as usize },
            None => Selection::Keep,
        },
    }
}

/// Builds a region that selects nothing.
pub fn region(target: Focus, area: Rect, layer: Option<PopupMode>) -> (r: Region)
    ensures
        r == plain_region(target, area, layer),
{
    Region { target, area, layer, selection: Selection::Keep }
}

/// Builds the region of a list.
pub fn list_region(
    state: &AppState,
    target: Focus,
    list: ListKind,
    area: Rect,
    item_count: usize,
    layer: Option<PopupMode>,
) -> (r: Region)
    ensures
        r == list_region_of(*state, target, list, area, item_count as nat, layer),
{
    let selection = match hovered_row(state.pointer.y, area, item_count) {
        Some(row) => Selection::Row { list, row },
        None => Selection::Keep,
    };
    Region { target, area, layer, selection }
}

/// The title bar in `area`: muted under a popup, highlighted under the
/// pointer, accented while it has the focus.
pub open spec fn title_pane(state: AppState, area: Rect) -> Pane {
    Pane {
        area,
        style: emphasis(
            state.popup_mode is Some,
            state.points_at(area),
            state.focus == Focus::Title,
            StyleKind::Focused,
        ),
    }
}

/// Decides how the title bar is drawn.
pub fn draw_title(state: &AppState, area: Rect) -> (pane: Pane)
    ensures
        pane == title_pane(*state, area),
{
    Pane {
        area,
        style: style_for(
            state.popup_mode.is_some(),
            state.is_pointing_at(area),
            state.focus == Focus::Title,
            StyleKind::Focused,
        ),
    }
}

/// The help box: a frame around two tables of key bindings with a separator
/// between them.
#[derive(Clone, Copy, Debug, PartialEq, Eq, Structural)]
pub struct HelpPane {
    pub area: Rect,
    pub left: Rect,
    pub separator: Rect,
    pub right: Rect,
    /// The style of the frame and of the tables.
    pub style: StyleKind,
    /// The style of the selected key binding.
    pub row_style: StyleKind,
    /// The style of the separator.
    pub separator_style: StyleKind,
    /// How many of the key bindings the left table lists: the first ones.
    pub left_rows: usize,
    /// How many of the key bindings the right table lists: the rest.
    pub right_rows: usize,
}

/// How many of `row_count` key bindings go into the left table of the help
/// box: half of them, rounded down. The right table takes the rest.
pub open spec fn rows_on_the_left(row_count: nat) -> nat {
    row_count / 2
}

/// The help box in `area` with its columns: the frame is accented while the
/// help has the focus, and the key bindings are divided between the two
/// tables, the first half on the left and the rest on the right, in their
/// order.
pub open spec fn help_pane(state: AppState, area: Rect, left: Rect, separator: Rect, right: Rect) -> HelpPane {
    HelpPane {
        area,
        left,
        separator,
        right,
        style: emphasis(
            state.popup_mode is Some,
            state.points_at(area),
            state.focus == Focus::Help || state.focus == Focus::MainMenuHelp,
            StyleKind::Focused,
        ),
        row_style: if state.popup_mode is Some {
            StyleKind::Inactive
        } else {
            StyleKind::Focused
        },
        separator_style: if state.popup_mode is Some {
            StyleKind::Inactive
        } else {
            StyleKind::Default
        },
        left_rows: rows_on_the_left(state.keybind_count as nat) as usize,
        right_rows: (state.keybind_count - rows_on_the_left(state.keybind_count as nat)) as usize,
    }
}

/// The columns of a help box, inside its frame.
pub open spec fn help_columns() -> Seq<Constraint> {
    seq![Constraint::Percentage(50), Constraint::Length(1), Constraint::Percentage(50)]
}

/// Where a help box is drawn: its frame, and inside it the two tables with
/// the separator between them.
#[derive(Clone, Copy, Debug, PartialEq, Eq, Structural)]
pub struct HelpAreas {
    pub area: Rect,
    pub left: Rect,
    pub separator: Rect,
    pub right: Rect,
}

/// The columns of the help box lie in its frame.
pub open spec fn help_within(places: HelpAreas) -> bool {
    &&& places.area.encloses(places.left)
    &&& places.area.encloses(places.separator)
    &&& places.area.encloses(places.right)
}

/// The places of a help box with the frame `area` whose columns are
/// `columns`, from the left: the left table, the separator and the right
/// table. Another number of columns than three makes no help box.
pub open spec fn help_areas_from(area: Rect, columns: Seq<Rect>) -> Option<HelpAreas> {
    if columns.len() == 3 {
        Some(HelpAreas { area, left: columns[0], separator: columns[1], right: columns[2] })
    } else {
        None
    }
}

/// Names the columns of a help box with the frame `area`.
pub fn help_areas_of(area: Rect, columns: &Vec<Rect>) -> (places: Option<HelpAreas>)
    ensures
        places == help_areas_from(area, columns@),
{
    if columns.len() == 3 {
        Some(HelpAreas { area, left: columns[0], separator: columns[1], right: columns[2] })
    } else {
        None
    }
}

/// Lays out the help box in `area`. There is no layout where the layout
/// solver does not take the area; a roomy area can always be laid out. The
/// columns lie in the area.
pub fn help_areas(area: Rect) -> (places: Option<HelpAreas>)
    ensures
        places is Some <==> crate::layout::can_split(area, Direction::Horizontal, 1, help_columns()),
        places matches Some(p) ==> p.area == area && help_within(p),
        crate::layout::is_roomy(area) ==> places is Some,
{
    let mut columns: Vec<Constraint> = Vec::new();
    columns.push(Constraint::Percentage(50));
    columns.push(Constraint::Length(1));
    columns.push(Constraint::Percentage(50));
    assert(columns@ =~= help_columns());
    let chunks = split(area, Direction::Horizontal, 1, &columns)?;
    help_areas_of(area, &chunks)
}

/// Decides how the help box is drawn in the given places.
pub fn help_box(state: &AppState, places: HelpAreas) -> (pane: HelpPane)
    ensures
        pane == help_pane(*state, places.area, places.left, places.separator, places.right),
        pane.left_rows == state.keybind_count / 2,
        pane.left_rows + pane.right_rows == state.keybind_count,
{
    let muted = state.popup_mode.is_some();
    HelpPane {
        area: places.area,
        left: places.left,
        separator: places.separator,
        right: places.right,
        style: style_for(
            muted,
            state.is_pointing_at(places.area),
            state.focus == Focus::Help || state.focus == Focus::MainMenuHelp,
            StyleKind::Focused,
        ),
        row_style: muted_or(muted, StyleKind::Focused),
        separator_style: muted_or(muted, StyleKind::Default),
        left_rows: help_rows_on_the_left(state.keybind_count),
        right_rows: state.keybind_count - help_rows_on_the_left(state.keybind_count),
    }
}

/// Lays out the help box in `area` and decides how it is drawn: its left
/// table lists the first half of the key bindings, rounded down, and its
/// right table the rest. There is none where the layout solver does not take
/// the area.
pub fn draw_help(state: &AppState, area: Rect) -> (pane: Option<HelpPane>)
    ensures
        pane is Some <==> crate::layout::can_split(area, Direction::Horizontal, 1, help_columns()),
        pane matches Some(p) ==> p == help_pane(*state, area, p.left, p.separator, p.right),
        pane matches Some(p) ==> p.left_rows == state.keybind_count / 2 && p.left_rows + p.right_rows
            == state.keybind_count,
{
    let places = help_areas(area)?;
    Some(help_box(state, places))
}

/// Counts the key bindings that go into the left table of the help box.
pub fn help_rows_on_the_left(row_count: usize) -> (left: usize)
    ensures
        left == rows_on_the_left(row_count as nat),
        left <= row_count,
{
    row_count / 2
}

/// The log box.
#[derive(Clone, Copy, Debug, PartialEq, Eq, Structural)]
pub struct LogPane {
    pub area: Rect,
    /// The style of the frame.
    pub style: StyleKind,
    /// The log lines are muted too.
    pub muted: bool,
}

/// The log box in `area`. Drawn `muted`, all of it is muted. Else the frame
/// is highlighted under the pointer unless a popup is open, and accented
/// while the log has the focus where `enable_focus_highlight` asks for it.
pub open spec fn log_pane(state: AppState, enable_focus_highlight: bool, muted: bool, area: Rect) -> LogPane {
    LogPane {
        area,
        style: emphasis(
            muted,
            state.popup_mode is None && state.points_at(area),
            state.focus == Focus::Log && enable_focus_highlight,
            StyleKind::Focused,
        ),
        muted,
    }
}

/// Decides how the log box is drawn.
pub fn draw_logs(state: &AppState, enable_focus_highlight: bool, popup_mode: bool, area: Rect) -> (pane:
    LogPane)
    ensures
        pane == log_pane(*state, enable_focus_highlight, popup_mode, area),
{
    LogPane {
        area,
        style: style_for(
            popup_mode,
            state.popup_mode.is_none() && state.is_pointing_at(area),
            state.focus == Focus::Log && enable_focus_highlight,
            StyleKind::Focused,
        ),
        muted: popup_mode,
    }
}

/// Where the close button is on a screen of the size `size`: three by three
/// cells in the top right corner. A screen less than three cells wide has
/// none.
pub open spec fn close_button_spot(size: Rect) -> Option<Rect> {
    if size.width >= 3 {
        Some(Rect { x: (size.width - 3) as u16, y: 0, width: 3, height: 3 })
    } else {
        None
    }
}

/// The close button: highlighted under the pointer and drawn in the warning
/// colour otherwise.
pub open spec fn close_button(state: AppState, size: Rect) -> Option<Pane> {
    match close_button_spot(size) {
        Some(area) => Some(
            Pane {
                area,
                style: if state.points_at(area) {
                    StyleKind::MouseHighlight
                } else {
                    StyleKind::Error
                },
            },
        ),
        None => None,
    }
}

/// The close button as the view has it: only where the pointer is in use.
pub open spec fn close_button_if(enabled: bool, state: AppState, size: Rect) -> Option<Pane> {
    if enabled {
        close_button(state, size)
    } else {
        None
    }
}

/// The region of the close button. It belongs to the layer of what it
/// closes: the view (`None`) or one popup.
pub open spec fn close_regions(layer: Option<PopupMode>, button: Option<Pane>) -> Seq<Region> {
    match button {
        Some(pane) => seq![plain_region(Focus::CloseButton, pane.area, layer)],
        None => Seq::empty(),
    }
}

/// Places the close button and decides how it is drawn.
pub fn render_close_button(state: &AppState, size: Rect) -> (button: Option<Pane>)
    ensures
        button == close_button(*state, size),
{
    if size.width >= 3 {
        let area = Rect { x: size.width - 3, y: 0, width: 3, height: 3 };
        let style = if state.is_pointing_at(area) {
            StyleKind::MouseHighlight
        } else {
            StyleKind::Error
        };
        Some(Pane { area, style })
    } else {
        None
    }
}

/// Appends the region of the close button of the layer `layer`, if there is
/// a button.
pub fn push_close_region(layer: Option<PopupMode>, button: Option<Pane>, regions: &mut Vec<Region>)
    ensures
        final(regions)@ == old(regions)@ + close_regions(layer, button),
{
    if let Some(pane) = button {
        regions.push(region(Focus::CloseButton, pane.area, layer));
    }
    assert(regions@ =~= old(regions)@ + close_regions(layer, button));
}

/// A list with a frame.
#[derive(Clone, Copy, Debug, PartialEq, Eq, Structural)]
pub struct ListPane {
    pub area: Rect,
    /// The style of the frame.
    pub border_style: StyleKind,
    /// The style of the rows.
    pub text_style: StyleKind,
    /// The style of the selected row.
    pub highlight_style: StyleKind,
}

/// The main menu in `area`.
pub open spec fn main_menu_pane(state: AppState, area: Rect) -> ListPane {
    let muted = state.popup_mode is Some;
    ListPane {
        area,
        border_style: emphasis(
            muted,
            state.points_at(area),
            state.focus == Focus::MainMenu,
            StyleKind::Focused,
        ),
        text_style: if muted {
            StyleKind::Inactive
        } else {
            StyleKind::Default
        },
        highlight_style: if muted {
            StyleKind::Inactive
        } else {
            StyleKind::ListSelect
        },
    }
}

/// Decides how the main menu is drawn.
pub fn draw_main_menu(state: &AppState, area: Rect) -> (pane: ListPane)
    ensures
        pane == main_menu_pane(*state, area),
{
    let muted = state.popup_mode.is_some();
    ListPane {
        area,
        border_style: style_for(
            muted,
            state.is_pointing_at(area),
            state.focus == Focus::MainMenu,
            StyleKind::Focused,
        ),
        text_style: muted_or(muted, StyleKind::Default),
        highlight_style: muted_or(muted, StyleKind::ListSelect),
    }
}

/// The help text of the config views.
#[derive(Clone, Copy, Debug, PartialEq, Eq, Structural)]
pub struct ConfigHelpPane {
    pub area: Rect,
    /// The style of the box.
    pub style: StyleKind,
    /// The style of the running text.
    pub text_style: StyleKind,
    /// The style of the names of keys.
    pub key_style: StyleKind,
}

/// The help text of the config views in `area`.
pub open spec fn config_help_pane(focus: Focus, popup_mode: bool, area: Rect) -> ConfigHelpPane {
    ConfigHelpPane {
        area,
        style: emphasis(popup_mode, false, focus == Focus::ConfigHelp, StyleKind::Focused),
        text_style: if popup_mode {
            StyleKind::Inactive
        } else {
            StyleKind::Default
        },
        key_style: if popup_mode {
            StyleKind::Inactive
        } else {
            StyleKind::HelpKey
        },
    }
}

/// Decides how the help text of the config views is drawn.
pub fn draw_config_help(focus: Focus, popup_mode: bool, area: Rect) -> (pane: ConfigHelpPane)
    ensures
        pane == config_help_pane(focus, popup_mode, area),
{
    ConfigHelpPane {
        area,
        style: style_for(popup_mode, false, focus == Focus::ConfigHelp, StyleKind::Focused),
        text_style: muted_or(popup_mode, StyleKind::Default),
        key_style: muted_or(popup_mode, StyleKind::HelpKey),
    }
}

/// Where the text cursor is drawn in a box with a frame, for a cursor that
/// stands `position` characters into a text that fills the box line by line.
/// A box too narrow to hold a character has no place for it, and neither has
/// the grid for a cursor past its last coordinate.
pub open spec fn cursor_cell(area: Rect, position: nat) -> Option<Position> {
    if area.width <= 2 {
        None
    } else {
        let line = (area.width - 2) as nat;
        let x = area.x + position % line + 1;
        let y = area.y + position / line + 1;
        if x <= u16::MAX && y <= u16::MAX {
            Some(Position { x: x as u16, y: y as u16 })
        } else {
            None
        }
    }
}

/// Computes where the text cursor is drawn in a box with a frame.
pub fn cursor_in_box(area: Rect, position: usize) -> (cell: Option<Position>)
    ensures
        cell == cursor_cell(area, position as nat),
{
    if area.width <= 2 {
        return None;
    }
    let line: u128 = (area.width - 2) as u128;
    let at: u128 = position as u128;
    let x: u128 = area.x as u128 + at % line + 1;
    let y: u128 = area.y as u128 + at / line + 1;
    if x <= 0xffff && y <= 0xffff {
        Some(Position { x: x as u16, y: y as u16 })
    } else {
        None
    }
}

} // verus!
