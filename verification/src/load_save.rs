//! The view in which a save is chosen and previewed.

use vstd::prelude::*;
use crate::body::body_layout;
use crate::body::layout_fits;
use crate::body::layout_takes_shares;
use crate::body::layout_within;
use crate::body::places_body;
use crate::body::BodyLayout;
use crate::body::body_regions;
use crate::body::body_view;
use crate::body::push_body_regions;
use crate::body::shows_body;
use crate::body::BodyView;
use crate::config::AppConfig;
use crate::focus::Focus;
use crate::focus::ListKind;
use crate::focus::Region;
use crate::geometry::Rect;
use crate::kanban::Board;
use crate::kanban::BoardCardViewState;
use crate::layout::can_split;
use crate::layout::is_roomy;
use crate::layout::split;
use crate::layout::Constraint;
use crate::layout::Direction;
use crate::panes::close_button_if;
use crate::panes::close_regions;
use crate::panes::list_region;
use crate::panes::list_region_of;
use crate::panes::push_close_region;
use crate::panes::render_close_button;
use crate::panes::Pane;
use crate::state::muted_or;
use crate::state::AppState;
use crate::state::StyleKind;

verus! {

/// What the preview pane holds.
#[derive(Clone, Copy, Debug, PartialEq, Eq, Hash, Structural)]
pub enum PreviewKind {
    /// No save is selected: a hint on how to select one.
    SelectHint,
    /// A save is selected and not yet loaded.
    Waiting,
    /// The boards of the selected save.
    Boards,
}

/// The view in which a save is chosen.
#[derive(Clone, Debug, PartialEq, Eq)]
pub struct LoadSaveView {
    pub heading: Pane,
    /// The list of saves, or the message that there are none.
    pub list: Pane,
    pub has_saves: bool,
    pub help: Pane,
    /// The style of the names of keys in the help text.
    pub key_style: StyleKind,
    pub preview_area: Rect,
    pub preview: PreviewKind,
    /// The boards of the preview, where the preview holds boards.
    pub body: Option<BodyView>,
    pub close: Option<Pane>,
}

/// The columns of the view: the list, the preview, and three columns for the
/// close button where the pointer is in use.
pub open spec fn load_save_columns(with_pointer: bool) -> Seq<Constraint> {
    if with_pointer {
        seq![Constraint::Percentage(30), Constraint::Percentage(68), Constraint::Length(3)]
    } else {
        seq![Constraint::Percentage(30), Constraint::Percentage(70)]
    }
}

/// What the preview pane holds: a hint while no save is selected, then a
/// note that the preview is on its way, then the boards.
pub open spec fn preview_kind(selected: Option<usize>, loaded: bool) -> PreviewKind {
    if selected is None {
        PreviewKind::SelectHint
    } else if !loaded {
        PreviewKind::Waiting
    } else {
        PreviewKind::Boards
    }
}

/// The region of the list of saves. An empty list has none. The list is a
/// part of the view, so it takes the pointer only while no popup is open.
pub open spec fn save_list_regions(view: LoadSaveView, state: AppState, save_count: nat) -> Seq<
    Region,
> {
    if save_count > 0 {
        seq![
            list_region_of(
                state,
                Focus::LoadSave,
                ListKind::LoadSave,
                view.list.area,
                save_count,
                None,
            ),
        ]
    } else {
        Seq::empty()
    }
}

/// The regions of the view: the list of saves, the boards of the preview and
/// the close button.
pub open spec fn load_save_regions(view: LoadSaveView, state: AppState, save_count: nat) -> Seq<
    Region,
> {
    save_list_regions(view, state, save_count) + (match view.body {
        Some(body) => body_regions(body.boards@),
        None => Seq::empty(),
    }) + close_regions(None, view.close)
}

/// `view` is the view for `save_count` saves and the given preview, as it is
/// drawn in the places that the view itself names.
pub open spec fn shows_load_save(
    view: LoadSaveView,
    state: AppState,
    config: AppConfig,
    size: Rect,
    save_count: nat,
    preview: Option<(Seq<Board>, Seq<BoardCardViewState>)>,
) -> bool {
    let plain = if state.popup_mode is Some {
        StyleKind::Inactive
    } else {
        StyleKind::Default
    };
    &&& view.heading.style == plain
    &&& view.list.style == plain
    &&& view.help.style == plain
    &&& view.key_style == (if state.popup_mode is Some {
        StyleKind::Inactive
    } else {
        StyleKind::HelpKey
    })
    &&& view.has_saves == (save_count > 0)
    &&& view.preview == preview_kind(state.load_save_state, preview is Some)
    &&& view.body is Some <==> view.preview == PreviewKind::Boards
    &&& match (view.body, preview) {
        (Some(body), Some(shown)) => shows_body(body, state, config, shown.0, shown.1),
        _ => true,
    }
    &&& view.close == close_button_if(config.enable_mouse_support, state, size)
}

/// Where the view in which a save is chosen is drawn.
#[derive(Clone, Debug, PartialEq, Eq)]
pub struct LoadSaveAreas {
    pub heading: Rect,
    pub list: Rect,
    pub help: Rect,
    pub preview: Rect,
    /// Where the boards of the preview are drawn, where the preview holds
    /// boards.
    pub body: Option<BodyLayout>,
}

/// `view` is drawn in the places of `areas`.
pub open spec fn places_load_save(view: LoadSaveView, areas: LoadSaveAreas) -> bool {
    &&& view.heading.area == areas.heading
    &&& view.list.area == areas.list
    &&& view.help.area == areas.help
    &&& view.preview_area == areas.preview
    &&& match (view.body, areas.body) {
        (Some(body), Some(layout)) => places_body(body, layout),
        (None, None) => true,
        _ => false,
    }
}

/// Every part of the view lies on a screen of the size `size`, and the
/// boards of the preview in the preview pane.
pub open spec fn load_save_within(areas: LoadSaveAreas, size: Rect) -> bool {
    &&& size.encloses(areas.heading)
    &&& size.encloses(areas.list)
    &&& size.encloses(areas.help)
    &&& size.encloses(areas.preview)
    &&& areas.body matches Some(layout) ==> layout.area == areas.preview && layout_within(layout)
}

/// The parts of the view lie on a screen of the size `size`.
pub open spec fn load_save_on_screen(view: LoadSaveView, size: Rect) -> bool {
    &&& size.encloses(view.heading.area)
    &&& size.encloses(view.list.area)
    &&& size.encloses(view.help.area)
    &&& size.encloses(view.preview_area)
    &&& view.body matches Some(body) ==> body.area == view.preview_area
}

/// The rows of the column of the saves: a heading, the list, and nine lines
/// for the help text.
pub open spec fn save_list_rows() -> Seq<Constraint> {
    seq![Constraint::Length(3), Constraint::Min(10), Constraint::Length(9)]
}

/// Builds the rows of the column of the saves.
pub fn save_list_row_parts() -> (parts: Vec<Constraint>)
    ensures
        parts@ == save_list_rows(),
        crate::layout::modest(parts@),
{
    let mut parts: Vec<Constraint> = Vec::new();
    parts.push(Constraint::Length(3));
    parts.push(Constraint::Min(10));
    parts.push(Constraint::Length(9));
    proof {
        assert(parts@ =~= save_list_rows());
    }
    parts
}

/// The places of the view in which a save is chosen, whose columns are
/// `columns`, from the left: the saves and the preview, and whose column of
/// the saves has the rows `rows`, from the top: heading, list and help text.
/// `body` is the layout of the boards of the preview; there are no places
/// unless it was laid out in the preview and the parts are as many as the
/// view has.
pub open spec fn load_save_areas_from(
    columns: Seq<Rect>,
    rows: Seq<Rect>,
    body: Option<BodyLayout>,
    with_pointer: bool,
) -> Option<LoadSaveAreas> {
    if columns.len() == load_save_columns(with_pointer).len() && rows.len() == 3 && (
    body matches Some(layout) ==> layout.area == columns[1]) {
        Some(
            LoadSaveAreas {
                heading: rows[0],
                list: rows[1],
                help: rows[2],
                preview: columns[1],
                body,
            },
        )
    } else {
        None
    }
}

/// Names the columns of the view in which a save is chosen and the rows of
/// its column of the saves.
pub fn load_save_areas_of(
    columns: &Vec<Rect>,
    rows: &Vec<Rect>,
    body: Option<BodyLayout>,
    with_pointer: bool,
) -> (areas: Option<LoadSaveAreas>)
    ensures
        areas == load_save_areas_from(columns@, rows@, body, with_pointer),
{
    let count: usize = if with_pointer {
        3
    } else {
        2
    };
    proof {
        assert(load_save_columns(with_pointer).len() == count);
    }
    if columns.len() != count || rows.len() != 3 {
        return None;
    }
    let fits = match &body {
        Some(layout) => layout.area == columns[1],
        None => true,
    };
    if !fits {
        return None;
    }
    Some(
        LoadSaveAreas {
            heading: rows[0],
            list: rows[1],
            help: rows[2],
            preview: columns[1],
            body,
        },
    )
}

/// Lays out the view in which a save is chosen. The boards of the preview
/// are laid out where `preview_visible` names what is on screen of them.
/// There is no layout where the layout solver does not take one of the
/// areas; a roomy screen can always be laid out. Every part lies on the
/// screen.
pub fn load_save_areas(
    size: Rect,
    config: &AppConfig,
    preview_visible: Option<&Vec<BoardCardViewState>>,
) -> (areas: Option<LoadSaveAreas>)
    ensures
        areas matches Some(a) ==> match (a.body, preview_visible) {
            (Some(layout), Some(visible)) => layout_fits(layout, *config, visible@)
                && layout_takes_shares(layout, *config, visible@),
            (None, None) => true,
            _ => false,
        },
        areas matches Some(a) ==> load_save_within(a, size),
        !can_split(
            size,
            Direction::Horizontal,
            0,
            load_save_columns(config.enable_mouse_support),
        ) ==> areas is None,
        is_roomy(size) ==> areas is Some,
{
    let mut columns: Vec<Constraint> = Vec::new();
    if config.enable_mouse_support {
        columns.push(Constraint::Percentage(30));
        columns.push(Constraint::Percentage(68));
        columns.push(Constraint::Length(3));
    } else {
        columns.push(Constraint::Percentage(30));
        columns.push(Constraint::Percentage(70));
    }
    assert(columns@ =~= load_save_columns(config.enable_mouse_support));
    let across = split(size, Direction::Horizontal, 0, &columns)?;
    let chunks = split(across[0], Direction::Vertical, 0, &save_list_row_parts())?;
    let body = match preview_visible {
        Some(visible) => Some(body_layout(across[1], config, visible)?),
        None => None,
    };
    load_save_areas_of(&across, &chunks, body, config.enable_mouse_support)
}

/// Whether the preview pane holds boards: a save is selected and its boards
/// are there.
pub fn shows_preview_boards(state: &AppState, preview_loaded: bool) -> (boards: bool)
    ensures
        boards == (preview_kind(state.load_save_state, preview_loaded) == PreviewKind::Boards),
{
    state.load_save_state.is_some() && preview_loaded
}

/// Resolves the view in which one of `save_count` saves is chosen, in the
/// places of `areas`. The preview pane shows the boards `preview_boards`, as
/// far as `preview_visible` has them on screen, once a save is selected and
/// its boards are there. The pointer selects the save that it is on and, in
/// the preview, the board or card that it is on.
pub fn load_save_in(
    areas: &LoadSaveAreas,
    size: Rect,
    state: &mut AppState,
    config: &AppConfig,
    save_count: usize,
    preview_boards: Option<&Vec<Board>>,
    preview_visible: &Vec<BoardCardViewState>,
) -> (view: LoadSaveView)
    requires
        areas.body is Some <==> preview_kind(old(state).load_save_state, preview_boards is Some)
            == PreviewKind::Boards,
        areas.body matches Some(layout) ==> layout_fits(layout, *config, preview_visible@),
    ensures
        shows_load_save(
            view,
            *old(state),
            *config,
            size,
            save_count as nat,
            match preview_boards {
                Some(boards) => Some((boards@, preview_visible@)),
                None => None,
            },
        ),
        places_load_save(view, *areas),
        *final(state) == old(state).after_pass(
            load_save_regions(view, *old(state), save_count as nat),
        ),
{
    let muted = state.popup_mode.is_some();
    let plain = muted_or(muted, StyleKind::Default);
    let (preview, body) = match (state.load_save_state, preview_boards, &areas.body) {
        (None, _, _) => (PreviewKind::SelectHint, None),
        (Some(_), None, _) => (PreviewKind::Waiting, None),
        (Some(_), Some(boards), Some(layout)) => (
            PreviewKind::Boards,
            Some(body_view(layout, state, config, boards, preview_visible)),
        ),
        (Some(_), Some(_), None) => (PreviewKind::Boards, None),
    };
    let close = if config.enable_mouse_support {
        render_close_button(state, size)
    } else {
        None
    };
    let mut regions: Vec<Region> = Vec::new();
    if save_count > 0 {
        regions.push(
            list_region(
                state,
                Focus::LoadSave,
                ListKind::LoadSave,
                areas.list,
                save_count,
                None,
            ),
        );
    }
    if let Some(shown) = &body {
        push_body_regions(shown, &mut regions);
    }
    push_close_region(None, close, &mut regions);
    let view = LoadSaveView {
        heading: Pane { area: areas.heading, style: plain },
        list: Pane { area: areas.list, style: plain },
        has_saves: save_count > 0,
        help: Pane { area: areas.help, style: plain },
        key_style: muted_or(muted, StyleKind::HelpKey),
        preview_area: areas.preview,
        preview,
        body,
        close,
    };
    proof {
        assert(regions@ =~= load_save_regions(view, *state, save_count as nat));
    }
    state.resolve_pointer(&regions);
    view
}

/// Lays out and resolves the view in which one of `save_count` saves is
/// chosen. There is no view, and the state stays as it is, where the layout
/// solver does not take one of the areas; on a roomy screen there always is
/// one. Its parts lie on the screen.
pub fn render_load_save(
    size: Rect,
    state: &mut AppState,
    config: &AppConfig,
    save_count: usize,
    preview_boards: Option<&Vec<Board>>,
    preview_visible: &Vec<BoardCardViewState>,
) -> (view: Option<LoadSaveView>)
    ensures
        view is None ==> *final(state) == *old(state),
        view matches Some(v) ==> shows_load_save(
            v,
            *old(state),
            *config,
            size,
            save_count as nat,
            match preview_boards {
                Some(boards) => Some((boards@, preview_visible@)),
                None => None,
            },
        ),
        view matches Some(v) ==> *final(state) == old(state).after_pass(
            load_save_regions(v, *old(state), save_count as nat),
        ),
        view matches Some(v) ==> load_save_on_screen(v, size),
        !can_split(
            size,
            Direction::Horizontal,
            0,
            load_save_columns(config.enable_mouse_support),
        ) ==> view is None,
        is_roomy(size) ==> view is Some,
{
    let with_boards = if shows_preview_boards(state, preview_boards.is_some()) {
        Some(preview_visible)
    } else {
        None
    };
    let areas = load_save_areas(size, config, with_boards)?;
    Some(load_save_in(&areas, size, state, config, save_count, preview_boards, preview_visible))
}

} // verus!
