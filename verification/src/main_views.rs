//! The views of the boards, with or without title bar, help box and log box,
//! and the views of the main menu, the help and the log.
//!
//! Each view comes in two steps. The first lays the view out, which is up to
//! the layout solver. The second takes the places that came back and decides
//! everything else: how each part is emphasised, and what the pointer takes.

use vstd::prelude::*;
use crate::body::body_layout;
use crate::body::body_regions;
use crate::body::body_view;
use crate::body::layout_fits;
use crate::body::layout_takes_shares;
use crate::body::layout_within;
use crate::body::places_body;
use crate::body::push_body_regions;
use crate::body::shows_body;
use crate::body::BodyLayout;
use crate::body::BodyView;
use crate::config::AppConfig;
use crate::focus::lemma_owner_exists_iff_hit;
use crate::focus::lemma_owner_of_joined_lists;
use crate::focus::lemma_owner_of_one_region;
use crate::focus::Focus;
use crate::focus::ListKind;
use crate::focus::Region;
use crate::geometry::Rect;
use crate::kanban::Board;
use crate::kanban::BoardCardViewState;
use crate::layout::can_split;
use crate::layout::is_roomy;
use crate::layout::modest;
use crate::layout::split;
use crate::layout::Constraint;
use crate::layout::Direction;
use crate::panes::close_button_if;
use crate::panes::close_regions;
use crate::panes::draw_logs;
use crate::panes::draw_main_menu;
use crate::panes::draw_title;
use crate::panes::help_areas;
use crate::panes::help_box;
use crate::panes::help_pane;
use crate::panes::help_within;
use crate::panes::list_region;
use crate::panes::list_region_of;
use crate::panes::log_pane;
use crate::panes::main_menu_pane;
use crate::panes::plain_region;
use crate::panes::push_close_region;
use crate::panes::region;
use crate::panes::render_close_button;
use crate::panes::title_pane;
use crate::panes::HelpAreas;
use crate::panes::HelpPane;
use crate::panes::ListPane;
use crate::panes::LogPane;
use crate::panes::Pane;
use crate::state::lemma_pass_follows_owner;
use crate::state::AppState;

verus! {

/// Where a view of the boards is drawn.
#[derive(Clone, Debug, PartialEq, Eq)]
pub struct MainAreas {
    pub title: Option<Rect>,
    pub body: BodyLayout,
    pub help: Option<HelpAreas>,
    pub log: Option<Rect>,
}

/// A view of the boards with the parts that go with it.
#[derive(Clone, Debug, PartialEq, Eq)]
pub struct MainView {
    pub title: Option<Pane>,
    pub body: BodyView,
    pub help: Option<HelpPane>,
    pub log: Option<LogPane>,
}

/// The share of the screen, in percent, that the boards take beside the
/// other parts.
pub open spec fn body_share(with_title: bool, with_help: bool, with_log: bool) -> u16 {
    if with_title && with_help && with_log {
        60
    } else if with_help && with_log {
        70
    } else if with_title && (with_help || with_log) {
        75
    } else if with_help {
        85
    } else if with_title || with_log {
        80
    } else {
        100
    }
}

/// The rows of a view of the boards, from the top: three lines of title, the
/// boards, five lines of help and eight lines of log, as far as the view has
/// these parts.
pub open spec fn main_rows(with_title: bool, with_help: bool, with_log: bool) -> Seq<Constraint> {
    (if with_title {
        seq![Constraint::Length(3)]
    } else {
        Seq::empty()
    }) + seq![Constraint::Percentage(body_share(with_title, with_help, with_log))] + (if with_help {
        seq![Constraint::Length(5)]
    } else {
        Seq::empty()
    }) + (if with_log {
        seq![Constraint::Length(8)]
    } else {
        Seq::empty()
    })
}

/// The regions of the title bar, if the view has one.
pub open spec fn title_regions(title: Option<Pane>) -> Seq<Region> {
    match title {
        Some(pane) => seq![plain_region(Focus::Title, pane.area, None)],
        None => Seq::empty(),
    }
}

/// The regions of the help box, if the view has one.
pub open spec fn help_regions(help: Option<HelpPane>) -> Seq<Region> {
    match help {
        Some(pane) => seq![plain_region(Focus::Help, pane.area, None)],
        None => Seq::empty(),
    }
}

/// The regions of the log box, if the view has one.
pub open spec fn log_regions(log: Option<LogPane>) -> Seq<Region> {
    match log {
        Some(pane) => seq![plain_region(Focus::Log, pane.area, None)],
        None => Seq::empty(),
    }
}

/// The regions of a view of the boards: title bar, boards and cards, help
/// box and log box.
pub open spec fn main_regions(view: MainView) -> Seq<Region> {
    title_regions(view.title) + body_regions(view.body.boards@) + help_regions(view.help)
        + log_regions(view.log)
}

/// The pointer is on none of the title bar, the help box and the log box.
pub open spec fn frame_is_clear(view: MainView, state: AppState) -> bool {
    &&& view.title matches Some(pane) ==> !state.points_at(pane.area)
    &&& view.help matches Some(pane) ==> !state.points_at(pane.area)
    &&& view.log matches Some(pane) ==> !state.points_at(pane.area)
}

/// Where the pointer is on none of the title bar, the help box and the log
/// box, a pass over the regions of the view does what a pass over the regions
/// of the boards does.
pub proof fn lemma_main_view_follows_boards(state: AppState, view: MainView)
    requires
        frame_is_clear(view, state),
    ensures
        state.after_pass(main_regions(view)) == state.after_pass(body_regions(view.body.boards@)),
{
    let pointer = state.pointer;
    let layer = state.popup_mode;
    let title = title_regions(view.title);
    let body = body_regions(view.body.boards@);
    let help = help_regions(view.help);
    let log = log_regions(view.log);
    match view.title {
        Some(pane) => lemma_owner_of_one_region(plain_region(Focus::Title, pane.area, None), pointer, layer),
        None => lemma_owner_exists_iff_hit(title, pointer, layer),
    }
    match view.help {
        Some(pane) => lemma_owner_of_one_region(plain_region(Focus::Help, pane.area, None), pointer, layer),
        None => lemma_owner_exists_iff_hit(help, pointer, layer),
    }
    match view.log {
        Some(pane) => lemma_owner_of_one_region(plain_region(Focus::Log, pane.area, None), pointer, layer),
        None => lemma_owner_exists_iff_hit(log, pointer, layer),
    }
    lemma_owner_of_joined_lists(title, body, pointer, layer);
    lemma_owner_of_joined_lists(title + body, help, pointer, layer);
    lemma_owner_of_joined_lists(title + body + help, log, pointer, layer);
    lemma_pass_follows_owner(state, main_regions(view));
    lemma_pass_follows_owner(state, body);
}

/// `view` is the view of the boards with the given parts, as it is drawn in
/// the places that the view itself names, for the state `state`.
pub open spec fn shows_main(
    view: MainView,
    with_title: bool,
    with_help: bool,
    with_log: bool,
    state: AppState,
    config: AppConfig,
    boards: Seq<Board>,
    visible: Seq<BoardCardViewState>,
) -> bool {
    &&& view.title is Some <==> with_title
    &&& view.help is Some <==> with_help
    &&& view.log is Some <==> with_log
    &&& view.title matches Some(pane) ==> pane == title_pane(state, pane.area)
    &&& shows_body(view.body, state, config, boards, visible)
    &&& view.help matches Some(pane) ==> pane == help_pane(
        state,
        pane.area,
        pane.left,
        pane.separator,
        pane.right,
    )
    &&& view.log matches Some(pane) ==> pane == log_pane(
        state,
        true,
        state.popup_mode is Some,
        pane.area,
    )
}

/// `view` is drawn in the places of `areas`.
pub open spec fn places_main(view: MainView, areas: MainAreas) -> bool {
    &&& match (view.title, areas.title) {
        (Some(pane), Some(area)) => pane.area == area,
        (None, None) => true,
        _ => false,
    }
    &&& places_body(view.body, areas.body)
    &&& match (view.help, areas.help) {
        (Some(pane), Some(places)) => pane.area == places.area && pane.left == places.left
            && pane.separator == places.separator && pane.right == places.right,
        (None, None) => true,
        _ => false,
    }
    &&& match (view.log, areas.log) {
        (Some(pane), Some(area)) => pane.area == area,
        (None, None) => true,
        _ => false,
    }
}

fn share_of_body(with_title: bool, with_help: bool, with_log: bool) -> (share: u16)
    ensures
        share == body_share(with_title, with_help, with_log),
{
    if with_title && with_help && with_log {
        60
    } else if with_help && with_log {
        70
    } else if with_title && (with_help || with_log) {
        75
    } else if with_help {
        85
    } else if with_title || with_log {
        80
    } else {
        100
    }
}

fn push_title_region(title: Option<Pane>, regions: &mut Vec<Region>)
    ensures
        final(regions)@ == old(regions)@ + title_regions(title),
{
    if let Some(pane) = title {
        regions.push(region(Focus::Title, pane.area, None));
    }
    assert(regions@ =~= old(regions)@ + title_regions(title));
}

fn push_help_region(help: Option<HelpPane>, regions: &mut Vec<Region>)
    ensures
        final(regions)@ == old(regions)@ + help_regions(help),
{
    if let Some(pane) = help {
        regions.push(region(Focus::Help, pane.area, None));
    }
    assert(regions@ =~= old(regions)@ + help_regions(help));
}

fn push_log_region(log: Option<LogPane>, regions: &mut Vec<Region>)
    ensures
        final(regions)@ == old(regions)@ + log_regions(log),
{
    if let Some(pane) = log {
        regions.push(region(Focus::Log, pane.area, None));
    }
    assert(regions@ =~= old(regions)@ + log_regions(log));
}

/// Every part of the view lies on a screen of the size `size`, the columns
/// of the help box in its frame and the boards and cards in the area of the
/// boards.
pub open spec fn main_within(areas: MainAreas, size: Rect) -> bool {
    &&& areas.title matches Some(area) ==> size.encloses(area)
    &&& size.encloses(areas.body.area)
    &&& layout_within(areas.body)
    &&& areas.help matches Some(places) ==> size.encloses(places.area) && help_within(places)
    &&& areas.log matches Some(area) ==> size.encloses(area)
}

/// Where the boards stand among the rows of a view of the boards: below the
/// title bar, if there is one.
pub open spec fn body_row(with_title: bool) -> int {
    if with_title {
        1
    } else {
        0
    }
}

/// Where the log box stands among the rows of a view of the boards: below the
/// boards, and below the help box, if there is one.
pub open spec fn log_row(with_title: bool, with_help: bool) -> int {
    body_row(with_title) + (if with_help {
        2int
    } else {
        1int
    })
}

/// The places of a view of the boards with the given parts, whose rows are
/// `rows`, from the top: title bar, boards, help box and log box, as far as
/// the view has them. `body` is the layout of the boards and `help` that of
/// the help box; there are no places unless each was laid out in its row and
/// the rows are as many as the view has parts.
pub open spec fn main_areas_from(
    rows: Seq<Rect>,
    with_title: bool,
    with_help: bool,
    with_log: bool,
    body: BodyLayout,
    help: Option<HelpAreas>,
) -> Option<MainAreas> {
    if rows.len() == main_rows(with_title, with_help, with_log).len() && body.area
        == rows[body_row(with_title)] && (match help {
        Some(places) => with_help && places.area == rows[body_row(with_title) + 1],
        None => !with_help,
    }) {
        Some(
            MainAreas {
                title: if with_title {
                    Some(rows[0])
                } else {
                    None
                },
                body,
                help,
                log: if with_log {
                    Some(rows[log_row(with_title, with_help)])
                } else {
                    None
                },
            },
        )
    } else {
        None
    }
}

/// Names the rows of a view of the boards.
pub fn main_areas_of(
    rows: &Vec<Rect>,
    with_title: bool,
    with_help: bool,
    with_log: bool,
    body: BodyLayout,
    help: Option<HelpAreas>,
) -> (areas: Option<MainAreas>)
    ensures
        areas == main_areas_from(rows@, with_title, with_help, with_log, body, help),
{
    let body_at: usize = if with_title {
        1
    } else {
        0
    };
    let log_at: usize = if with_help {
        body_at + 2
    } else {
        body_at + 1
    };
    let count: usize = if with_log {
        log_at + 1
    } else {
        log_at
    };
    proof {
        assert(main_rows(with_title, with_help, with_log).len() == count);
    }
    if rows.len() != count || body.area != rows[body_at] {
        return None;
    }
    let fits = match help {
        Some(places) => with_help && places.area == rows[body_at + 1],
        None => !with_help,
    };
    if !fits {
        return None;
    }
    Some(
        MainAreas {
            title: if with_title {
                Some(rows[0])
            } else {
                None
            },
            body,
            help,
            log: if with_log {
                Some(rows[log_at])
            } else {
                None
            },
        },
    )
}

/// Lays out a view of the boards with the given parts. There is no layout
/// where the layout solver does not take one of the areas; a roomy screen can
/// always be laid out. Every part lies on the screen.
pub fn main_areas(
    size: Rect,
    with_title: bool,
    with_help: bool,
    with_log: bool,
    config: &AppConfig,
    visible: &Vec<BoardCardViewState>,
) -> (areas: Option<MainAreas>)
    ensures
        areas matches Some(a) ==> {
            &&& a.title is Some <==> with_title
            &&& a.help is Some <==> with_help
            &&& a.log is Some <==> with_log
            &&& layout_fits(a.body, *config, visible@)
            &&& layout_takes_shares(a.body, *config, visible@)
            &&& main_within(a, size)
        },
        !can_split(size, Direction::Vertical, 0, main_rows(with_title, with_help, with_log))
            ==> areas is None,
        is_roomy(size) ==> areas is Some,
        !with_help && visible@.len() == 0 ==> (areas is Some <==> can_split(
            size,
            Direction::Vertical,
            0,
            main_rows(with_title, with_help, with_log),
        )),
{
    let mut rows: Vec<Constraint> = Vec::new();
    if with_title {
        rows.push(Constraint::Length(3));
    }
    rows.push(Constraint::Percentage(share_of_body(with_title, with_help, with_log)));
    if with_help {
        rows.push(Constraint::Length(5));
    }
    if with_log {
        rows.push(Constraint::Length(8));
    }
    assert(rows@ =~= main_rows(with_title, with_help, with_log));
    assert(modest(rows@));
    let chunks = split(size, Direction::Vertical, 0, &rows)?;
    let body_at: usize = if with_title {
        1
    } else {
        0
    };
    let help_at: usize = body_at + 1;
    let log_at: usize = if with_help {
        body_at + 2
    } else {
        body_at + 1
    };
    let body = body_layout(chunks[body_at], config, visible)?;
    let help = if with_help {
        Some(help_areas(chunks[help_at])?)
    } else {
        None
    };
    main_areas_of(&chunks, with_title, with_help, with_log, body, help)
}

/// Resolves a view of the boards in the places of `areas`: decides how each
/// part is drawn, and gives the focus and the selection to the part, board or
/// card under the pointer.
pub fn main_view_in(
    areas: &MainAreas,
    state: &mut AppState,
    config: &AppConfig,
    boards: &Vec<Board>,
    visible: &Vec<BoardCardViewState>,
) -> (view: MainView)
    requires
        layout_fits(areas.body, *config, visible@),
    ensures
        shows_main(
            view,
            areas.title is Some,
            areas.help is Some,
            areas.log is Some,
            *old(state),
            *config,
            boards@,
            visible@,
        ),
        places_main(view, *areas),
        *final(state) == old(state).after_pass(main_regions(view)),
{
    let title = match areas.title {
        Some(area) => Some(draw_title(state, area)),
        None => None,
    };
    let body = body_view(&areas.body, state, config, boards, visible);
    let help = match areas.help {
        Some(places) => Some(help_box(state, places)),
        None => None,
    };
    let log = match areas.log {
        Some(area) => Some(draw_logs(state, true, state.popup_mode.is_some(), area)),
        None => None,
    };
    let mut regions: Vec<Region> = Vec::new();
    push_title_region(title, &mut regions);
    push_body_regions(&body, &mut regions);
    push_help_region(help, &mut regions);
    push_log_region(log, &mut regions);
    let view = MainView { title, body, help, log };
    proof {
        assert(regions@ =~= main_regions(view));
    }
    state.resolve_pointer(&regions);
    view
}

/// The parts of the view lie on a screen of the size `size`.
pub open spec fn on_screen(view: MainView, size: Rect) -> bool {
    &&& view.title matches Some(pane) ==> size.encloses(pane.area)
    &&& size.encloses(view.body.area)
    &&& view.help matches Some(pane) ==> size.encloses(pane.area)
    &&& view.log matches Some(pane) ==> size.encloses(pane.area)
}

/// Lays out and resolves a view of the boards with the given parts. There
/// is no view, and the state stays as it is, where the layout solver does not
/// take one of the areas; on a roomy screen there always is one. Its parts
/// lie on the screen.
fn main_view(
    size: Rect,
    with_title: bool,
    with_help: bool,
    with_log: bool,
    state: &mut AppState,
    config: &AppConfig,
    boards: &Vec<Board>,
    visible: &Vec<BoardCardViewState>,
) -> (view: Option<MainView>)
    ensures
        view is None ==> *final(state) == *old(state),
        view matches Some(v) ==> shows_main(
            v,
            with_title,
            with_help,
            with_log,
            *old(state),
            *config,
            boards@,
            visible@,
        ),
        view matches Some(v) ==> *final(state) == old(state).after_pass(main_regions(v)),
        view matches Some(v) ==> on_screen(v, size),
        !can_split(size, Direction::Vertical, 0, main_rows(with_title, with_help, with_log))
            ==> view is None,
        is_roomy(size) ==> view is Some,
        !with_help && visible@.len() == 0 ==> (view is Some <==> can_split(
            size,
            Direction::Vertical,
            0,
            main_rows(with_title, with_help, with_log),
        )),
{
    let areas = main_areas(size, with_title, with_help, with_log, config, visible)?;
    Some(main_view_in(&areas, state, config, boards, visible))
}

/// The boards alone, on the whole screen. There is no view, and the state
/// stays as it is, where the layout solver does not take one of the areas;
/// on a roomy screen there always is a view. Its parts lie on the screen.
pub fn render_zen_mode(
    size: Rect,
    state: &mut AppState,
    config: &AppConfig,
    boards: &Vec<Board>,
    visible: &Vec<BoardCardViewState>,
) -> (view: Option<MainView>)
    ensures
        view is None ==> *final(state) == *old(state),
        view matches Some(v) ==> shows_main(
            v,
            false,
            false,
            false,
            *old(state),
            *config,
            boards@,
            visible@,
        ),
        view matches Some(v) ==> *final(state) == old(state).after_pass(main_regions(v)),
        view matches Some(v) ==> on_screen(v, size),
        !can_split(size, Direction::Vertical, 0, main_rows(false, false, false)) ==> view is None,
        is_roomy(size) ==> view is Some,
        visible@.len() == 0 ==> (view is Some <==> can_split(
            size,
            Direction::Vertical,
            0,
            main_rows(false, false, false),
        )),
{
    main_view(size, false, false, false, state, config, boards, visible)
}

/// The title bar above the boards. There is no view, and the state stays as
/// it is, where the layout solver does not take one of the areas;
/// on a roomy screen there always is a view. Its parts lie on the screen.
pub fn render_title_body(
    size: Rect,
    state: &mut AppState,
    config: &AppConfig,
    boards: &Vec<Board>,
    visible: &Vec<BoardCardViewState>,
) -> (view: Option<MainView>)
    ensures
        view is None ==> *final(state) == *old(state),
        view matches Some(v) ==> shows_main(
            v,
            true,
            false,
            false,
            *old(state),
            *config,
            boards@,
            visible@,
        ),
        view matches Some(v) ==> *final(state) == old(state).after_pass(main_regions(v)),
        view matches Some(v) ==> on_screen(v, size),
        !can_split(size, Direction::Vertical, 0, main_rows(true, false, false)) ==> view is None,
        is_roomy(size) ==> view is Some,
        visible@.len() == 0 ==> (view is Some <==> can_split(
            size,
            Direction::Vertical,
            0,
            main_rows(true, false, false),
        )),
{
    main_view(size, true, false, false, state, config, boards, visible)
}

/// The boards above the help box. There is no view, and the state stays as
/// it is, where the layout solver does not take one of the areas;
/// on a roomy screen there always is a view. Its parts lie on the screen.
pub fn render_body_help(
    size: Rect,
    state: &mut AppState,
    config: &AppConfig,
    boards: &Vec<Board>,
    visible: &Vec<BoardCardViewState>,
) -> (view: Option<MainView>)
    ensures
        view is None ==> *final(state) == *old(state),
        view matches Some(v) ==> shows_main(
            v,
            false,
            true,
            false,
            *old(state),
            *config,
            boards@,
            visible@,
        ),
        view matches Some(v) ==> *final(state) == old(state).after_pass(main_regions(v)),
        view matches Some(v) ==> on_screen(v, size),
        !can_split(size, Direction::Vertical, 0, main_rows(false, true, false)) ==> view is None,
        is_roomy(size) ==> view is Some,
{
    main_view(size, false, true, false, state, config, boards, visible)
}

/// The boards above the log box. There is no view, and the state stays as it
/// is, where the layout solver does not take one of the areas;
/// on a roomy screen there always is a view. Its parts lie on the screen.
pub fn render_body_log(
    size: Rect,
    state: &mut AppState,
    config: &AppConfig,
    boards: &Vec<Board>,
    visible: &Vec<BoardCardViewState>,
) -> (view: Option<MainView>)
    ensures
        view is None ==> *final(state) == *old(state),
        view matches Some(v) ==> shows_main(
            v,
            false,
            false,
            true,
            *old(state),
            *config,
            boards@,
            visible@,
        ),
        view matches Some(v) ==> *final(state) == old(state).after_pass(main_regions(v)),
        view matches Some(v) ==> on_screen(v, size),
        !can_split(size, Direction::Vertical, 0, main_rows(false, false, true)) ==> view is None,
        is_roomy(size) ==> view is Some,
        visible@.len() == 0 ==> (view is Some <==> can_split(
            size,
            Direction::Vertical,
            0,
            main_rows(false, false, true),
        )),
{
    main_view(size, false, false, true, state, config, boards, visible)
}

/// Title bar, boards and help box. There is no view, and the state stays as
/// it is, where the layout solver does not take one of the areas;
/// on a roomy screen there always is a view. Its parts lie on the screen.
pub fn render_title_body_help(
    size: Rect,
    state: &mut AppState,
    config: &AppConfig,
    boards: &Vec<Board>,
    visible: &Vec<BoardCardViewState>,
) -> (view: Option<MainView>)
    ensures
        view is None ==> *final(state) == *old(state),
        view matches Some(v) ==> shows_main(
            v,
            true,
            true,
            false,
            *old(state),
            *config,
            boards@,
            visible@,
        ),
        view matches Some(v) ==> *final(state) == old(state).after_pass(main_regions(v)),
        view matches Some(v) ==> on_screen(v, size),
        !can_split(size, Direction::Vertical, 0, main_rows(true, true, false)) ==> view is None,
        is_roomy(size) ==> view is Some,
{
    main_view(size, true, true, false, state, config, boards, visible)
}

/// Title bar, boards and log box. There is no view, and the state stays as
/// it is, where the layout solver does not take one of the areas;
/// on a roomy screen there always is a view. Its parts lie on the screen.
pub fn render_title_body_log(
    size: Rect,
    state: &mut AppState,
    config: &AppConfig,
    boards: &Vec<Board>,
    visible: &Vec<BoardCardViewState>,
) -> (view: Option<MainView>)
    ensures
        view is None ==> *final(state) == *old(state),
        view matches Some(v) ==> shows_main(
            v,
            true,
            false,
            true,
            *old(state),
            *config,
            boards@,
            visible@,
        ),
        view matches Some(v) ==> *final(state) == old(state).after_pass(main_regions(v)),
        view matches Some(v) ==> on_screen(v, size),
        !can_split(size, Direction::Vertical, 0, main_rows(true, false, true)) ==> view is None,
        is_roomy(size) ==> view is Some,
        visible@.len() == 0 ==> (view is Some <==> can_split(
            size,
            Direction::Vertical,
            0,
            main_rows(true, false, true),
        )),
{
    main_view(size, true, false, true, state, config, boards, visible)
}

/// Boards, help box and log box. There is no view, and the state stays as it
/// is, where the layout solver does not take one of the areas;
/// on a roomy screen there always is a view. Its parts lie on the screen.
pub fn render_body_help_log(
    size: Rect,
    state: &mut AppState,
    config: &AppConfig,
    boards: &Vec<Board>,
    visible: &Vec<BoardCardViewState>,
) -> (view: Option<MainView>)
    ensures
        view is None ==> *final(state) == *old(state),
        view matches Some(v) ==> shows_main(
            v,
            false,
            true,
            true,
            *old(state),
            *config,
            boards@,
            visible@,
        ),
        view matches Some(v) ==> *final(state) == old(state).after_pass(main_regions(v)),
        view matches Some(v) ==> on_screen(v, size),
        !can_split(size, Direction::Vertical, 0, main_rows(false, true, true)) ==> view is None,
        is_roomy(size) ==> view is Some,
{
    main_view(size, false, true, true, state, config, boards, visible)
}

/// Title bar, boards, help box and log box. There is no view, and the state
/// stays as it is, where the layout solver does not take one of the areas;
/// on a roomy screen there always is a view. Its parts lie on the screen.
pub fn render_title_body_help_log(
    size: Rect,
    state: &mut AppState,
    config: &AppConfig,
    boards: &Vec<Board>,
    visible: &Vec<BoardCardViewState>,
) -> (view: Option<MainView>)
    ensures
        view is None ==> *final(state) == *old(state),
        view matches Some(v) ==> shows_main(
            v,
            true,
            true,
            true,
            *old(state),
            *config,
            boards@,
            visible@,
        ),
        view matches Some(v) ==> *final(state) == old(state).after_pass(main_regions(v)),
        view matches Some(v) ==> on_screen(v, size),
        !can_split(size, Direction::Vertical, 0, main_rows(true, true, true)) ==> view is None,
        is_roomy(size) ==> view is Some,
{
    main_view(size, true, true, true, state, config, boards, visible)
}

/// Where the main menu view is drawn.
#[derive(Clone, Copy, Debug, PartialEq, Eq, Structural)]
pub struct MainMenuAreas {
    pub title: Rect,
    pub menu: Rect,
    pub help: HelpAreas,
    pub log: Rect,
}

/// The view of the main menu.
#[derive(Clone, Copy, Debug, PartialEq, Eq, Structural)]
pub struct MainMenuView {
    pub title: Pane,
    pub menu: ListPane,
    pub help: HelpPane,
    pub log: LogPane,
}

/// The rows of the main menu view: title, menu, help and log.
pub open spec fn main_menu_rows() -> Seq<Constraint> {
    seq![
        Constraint::Length(3),
        Constraint::Length(16),
        Constraint::Min(8),
        Constraint::Length(8),
    ]
}

/// The regions of the main menu view, for a menu of `item_count` entries.
pub open spec fn main_menu_regions(view: MainMenuView, state: AppState, item_count: nat) -> Seq<
    Region,
> {
    seq![
        plain_region(Focus::Title, view.title.area, None),
        list_region_of(state, Focus::MainMenu, ListKind::MainMenu, view.menu.area, item_count, None),
        plain_region(Focus::Help, view.help.area, None),
        plain_region(Focus::Log, view.log.area, None),
    ]
}

/// The main menu view as it is drawn in the places of `areas`.
pub open spec fn main_menu_view(state: AppState, areas: MainMenuAreas) -> MainMenuView {
    MainMenuView {
        title: title_pane(state, areas.title),
        menu: main_menu_pane(state, areas.menu),
        help: help_pane(
            state,
            areas.help.area,
            areas.help.left,
            areas.help.separator,
            areas.help.right,
        ),
        log: log_pane(state, true, state.popup_mode is Some, areas.log),
    }
}

/// The places in which `view` is drawn.
pub open spec fn main_menu_places(view: MainMenuView) -> MainMenuAreas {
    MainMenuAreas {
        title: view.title.area,
        menu: view.menu.area,
        help: HelpAreas {
            area: view.help.area,
            left: view.help.left,
            separator: view.help.separator,
            right: view.help.right,
        },
        log: view.log.area,
    }
}

/// Every part of the main menu view lies on a screen of the size `size`.
pub open spec fn main_menu_within(areas: MainMenuAreas, size: Rect) -> bool {
    &&& size.encloses(areas.title)
    &&& size.encloses(areas.menu)
    &&& size.encloses(areas.help.area)
    &&& help_within(areas.help)
    &&& size.encloses(areas.log)
}

/// Lays out the main menu view. There is no layout where the layout solver
/// does not take one of the areas; a roomy screen can always be laid out.
/// Every part lies on the screen.
pub fn main_menu_areas(size: Rect) -> (areas: Option<MainMenuAreas>)
    ensures
        !can_split(size, Direction::Vertical, 0, main_menu_rows()) ==> areas is None,
        is_roomy(size) ==> areas is Some,
        areas matches Some(a) ==> main_menu_within(a, size),
{
    let mut rows: Vec<Constraint> = Vec::new();
    rows.push(Constraint::Length(3));
    rows.push(Constraint::Length(16));
    rows.push(Constraint::Min(8));
    rows.push(Constraint::Length(8));
    assert(rows@ =~= main_menu_rows());
    let chunks = split(size, Direction::Vertical, 0, &rows)?;
    let help = help_areas(chunks[2])?;
    main_menu_areas_of(&chunks, help)
}

/// The places of the main menu view whose rows are `rows`, from the top:
/// title bar, menu, help box and log box. `help` is the layout of the help
/// box; there are no places unless it was laid out in its row and the rows
/// are four.
pub open spec fn main_menu_areas_from(rows: Seq<Rect>, help: HelpAreas) -> Option<MainMenuAreas> {
    if rows.len() == 4 && help.area == rows[2] {
        Some(MainMenuAreas { title: rows[0], menu: rows[1], help, log: rows[3] })
    } else {
        None
    }
}

/// Names the rows of the main menu view.
pub fn main_menu_areas_of(rows: &Vec<Rect>, help: HelpAreas) -> (areas: Option<MainMenuAreas>)
    ensures
        areas == main_menu_areas_from(rows@, help),
{
    if rows.len() == 4 && help.area == rows[2] {
        Some(MainMenuAreas { title: rows[0], menu: rows[1], help, log: rows[3] })
    } else {
        None
    }
}

/// Resolves the main menu view in the places of `areas`, for a menu of
/// `item_count` entries: the pointer takes the focus for the part that it is
/// on, and on the menu it selects the entry that it is on.
pub fn main_menu_in(areas: MainMenuAreas, state: &mut AppState, item_count: usize) -> (view:
    MainMenuView)
    ensures
        view == main_menu_view(*old(state), areas),
        *final(state) == old(state).after_pass(
            main_menu_regions(view, *old(state), item_count as nat),
        ),
{
    let view = MainMenuView {
        title: draw_title(state, areas.title),
        menu: draw_main_menu(state, areas.menu),
        help: help_box(state, areas.help),
        log: draw_logs(state, true, state.popup_mode.is_some(), areas.log),
    };
    let mut regions: Vec<Region> = Vec::new();
    regions.push(region(Focus::Title, areas.title, None));
    regions.push(
        list_region(state, Focus::MainMenu, ListKind::MainMenu, areas.menu, item_count, None),
    );
    regions.push(region(Focus::Help, areas.help.area, None));
    regions.push(region(Focus::Log, areas.log, None));
    proof {
        assert(regions@ =~= main_menu_regions(view, *state, item_count as nat));
    }
    state.resolve_pointer(&regions);
    view
}

/// Lays out and resolves the main menu view for a menu of `item_count`
/// entries. There is no view, and the state stays as it is, where the layout
/// solver does not take one of the areas;
/// on a roomy screen there always is a view. Its parts lie on the screen.
pub fn render_main_menu(size: Rect, state: &mut AppState, item_count: usize) -> (view: Option<
    MainMenuView,
>)
    ensures
        view is None ==> *final(state) == *old(state),
        view matches Some(v) ==> v == main_menu_view(*old(state), main_menu_places(v)),
        view matches Some(v) ==> *final(state) == old(state).after_pass(
            main_menu_regions(v, *old(state), item_count as nat),
        ),
        view matches Some(v) ==> main_menu_within(main_menu_places(v), size),
        !can_split(size, Direction::Vertical, 0, main_menu_rows()) ==> view is None,
        is_roomy(size) ==> view is Some,
{
    let areas = main_menu_areas(size)?;
    Some(main_menu_in(areas, state, item_count))
}

/// Where the help view is drawn.
#[derive(Clone, Copy, Debug, PartialEq, Eq, Structural)]
pub struct HelpMenuAreas {
    pub help: HelpAreas,
    pub log: Rect,
}

/// The view of the help.
#[derive(Clone, Copy, Debug, PartialEq, Eq, Structural)]
pub struct HelpMenuView {
    pub help: HelpPane,
    pub log: LogPane,
    pub close: Option<Pane>,
}

/// The rows of the help view: the help, and four lines of log.
pub open spec fn help_menu_rows() -> Seq<Constraint> {
    seq![Constraint::Percentage(70), Constraint::Length(4)]
}

/// The regions of the help view.
pub open spec fn help_menu_regions(view: HelpMenuView, state: AppState) -> Seq<Region> {
    seq![
        plain_region(Focus::Help, view.help.area, None),
        plain_region(Focus::Log, view.log.area, None),
    ] + close_regions(None, view.close)
}

/// The help view as it is drawn in the places of `areas` on a screen of the
/// size `size`.
pub open spec fn help_menu_view(
    state: AppState,
    config: AppConfig,
    size: Rect,
    areas: HelpMenuAreas,
) -> HelpMenuView {
    HelpMenuView {
        help: help_pane(
            state,
            areas.help.area,
            areas.help.left,
            areas.help.separator,
            areas.help.right,
        ),
        log: log_pane(state, true, state.popup_mode is Some, areas.log),
        close: close_button_if(config.enable_mouse_support, state, size),
    }
}

/// The places in which `view` is drawn.
pub open spec fn help_menu_places(view: HelpMenuView) -> HelpMenuAreas {
    HelpMenuAreas {
        help: HelpAreas {
            area: view.help.area,
            left: view.help.left,
            separator: view.help.separator,
            right: view.help.right,
        },
        log: view.log.area,
    }
}

/// Every part of the help view lies on a screen of the size `size`.
pub open spec fn help_menu_within(areas: HelpMenuAreas, size: Rect) -> bool {
    &&& size.encloses(areas.help.area)
    &&& help_within(areas.help)
    &&& size.encloses(areas.log)
}

/// Lays out the help view. There is no layout where the layout solver does
/// not take one of the areas; a roomy screen can always be laid out. Every
/// part lies on the screen.
pub fn help_menu_areas(size: Rect) -> (areas: Option<HelpMenuAreas>)
    ensures
        !can_split(size, Direction::Vertical, 0, help_menu_rows()) ==> areas is None,
        is_roomy(size) ==> areas is Some,
        areas matches Some(a) ==> help_menu_within(a, size),
{
    let mut rows: Vec<Constraint> = Vec::new();
    rows.push(Constraint::Percentage(70));
    rows.push(Constraint::Length(4));
    assert(rows@ =~= help_menu_rows());
    let chunks = split(size, Direction::Vertical, 0, &rows)?;
    let help = help_areas(chunks[0])?;
    help_menu_areas_of(&chunks, help)
}

/// The places of the help view whose rows are `rows`: the help box above the
/// log box. `help` is the layout of the help box; there are no places unless
/// it was laid out in its row and the rows are two.
pub open spec fn help_menu_areas_from(rows: Seq<Rect>, help: HelpAreas) -> Option<HelpMenuAreas> {
    if rows.len() == 2 && help.area == rows[0] {
        Some(HelpMenuAreas { help, log: rows[1] })
    } else {
        None
    }
}

/// Names the rows of the help view.
pub fn help_menu_areas_of(rows: &Vec<Rect>, help: HelpAreas) -> (areas: Option<HelpMenuAreas>)
    ensures
        areas == help_menu_areas_from(rows@, help),
{
    if rows.len() == 2 && help.area == rows[0] {
        Some(HelpMenuAreas { help, log: rows[1] })
    } else {
        None
    }
}

/// Resolves the help view in the places of `areas`: the pointer takes the
/// focus for the part that it is on.
pub fn help_menu_in(areas: HelpMenuAreas, size: Rect, state: &mut AppState, config: &AppConfig) -> (view:
    HelpMenuView)
    ensures
        view == help_menu_view(*old(state), *config, size, areas),
        *final(state) == old(state).after_pass(help_menu_regions(view, *old(state))),
{
    let close = if config.enable_mouse_support {
        render_close_button(state, size)
    } else {
        None
    };
    let view = HelpMenuView {
        help: help_box(state, areas.help),
        log: draw_logs(state, true, state.popup_mode.is_some(), areas.log),
        close,
    };
    let mut regions: Vec<Region> = Vec::new();
    regions.push(region(Focus::Help, areas.help.area, None));
    regions.push(region(Focus::Log, areas.log, None));
    push_close_region(None, close, &mut regions);
    proof {
        assert(regions@ =~= help_menu_regions(view, *state));
    }
    state.resolve_pointer(&regions);
    view
}

/// Lays out and resolves the help view. There is no view, and the state
/// stays as it is, where the layout solver does not take one of the areas;
/// on a roomy screen there always is a view. Its parts lie on the screen.
pub fn render_help_menu(size: Rect, state: &mut AppState, config: &AppConfig) -> (view: Option<
    HelpMenuView,
>)
    ensures
        view is None ==> *final(state) == *old(state),
        view matches Some(v) ==> v == help_menu_view(*old(state), *config, size, help_menu_places(v)),
        view matches Some(v) ==> *final(state) == old(state).after_pass(
            help_menu_regions(v, *old(state)),
        ),
        view matches Some(v) ==> help_menu_within(help_menu_places(v), size),
        !can_split(size, Direction::Vertical, 0, help_menu_rows()) ==> view is None,
        is_roomy(size) ==> view is Some,
{
    let areas = help_menu_areas(size)?;
    Some(help_menu_in(areas, size, state, config))
}

/// The view of the log alone.
#[derive(Clone, Copy, Debug, PartialEq, Eq, Structural)]
pub struct LogsView {
    pub log: LogPane,
    pub close: Option<Pane>,
}

/// The regions of the log view.
pub open spec fn logs_regions(view: LogsView, state: AppState) -> Seq<Region> {
    seq![plain_region(Focus::Log, view.log.area, None)] + close_regions(None, view.close)
}

/// The view of the log alone as it is drawn in `area` on a screen of the
/// size `size`: the log is never accented.
pub open spec fn logs_view(state: AppState, config: AppConfig, size: Rect, area: Rect) -> LogsView {
    LogsView {
        log: log_pane(state, false, state.popup_mode is Some, area),
        close: close_button_if(config.enable_mouse_support, state, size),
    }
}

/// Resolves the view of the log alone in `area`.
pub fn logs_in(area: Rect, size: Rect, state: &mut AppState, config: &AppConfig) -> (view: LogsView)
    ensures
        view == logs_view(*old(state), *config, size, area),
        *final(state) == old(state).after_pass(logs_regions(view, *old(state))),
{
    let close = if config.enable_mouse_support {
        render_close_button(state, size)
    } else {
        None
    };
    let view = LogsView { log: draw_logs(state, false, state.popup_mode.is_some(), area), close };
    let mut regions: Vec<Region> = Vec::new();
    regions.push(region(Focus::Log, area, None));
    push_close_region(None, close, &mut regions);
    proof {
        assert(regions@ =~= logs_regions(view, *state));
    }
    state.resolve_pointer(&regions);
    view
}

/// Lays out and resolves the view of the log alone: the log takes the whole
/// screen. There is no view, and the state stays as it is, where the layout
/// solver does not take the screen.
pub fn render_logs_only(size: Rect, state: &mut AppState, config: &AppConfig) -> (view: Option<
    LogsView,
>)
    ensures
        view is None ==> *final(state) == *old(state),
        view matches Some(v) ==> v == logs_view(*old(state), *config, size, v.log.area),
        view matches Some(v) ==> *final(state) == old(state).after_pass(
            logs_regions(v, *old(state)),
        ),
        view is Some <==> can_split(
            size,
            Direction::Vertical,
            0,
            seq![Constraint::Percentage(100)],
        ),
{
    let mut rows: Vec<Constraint> = Vec::new();
    rows.push(Constraint::Percentage(100));
    assert(rows@ =~= seq![Constraint::Percentage(100)]);
    let chunks = split(size, Direction::Vertical, 0, &rows)?;
    Some(logs_in(chunks[0], size, state, config))
}

} // verus!
