//! The boards and their cards: where each is drawn, how it is emphasised,
//! what the pointer selects, and how far the scroll indicators have moved.

use vstd::prelude::*;
use vstd::string::*;
use crate::config::AppConfig;
use crate::due_date::is_urgency_of;
use crate::due_date::shown_due_date_urgency;
use crate::due_date::DueDateUrgency;
use crate::focus::lemma_owner_exists_iff_hit;
use crate::focus::lemma_owner_of_joined_lists;
use crate::focus::lemma_owner_of_one_region;
use crate::focus::owning_region;
use crate::focus::Focus;
use crate::focus::PointerState;
use crate::focus::PopupMode;
use crate::focus::Region;
use crate::focus::Selection;
use crate::geometry::lemma_enclosed_is_smaller;
use crate::geometry::Rect;
use crate::kanban::find_board;
use crate::kanban::ids_of_boards;
use crate::kanban::Board;
use crate::kanban::BoardCardViewState;
use crate::layout::all_within;
use crate::layout::can_split;
use crate::layout::is_roomy;
use crate::layout::modest;
use crate::layout::split;
use crate::layout::Constraint;
use crate::layout::Direction;
use crate::state::emphasis;
use crate::state::lemma_pass_follows_owner;
use crate::state::muted_or;
use crate::state::style_for;
use crate::state::AppState;
use crate::state::StyleKind;
use crate::viewport::first_position;
use crate::viewport::lemma_first_position;
use crate::viewport::position_of;
use crate::viewport::scroll_ratio;
use crate::viewport::scroll_ratio_of;

verus! {

/// Where one card is drawn: its frame, its description and its last lines.
#[derive(Clone, Copy, Debug, PartialEq, Eq, Structural)]
pub struct CardSlot {
    pub area: Rect,
    pub text_area: Rect,
    pub info_area: Rect,
}

/// Where one board is drawn: its frame, the track of its scroll indicator
/// and its cards.
#[derive(Clone, Debug, PartialEq, Eq)]
pub struct BoardSlot {
    pub area: Rect,
    pub track: Option<Rect>,
    /// The part of the frame that the cards share.
    pub cards_area: Rect,
    pub cards: Vec<CardSlot>,
}

/// Where the boards are drawn, and the gauge below them.
#[derive(Clone, Debug, PartialEq, Eq)]
pub struct BodyLayout {
    /// The area that is laid out.
    pub area: Rect,
    /// The part of the area that the boards share.
    pub boards_area: Rect,
    pub boards: Vec<BoardSlot>,
    pub gauge: Option<Rect>,
}

/// The lesser of a count and a page size.
pub open spec fn capped(count: nat, page: u16) -> nat {
    if count <= page {
        count
    } else {
        page as nat
    }
}

/// The layout has a slot for every board and card that is on screen.
pub open spec fn layout_fits(
    layout: BodyLayout,
    config: AppConfig,
    visible: Seq<BoardCardViewState>,
) -> bool {
    &&& visible.len() > 0 ==> (layout.gauge is Some <==> !config.disable_scrollbars)
    &&& layout.boards@.len() == capped(visible.len(), config.no_of_boards_to_show)
    &&& forall|k: int|
        0 <= k < layout.boards@.len() ==> {
            &&& (#[trigger] layout.boards@[k]).track is Some <==> !config.disable_scrollbars
            &&& layout.boards@[k].cards@.len() == capped(
                visible[k].visible_cards@.len(),
                config.no_of_cards_to_show,
            )
        }
}

fn cap(count: usize, page: u16) -> (n: usize)
    ensures
        n == capped(count as nat, page),
        n <= count,
        n <= page,
{
    if count <= page as usize {
        count
    } else {
        page as usize
    }
}

fn equal_shares(count: usize, share: u16) -> (parts: Vec<Constraint>)
    ensures
        parts@ == Seq::new(count as nat, |i: int| Constraint::Percentage(share)),
        share <= 100 ==> modest(parts@),
{
    let mut parts: Vec<Constraint> = Vec::new();
    let mut i: usize = 0;
    while i < count
        invariant
            i <= count,
            parts@.len() == i,
            forall|j: int| 0 <= j < i ==> parts@[j] == Constraint::Percentage(share),
        decreases count - i,
    {
        parts.push(Constraint::Percentage(share));
        i += 1;
    }
    proof {
        assert(parts@ =~= Seq::new(count as nat, |i: int| Constraint::Percentage(share)));
    }
    parts
}

/// The rows of the body: the boards, and below them a line for the gauge
/// unless scroll indicators are switched off.
pub open spec fn body_rows(config: AppConfig) -> Seq<Constraint> {
    if config.disable_scrollbars {
        seq![Constraint::Percentage(100)]
    } else {
        seq![Constraint::Percentage(99), Constraint::Length(1)]
    }
}

/// The share of the width that each of `count` boards takes, in percent.
pub open spec fn column_share(count: nat) -> u16 {
    if count == 0 {
        0
    } else {
        (100int / (count as int)) as u16
    }
}

/// The columns of `count` boards: equal shares of the width.
pub open spec fn board_columns(count: nat) -> Seq<Constraint> {
    Seq::new(count, |i: int| Constraint::Percentage(column_share(count)))
}

/// The strips of a board's column: one cell for the scroll indicator, unless
/// scroll indicators are switched off, and the rest for the cards.
pub open spec fn board_strips(config: AppConfig) -> Seq<Constraint> {
    if config.disable_scrollbars {
        seq![Constraint::Percentage(100)]
    } else {
        seq![Constraint::Length(1), Constraint::Percentage(99)]
    }
}

/// The share of the height that each card takes, in percent, where `shown`
/// cards are on screen and a page holds `page` of them: the cards of a full
/// page leave a tenth of the height free.
pub open spec fn card_share(shown: nat, page: u16) -> u16 {
    if shown > page {
        if page == 0 {
            0
        } else {
            (90int / (page as int)) as u16
        }
    } else if shown == 0 {
        0
    } else {
        (100int / (shown as int)) as u16
    }
}

/// The rows of the cards of a board: equal shares of the height, as many as
/// are on screen and a page at most.
pub open spec fn card_rows(shown: nat, page: u16) -> Seq<Constraint> {
    Seq::new(capped(shown, page), |i: int| Constraint::Percentage(card_share(shown, page)))
}

/// The rows of a card: its text, and three lines for its details.
pub open spec fn card_frame_rows() -> Seq<Constraint> {
    seq![Constraint::Min(0), Constraint::Length(3)]
}

/// Builds the rows of the body.
pub fn body_row_parts(config: &AppConfig) -> (parts: Vec<Constraint>)
    ensures
        parts@ == body_rows(*config),
        modest(parts@),
{
    let mut parts: Vec<Constraint> = Vec::new();
    if config.disable_scrollbars {
        parts.push(Constraint::Percentage(100));
    } else {
        parts.push(Constraint::Percentage(99));
        parts.push(Constraint::Length(1));
    }
    proof {
        assert(parts@ =~= body_rows(*config));
    }
    parts
}

/// Builds the columns of `count` boards.
pub fn board_column_parts(count: usize) -> (parts: Vec<Constraint>)
    ensures
        parts@ == board_columns(count as nat),
        modest(parts@),
{
    let share: u16 = if count == 0 || count > 100 {
        0
    } else {
        100 / (count as u16)
    };
    proof {
        if count > 100 {
            vstd::arithmetic::div_mod::lemma_basic_div(100, count as int);
        }
        assert(share == column_share(count as nat));
    }
    let parts = equal_shares(count, share);
    proof {
        assert(parts@ =~= board_columns(count as nat));
    }
    parts
}

/// Builds the strips of a board's column.
pub fn board_strip_parts(config: &AppConfig) -> (parts: Vec<Constraint>)
    ensures
        parts@ == board_strips(*config),
        modest(parts@),
{
    let mut parts: Vec<Constraint> = Vec::new();
    if config.disable_scrollbars {
        parts.push(Constraint::Percentage(100));
    } else {
        parts.push(Constraint::Length(1));
        parts.push(Constraint::Percentage(99));
    }
    proof {
        assert(parts@ =~= board_strips(*config));
    }
    parts
}

/// Builds the rows of the cards of a board.
pub fn card_row_parts(shown: usize, page: u16) -> (parts: Vec<Constraint>)
    ensures
        parts@ == card_rows(shown as nat, page),
        modest(parts@),
{
    let share: u16 = if shown > page as usize {
        if page == 0 {
            0
        } else {
            90 / page
        }
    } else if shown == 0 {
        0
    } else {
        100 / (shown as u16)
    };
    proof {
        assert(share == card_share(shown as nat, page));
    }
    let parts = equal_shares(cap(shown, page), share);
    proof {
        assert(parts@ =~= card_rows(shown as nat, page));
    }
    parts
}

/// Builds the rows of a card.
pub fn card_frame_parts() -> (parts: Vec<Constraint>)
    ensures
        parts@ == card_frame_rows(),
        modest(parts@),
{
    let mut parts: Vec<Constraint> = Vec::new();
    parts.push(Constraint::Min(0));
    parts.push(Constraint::Length(3));
    proof {
        assert(parts@ =~= card_frame_rows());
    }
    parts
}

/// The places of the cards all lie in `zone`, the text of each card in its
/// frame.
pub open spec fn cards_within(zone: Rect, slots: Seq<CardSlot>) -> bool {
    forall|c: int|
        0 <= c < slots.len() ==> {
            &&& zone.encloses((#[trigger] slots[c]).area)
            &&& slots[c].area.encloses(slots[c].text_area)
            &&& slots[c].area.encloses(slots[c].info_area)
        }
}

/// The frame of every card is an area that the solver takes for the rows of a
/// card.
pub open spec fn cards_take_rows(slots: Seq<CardSlot>) -> bool {
    forall|c: int|
        0 <= c < slots.len() ==> can_split(
            (#[trigger] slots[c]).area,
            Direction::Vertical,
            1,
            card_frame_rows(),
        )
}

/// Lays out the cards of a board in `zone`, one below the other and each
/// with a place for its text and one for its last lines: as many as are on
/// screen, a page at most. A roomy zone always has room for them.
fn card_slots(zone: Rect, shown: usize, page: u16) -> (slots: Option<Vec<CardSlot>>)
    ensures
        slots matches Some(s) ==> {
            &&& s@.len() == capped(shown as nat, page)
            &&& cards_within(zone, s@)
            &&& cards_take_rows(s@)
            &&& s@.len() > 0 ==> can_split(
                zone,
                Direction::Vertical,
                1,
                card_rows(shown as nat, page),
            )
        },
        capped(shown as nat, page) == 0 || is_roomy(zone) ==> slots is Some,
        capped(shown as nat, page) > 0 && !can_split(
            zone,
            Direction::Vertical,
            1,
            card_rows(shown as nat, page),
        ) ==> slots is None,
{
    let count = cap(shown, page);
    let mut slots: Vec<CardSlot> = Vec::new();
    if count == 0 {
        return Some(slots);
    }
    let chunks = split(zone, Direction::Vertical, 1, &card_row_parts(shown, page))?;
    let mut c: usize = 0;
    while c < count
        invariant
            c <= count,
            0 < count == capped(shown as nat, page),
            chunks@.len() == count,
            all_within(zone, chunks@),
            is_roomy(zone) ==> forall|j: int| 0 <= j < count ==> is_roomy(#[trigger] chunks@[j]),
            slots@.len() == c,
            cards_within(zone, slots@),
            cards_take_rows(slots@),
        decreases count - c,
    {
        let inner = split(chunks[c], Direction::Vertical, 1, &card_frame_parts())?;
        slots.push(CardSlot { area: chunks[c], text_area: inner[0], info_area: inner[1] });
        c += 1;
    }
    Some(slots)
}

/// The places of a board lie in one another: the track of its scroll
/// indicator and the part of its cards in its frame, and its cards in their
/// part.
pub open spec fn slot_nested(slot: BoardSlot) -> bool {
    &&& slot.track matches Some(track) ==> slot.area.encloses(track)
    &&& slot.area.encloses(slot.cards_area)
    &&& cards_within(slot.cards_area, slot.cards@)
}

/// The places of a board all lie in `area`, and in one another.
pub open spec fn slot_within(area: Rect, slot: BoardSlot) -> bool {
    &&& area.encloses(slot.area)
    &&& slot_nested(slot)
}

/// Every area of the board that was split is one that the solver takes for
/// the shares it was split by: the frame for the strips of a board, the part
/// of the cards for the rows of `shown` cards, each card for the rows of a
/// card.
pub open spec fn slot_takes_shares(slot: BoardSlot, config: AppConfig, shown: nat) -> bool {
    &&& can_split(slot.area, Direction::Horizontal, 0, board_strips(config))
    &&& slot.cards@.len() > 0 ==> can_split(
        slot.cards_area,
        Direction::Vertical,
        1,
        card_rows(shown, config.no_of_cards_to_show),
    )
    &&& cards_take_rows(slot.cards@)
}

/// The strips of a board's column by what they hold: the track of the
/// scroll indicator, where there is one, on the left of the part of the
/// cards. Another number of strips than the column was split into makes no
/// board.
pub open spec fn board_strips_from(strips: Seq<Rect>, with_track: bool) -> Option<(Option<Rect>, Rect)> {
    if with_track && strips.len() == 2 {
        Some((Some(strips[0]), strips[1]))
    } else if !with_track && strips.len() == 1 {
        Some((None, strips[0]))
    } else {
        None
    }
}

/// Names the strips of a board's column.
pub fn board_strips_of(strips: &Vec<Rect>, with_track: bool) -> (parts: Option<(Option<Rect>, Rect)>)
    ensures
        parts == board_strips_from(strips@, with_track),
{
    if with_track && strips.len() == 2 {
        Some((Some(strips[0]), strips[1]))
    } else if !with_track && strips.len() == 1 {
        Some((None, strips[0]))
    } else {
        None
    }
}

/// The rows of the body by what they hold: the boards above the gauge, where
/// there is one. Another number of rows than the body was split into makes no
/// body.
pub open spec fn body_rows_from(rows: Seq<Rect>, with_gauge: bool) -> Option<(Rect, Option<Rect>)> {
    if with_gauge && rows.len() == 2 {
        Some((rows[0], Some(rows[1])))
    } else if !with_gauge && rows.len() == 1 {
        Some((rows[0], None))
    } else {
        None
    }
}

/// Names the rows of the body.
pub fn body_rows_of(rows: &Vec<Rect>, with_gauge: bool) -> (parts: Option<(Rect, Option<Rect>)>)
    ensures
        parts == body_rows_from(rows@, with_gauge),
{
    if with_gauge && rows.len() == 2 {
        Some((rows[0], Some(rows[1])))
    } else if !with_gauge && rows.len() == 1 {
        Some((rows[0], None))
    } else {
        None
    }
}

/// Lays out one board in `column`: the track of its scroll indicator beside
/// the part of its cards, and in that part the `shown` cards that are on
/// screen. There is no place for the board where the solver does not take one
/// of the areas; a roomy column always has room for it.
fn board_slot(column: Rect, config: &AppConfig, shown: usize) -> (slot: Option<BoardSlot>)
    ensures
        slot matches Some(s) ==> {
            &&& s.area == column
            &&& slot_within(column, s)
            &&& s.track is Some <==> !config.disable_scrollbars
            &&& s.cards@.len() == capped(shown as nat, config.no_of_cards_to_show)
            &&& slot_takes_shares(s, *config, shown as nat)
        },
        is_roomy(column) ==> slot is Some,
        !can_split(column, Direction::Horizontal, 0, board_strips(*config)) ==> slot is None,
{
    let strips = split(column, Direction::Horizontal, 0, &board_strip_parts(config))?;
    let (track, zone) = board_strips_of(&strips, !config.disable_scrollbars)?;
    let cards = card_slots(zone, shown, config.no_of_cards_to_show)?;
    Some(BoardSlot { area: column, track, cards_area: zone, cards })
}

/// Every place of the layout lies in the area that was laid out.
pub open spec fn layout_within(layout: BodyLayout) -> bool {
    &&& layout.area.encloses(layout.boards_area)
    &&& forall|k: int|
        0 <= k < layout.boards@.len() ==> slot_within(layout.area, #[trigger] layout.boards@[k])
    &&& layout.gauge matches Some(gauge) ==> layout.area.encloses(gauge)
}

/// Every area of the layout that was split is one that the solver takes for
/// the shares it was split by: the whole area for the rows of the body, the
/// part of the boards for as many columns as there are boards, and each board
/// for its own strips and rows.
pub open spec fn layout_takes_shares(
    layout: BodyLayout,
    config: AppConfig,
    visible: Seq<BoardCardViewState>,
) -> bool {
    visible.len() > 0 ==> {
        &&& can_split(layout.area, Direction::Vertical, 0, body_rows(config))
        &&& layout.boards@.len() > 0 ==> can_split(
            layout.boards_area,
            Direction::Horizontal,
            0,
            board_columns(layout.boards@.len()),
        )
        &&& forall|k: int|
            0 <= k < layout.boards@.len() && k < visible.len() ==> slot_takes_shares(
                #[trigger] layout.boards@[k],
                config,
                visible[k].visible_cards@.len(),
            )
    }
}

/// Lays out the boards that are on screen, side by side, and in each board
/// its cards, one below the other. Without boards on screen the area stays
/// in one piece. There is no layout where the layout solver does not take one
/// of the areas for the shares that it is to be split by; a roomy area can
/// always be laid out. Every place of the layout lies in the area.
pub fn body_layout(area: Rect, config: &AppConfig, visible: &Vec<BoardCardViewState>) -> (layout:
    Option<BodyLayout>)
    ensures
        layout matches Some(l) ==> layout_fits(l, *config, visible@) && l.area == area,
        layout matches Some(l) ==> layout_within(l),
        layout matches Some(l) ==> layout_takes_shares(l, *config, visible@),
        visible@.len() == 0 || is_roomy(area) ==> layout is Some,
        visible@.len() > 0 && !can_split(area, Direction::Vertical, 0, body_rows(*config))
            ==> layout is None,
{
    if visible.len() == 0 {
        return Some(BodyLayout { area, boards_area: area, boards: Vec::new(), gauge: None });
    }
    let chunks = split(area, Direction::Vertical, 0, &body_row_parts(config))?;
    let (boards_area, gauge) = body_rows_of(&chunks, !config.disable_scrollbars)?;
    let count = cap(visible.len(), config.no_of_boards_to_show);
    let mut boards: Vec<BoardSlot> = Vec::new();
    if count == 0 {
        return Some(BodyLayout { area, boards_area, boards, gauge });
    }
    let columns = split(boards_area, Direction::Horizontal, 0, &board_column_parts(count))?;
    let mut k: usize = 0;
    while k < count
        invariant
            k <= count,
            count == capped(visible@.len(), config.no_of_boards_to_show),
            count <= visible.len(),
            columns@.len() == count,
            area.encloses(boards_area),
            all_within(boards_area, columns@),
            is_roomy(area) ==> forall|j: int| 0 <= j < count ==> is_roomy(#[trigger] columns@[j]),
            boards@.len() == k,
            forall|j: int| 0 <= j < k ==> slot_within(area, #[trigger] boards@[j]),
            forall|j: int|
                0 <= j < k ==> {
                    &&& (#[trigger] boards@[j]).track is Some <==> !config.disable_scrollbars
                    &&& boards@[j].cards@.len() == capped(
                        visible@[j].visible_cards@.len(),
                        config.no_of_cards_to_show,
                    )
                    &&& slot_takes_shares(boards@[j], *config, visible@[j].visible_cards@.len())
                },
        decreases count - k,
    {
        let slot = board_slot(columns[k], config, visible[k].visible_cards.len())?;
        proof {
            assert(boards_area.encloses(columns@[k as int]));
        }
        let ghost before = boards@;
        boards.push(slot);
        proof {
            assert forall|j: int| 0 <= j < k implies boards@[j] == before[j] by {}
        }
        k += 1;
    }
    Some(BodyLayout { area, boards_area, boards, gauge })
}

/// One card on screen.
#[derive(Clone, Copy, Debug, PartialEq, Eq, Structural)]
pub struct CardPane {
    pub card_id: u128,
    /// Whether the board holds a card with this id. A card that it does not
    /// hold is not drawn.
    pub found: bool,
    pub area: Rect,
    pub text_area: Rect,
    pub info_area: Rect,
    /// The style of the frame.
    pub style: StyleKind,
    /// The card is the current card.
    pub is_current: bool,
    /// How pressing the due date of the card is today; a card without a due
    /// date shows none.
    pub due: Option<DueDateUrgency>,
}

/// The scroll indicator of a board.
#[derive(Clone, Copy, Debug, PartialEq, Eq, Structural)]
pub struct ScrollTrack {
    pub area: Rect,
    /// How many cells of the track are filled, from the second cell on.
    pub blocks: u16,
}

/// One board on screen.
#[derive(Clone, Debug, PartialEq, Eq)]
pub struct BoardPane {
    pub board_id: u128,
    /// Where the board stands among all boards. A board that is not among
    /// them is not drawn.
    pub position: Option<usize>,
    pub area: Rect,
    /// The style of the board's text.
    pub style: StyleKind,
    /// The style of the frame.
    pub border_style: StyleKind,
    /// The board is the current board.
    pub is_current: bool,
    pub scroll: Option<ScrollTrack>,
    pub cards: Vec<CardPane>,
}

/// The gauge below the boards.
#[derive(Clone, Copy, Debug, PartialEq, Eq, Structural)]
pub struct Gauge {
    pub area: Rect,
    /// How far through the boards the current board is, in percent.
    pub percent: u16,
}

/// The boards as they are drawn.
#[derive(Clone, Debug, PartialEq, Eq)]
pub struct BodyView {
    /// The area that the boards are drawn in.
    pub area: Rect,
    pub boards: Vec<BoardPane>,
    pub gauge: Option<Gauge>,
    /// The style of the scroll indicators.
    pub progress_style: StyleKind,
    /// The style of the message that stands in for missing boards.
    pub error_style: StyleKind,
}

impl BodyView {
    /// Nothing is on screen: a message stands in for the boards.
    pub fn is_empty(&self) -> (empty: bool)
        ensures
            empty == (self.boards@.len() == 0),
    {
        self.boards.len() == 0
    }
}

/// The id that counts as current where none is set.
pub open spec fn current_or_first(id: Option<u128>) -> u128 {
    match id {
        Some(id) => id,
        None => 0,
    }
}

fn current_id(id: Option<u128>) -> (current: u128)
    ensures
        current == current_or_first(id),
{
    match id {
        Some(id) => id,
        None => 0,
    }
}

/// The height of a scroll track between its two end cells.
pub open spec fn track_length(track: Rect) -> nat {
    if track.height >= 2 {
        (track.height - 2) as nat
    } else {
        0
    }
}

/// How a card is drawn in `slot`, where its due date is shown as `due` says.
pub open spec fn card_pane(
    state: AppState,
    board: Board,
    card_id: u128,
    slot: CardSlot,
    due: Option<DueDateUrgency>,
) -> CardPane {
    CardPane {
        card_id,
        found: first_position(board.card_id_seq(), card_id) is Some,
        area: slot.area,
        text_area: slot.text_area,
        info_area: slot.info_area,
        style: emphasis(
            state.popup_mode is Some,
            state.points_at(slot.area),
            current_or_first(state.current_card_id) == card_id && state.focus == Focus::Body
                && board.id == current_or_first(state.current_board_id),
            StyleKind::Focused,
        ),
        is_current: current_or_first(state.current_card_id) == card_id,
        due,
    }
}

/// `due` is how the due date of the card with the id `card_id` of `board` is
/// shown: not at all where the board does not hold the card or the card has
/// no due date, and else by how pressing the date is on some day.
pub open spec fn shows_due_date(
    due: Option<DueDateUrgency>,
    board: Board,
    card_id: u128,
    warning_delta: u16,
) -> bool {
    match first_position(board.card_id_seq(), card_id) {
        Some(at) => {
            let date_due = board.cards@[at as int].date_due@;
            &&& due is None <==> date_due.len() == 0
            &&& due matches Some(urgency) ==> is_urgency_of(urgency, date_due, warning_delta)
        },
        None => due is None,
    }
}

/// `pane` is how the board shown by `shown` is drawn in the place that the
/// pane itself names.
pub open spec fn shows_board_pane(
    pane: BoardPane,
    state: AppState,
    config: AppConfig,
    boards: Seq<Board>,
    shown: BoardCardViewState,
) -> bool {
    let muted = state.popup_mode is Some;
    &&& pane.board_id == shown.board_id
    &&& match first_position(ids_of_boards(boards), shown.board_id) {
        Some(at) => {
            let board = boards[at as int];
            &&& pane.position == Some(at as usize)
            &&& pane.style == (if muted {
                StyleKind::Inactive
            } else {
                StyleKind::Default
            })
            &&& pane.border_style == emphasis(
                muted,
                state.points_at(pane.area),
                shown.board_id == current_or_first(state.current_board_id) && state.focus
                    == Focus::Body && state.current_card_id is None,
                StyleKind::Focused,
            )
            &&& pane.is_current == (shown.board_id == current_or_first(state.current_board_id))
            &&& pane.scroll is Some <==> !config.disable_scrollbars
            &&& pane.scroll matches Some(track) ==> track.blocks == scroll_ratio_of(
                board.cards@.len(),
                first_position(board.card_id_seq(), current_or_first(state.current_card_id)),
            ).scaled(track_length(track.area))
            &&& pane.cards@.len() == capped(shown.visible_cards@.len(), config.no_of_cards_to_show)
            &&& forall|c: int|
                0 <= c < pane.cards@.len() ==> #[trigger] pane.cards@[c] == card_pane(
                    state,
                    board,
                    shown.visible_cards@[c],
                    CardSlot {
                        area: pane.cards@[c].area,
                        text_area: pane.cards@[c].text_area,
                        info_area: pane.cards@[c].info_area,
                    },
                    pane.cards@[c].due,
                ) && shows_due_date(
                    pane.cards@[c].due,
                    board,
                    shown.visible_cards@[c],
                    config.warning_delta,
                )
        },
        None => {
            &&& pane.position is None
            &&& pane.cards@.len() == 0
            &&& pane.scroll is None
        },
    }
}

/// `view` is how the boards shown by `visible` are drawn in the places that
/// the view itself names.
pub open spec fn shows_body(
    view: BodyView,
    state: AppState,
    config: AppConfig,
    boards: Seq<Board>,
    visible: Seq<BoardCardViewState>,
) -> bool {
    &&& view.boards@.len() == capped(visible.len(), config.no_of_boards_to_show)
    &&& forall|k: int|
        0 <= k < view.boards@.len() ==> shows_board_pane(
            #[trigger] view.boards@[k],
            state,
            config,
            boards,
            visible[k],
        )
    &&& view.progress_style == (if state.popup_mode is Some {
        StyleKind::Inactive
    } else {
        StyleKind::ProgressBar
    })
    &&& view.error_style == (if state.popup_mode is Some {
        StyleKind::Inactive
    } else {
        StyleKind::Error
    })
    &&& view.gauge is Some <==> !config.disable_scrollbars && visible.len() > 0
    &&& view.gauge matches Some(gauge) ==> gauge.percent == scroll_ratio_of(
        boards.len(),
        first_position(ids_of_boards(boards), current_or_first(state.current_board_id)),
    ).scaled(100)
}

/// `pane` is drawn in the places of `slot`.
pub open spec fn places_board(pane: BoardPane, slot: BoardSlot) -> bool {
    &&& pane.area == slot.area
    &&& pane.scroll matches Some(track) ==> slot.track == Some(track.area)
    &&& pane.cards@.len() <= slot.cards@.len()
    &&& forall|c: int|
        0 <= c < pane.cards@.len() ==> {
            &&& (#[trigger] pane.cards@[c]).area == slot.cards@[c].area
            &&& pane.cards@[c].text_area == slot.cards@[c].text_area
            &&& pane.cards@[c].info_area == slot.cards@[c].info_area
        }
}

/// `view` is drawn in the places of `layout`.
pub open spec fn places_body(view: BodyView, layout: BodyLayout) -> bool {
    &&& view.area == layout.area
    &&& view.boards@.len() == layout.boards@.len()
    &&& forall|k: int|
        0 <= k < view.boards@.len() ==> places_board(#[trigger] view.boards@[k], layout.boards@[k])
    &&& view.gauge matches Some(gauge) ==> layout.gauge == Some(gauge.area)
}

/// The region of a card of the board with the id `board_id`: it makes the
/// card and its board current.
pub open spec fn card_region(board_id: u128, card: CardPane) -> Region {
    Region {
        target: Focus::Body,
        area: card.area,
        layer: None,
        selection: Selection::Card { board: board_id, card: card.card_id },
    }
}

/// The region of a board: it makes the board current.
pub open spec fn board_region(pane: BoardPane) -> Region {
    Region {
        target: Focus::Body,
        area: pane.area,
        layer: None,
        selection: Selection::Board { board: pane.board_id },
    }
}

/// The regions of the cards of a board: one for each card that the board
/// holds, in order.
pub open spec fn card_regions(board_id: u128, cards: Seq<CardPane>) -> Seq<Region>
    decreases cards.len(),
{
    if cards.len() == 0 {
        Seq::empty()
    } else {
        let before = card_regions(board_id, cards.drop_last());
        if cards.last().found {
            before.push(card_region(board_id, cards.last()))
        } else {
            before
        }
    }
}

/// The regions of a board: its cards, then the board itself, so that a
/// card that is as large as its board still owns the pointer. A board that is
/// not drawn has none.
pub open spec fn board_regions(pane: BoardPane) -> Seq<Region> {
    if pane.position is Some {
        card_regions(pane.board_id, pane.cards@).push(board_region(pane))
    } else {
        Seq::empty()
    }
}

/// The regions of the boards, board by board.
pub open spec fn body_regions(boards: Seq<BoardPane>) -> Seq<Region>
    decreases boards.len(),
{
    if boards.len() == 0 {
        Seq::empty()
    } else {
        body_regions(boards.drop_last()) + board_regions(boards.last())
    }
}

fn board_pane(
    state: &AppState,
    config: &AppConfig,
    boards: &Vec<Board>,
    shown: &BoardCardViewState,
    slot: &BoardSlot,
) -> (pane: BoardPane)
    requires
        slot.track is Some <==> !config.disable_scrollbars,
        slot.cards@.len() == capped(shown.visible_cards@.len(), config.no_of_cards_to_show),
    ensures
        shows_board_pane(pane, *state, *config, boards@, *shown),
        places_board(pane, *slot),
{
    let muted = state.popup_mode.is_some();
    let at = match find_board(boards, shown.board_id) {
        Some(at) => at,
        None => {
            return BoardPane {
                board_id: shown.board_id,
                position: None,
                area: slot.area,
                style: muted_or(muted, StyleKind::Default),
                border_style: muted_or(muted, StyleKind::Default),
                is_current: false,
                scroll: None,
                cards: Vec::new(),
            };
        },
    };
    let board = &boards[at];
    let current_board = current_id(state.current_board_id);
    let current_card = current_id(state.current_card_id);
    let is_current = shown.board_id == current_board;
    let card_ids = board.card_ids();
    let scroll = match slot.track {
        Some(track) => {
            let ratio = scroll_ratio(board.cards.len(), position_of(&card_ids, current_card));
            let length: u16 = if track.height >= 2 {
                track.height - 2
            } else {
                0
            };
            Some(ScrollTrack { area: track, blocks: ratio.indicator_blocks(length) })
        },
        None => None,
    };
    let mut cards: Vec<CardPane> = Vec::new();
    let mut c: usize = 0;
    while c < slot.cards.len()
        invariant
            c <= slot.cards.len(),
            slot.cards@.len() <= shown.visible_cards@.len(),
            card_ids@ == board.card_id_seq(),
            muted == (state.popup_mode is Some),
            current_board == current_or_first(state.current_board_id),
            current_card == current_or_first(state.current_card_id),
            cards@.len() == c,
            forall|j: int|
                0 <= j < c ==> #[trigger] cards@[j] == card_pane(
                    *state,
                    *board,
                    shown.visible_cards@[j],
                    slot.cards@[j],
                    cards@[j].due,
                ) && shows_due_date(
                    cards@[j].due,
                    *board,
                    shown.visible_cards@[j],
                    config.warning_delta,
                ),
        decreases slot.cards.len() - c,
    {
        let card_id = shown.visible_cards[c];
        let place = slot.cards[c];
        let held = position_of(&card_ids, card_id);
        let due = match held {
            Some(i) => {
                proof {
                    lemma_first_position(card_ids@, card_id);
                }
                shown_due_date_urgency(board.cards[i].date_due.as_str(), config.warning_delta)
            },
            None => None,
        };
        let ghost before = cards@;
        let pane = CardPane {
            card_id,
            found: held.is_some(),
            area: place.area,
            text_area: place.text_area,
            info_area: place.info_area,
            style: style_for(
                muted,
                state.is_pointing_at(place.area),
                current_card == card_id && state.focus == Focus::Body && board.id == current_board,
                StyleKind::Focused,
            ),
            is_current: current_card == card_id,
            due,
        };
        cards.push(pane);
        proof {
            assert forall|j: int| 0 <= j < c implies cards@[j] == before[j] by {}
        }
        c += 1;
    }
    BoardPane {
        board_id: shown.board_id,
        position: Some(at),
        area: slot.area,
        style: muted_or(muted, StyleKind::Default),
        border_style: style_for(
            muted,
            state.is_pointing_at(slot.area),
            is_current && state.focus == Focus::Body && state.current_card_id.is_none(),
            StyleKind::Focused,
        ),
        is_current,
        scroll,
        cards,
    }
}

/// Decides how the boards are drawn in the places of `layout`, and reads
/// from the clock how pressing the due date of each card on screen is today:
/// a date that has passed is critical, one within the warning period is a
/// warning, and a date further ahead or a text that is no date is neither.
pub fn body_view(
    layout: &BodyLayout,
    state: &AppState,
    config: &AppConfig,
    boards: &Vec<Board>,
    visible: &Vec<BoardCardViewState>,
) -> (view: BodyView)
    requires
        layout_fits(*layout, *config, visible@),
    ensures
        shows_body(view, *state, *config, boards@, visible@),
        places_body(view, *layout),
{
    let muted = state.popup_mode.is_some();
    let mut panes: Vec<BoardPane> = Vec::new();
    let mut k: usize = 0;
    while k < layout.boards.len()
        invariant
            k <= layout.boards.len(),
            layout_fits(*layout, *config, visible@),
            panes@.len() == k,
            forall|j: int|
                0 <= j < k ==> shows_board_pane(
                    #[trigger] panes@[j],
                    *state,
                    *config,
                    boards@,
                    visible@[j],
                ) && places_board(panes@[j], layout.boards@[j]),
        decreases layout.boards.len() - k,
    {
        assert(layout.boards@[k as int].track is Some <==> !config.disable_scrollbars);
        let pane = board_pane(state, config, boards, &visible[k], &layout.boards[k]);
        panes.push(pane);
        k += 1;
    }
    let gauge = match layout.gauge {
        Some(area) => if visible.len() > 0 {
            let ids = crate::kanban::board_ids(boards);
            let ratio = scroll_ratio(
                boards.len(),
                position_of(&ids, current_id(state.current_board_id)),
            );
            Some(Gauge { area, percent: ratio.percent() })
        } else {
            None
        },
        None => None,
    };
    BodyView {
        area: layout.area,
        boards: panes,
        gauge,
        progress_style: muted_or(muted, StyleKind::ProgressBar),
        error_style: muted_or(muted, StyleKind::Error),
    }
}

fn push_board_regions(pane: &BoardPane, regions: &mut Vec<Region>)
    ensures
        final(regions)@ == old(regions)@ + board_regions(*pane),
{
    if pane.position.is_none() {
        assert(regions@ =~= old(regions)@ + board_regions(*pane));
        return ;
    }
    let ghost first = regions@;
    let mut c: usize = 0;
    while c < pane.cards.len()
        invariant
            c <= pane.cards.len(),
            regions@ == first + card_regions(pane.board_id, pane.cards@.take(c as int)),
        decreases pane.cards.len() - c,
    {
        proof {
            assert(pane.cards@.take(c + 1).drop_last() =~= pane.cards@.take(c as int));
        }
        let card = pane.cards[c];
        if card.found {
            regions.push(
                Region {
                    target: Focus::Body,
                    area: card.area,
                    layer: None,
                    selection: Selection::Card { board: pane.board_id, card: card.card_id },
                },
            );
        }
        proof {
            assert(regions@ =~= first + card_regions(pane.board_id, pane.cards@.take(c + 1)));
        }
        c += 1;
    }
    regions.push(
        Region {
            target: Focus::Body,
            area: pane.area,
            layer: None,
            selection: Selection::Board { board: pane.board_id },
        },
    );
    proof {
        assert(pane.cards@.take(pane.cards@.len() as int) =~= pane.cards@);
        assert(regions@ =~= old(regions)@ + board_regions(*pane));
    }
}

/// Appends the regions of the boards to `regions`.
pub fn push_body_regions(view: &BodyView, regions: &mut Vec<Region>)
    ensures
        final(regions)@ == old(regions)@ + body_regions(view.boards@),
{
    let ghost start = regions@;
    let mut k: usize = 0;
    while k < view.boards.len()
        invariant
            k <= view.boards.len(),
            regions@ == start + body_regions(view.boards@.take(k as int)),
        decreases view.boards.len() - k,
    {
        proof {
            assert(view.boards@.take(k + 1).drop_last() =~= view.boards@.take(k as int));
        }
        push_board_regions(&view.boards[k], regions);
        proof {
            assert(regions@ =~= start + body_regions(view.boards@.take(k + 1)));
        }
        k += 1;
    }
    proof {
        assert(view.boards@.take(view.boards@.len() as int) =~= view.boards@);
    }
}

/// Every card lies in the frame of its board.
pub open spec fn cards_lie_in_boards(boards: Seq<BoardPane>) -> bool {
    forall|k: int, c: int|
        0 <= k < boards.len() && 0 <= c < boards[k].cards@.len() ==> boards[k].area.encloses(
            (#[trigger] boards[k].cards@[c]).area,
        )
}

/// The pointer is neither on the board nor on one of its cards.
pub open spec fn board_is_clear(pane: BoardPane, pointer: PointerState) -> bool {
    &&& !pane.area.covers(pointer.x, pointer.y)
    &&& forall|d: int|
        0 <= d < pane.cards@.len() ==> !(#[trigger] pane.cards@[d]).area.covers(pointer.x, pointer.y)
}

proof fn lemma_no_card_is_hit(
    board_id: u128,
    cards: Seq<CardPane>,
    pointer: PointerState,
    modality: Option<PopupMode>,
)
    requires
        forall|d: int| 0 <= d < cards.len() ==> !(#[trigger] cards[d]).area.covers(pointer.x, pointer.y),
    ensures
        owning_region(card_regions(board_id, cards), pointer, modality) is None,
    decreases cards.len(),
{
    if cards.len() == 0 {
        lemma_owner_exists_iff_hit(card_regions(board_id, cards), pointer, modality);
    } else {
        let before = card_regions(board_id, cards.drop_last());
        lemma_no_card_is_hit(board_id, cards.drop_last(), pointer, modality);
        if cards.last().found {
            let last = card_region(board_id, cards.last());
            assert(before.push(last) =~= before + seq![last]);
            lemma_owner_of_one_region(last, pointer, modality);
            lemma_owner_of_joined_lists(before, seq![last], pointer, modality);
        }
    }
}

proof fn lemma_one_card_is_hit(board_id: u128, cards: Seq<CardPane>, pointer: PointerState, c: int)
    requires
        0 <= c < cards.len(),
        cards[c].found,
        cards[c].area.covers(pointer.x, pointer.y),
        forall|d: int|
            0 <= d < cards.len() && d != c ==> !(#[trigger] cards[d]).area.covers(pointer.x, pointer.y),
    ensures
        owning_region(card_regions(board_id, cards), pointer, None) == Some(
            card_region(board_id, cards[c]),
        ),
    decreases cards.len(),
{
    let before = card_regions(board_id, cards.drop_last());
    let last = card_region(board_id, cards.last());
    if c == cards.len() - 1 {
        lemma_no_card_is_hit(board_id, cards.drop_last(), pointer, None);
    } else {
        lemma_one_card_is_hit(board_id, cards.drop_last(), pointer, c);
        assert(!cards[cards.len() - 1].area.covers(pointer.x, pointer.y));
    }
    if cards.last().found {
        assert(before.push(last) =~= before + seq![last]);
        lemma_owner_of_one_region(last, pointer, None);
        lemma_owner_of_joined_lists(before, seq![last], pointer, None);
    }
}

proof fn lemma_clear_board_has_no_owner(
    pane: BoardPane,
    pointer: PointerState,
    modality: Option<PopupMode>,
)
    requires
        board_is_clear(pane, pointer),
    ensures
        owning_region(board_regions(pane), pointer, modality) is None,
{
    if pane.position is Some {
        let cards = card_regions(pane.board_id, pane.cards@);
        let frame = board_region(pane);
        lemma_no_card_is_hit(pane.board_id, pane.cards@, pointer, modality);
        assert(cards.push(frame) =~= cards + seq![frame]);
        lemma_owner_of_one_region(frame, pointer, modality);
        lemma_owner_of_joined_lists(cards, seq![frame], pointer, modality);
    } else {
        lemma_owner_exists_iff_hit(board_regions(pane), pointer, modality);
    }
}

proof fn lemma_clear_boards_have_no_owner(
    boards: Seq<BoardPane>,
    pointer: PointerState,
    modality: Option<PopupMode>,
)
    requires
        forall|j: int| 0 <= j < boards.len() ==> board_is_clear(#[trigger] boards[j], pointer),
    ensures
        owning_region(body_regions(boards), pointer, modality) is None,
    decreases boards.len(),
{
    if boards.len() == 0 {
        lemma_owner_exists_iff_hit(body_regions(boards), pointer, modality);
    } else {
        lemma_clear_boards_have_no_owner(boards.drop_last(), pointer, modality);
        lemma_clear_board_has_no_owner(boards.last(), pointer, modality);
        lemma_owner_of_joined_lists(
            body_regions(boards.drop_last()),
            board_regions(boards.last()),
            pointer,
            modality,
        );
    }
}

proof fn lemma_card_of_board_owns(pane: BoardPane, pointer: PointerState, c: int)
    requires
        pane.position is Some,
        0 <= c < pane.cards@.len(),
        pane.cards@[c].found,
        pane.area.encloses(pane.cards@[c].area),
        pane.cards@[c].area.covers(pointer.x, pointer.y),
        forall|d: int|
            0 <= d < pane.cards@.len() && d != c ==> !(#[trigger] pane.cards@[d]).area.covers(
                pointer.x,
                pointer.y,
            ),
    ensures
        owning_region(board_regions(pane), pointer, None) == Some(
            card_region(pane.board_id, pane.cards@[c]),
        ),
{
    let cards = card_regions(pane.board_id, pane.cards@);
    let frame = board_region(pane);
    lemma_one_card_is_hit(pane.board_id, pane.cards@, pointer, c);
    assert(cards.push(frame) =~= cards + seq![frame]);
    lemma_owner_of_one_region(frame, pointer, None);
    lemma_owner_of_joined_lists(cards, seq![frame], pointer, None);
    if pane.cards@[c].area != pane.area {
        lemma_enclosed_is_smaller(pane.area, pane.cards@[c].area);
    }
}

proof fn lemma_one_board_is_hit(
    boards: Seq<BoardPane>,
    pointer: PointerState,
    modality: Option<PopupMode>,
    k: int,
)
    requires
        0 <= k < boards.len(),
        forall|j: int| 0 <= j < boards.len() && j != k ==> board_is_clear(#[trigger] boards[j], pointer),
    ensures
        owning_region(body_regions(boards), pointer, modality) == owning_region(
            board_regions(boards[k]),
            pointer,
            modality,
        ),
    decreases boards.len(),
{
    let before = boards.drop_last();
    if k == boards.len() - 1 {
        lemma_clear_boards_have_no_owner(before, pointer, modality);
    } else {
        lemma_one_board_is_hit(before, pointer, modality, k);
        lemma_clear_board_has_no_owner(boards.last(), pointer, modality);
    }
    lemma_owner_of_joined_lists(
        body_regions(before),
        board_regions(boards.last()),
        pointer,
        modality,
    );
}

/// The innermost region wins among the boards and their cards. Where no
/// popup is open and the pointer is on a card that its board holds and that
/// lies in the frame of its board, and on no other card and no other board,
/// a pass over the regions of the boards gives the focus to the boards and
/// makes that card and its board current.
pub proof fn lemma_card_under_pointer_is_selected(
    state: AppState,
    boards: Seq<BoardPane>,
    k: int,
    c: int,
)
    requires
        state.popup_mode is None,
        0 <= k < boards.len(),
        boards[k].position is Some,
        0 <= c < boards[k].cards@.len(),
        boards[k].cards@[c].found,
        boards[k].area.encloses(boards[k].cards@[c].area),
        state.points_at(boards[k].cards@[c].area),
        forall|d: int|
            0 <= d < boards[k].cards@.len() && d != c ==> !state.points_at(
                (#[trigger] boards[k].cards@[d]).area,
            ),
        forall|j: int|
            0 <= j < boards.len() && j != k ==> board_is_clear(#[trigger] boards[j], state.pointer),
    ensures
        state.after_pass(body_regions(boards)).focus == Focus::Body,
        state.after_pass(body_regions(boards)).mouse_focus == Some(Focus::Body),
        state.after_pass(body_regions(boards)).current_board_id == Some(boards[k].board_id),
        state.after_pass(body_regions(boards)).current_card_id == Some(boards[k].cards@[c].card_id),
{
    lemma_one_board_is_hit(boards, state.pointer, None, k);
    lemma_card_of_board_owns(boards[k], state.pointer, c);
    lemma_pass_follows_owner(state, body_regions(boards));
}

/// Card `c` of board `k` is under the pointer: the board is drawn and holds
/// the card, and the rectangle of the card covers the pointer.
pub open spec fn card_is_under(boards: Seq<BoardPane>, pointer: PointerState, k: int, c: int) -> bool {
    &&& 0 <= k < boards.len()
    &&& boards[k].position is Some
    &&& 0 <= c < boards[k].cards@.len()
    &&& boards[k].cards@[c].found
    &&& boards[k].cards@[c].area.covers(pointer.x, pointer.y)
}

/// `region` is the region of a card that is under the pointer.
pub open spec fn is_card_choice(region: Region, boards: Seq<BoardPane>, pointer: PointerState) -> bool {
    exists|k: int, c: int| #[trigger]
        card_is_under(boards, pointer, k, c) && region == card_region(
            boards[k].board_id,
            boards[k].cards@[c],
        )
}

/// Every board that is drawn with its frame under the pointer has a card
/// under the pointer.
pub open spec fn frames_hold_cards(boards: Seq<BoardPane>, pointer: PointerState) -> bool {
    forall|k: int|
        0 <= k < boards.len() && (#[trigger] boards[k]).position is Some && boards[k].area.covers(
            pointer.x,
            pointer.y,
        ) ==> exists|c: int| card_is_under(boards, pointer, k, c)
}

proof fn lemma_cards_yield_a_card(board_id: u128, cards: Seq<CardPane>, pointer: PointerState)
    ensures
        match owning_region(card_regions(board_id, cards), pointer, None) {
            Some(r) => exists|c: int|
                0 <= c < cards.len() && (#[trigger] cards[c]).found && cards[c].area.covers(
                    pointer.x,
                    pointer.y,
                ) && r == card_region(board_id, cards[c]),
            None => forall|c: int|
                0 <= c < cards.len() && (#[trigger] cards[c]).found ==> !cards[c].area.covers(
                    pointer.x,
                    pointer.y,
                ),
        },
    decreases cards.len(),
{
    if cards.len() == 0 {
        lemma_owner_exists_iff_hit(card_regions(board_id, cards), pointer, None);
    } else {
        let shorter = cards.drop_last();
        let before = card_regions(board_id, shorter);
        let last = card_region(board_id, cards.last());
        lemma_cards_yield_a_card(board_id, shorter, pointer);
        assert forall|c: int| 0 <= c < shorter.len() implies shorter[c] == cards[c] by {}
        if cards.last().found {
            assert(before.push(last) =~= before + seq![last]);
            lemma_owner_of_one_region(last, pointer, None);
            lemma_owner_of_joined_lists(before, seq![last], pointer, None);
        }
        match owning_region(card_regions(board_id, cards), pointer, None) {
            Some(r) => {
                if cards.last().found && r == last && last.area.covers(pointer.x, pointer.y) {
                    assert(cards[cards.len() - 1].found);
                } else {
                    let c = choose|c: int|
                        0 <= c < shorter.len() && (#[trigger] shorter[c]).found && shorter[c].area.covers(
                            pointer.x,
                            pointer.y,
                        ) && r == card_region(board_id, shorter[c]);
                    assert(cards[c].found && r == card_region(board_id, cards[c]));
                }
            },
            None => {
                assert forall|c: int|
                    0 <= c < cards.len() && (#[trigger] cards[c]).found implies !cards[c].area.covers(
                    pointer.x,
                    pointer.y,
                ) by {
                    if c < shorter.len() {
                        assert(shorter[c].found);
                    }
                }
            },
        }
    }
}

proof fn lemma_board_yields_a_card(boards: Seq<BoardPane>, pointer: PointerState, k: int)
    requires
        0 <= k < boards.len(),
        cards_lie_in_boards(boards),
        frames_hold_cards(boards, pointer),
    ensures
        match owning_region(board_regions(boards[k]), pointer, None) {
            Some(r) => is_card_choice(r, boards, pointer),
            None => forall|c: int| !card_is_under(boards, pointer, k, c),
        },
{
    let pane = boards[k];
    if pane.position is Some {
        let cards = card_regions(pane.board_id, pane.cards@);
        let frame = board_region(pane);
        lemma_cards_yield_a_card(pane.board_id, pane.cards@, pointer);
        assert(cards.push(frame) =~= cards + seq![frame]);
        lemma_owner_of_one_region(frame, pointer, None);
        lemma_owner_of_joined_lists(cards, seq![frame], pointer, None);
        match owning_region(cards, pointer, None) {
            Some(r) => {
                let c = choose|c: int|
                    0 <= c < pane.cards@.len() && (#[trigger] pane.cards@[c]).found
                        && pane.cards@[c].area.covers(pointer.x, pointer.y) && r == card_region(
                        pane.board_id,
                        pane.cards@[c],
                    );
                assert(pane.area.encloses(pane.cards@[c].area));
                if pane.cards@[c].area != pane.area {
                    lemma_enclosed_is_smaller(pane.area, pane.cards@[c].area);
                }
                assert(card_is_under(boards, pointer, k, c));
            },
            None => {
                if pane.area.covers(pointer.x, pointer.y) {
                    let c = choose|c: int| card_is_under(boards, pointer, k, c);
                    assert(pane.cards@[c].found);
                }
            },
        }
    } else {
        lemma_owner_exists_iff_hit(board_regions(pane), pointer, None);
    }
}

proof fn lemma_boards_yield_a_card(boards: Seq<BoardPane>, pointer: PointerState, n: int)
    requires
        0 <= n <= boards.len(),
        cards_lie_in_boards(boards),
        frames_hold_cards(boards, pointer),
    ensures
        match owning_region(body_regions(boards.take(n)), pointer, None) {
            Some(r) => is_card_choice(r, boards, pointer),
            None => forall|k: int, c: int| 0 <= k < n ==> !card_is_under(boards, pointer, k, c),
        },
    decreases n,
{
    if n == 0 {
        lemma_owner_exists_iff_hit(body_regions(boards.take(0)), pointer, None);
    } else {
        let shown = boards.take(n);
        assert(shown.drop_last() =~= boards.take(n - 1));
        assert(shown.last() == boards[n - 1]);
        lemma_boards_yield_a_card(boards, pointer, n - 1);
        lemma_board_yields_a_card(boards, pointer, n - 1);
        lemma_owner_of_joined_lists(
            body_regions(boards.take(n - 1)),
            board_regions(boards[n - 1]),
            pointer,
            None,
        );
    }
}

/// The innermost region wins among the boards and their cards, whatever
/// else is under the pointer. Where no popup is open, every card lies in the
/// frame of its board, the pointer is on a card, and every board under the
/// pointer has a card under the pointer, a pass over the regions of the
/// boards gives the focus to the boards and makes a card under the pointer
/// and its board current: never a board alone.
pub proof fn lemma_some_card_under_pointer_is_selected(
    state: AppState,
    boards: Seq<BoardPane>,
    k: int,
    c: int,
)
    requires
        state.popup_mode is None,
        cards_lie_in_boards(boards),
        frames_hold_cards(boards, state.pointer),
        card_is_under(boards, state.pointer, k, c),
    ensures
        state.after_pass(body_regions(boards)).focus == Focus::Body,
        state.after_pass(body_regions(boards)).mouse_focus == Some(Focus::Body),
        exists|j: int, d: int| #[trigger]
            card_is_under(boards, state.pointer, j, d) && state.after_pass(
                body_regions(boards),
            ).current_board_id == Some(boards[j].board_id) && state.after_pass(
                body_regions(boards),
            ).current_card_id == Some(boards[j].cards@[d].card_id),
{
    lemma_boards_yield_a_card(boards, state.pointer, boards.len() as int);
    assert(boards.take(boards.len() as int) =~= boards);
    lemma_pass_follows_owner(state, body_regions(boards));
    let r = owning_region(body_regions(boards), state.pointer, None).unwrap();
    let (j, d) = choose|j: int, d: int| #[trigger]
        card_is_under(boards, state.pointer, j, d) && r == card_region(
            boards[j].board_id,
            boards[j].cards@[d],
        );
    assert(card_is_under(boards, state.pointer, j, d));
}

/// Where no popup is open and the pointer is on a board that is drawn, on
/// none of the cards and on no other board, a pass over the regions of the
/// boards gives the focus to the boards and makes that board current; the
/// current card stays as it is.
pub proof fn lemma_board_under_pointer_is_selected(state: AppState, boards: Seq<BoardPane>, k: int)
    requires
        state.popup_mode is None,
        0 <= k < boards.len(),
        boards[k].position is Some,
        state.points_at(boards[k].area),
        forall|d: int|
            0 <= d < boards[k].cards@.len() ==> !state.points_at((#[trigger] boards[k].cards@[d]).area),
        forall|j: int|
            0 <= j < boards.len() && j != k ==> board_is_clear(#[trigger] boards[j], state.pointer),
    ensures
        state.after_pass(body_regions(boards)).focus == Focus::Body,
        state.after_pass(body_regions(boards)).mouse_focus == Some(Focus::Body),
        state.after_pass(body_regions(boards)).current_board_id == Some(boards[k].board_id),
        state.after_pass(body_regions(boards)).current_card_id == state.current_card_id,
{
    let pane = boards[k];
    let cards = card_regions(pane.board_id, pane.cards@);
    let frame = board_region(pane);
    lemma_one_board_is_hit(boards, state.pointer, None, k);
    lemma_no_card_is_hit(pane.board_id, pane.cards@, state.pointer, None);
    assert(cards.push(frame) =~= cards + seq![frame]);
    lemma_owner_of_one_region(frame, state.pointer, None);
    lemma_owner_of_joined_lists(cards, seq![frame], state.pointer, None);
    lemma_pass_follows_owner(state, body_regions(boards));
}

/// While a popup is open, a pass over the regions of the boards leaves the
/// state as it is.
pub proof fn lemma_boards_rest_under_a_popup(state: AppState, boards: Seq<BoardPane>)
    requires
        state.popup_mode is Some,
    ensures
        state.after_pass(body_regions(boards)) == state,
{
    lemma_body_regions_are_of_the_view(boards);
    crate::focus::lemma_modal_confines_focus(
        body_regions(boards),
        state.pointer,
        state.popup_mode,
        state.focus,
    );
    lemma_owner_exists_iff_hit(body_regions(boards), state.pointer, state.popup_mode);
}

/// Every region of the boards is on the layer of the view and gives the
/// focus to the boards.
pub proof fn lemma_body_regions_are_of_the_view(boards: Seq<BoardPane>)
    ensures
        forall|i: int|
            0 <= i < body_regions(boards).len() ==> (#[trigger] body_regions(boards)[i]).layer is None
                && body_regions(boards)[i].target == Focus::Body,
    decreases boards.len(),
{
    if boards.len() > 0 {
        lemma_body_regions_are_of_the_view(boards.drop_last());
        let pane = boards.last();
        if pane.position is Some {
            lemma_card_regions_are_of_the_view(pane.board_id, pane.cards@);
        }
    }
}

proof fn lemma_card_regions_are_of_the_view(board_id: u128, cards: Seq<CardPane>)
    ensures
        forall|i: int|
            0 <= i < card_regions(board_id, cards).len() ==> (#[trigger] card_regions(
                board_id,
                cards,
            )[i]).layer is None && card_regions(board_id, cards)[i].target == Focus::Body,
    decreases cards.len(),
{
    if cards.len() > 0 {
        lemma_card_regions_are_of_the_view(board_id, cards.drop_last());
    }
}

/// The colours in which the details of a card are written.
#[derive(Clone, Copy, Debug, PartialEq, Eq, Hash, Structural)]
pub enum CardTextStyle {
    /// Muted, because a popup lies over the card.
    Inactive,
    StatusActive,
    StatusCompleted,
    StatusStale,
    PriorityHigh,
    PriorityMedium,
    PriorityLow,
    DueDefault,
    DueWarning,
    DueCritical,
}

/// The colour of a card's status; muted under a popup.
pub fn status_style(status: crate::kanban::CardStatus, muted: bool) -> (style: CardTextStyle)
    ensures
        style == (if muted {
            CardTextStyle::Inactive
        } else {
            match status {
                crate::kanban::CardStatus::Active => CardTextStyle::StatusActive,
                crate::kanban::CardStatus::Complete => CardTextStyle::StatusCompleted,
                crate::kanban::CardStatus::Stale => CardTextStyle::StatusStale,
            }
        }),
{
    if muted {
        CardTextStyle::Inactive
    } else {
        match status {
            crate::kanban::CardStatus::Active => CardTextStyle::StatusActive,
            crate::kanban::CardStatus::Complete => CardTextStyle::StatusCompleted,
            crate::kanban::CardStatus::Stale => CardTextStyle::StatusStale,
        }
    }
}

/// The colour of a card's priority.
pub fn priority_style(priority: crate::kanban::CardPriority) -> (style: CardTextStyle)
    ensures
        style == (match priority {
            crate::kanban::CardPriority::High => CardTextStyle::PriorityHigh,
            crate::kanban::CardPriority::Medium => CardTextStyle::PriorityMedium,
            crate::kanban::CardPriority::Low => CardTextStyle::PriorityLow,
        }),
{
    match priority {
        crate::kanban::CardPriority::High => CardTextStyle::PriorityHigh,
        crate::kanban::CardPriority::Medium => CardTextStyle::PriorityMedium,
        crate::kanban::CardPriority::Low => CardTextStyle::PriorityLow,
    }
}

/// The colour of a card's due date; muted under a popup.
pub fn due_date_style(urgency: crate::due_date::DueDateUrgency, muted: bool) -> (style: CardTextStyle)
    ensures
        style == (if muted {
            CardTextStyle::Inactive
        } else {
            match urgency {
                crate::due_date::DueDateUrgency::Default => CardTextStyle::DueDefault,
                crate::due_date::DueDateUrgency::Warning => CardTextStyle::DueWarning,
                crate::due_date::DueDateUrgency::Critical => CardTextStyle::DueCritical,
            }
        }),
{
    if muted {
        CardTextStyle::Inactive
    } else {
        match urgency {
            crate::due_date::DueDateUrgency::Default => CardTextStyle::DueDefault,
            crate::due_date::DueDateUrgency::Warning => CardTextStyle::DueWarning,
            crate::due_date::DueDateUrgency::Critical => CardTextStyle::DueCritical,
        }
    }
}

/// The heading of a board: its name, cut to length, with the number of its
/// cards in brackets, and an arrow before it for the current board.
pub open spec fn board_heading_text(name: Seq<char>, card_count: nat, is_current: bool) -> Seq<char> {
    let plain = crate::text::shortened(name, crate::config::DEFAULT_BOARD_TITLE_LENGTH as nat)
        + " ("@ + crate::text::decimal(card_count) + ")"@;
    if is_current {
        ">> "@ + plain
    } else {
        plain
    }
}

/// Writes the heading of a board.
pub fn board_heading(name: &str, card_count: usize, is_current: bool) -> (heading: String)
    ensures
        heading@ == board_heading_text(name@, card_count as nat, is_current),
{
    let mut heading = if is_current {
        String::from_str(">> ")
    } else {
        String::new()
    };
    let short = crate::text::shorten(name, crate::config::DEFAULT_BOARD_TITLE_LENGTH as usize);
    heading.append(short.as_str());
    heading.append(" (");
    crate::text::push_decimal(&mut heading, card_count as u64);
    heading.append(")");
    proof {
        assert(heading@ =~= board_heading_text(name@, card_count as nat, is_current));
    }
    heading
}

/// The heading of a card: its name, cut to length, with an arrow before it
/// for the current card.
pub open spec fn card_heading_text(name: Seq<char>, is_current: bool) -> Seq<char> {
    let plain = crate::text::shortened(name, crate::config::DEFAULT_CARD_TITLE_LENGTH as nat);
    if is_current {
        ">> "@ + plain
    } else {
        plain
    }
}

/// Writes the heading of a card.
pub fn card_heading(name: &str, is_current: bool) -> (heading: String)
    ensures
        heading@ == card_heading_text(name@, is_current),
{
    let mut heading = if is_current {
        String::from_str(">> ")
    } else {
        String::new()
    };
    let short = crate::text::shorten(name, crate::config::DEFAULT_CARD_TITLE_LENGTH as usize);
    heading.append(short.as_str());
    proof {
        assert(heading@ =~= card_heading_text(name@, is_current));
    }
    heading
}

/// Lays out and resolves the boards in `area`: decides how each board and
/// card that is on screen is drawn, and gives the focus and the selection to
/// the board or card under the pointer. Nothing is laid out, and the state
/// stays as it is, where the layout solver does not take one of the areas; a
/// roomy area can always be laid out.
/// Without boards on screen nothing is laid out either, and the view is
/// empty.
pub fn render_body(
    area: Rect,
    state: &mut AppState,
    config: &AppConfig,
    boards: &Vec<Board>,
    visible: &Vec<BoardCardViewState>,
) -> (view: Option<BodyView>)
    ensures
        view is None ==> *final(state) == *old(state),
        view is None ==> visible@.len() > 0,
        is_roomy(area) ==> view is Some,
        view matches Some(v) ==> shows_body(v, *old(state), *config, boards@, visible@),
        view matches Some(v) ==> v.area == area,
        view matches Some(v) ==> cards_lie_in_boards(v.boards@),
        view matches Some(v) ==> *final(state) == old(state).after_pass(body_regions(v.boards@)),
        visible@.len() > 0 && !can_split(area, Direction::Vertical, 0, body_rows(*config))
            ==> view is None,
{
    let layout = body_layout(area, config, visible)?;
    Some(body_in(&layout, state, config, boards, visible))
}

/// A view that is drawn in the places of a layout whose places lie in one
/// another has every card in the frame of its board.
pub proof fn lemma_cards_of_nested_layout(view: BodyView, layout: BodyLayout)
    requires
        places_body(view, layout),
        layout_within(layout),
    ensures
        cards_lie_in_boards(view.boards@),
{
    assert forall|k: int, c: int|
        0 <= k < view.boards@.len() && 0 <= c < view.boards@[k].cards@.len() implies view.boards@[k].area.encloses(
        (#[trigger] view.boards@[k].cards@[c]).area,
    ) by {
        let pane = view.boards@[k];
        let slot = layout.boards@[k];
        assert(places_board(pane, slot));
        assert(slot_within(layout.area, slot));
        assert(slot.cards_area.encloses(slot.cards@[c].area));
    }
}

/// Resolves the boards in the places of `layout`: decides how each board and
/// card that is on screen is drawn, and gives the focus and the selection to
/// the board or card under the pointer.
pub fn body_in(
    layout: &BodyLayout,
    state: &mut AppState,
    config: &AppConfig,
    boards: &Vec<Board>,
    visible: &Vec<BoardCardViewState>,
) -> (view: BodyView)
    requires
        layout_fits(*layout, *config, visible@),
    ensures
        shows_body(view, *old(state), *config, boards@, visible@),
        places_body(view, *layout),
        layout_within(*layout) ==> cards_lie_in_boards(view.boards@),
        *final(state) == old(state).after_pass(body_regions(view.boards@)),
{
    let view = body_view(layout, state, config, boards, visible);
    proof {
        if layout_within(*layout) {
            lemma_cards_of_nested_layout(view, *layout);
        }
    }
    let mut regions: Vec<Region> = Vec::new();
    push_body_regions(&view, &mut regions);
    proof {
        assert(regions@ =~= body_regions(view.boards@));
    }
    state.resolve_pointer(&regions);
    view
}

} // verus!
