//! The forms in which a board or a card is created.

use vstd::prelude::*;
use vstd::string::*;
use crate::config::AppConfig;
use crate::focus::Focus;
use crate::focus::Region;
use crate::geometry::Position;
use crate::geometry::Rect;
use crate::layout::all_within;
use crate::layout::can_split;
use crate::layout::split;
use crate::layout::Constraint;
use crate::layout::Direction;
use crate::panes::close_button_if;
use crate::panes::close_regions;
use crate::panes::plain_region;
use crate::panes::push_close_region;
use crate::panes::region;
use crate::panes::render_close_button;
use crate::panes::Pane;
use crate::state::emphasis;
use crate::state::muted_or;
use crate::state::style_for;
use crate::state::AppState;
use crate::state::AppStatus;
use crate::state::StyleKind;
use crate::text::wrap;
use crate::text::wrapped;

verus! {

/// One field of a form: its box and its text, broken into lines.
#[derive(Clone, Debug, PartialEq, Eq)]
pub struct FieldView {
    pub pane: Pane,
    pub lines: Vec<String>,
}

/// A form: a heading, its fields, a help text and a submit button.
#[derive(Clone, Debug, PartialEq, Eq)]
pub struct FormView {
    pub heading: Pane,
    pub fields: Vec<FieldView>,
    pub help: Pane,
    /// The style of the names of keys in the help text.
    pub key_style: StyleKind,
    pub submit: Pane,
    /// Where the text cursor is drawn, while a field is being typed in.
    pub cursor: Option<Position>,
    pub close: Option<Pane>,
}

/// The width of the text in a box with a frame.
pub open spec fn text_width(area: Rect) -> nat {
    if area.width >= 2 {
        (area.width - 2) as nat
    } else {
        0
    }
}

/// Line and column of a cursor that stands `cursor` characters into the text
/// of `lines`, counted through the lines one after the other. A cursor at the
/// end of a line stays on that line, and a cursor past the end of the text
/// stands on the last line.
pub open spec fn cursor_place(lines: Seq<Seq<char>>, cursor: nat) -> (nat, nat)
    decreases lines.len(),
{
    if lines.len() <= 1 || cursor <= lines[0].len() {
        (0, cursor)
    } else {
        let rest = cursor_place(lines.skip(1), (cursor - lines[0].len()) as nat);
        (rest.0 + 1, rest.1)
    }
}

/// The cell, inside the frame of `area`, at line `place.0` and column
/// `place.1`, if the grid has it.
pub open spec fn cell_at(area: Rect, place: (nat, nat)) -> Option<Position> {
    let x = area.x + 1 + place.1;
    let y = area.y + 1 + place.0;
    if x <= u16::MAX && y <= u16::MAX {
        Some(Position { x: x as u16, y: y as u16 })
    } else {
        None
    }
}

/// Finds the cell at which the text cursor is drawn in a field.
pub fn calculate_cursor_position(lines: &Vec<String>, cursor: usize, area: Rect) -> (cell: Option<
    Position,
>)
    ensures
        cell == cell_at(area, cursor_place(lines.deep_view(), cursor as nat)),
{
    let ghost all = lines.deep_view();
    let mut left: usize = cursor;
    let mut row: usize = 0;
    proof {
        assert(all.skip(0) =~= all);
    }
    while lines.len() - row > 1 && left > lines[row].as_str().unicode_len()
        invariant
            row <= lines.len(),
            left <= cursor,
            all == lines.deep_view(),
            cursor_place(all, cursor as nat).0 == row + cursor_place(
                all.skip(row as int),
                left as nat,
            ).0,
            cursor_place(all, cursor as nat).1 == cursor_place(all.skip(row as int), left as nat).1,
        decreases lines.len() - row,
    {
        proof {
            let tail = all.skip(row as int);
            assert(tail[0] == lines@[row as int].deep_view());
            assert(tail.skip(1) =~= all.skip(row + 1));
        }
        left = left - lines[row].as_str().unicode_len();
        row += 1;
    }
    proof {
        let tail = all.skip(row as int);
        assert(all.len() == lines@.len());
        if row < lines.len() {
            assert(tail[0] == lines@[row as int].deep_view());
        }
        assert(cursor_place(tail, left as nat) == (0nat, left as nat));
    }
    let x: u128 = area.x as u128 + 1 + left as u128;
    let y: u128 = area.y as u128 + 1 + row as u128;
    if x <= 0xffff && y <= 0xffff {
        Some(Position { x: x as u16, y: y as u16 })
    } else {
        None
    }
}

/// The box of a field of a form that stands for the focus `target`.
pub open spec fn field_pane(state: AppState, target: Focus, area: Rect) -> Pane {
    Pane {
        area,
        style: emphasis(
            state.popup_mode is Some,
            state.points_at(area),
            state.focus == target,
            StyleKind::Focused,
        ),
    }
}

/// Where the text cursor of a field is drawn: where the cursor position
/// falls in the lines of the field, or in the first cell of the field where
/// no position is set.
pub open spec fn field_cursor(state: AppState, area: Rect, lines: Seq<Seq<char>>) -> Option<Position> {
    match state.current_cursor_position {
        Some(at) => cell_at(area, cursor_place(lines, at as nat)),
        None => cell_at(area, (0, 0)),
    }
}

/// The first of the fields that the state is typing into, if any.
pub open spec fn typing_field(state: AppState, targets: Seq<Focus>) -> Option<int> {
    if state.app_status == AppStatus::UserInput && exists|i: int|
        0 <= i < targets.len() && targets[i] == state.focus {
        Some(choose|i: int| 0 <= i < targets.len() && targets[i] == state.focus && forall|j: int|
            0 <= j < i ==> targets[j] != state.focus)
    } else {
        None
    }
}

/// `view` is the form with the fields `targets` and their texts `texts`, as
/// it is drawn in the places that the view itself names.
pub open spec fn shows_form(
    view: FormView,
    state: AppState,
    config: AppConfig,
    size: Rect,
    targets: Seq<Focus>,
    texts: Seq<Seq<char>>,
) -> bool {
    let muted = state.popup_mode is Some;
    &&& view.heading.style == (if muted {
        StyleKind::Inactive
    } else {
        StyleKind::Default
    })
    &&& view.help.style == view.heading.style
    &&& view.key_style == (if muted {
        StyleKind::Inactive
    } else {
        StyleKind::HelpKey
    })
    &&& view.fields@.len() == targets.len()
    &&& forall|i: int|
        0 <= i < targets.len() ==> {
            &&& (#[trigger] view.fields@[i]).pane == field_pane(
                state,
                targets[i],
                view.fields@[i].pane.area,
            )
            &&& view.fields@[i].lines.deep_view() == wrapped(
                texts[i],
                text_width(view.fields@[i].pane.area),
            )
        }
    &&& view.submit == field_pane(state, Focus::SubmitButton, view.submit.area)
    &&& view.close == close_button_if(config.enable_mouse_support, state, size)
    &&& view.cursor == (match typing_field(state, targets) {
        Some(i) => field_cursor(
            state,
            view.fields@[i].pane.area,
            view.fields@[i].lines.deep_view(),
        ),
        None => None,
    })
}

/// The regions of the fields of a form, in order.
pub open spec fn field_regions(fields: Seq<FieldView>, targets: Seq<Focus>) -> Seq<Region> {
    Seq::new(fields.len(), |i: int| plain_region(targets[i], fields[i].pane.area, None))
}

/// The regions of a form: its fields, the submit button and the close
/// button.
pub open spec fn form_regions(view: FormView, state: AppState, targets: Seq<Focus>) -> Seq<Region> {
    field_regions(view.fields@, targets).push(
        plain_region(Focus::SubmitButton, view.submit.area, None),
    ) + close_regions(None, view.close)
}

fn draw_field(state: &AppState, target: Focus, area: Rect) -> (pane: Pane)
    ensures
        pane == field_pane(*state, target, area),
{
    Pane {
        area,
        style: style_for(
            state.popup_mode.is_some(),
            state.is_pointing_at(area),
            state.focus == target,
            StyleKind::Focused,
        ),
    }
}

fn first_cell(area: Rect) -> (cell: Option<Position>)
    ensures
        cell == cell_at(area, (0, 0)),
{
    if area.x < 0xffff && area.y < 0xffff {
        Some(Position { x: area.x + 1, y: area.y + 1 })
    } else {
        None
    }
}

/// `view` is drawn in the rows `rows`, from the top: the heading in the
/// first, each field in a row of its own, in order, then the help text and
/// the submit button.
pub open spec fn places_form(view: FormView, rows: Seq<Rect>) -> bool {
    let count = view.fields@.len() as int;
    &&& rows.len() == count + 3
    &&& view.heading.area == rows[0]
    &&& forall|i: int| 0 <= i < count ==> (#[trigger] view.fields@[i]).pane.area == rows[i + 1]
    &&& view.help.area == rows[count + 1]
    &&& view.submit.area == rows[count + 2]
}

/// Every part of the form lies on a screen of the size `size`.
pub open spec fn form_on_screen(view: FormView, size: Rect) -> bool {
    &&& size.encloses(view.heading.area)
    &&& forall|i: int|
        0 <= i < view.fields@.len() ==> size.encloses((#[trigger] view.fields@[i]).pane.area)
    &&& size.encloses(view.help.area)
    &&& size.encloses(view.submit.area)
}

/// A form that is drawn in rows of the screen lies on the screen.
pub proof fn lemma_form_in_rows_is_on_screen(view: FormView, rows: Seq<Rect>, size: Rect)
    requires
        places_form(view, rows),
        all_within(size, rows),
    ensures
        form_on_screen(view, size),
{
    let count = view.fields@.len() as int;
    assert(size.encloses(rows[0]));
    assert(size.encloses(rows[count + 1]));
    assert(size.encloses(rows[count + 2]));
    assert forall|i: int| 0 <= i < count implies size.encloses(
        (#[trigger] view.fields@[i]).pane.area,
    ) by {
        assert(size.encloses(rows[i + 1]));
    }
}

/// Lays out and resolves a form whose rows are `rows`: a heading, one row
/// for each field, a help text and the submit button.
fn form(
    size: Rect,
    state: &mut AppState,
    config: &AppConfig,
    rows: &Vec<Constraint>,
    targets: &Vec<Focus>,
    texts: &Vec<&str>,
) -> (view: Option<FormView>)
    requires
        targets@.len() == texts@.len(),
        rows@.len() == targets@.len() + 3,
    ensures
        view is None ==> *final(state) == *old(state),
        view matches Some(v) ==> shows_form(
            v,
            *old(state),
            *config,
            size,
            targets@,
            texts.deep_view(),
        ),
        view matches Some(v) ==> *final(state) == old(state).after_pass(
            form_regions(v, *old(state), targets@),
        ),
        view matches Some(v) ==> form_on_screen(v, size),
        view is Some <==> can_split(size, Direction::Vertical, 0, rows@),
{
    let chunks = split(size, Direction::Vertical, 0, rows)?;
    let view = form_in(&chunks, size, state, config, targets, texts);
    proof {
        lemma_form_in_rows_is_on_screen(view, chunks@, size);
    }
    Some(view)
}

/// Resolves a form in the rows `chunks` of a screen of the size `size`: the
/// heading in the first row, then the fields `targets` with the texts
/// `texts`, each in a row of its own, then the help text and the submit
/// button. Each text is broken into lines of the width of its box, the
/// pointer takes the focus for the field or button that it is on, and the
/// text cursor stands in the first field that is being typed in.
pub fn form_in(
    chunks: &Vec<Rect>,
    size: Rect,
    state: &mut AppState,
    config: &AppConfig,
    targets: &Vec<Focus>,
    texts: &Vec<&str>,
) -> (view: FormView)
    requires
        targets@.len() == texts@.len(),
        chunks@.len() == targets@.len() + 3,
    ensures
        shows_form(view, *old(state), *config, size, targets@, texts.deep_view()),
        places_form(view, chunks@),
        *final(state) == old(state).after_pass(form_regions(view, *old(state), targets@)),
{
    let muted = state.popup_mode.is_some();
    let count = targets.len();
    let mut fields: Vec<FieldView> = Vec::new();
    let mut regions: Vec<Region> = Vec::new();
    let mut cursor: Option<Position> = None;
    let mut typing: Option<usize> = None;
    let mut i: usize = 0;
    while i < count
        invariant
            i <= count,
            count == targets@.len(),
            count == texts@.len(),
            chunks@.len() == count + 3,
            fields@.len() == i,
            regions@ == field_regions(fields@, targets@.take(i as int)),
            forall|j: int|
                0 <= j < i ==> {
                    &&& (#[trigger] fields@[j]).pane.area == chunks@[j + 1]
                    &&& fields@[j].pane == field_pane(
                        *state,
                        targets@[j],
                        fields@[j].pane.area,
                    )
                    &&& fields@[j].lines.deep_view() == wrapped(
                        texts@[j]@,
                        text_width(fields@[j].pane.area),
                    )
                },
            typing matches Some(t) ==> t < i && targets@[t as int] == state.focus && forall|j: int|
                0 <= j < t ==> targets@[j] != state.focus,
            typing is None ==> forall|j: int| 0 <= j < i ==> targets@[j] != state.focus,
            state.app_status != AppStatus::UserInput ==> cursor is None,
            state.app_status == AppStatus::UserInput ==> cursor == (match typing {
                Some(t) => field_cursor(
                    *state,
                    fields@[t as int].pane.area,
                    fields@[t as int].lines.deep_view(),
                ),
                None => None,
            }),
        decreases count - i,
    {
        let area = chunks[i + 1];
        let width: usize = if area.width >= 2 {
            (area.width - 2) as usize
        } else {
            0
        };
        let lines = wrap(texts[i], width);
        if typing.is_none() && targets[i] == state.focus {
            typing = Some(i);
            if state.app_status == AppStatus::UserInput {
                cursor = match state.current_cursor_position {
                    Some(at) => calculate_cursor_position(&lines, at, area),
                    None => first_cell(area),
                };
            }
        }
        let ghost before = fields@;
        fields.push(FieldView { pane: draw_field(state, targets[i], area), lines });
        regions.push(region(targets[i], area, None));
        proof {
            assert(regions@ =~= field_regions(fields@, targets@.take(i + 1)));
            assert forall|j: int| 0 <= j < i implies fields@[j] == before[j] by {}
        }
        i += 1;
    }
    assert(chunks.len() == count + 3);
    let submit = draw_field(state, Focus::SubmitButton, chunks[count + 2]);
    regions.push(region(Focus::SubmitButton, chunks[count + 2], None));
    let close = if config.enable_mouse_support {
        render_close_button(state, size)
    } else {
        None
    };
    push_close_region(None, close, &mut regions);
    let view = FormView {
        heading: Pane { area: chunks[0], style: muted_or(muted, StyleKind::Default) },
        fields,
        help: Pane { area: chunks[count + 1], style: muted_or(muted, StyleKind::Default) },
        key_style: muted_or(muted, StyleKind::HelpKey),
        submit,
        cursor,
        close,
    };
    proof {
        assert(targets@.take(count as int) =~= targets@);
        assert(regions@ =~= form_regions(view, *state, targets@));
        let texts_deep = texts.deep_view();
        assert forall|j: int| 0 <= j < count implies texts_deep[j] == #[trigger] texts@[j]@ by {}
        if state.app_status == AppStatus::UserInput {
            if let Some(t) = typing {
                let i0 = t as int;
                assert(0 <= i0 < targets@.len() && targets@[i0] == state.focus);
                let c = choose|i: int|
                    0 <= i < targets@.len() && targets@[i] == state.focus && forall|j: int|
                        0 <= j < i ==> targets@[j] != state.focus;
                assert(c == i0);
            }
        }
    }
    state.resolve_pointer(&regions);
    view
}

/// The rows of the form for a new board.
pub open spec fn new_board_rows() -> Seq<Constraint> {
    seq![
        Constraint::Length(3),
        Constraint::Length(5),
        Constraint::Min(8),
        Constraint::Length(4),
        Constraint::Length(3),
    ]
}

/// The fields of the form for a new board.
pub open spec fn new_board_fields() -> Seq<Focus> {
    seq![Focus::NewBoardName, Focus::NewBoardDescription]
}

/// The rows of the form for a new card.
pub open spec fn new_card_rows() -> Seq<Constraint> {
    seq![
        Constraint::Length(3),
        Constraint::Length(5),
        Constraint::Min(8),
        Constraint::Length(3),
        Constraint::Length(4),
        Constraint::Length(3),
    ]
}

/// The fields of the form for a new card.
pub open spec fn new_card_fields() -> Seq<Focus> {
    seq![Focus::NewCardName, Focus::NewCardDescription, Focus::NewCardDueDate]
}

/// Lays out and resolves the form for a new board with the texts typed so
/// far: each field is broken into lines of the width of its box, the pointer
/// takes the focus for the field or button that it is on, and the text cursor
/// stands in the field that is being typed in. There is no view, and the
/// state stays as it is, where the layout solver does not take the screen.
/// Every part of the form lies on the screen.
pub fn render_new_board_form(
    size: Rect,
    state: &mut AppState,
    config: &AppConfig,
    name: &str,
    description: &str,
) -> (view: Option<FormView>)
    ensures
        view is None ==> *final(state) == *old(state),
        view matches Some(v) ==> shows_form(
            v,
            *old(state),
            *config,
            size,
            new_board_fields(),
            seq![name@, description@],
        ),
        view matches Some(v) ==> *final(state) == old(state).after_pass(
            form_regions(v, *old(state), new_board_fields()),
        ),
        view matches Some(v) ==> form_on_screen(v, size),
        view is Some <==> can_split(size, Direction::Vertical, 0, new_board_rows()),
{
    let mut rows: Vec<Constraint> = Vec::new();
    rows.push(Constraint::Length(3));
    rows.push(Constraint::Length(5));
    rows.push(Constraint::Min(8));
    rows.push(Constraint::Length(4));
    rows.push(Constraint::Length(3));
    let mut targets: Vec<Focus> = Vec::new();
    targets.push(Focus::NewBoardName);
    targets.push(Focus::NewBoardDescription);
    let mut texts: Vec<&str> = Vec::new();
    texts.push(name);
    texts.push(description);
    proof {
        assert(rows@ =~= new_board_rows());
        assert(targets@ =~= new_board_fields());
        assert(texts.deep_view() =~= seq![name@, description@]);
    }
    form(size, state, config, &rows, &targets, &texts)
}

/// Lays out and resolves the form for a new card with the texts typed so
/// far: each field is broken into lines of the width of its box, the pointer
/// takes the focus for the field or button that it is on, and the text cursor
/// stands in the field that is being typed in. There is no view, and the
/// state stays as it is, where the layout solver does not take the screen.
/// Every part of the form lies on the screen.
pub fn render_new_card_form(
    size: Rect,
    state: &mut AppState,
    config: &AppConfig,
    name: &str,
    description: &str,
    date_due: &str,
) -> (view: Option<FormView>)
    ensures
        view is None ==> *final(state) == *old(state),
        view matches Some(v) ==> shows_form(
            v,
            *old(state),
            *config,
            size,
            new_card_fields(),
            seq![name@, description@, date_due@],
        ),
        view matches Some(v) ==> *final(state) == old(state).after_pass(
            form_regions(v, *old(state), new_card_fields()),
        ),
        view matches Some(v) ==> form_on_screen(v, size),
        view is Some <==> can_split(size, Direction::Vertical, 0, new_card_rows()),
{
    let mut rows: Vec<Constraint> = Vec::new();
    rows.push(Constraint::Length(3));
    rows.push(Constraint::Length(5));
    rows.push(Constraint::Min(8));
    rows.push(Constraint::Length(3));
    rows.push(Constraint::Length(4));
    rows.push(Constraint::Length(3));
    let mut targets: Vec<Focus> = Vec::new();
    targets.push(Focus::NewCardName);
    targets.push(Focus::NewCardDescription);
    targets.push(Focus::NewCardDueDate);
    let mut texts: Vec<&str> = Vec::new();
    texts.push(name);
    texts.push(description);
    texts.push(date_due);
    proof {
        assert(rows@ =~= new_card_rows());
        assert(targets@ =~= new_card_fields());
        assert(texts.deep_view() =~= seq![name@, description@, date_due@]);
    }
    form(size, state, config, &rows, &targets, &texts)
}

} // verus!
