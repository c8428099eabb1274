//! What is drawn over or in place of the views: the notifications, the
//! message for a terminal that is too small, and the loading screen.

use vstd::prelude::*;
use vstd::string::*;
use crate::config::MIN_TERM_HEIGHT;
use crate::config::MIN_TERM_WIDTH;
use crate::config::SCREEN_TO_TOAST_WIDTH_RATIO;
use crate::geometry::Rect;
use crate::layout::can_split;
use crate::layout::split;
use crate::layout::Constraint;
use crate::layout::Direction;
use crate::panes::title_pane;
use crate::panes::Pane;
use crate::state::AppState;
use crate::text::decimal;
use crate::text::push_decimal;
use crate::text::wrap;
use crate::text::wrapped;
use crate::toast::display_of;
use crate::toast::frame_at;
use crate::toast::spinner_frame;
use crate::toast::ToastQueue;
use crate::toast::ToastType;
use crate::toast::ToastWidget;

verus! {

/// What `check_size` says of a terminal of the size `rect`.
pub open spec fn size_message(rect: Rect) -> Seq<char> {
    if rect.width < MIN_TERM_WIDTH {
        "For optimal viewing experience, Terminal width should be >= "@ + decimal(
            MIN_TERM_WIDTH as nat,
        ) + ", (current width "@ + decimal(rect.width as nat) + ")"@
    } else if rect.height < MIN_TERM_HEIGHT {
        "For optimal viewing experience, Terminal height should be >= "@ + decimal(
            MIN_TERM_HEIGHT as nat,
        ) + ", (current height "@ + decimal(rect.height as nat) + ")"@
    } else {
        "Size OK"@
    }
}

/// Says whether the terminal is large enough: `Size OK`, or which of width
/// and height is too small, with the least and the current value. The width
/// is looked at first.
pub fn check_size(rect: &Rect) -> (msg: String)
    ensures
        msg@ == size_message(*rect),
{
    let mut msg = String::new();
    if rect.width < MIN_TERM_WIDTH {
        msg.append("For optimal viewing experience, Terminal width should be >= ");
        push_decimal(&mut msg, MIN_TERM_WIDTH as u64);
        msg.append(", (current width ");
        push_decimal(&mut msg, rect.width as u64);
        msg.append(")");
    } else if rect.height < MIN_TERM_HEIGHT {
        msg.append("For optimal viewing experience, Terminal height should be >= ");
        push_decimal(&mut msg, MIN_TERM_HEIGHT as u64);
        msg.append(", (current height ");
        push_decimal(&mut msg, rect.height as u64);
        msg.append(")");
    } else {
        msg.append("Size OK");
    }
    proof {
        assert(msg@ =~= size_message(*rect));
    }
    msg
}

/// A screen with a title bar and one message below it.
#[derive(Clone, Copy, Debug, PartialEq, Eq, Structural)]
pub struct NoticeView {
    pub title: Pane,
    pub body_area: Rect,
}

/// The rows of a notice: three lines of title and the message.
pub open spec fn notice_rows() -> Seq<Constraint> {
    seq![Constraint::Length(3), Constraint::Min(10)]
}

/// The title bar of a notice. A notice knows no state: its title bar is
/// emphasised like that of a fresh state, whose pointer rests in the top left
/// corner, with the whole screen counted as title bar.
pub open spec fn notice_title(size: Rect, area: Rect) -> Pane {
    Pane { area, style: title_pane(AppState::initial(), size).style }
}

/// The notice on a screen of the size `size` whose rows are `rows`: the
/// title bar above the message. Another number of rows than two makes no
/// notice.
pub open spec fn notice_from(rows: Seq<Rect>, size: Rect) -> Option<NoticeView> {
    if rows.len() == 2 {
        Some(NoticeView { title: notice_title(size, rows[0]), body_area: rows[1] })
    } else {
        None
    }
}

/// Both parts of the notice lie on a screen of the size `size`.
pub open spec fn notice_on_screen(view: NoticeView, size: Rect) -> bool {
    size.encloses(view.title.area) && size.encloses(view.body_area)
}

/// Decides how a notice is drawn in the rows `rows` of a screen of the size
/// `size`.
pub fn notice_in(rows: &Vec<Rect>, size: Rect) -> (view: Option<NoticeView>)
    ensures
        view == notice_from(rows@, size),
{
    if rows.len() == 2 {
        let fresh = AppState::default();
        let style = crate::panes::draw_title(&fresh, size).style;
        Some(NoticeView { title: Pane { area: rows[0], style }, body_area: rows[1] })
    } else {
        None
    }
}

fn notice(size: Rect) -> (view: Option<NoticeView>)
    ensures
        view is Some <==> can_split(size, Direction::Vertical, 0, notice_rows()),
        view matches Some(v) ==> v.title == notice_title(size, v.title.area),
        view matches Some(v) ==> notice_on_screen(v, size),
{
    let mut rows: Vec<Constraint> = Vec::new();
    rows.push(Constraint::Length(3));
    rows.push(Constraint::Min(10));
    assert(rows@ =~= notice_rows());
    let chunks = split(size, Direction::Vertical, 0, &rows)?;
    proof {
        assert(size.encloses(chunks@[0]) && size.encloses(chunks@[1]));
    }
    notice_in(&chunks, size)
}

/// Lays out the screen that says that the terminal is too small. There is
/// none where the layout solver does not take the screen. Both parts lie on
/// the screen.
pub fn draw_size_error(size: &Rect) -> (view: Option<NoticeView>)
    ensures
        view is Some <==> can_split(*size, Direction::Vertical, 0, notice_rows()),
        view matches Some(v) ==> v.title == notice_title(*size, v.title.area),
        view matches Some(v) ==> notice_on_screen(v, *size),
{
    notice(*size)
}

/// Lays out the loading screen. There is none where the layout solver does
/// not take the screen. Both parts lie on the screen.
pub fn draw_loading_screen(size: &Rect) -> (view: Option<NoticeView>)
    ensures
        view is Some <==> can_split(*size, Direction::Vertical, 0, notice_rows()),
        view matches Some(v) ==> v.title == notice_title(*size, v.title.area),
        view matches Some(v) ==> notice_on_screen(v, *size),
{
    notice(*size)
}

/// The heading of a notification of the given kind.
pub open spec fn toast_heading(toast_type: ToastType) -> Seq<char> {
    match toast_type {
        ToastType::Error => "Error"@,
        ToastType::Info => "Info"@,
        ToastType::Warning => "Warning"@,
        ToastType::Loading => "Loading"@,
    }
}

/// The heading of a notification of the given kind.
pub fn toast_title(toast_type: ToastType) -> (title: &'static str)
    ensures
        title@ == toast_heading(toast_type),
{
    match toast_type {
        ToastType::Error => "Error",
        ToastType::Info => "Info",
        ToastType::Warning => "Warning",
        ToastType::Loading => "Loading",
    }
}

/// One notification on screen.
#[derive(Debug, PartialEq, Eq)]
pub struct ToastPane {
    pub area: Rect,
    pub toast_type: ToastType,
    /// The frame of the progress animation, for an operation in flight.
    pub frame: Option<usize>,
    /// The display colour, as red, green and blue.
    pub color: (u8, u8, u8),
    /// The message, broken into lines.
    pub lines: Vec<String>,
}

/// The count of notifications in the top right corner.
#[derive(Clone, Debug, PartialEq, Eq)]
pub struct CounterPane {
    pub area: Rect,
    pub text: String,
}

/// The notifications on screen.
#[derive(Debug, PartialEq, Eq)]
pub struct ToastsView {
    pub toasts: Vec<ToastPane>,
    pub counter: Option<CounterPane>,
}

/// The width of a notification on a screen of the given width.
pub open spec fn toast_width(screen_width: u16) -> u16 {
    screen_width / SCREEN_TO_TOAST_WIDTH_RATIO
}

/// The lines into which a message is broken in a notification of the given
/// width: the frame takes two columns.
pub open spec fn toast_lines(message: Seq<char>, width: u16) -> Seq<Seq<char>> {
    wrapped(
        message,
        if width >= 2 {
            (width - 2) as nat
        } else {
            0
        },
    )
}

/// The height of a notification: its lines and the frame.
pub open spec fn toast_height(toast: ToastWidget, width: u16) -> nat {
    toast_lines(toast.message@, width).len() + 2
}

/// The row at which the notification at position `i` begins: the first one
/// in the second row of the screen, each other one below the one before it.
pub open spec fn toast_top(shown: Seq<ToastWidget>, width: u16, i: nat) -> nat
    decreases i,
{
    if i == 0 {
        1
    } else {
        toast_top(shown, width, (i - 1) as nat) + toast_height(shown[i - 1], width)
    }
}

/// How long the notification has been shown at the time `now`.
pub open spec fn elapsed(toast: ToastWidget, now: u64) -> nat {
    if now >= toast.start_time {
        (now - toast.start_time) as nat
    } else {
        0
    }
}

/// `pane` is the notification `toast` with the lines that the pane itself
/// holds, placed at the row `top` at the right edge of a screen of the size
/// `size`, at the time `now`: as high as its lines and its frame, and not
/// past the last row of the grid.
pub open spec fn places_toast(
    pane: ToastPane,
    size: Rect,
    top: u16,
    toast: ToastWidget,
    now: u64,
    frame_count: usize,
) -> bool {
    let width = toast_width(size.width);
    &&& top + pane.lines@.len() + 2 <= u16::MAX
    &&& pane.area == Rect {
        x: (size.width - width) as u16,
        y: top,
        width,
        height: (pane.lines@.len() + 2) as u16,
    }
    &&& pane.toast_type == toast.toast_type
    &&& pane.color == toast.toast_color
    &&& pane.frame == (if toast.in_flight() && frame_count > 0 {
        Some(frame_at(elapsed(toast, now), frame_count as nat) as usize)
    } else {
        None
    })
}

/// `pane` is the notification at position `i` of `shown`, on a screen of the
/// size `size` at the time `now`.
pub open spec fn shows_toast(
    pane: ToastPane,
    shown: Seq<ToastWidget>,
    i: int,
    size: Rect,
    now: u64,
    frame_count: usize,
) -> bool {
    let width = toast_width(size.width);
    &&& toast_top(shown, width, i as nat) <= u16::MAX
    &&& pane.lines.deep_view() == toast_lines(shown[i].message@, width)
    &&& places_toast(
        pane,
        size,
        toast_top(shown, width, i as nat) as u16,
        shown[i],
        now,
        frame_count,
    )
}

/// Places the notification `toast`, whose message is broken into `lines`, at
/// the row `top` at the right edge of the screen. There is no place for it
/// where it would reach past the last row of the grid.
pub fn place_toast(
    size: Rect,
    top: u16,
    toast: &ToastWidget,
    lines: Vec<String>,
    now: u64,
    frame_count: usize,
) -> (pane: Option<ToastPane>)
    ensures
        pane is Some <==> top + lines@.len() + 2 <= u16::MAX,
        pane matches Some(p) ==> p.lines == lines && places_toast(
            p,
            size,
            top,
            *toast,
            now,
            frame_count,
        ),
{
    let bottom: u128 = top as u128 + lines.len() as u128 + 2;
    if bottom > 0xffff {
        return None;
    }
    let width: u16 = size.width / SCREEN_TO_TOAST_WIDTH_RATIO;
    let frame = if toast.is_loading() && frame_count > 0 {
        let since: u64 = if now >= toast.start_time {
            now - toast.start_time
        } else {
            0
        };
        Some(spinner_frame(since, frame_count))
    } else {
        None
    };
    let height: u16 = (lines.len() + 2) as u16;
    Some(
        ToastPane {
            area: Rect { x: size.width - width, y: top, width, height },
            toast_type: toast.toast_type,
            frame,
            color: toast.toast_color,
            lines,
        },
    )
}

/// What the counter says of a queue of `count` notifications.
pub open spec fn counter_text(count: nat) -> Seq<char> {
    " "@ + decimal(count) + " Message(s)"@
}

/// Where the counter stands: in the last fifteen columns of the first row.
/// A screen that is narrower has none.
pub open spec fn counter_area(size: Rect) -> Option<Rect> {
    if size.width >= 15 {
        Some(Rect { x: (size.width - 15) as u16, y: 0, width: 15, height: 1 })
    } else {
        None
    }
}

/// Chooses the notifications that are shown in `capacity` slots and stacks
/// them in the top right corner of the screen, from the second row on, each
/// as high as its message needs lines when it is broken to the width of a
/// notification. The stack ends where the next notification would reach past
/// the last row of the grid. Operations in flight show the frame of their
/// progress animation at the time `now`. Above the stack stands the count of
/// all notifications of the queue; without anything to show there is no
/// count either.
pub fn render_toast(size: Rect, queue: &ToastQueue, now: u64, capacity: usize, frame_count: usize) -> (view:
    ToastsView)
    ensures
        view.toasts@.len() <= display_of(queue@, capacity as nat).len(),
        forall|i: int|
            0 <= i < view.toasts@.len() ==> shows_toast(
                #[trigger] view.toasts@[i],
                display_of(queue@, capacity as nat),
                i,
                size,
                now,
                frame_count,
            ),
        view.toasts@.len() < display_of(queue@, capacity as nat).len() ==> toast_top(
            display_of(queue@, capacity as nat),
            toast_width(size.width),
            view.toasts@.len() + 1,
        ) > u16::MAX,
        display_of(queue@, capacity as nat).len() == 0 ==> view.counter is None,
        display_of(queue@, capacity as nat).len() > 0 ==> match counter_area(size) {
            Some(area) => view.counter matches Some(counter) && counter.area == area
                && counter.text@ == counter_text(queue@.len()),
            None => view.counter is None,
        },
{
    let shown = queue.compose_display(capacity);
    let width: u16 = size.width / SCREEN_TO_TOAST_WIDTH_RATIO;
    let text_width: usize = if width >= 2 {
        (width - 2) as usize
    } else {
        0
    };
    let mut toasts: Vec<ToastPane> = Vec::new();
    let mut top: u16 = 1;
    let mut i: usize = 0;
    while i < shown.len()
        invariant
            i <= shown.len(),
            shown@ == display_of(queue@, capacity as nat),
            width == toast_width(size.width),
            text_width == (if width >= 2 {
                (width - 2) as nat
            } else {
                0
            }),
            toasts@.len() == i,
            top == toast_top(shown@, width, i as nat),
            forall|j: int|
                0 <= j < i ==> shows_toast(#[trigger] toasts@[j], shown@, j, size, now, frame_count),
        decreases shown.len() - i,
    {
        let toast = &shown[i];
        let lines = wrap(toast.message.as_str(), text_width);
        proof {
            assert(lines.deep_view().len() == lines@.len());
            assert(top + lines@.len() + 2 == toast_top(shown@, width, (i + 1) as nat));
        }
        match place_toast(size, top, toast, lines, now, frame_count) {
            Some(pane) => {
                top = top + pane.area.height;
                toasts.push(pane);
            },
            None => {
                return ToastsView { toasts, counter: counter(size, queue.len()) };
            },
        }
        i += 1;
    }
    let counter = if shown.len() == 0 {
        None
    } else {
        counter(size, queue.len())
    };
    ToastsView { toasts, counter }
}

fn counter(size: Rect, count: usize) -> (pane: Option<CounterPane>)
    ensures
        match counter_area(size) {
            Some(area) => pane matches Some(counter) && counter.area == area && counter.text@
                == counter_text(count as nat),
            None => pane is None,
        },
{
    if size.width >= 15 {
        let mut text = String::from_str(" ");
        push_decimal(&mut text, count as u64);
        text.append(" Message(s)");
        proof {
            assert(text@ =~= counter_text(count as nat));
        }
        Some(CounterPane { area: Rect { x: size.width - 15, y: 0, width: 15, height: 1 }, text })
    } else {
        None
    }
}

} // verus!
