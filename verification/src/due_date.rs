//! How pressing a card's due date is.
//!
//! Dates are read and compared by the `chrono` crate. What follows from the
//! number of days left is decided here.

use vstd::prelude::*;

verus! {

/// The form in which a card holds its due date.
pub const DUE_DATE_FORMAT: &'static str = "%d/%m/%Y-%H:%M:%S";

/// How pressing a due date is; it decides the colour of the date.
#[derive(Clone, Copy, Debug, PartialEq, Eq, Hash, Structural)]
pub enum DueDateUrgency {
    /// Far ahead, or not a date at all.
    Default,
    /// Due within the warning period.
    Warning,
    /// Overdue.
    Critical,
}

/// `chrono::NaiveDateTime`: a date and time, handed on as it comes.
#[verifier::external_type_specification]
#[verifier::external_body]
pub struct ExNaiveDateTime(chrono::NaiveDateTime);

/// `chrono::TimeDelta`: the time between two dates, handed on as it comes.
#[verifier::external_type_specification]
#[verifier::external_body]
pub struct ExTimeDelta(chrono::TimeDelta);

/// Whether `chrono` reads `text` as a date and time written in `format`.
pub uninterp spec fn reads_as_date_time(text: Seq<char>, format: Seq<char>) -> bool;

/// Calls `chrono::NaiveDateTime::parse_from_str`. Claimed of it: whether it
/// yields a date depends on the text and the format alone.
#[verifier::external_body]
fn parse_date_time(text: &str, format: &str) -> (parsed: Option<chrono::NaiveDateTime>)
    ensures
        parsed is Some <==> reads_as_date_time(text@, format@),
{
    chrono::NaiveDateTime::parse_from_str(text, format).ok()
}

/// Calls `chrono::Local::now` and takes the local date and time of the
/// result. Nothing is claimed of it.
#[verifier::external_body]
fn local_now() -> chrono::NaiveDateTime {
    chrono::Local::now().naive_local()
}

/// Calls `chrono::NaiveDateTime::signed_duration_since`. Nothing is claimed
/// of the result.
#[verifier::external_body]
fn time_from(earlier: &chrono::NaiveDateTime, later: &chrono::NaiveDateTime) -> chrono::TimeDelta {
    later.signed_duration_since(*earlier)
}

/// Calls `chrono::TimeDelta::num_days`. Nothing is claimed of the result.
#[verifier::external_body]
fn whole_days(span: &chrono::TimeDelta) -> i64 {
    span.num_days()
}

/// What a number of days left means: a date that has passed is critical, one
/// within `warning_delta` days is a warning, and a date that is further ahead
/// or could not be read is shown as any other text.
pub open spec fn urgency_of(days_left: Option<i64>, warning_delta: u16) -> DueDateUrgency {
    match days_left {
        None => DueDateUrgency::Default,
        Some(days) => if days < 0 {
            DueDateUrgency::Critical
        } else if days <= warning_delta {
            DueDateUrgency::Warning
        } else {
            DueDateUrgency::Default
        },
    }
}

/// Decides how pressing a due date is from the whole days left until it;
/// `None` stands for a date that could not be read.
pub fn due_date_urgency(days_left: Option<i64>, warning_delta: u16) -> (urgency: DueDateUrgency)
    ensures
        urgency == urgency_of(days_left, warning_delta),
{
    match days_left {
        None => DueDateUrgency::Default,
        Some(days) => if days < 0 {
            DueDateUrgency::Critical
        } else if days <= warning_delta as i64 {
            DueDateUrgency::Warning
        } else {
            DueDateUrgency::Default
        },
    }
}

/// The whole days from now until the due date written in `date_due`, or
/// nothing where it is not a date in the form of `DUE_DATE_FORMAT`.
pub fn days_until_due(date_due: &str) -> (days_left: Option<i64>)
    ensures
        days_left is Some <==> reads_as_date_time(date_due@, DUE_DATE_FORMAT@),
{
    match parse_date_time(date_due, DUE_DATE_FORMAT) {
        Some(due) => {
            let now = local_now();
            let left = time_from(&now, &due);
            Some(whole_days(&left))
        },
        None => None,
    }
}

/// `urgency` is how pressing the due date written in `date_due` is on some
/// day: what `urgency_of` makes of a number of days left where the text is a
/// date in the form of `DUE_DATE_FORMAT`, and of none where it is not.
pub open spec fn is_urgency_of(urgency: DueDateUrgency, date_due: Seq<char>, warning_delta: u16) -> bool {
    exists|days_left: Option<i64>|
        (days_left is Some <==> reads_as_date_time(date_due, DUE_DATE_FORMAT@)) && urgency
            == #[trigger] urgency_of(days_left, warning_delta)
}

/// How pressing the due date written in `date_due` is today. A text that is
/// not a date is never pressing.
pub fn card_due_date_urgency(date_due: &str, warning_delta: u16) -> (urgency: DueDateUrgency)
    ensures
        !reads_as_date_time(date_due@, DUE_DATE_FORMAT@) ==> urgency == DueDateUrgency::Default,
        is_urgency_of(urgency, date_due@, warning_delta),
{
    let days_left = days_until_due(date_due);
    due_date_urgency(days_left, warning_delta)
}

/// How the due date of a card is shown: a card without one shows none, and
/// any other by how pressing it is today.
pub fn shown_due_date_urgency(date_due: &str, warning_delta: u16) -> (urgency: Option<DueDateUrgency>)
    ensures
        urgency is None <==> date_due@.len() == 0,
        urgency matches Some(u) ==> is_urgency_of(u, date_due@, warning_delta),
{
    if date_due.unicode_len() == 0 {
        None
    } else {
        Some(card_due_date_urgency(date_due, warning_delta))
    }
}

} // verus!
