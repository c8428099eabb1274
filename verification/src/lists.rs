//! What the lists and tables of the views are made of: the key that is bound
//! to an action, the height of a table row, and the characters of a command
//! that match the search text.

use vstd::prelude::*;
use vstd::string::*;

verus! {

/// The key that the key binding table `store` holds for `action`: the first
/// entry of the first row whose second entry is the action. Rows with fewer
/// than two entries bind nothing, and an action that no row binds has the
/// empty key.
pub open spec fn key_bound_to(store: Seq<Seq<Seq<char>>>, action: Seq<char>) -> Seq<char>
    decreases store.len(),
{
    if store.len() == 0 {
        Seq::empty()
    } else if store[0].len() >= 2 && store[0][1] == action {
        store[0][0]
    } else {
        key_bound_to(store.skip(1), action)
    }
}

/// Looks up the key that is bound to `action`.
pub fn key_for_action(store: &Vec<Vec<String>>, action: &str) -> (key: String)
    ensures
        key@ == key_bound_to(store.deep_view(), action@),
{
    let ghost all = store.deep_view();
    let wanted = String::from_str(action);
    let mut i: usize = 0;
    proof {
        assert(all.skip(0) =~= all);
    }
    while i < store.len()
        invariant
            i <= store.len(),
            all == store.deep_view(),
            wanted@ == action@,
            key_bound_to(all, action@) == key_bound_to(all.skip(i as int), action@),
        decreases store.len() - i,
    {
        let row = &store[i];
        proof {
            let tail = all.skip(i as int);
            assert(tail[0] == row.deep_view());
            assert(tail.skip(1) =~= all.skip(i + 1));
            assert(row.deep_view().len() == row@.len());
            if row@.len() >= 2 {
                assert(row.deep_view()[0] == row@[0]@);
                assert(row.deep_view()[1] == row@[1]@);
            }
        }
        if row.len() >= 2 {
            if row[1] == wanted {
                return row[0].clone();
            }
        }
        i += 1;
    }
    String::new()
}

/// How often `wanted` occurs in `text`.
pub open spec fn occurrences(text: Seq<char>, wanted: char) -> nat
    decreases text.len(),
{
    if text.len() == 0 {
        0
    } else {
        occurrences(text.drop_last(), wanted) + (if text.last() == wanted {
            1nat
        } else {
            0nat
        })
    }
}

/// The greatest number of line breaks in one of `cells`.
pub open spec fn most_line_breaks(cells: Seq<Seq<char>>) -> nat
    decreases cells.len(),
{
    if cells.len() == 0 {
        0
    } else {
        let before = most_line_breaks(cells.drop_last());
        let last = occurrences(cells.last(), '\n');
        if last > before {
            last
        } else {
            before
        }
    }
}

/// The height of a table row: one line more than the cell with the most line
/// breaks has breaks, and no more than the grid is high.
pub open spec fn height_of_row(cells: Seq<Seq<char>>) -> nat {
    if most_line_breaks(cells) + 1 <= u16::MAX {
        most_line_breaks(cells) + 1
    } else {
        u16::MAX as nat
    }
}

fn count_line_breaks(text: &str) -> (n: usize)
    ensures
        n == occurrences(text@, '\n'),
{
    let len = text.unicode_len();
    let mut n: usize = 0;
    let mut i: usize = 0;
    while i < len
        invariant
            i <= len,
            len == text@.len(),
            n <= i,
            n == occurrences(text@.take(i as int), '\n'),
        decreases len - i,
    {
        proof {
            assert(text@.take(i + 1).drop_last() =~= text@.take(i as int));
        }
        if text.get_char(i) == '\n' {
            n += 1;
        }
        i += 1;
    }
    proof {
        assert(text@.take(len as int) =~= text@);
    }
    n
}

/// Computes the height of a table row from its cells.
pub fn row_height(cells: &Vec<String>) -> (height: u16)
    ensures
        height == height_of_row(cells.deep_view()),
        height >= 1,
{
    let ghost all = cells.deep_view();
    let mut most: usize = 0;
    let mut i: usize = 0;
    while i < cells.len()
        invariant
            i <= cells.len(),
            all == cells.deep_view(),
            most == most_line_breaks(all.take(i as int)),
        decreases cells.len() - i,
    {
        proof {
            assert(all.take(i + 1).drop_last() =~= all.take(i as int));
            assert(all.take(i + 1).last() == cells@[i as int]@);
        }
        let breaks = count_line_breaks(cells[i].as_str());
        if breaks > most {
            most = breaks;
        }
        i += 1;
    }
    proof {
        assert(all.take(all.len() as int) =~= all);
    }
    if most < 0xffff {
        (most + 1) as u16
    } else {
        0xffff
    }
}

/// `text` in lower case, as the standard library writes it.
pub uninterp spec fn lowercased(text: Seq<char>) -> Seq<char>;

/// Calls `str::to_lowercase`. Claimed of it: the result depends on the text
/// alone.
#[verifier::external_body]
fn lowercase(text: &str) -> (low: String)
    ensures
        low@ == lowercased(text@),
{
    text.to_lowercase()
}

/// `needle` stands somewhere in `hay`, character for character.
pub open spec fn occurs_in(needle: Seq<char>, hay: Seq<char>) -> bool {
    exists|i: int|
        0 <= i && i + needle.len() <= hay.len() && #[trigger] hay.subrange(i, i + needle.len())
            == needle
}

/// Calls `str::contains` with a string as the pattern. Claimed of it: it
/// says whether the pattern is a part of the text.
#[verifier::external_body]
fn contains_text(hay: &str, needle: &str) -> (found: bool)
    ensures
        found == occurs_in(needle@, hay@),
{
    hay.contains(needle)
}

/// The character matches the search text: in lower case it is a part of the
/// search text in lower case.
pub open spec fn matches_search(c: char, typed: Seq<char>) -> bool {
    occurs_in(lowercased(seq![c]), lowercased(typed))
}

/// Marks the characters of `command` that match the search text `typed`;
/// the command palette draws them accented.
pub fn command_highlights(command: &str, typed: &str) -> (marks: Vec<bool>)
    ensures
        marks@.len() == command@.len(),
        forall|i: int| 0 <= i < marks@.len() ==> marks@[i] == matches_search(command@[i], typed@),
{
    let typed_low = lowercase(typed);
    let len = command.unicode_len();
    let mut marks: Vec<bool> = Vec::new();
    let mut i: usize = 0;
    while i < len
        invariant
            i <= len,
            len == command@.len(),
            typed_low@ == lowercased(typed@),
            marks@.len() == i,
            forall|j: int| 0 <= j < i ==> marks@[j] == matches_search(command@[j], typed@),
        decreases len - i,
    {
        let one = command.substring_char(i, i + 1);
        proof {
            assert(one@ =~= seq![command@[i as int]]);
        }
        let low = lowercase(one);
        marks.push(contains_text(typed_low.as_str(), low.as_str()));
        i += 1;
    }
    marks
}

} // verus!
