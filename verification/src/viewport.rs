//! The viewport engine: which contiguous slice of an ordered collection is on
//! screen, and how far through the collection the active item is.

use vstd::prelude::*;
use crate::geometry::Rect;

verus! {

/// A contiguous slice of a collection: `len` items from index `start` on.
#[derive(Clone, Copy, Debug, PartialEq, Eq, Structural)]
pub struct Window {
    pub start: usize,
    pub len: usize,
}

impl Window {
    /// Index `i` lies in the window.
    pub open spec fn holds(self, i: int) -> bool {
        self.start <= i < self.start + self.len
    }
}

/// Number of items shown of `n` when a page holds `page`: all of them where
/// they fit, else a full page.
pub open spec fn window_len(n: nat, page: nat) -> nat {
    if n <= page {
        n
    } else {
        page
    }
}

/// Where the window starts. A collection that fits on one page is shown from
/// its first item. A longer one is shown from the first item too, unless an
/// item that must stay visible lies past the first page: then the window ends
/// with that item. An index past the end counts as no item.
pub open spec fn window_start(n: nat, page: nat, must_show: Option<nat>) -> nat {
    if n <= page {
        0
    } else {
        match must_show {
            Some(i) => if page <= i < n {
                (i + 1 - page) as nat
            } else {
                0
            },
            None => 0,
        }
    }
}

/// The window never runs past the end of the collection.
pub proof fn lemma_window_within_collection(n: nat, page: nat, must_show: Option<nat>)
    ensures
        window_start(n, page, must_show) + window_len(n, page) <= n,
{
}

/// An item that must stay visible and lies in the collection is inside the
/// window, for any page that holds at least one item.
pub proof fn lemma_window_holds_required_item(n: nat, page: nat, i: nat)
    requires
        page >= 1,
        i < n,
    ensures
        window_start(n, page, Some(i)) <= i < window_start(n, page, Some(i)) + window_len(n, page),
{
}

/// Among the full pages that hold the required item and stay within the
/// collection, the window is the one that starts first.
pub proof fn lemma_window_is_first_page_with_item(n: nat, page: nat, i: nat, other_start: nat)
    requires
        page >= 1,
        page < n,
        i < n,
        other_start <= i < other_start + page,
        other_start + page <= n,
    ensures
        window_start(n, page, Some(i)) <= other_start,
{
}

/// Computes the window over `len` items for pages of `page_size`, keeping the
/// item at index `must_show` on screen if there is one.
pub fn window(len: usize, page_size: usize, must_show: Option<usize>) -> (w: Window)
    ensures
        w.len == window_len(len as nat, page_size as nat),
        w.start == window_start(
            len as nat,
            page_size as nat,
            match must_show {
                Some(i) => Some(i as nat),
                None => None,
            },
        ),
        w.start + w.len <= len,
        must_show matches Some(i) ==> (i < len && page_size >= 1 ==> w.holds(i as int)),
{
    if len <= page_size {
        return Window { start: 0, len };
    }
    let start: usize = match must_show {
        Some(i) => if page_size <= i && i < len {
            i + 1 - page_size
        } else {
            0
        },
        None => 0,
    };
    Window { start, len: page_size }
}

/// The first index at which `id` stands in `ids`.
pub open spec fn first_position(ids: Seq<u128>, id: u128) -> Option<nat> {
    match ids.index_of_first(id) {
        Some(i) => Some(i as nat),
        None => None,
    }
}

/// What `first_position` yields: the index of the first occurrence, or
/// nothing where the id does not occur.
pub proof fn lemma_first_position(ids: Seq<u128>, id: u128)
    ensures
        match first_position(ids, id) {
            Some(i) => i < ids.len() && ids[i as int] == id && forall|j: int|
                0 <= j < i ==> ids[j] != id,
            None => forall|j: int| 0 <= j < ids.len() ==> ids[j] != id,
        },
{
    ids.index_of_first_ensures(id);
    if first_position(ids, id) is None {
        assert forall|j: int| 0 <= j < ids.len() implies ids[j] != id by {
            if ids[j] == id {
                assert(ids.contains(id));
            }
        }
    }
}

/// Looks `id` up in `ids`.
pub fn position_of(ids: &Vec<u128>, id: u128) -> (found: Option<usize>)
    ensures
        found matches Some(i) ==> first_position(ids@, id) == Some(i as nat),
        found is None ==> first_position(ids@, id) is None,
{
    let mut i: usize = 0;
    while i < ids.len()
        invariant
            i <= ids.len(),
            forall|j: int| 0 <= j < i ==> ids@[j] != id,
        decreases ids.len() - i,
    {
        if ids[i] == id {
            proof {
                lemma_first_position(ids@, id);
            }
            return Some(i);
        }
        i += 1;
    }
    proof {
        lemma_first_position(ids@, id);
    }
    None
}

/// The window over `ids` for an item given by its id. An id that is not in
/// the collection counts as no item.
pub open spec fn window_of_ids(ids: Seq<u128>, page: nat, must_show: Option<u128>) -> Window {
    let at = match must_show {
        Some(id) => first_position(ids, id),
        None => None,
    };
    Window {
        start: window_start(ids.len(), page, at) as usize,
        len: window_len(ids.len(), page) as usize,
    }
}

/// Computes the window over `ids` for pages of `page_size`, keeping the item
/// with the id `must_show` on screen if the collection holds it.
pub fn window_for(ids: &Vec<u128>, page_size: usize, must_show: Option<u128>) -> (w: Window)
    ensures
        w == window_of_ids(ids@, page_size as nat, must_show),
        w.len == window_len(ids@.len(), page_size as nat),
        w.start + w.len <= ids@.len(),
        must_show matches Some(id) ==> (ids@.contains(id) && page_size >= 1 ==> exists|i: int|
            w.holds(i) && ids@[i] == id),
{
    let at = match must_show {
        Some(id) => position_of(ids, id),
        None => None,
    };
    let w = window(ids.len(), page_size, at);
    proof {
        if let Some(id) = must_show {
            lemma_first_position(ids@, id);
            if ids@.contains(id) && page_size >= 1 {
                let i = at.unwrap();
                assert(w.holds(i as int) && ids@[i as int] == id);
            }
        }
    }
    w
}

impl Window {
    /// The window cut down to a collection of `n` items.
    pub open spec fn clipped_to(self, n: nat) -> (int, int) {
        let from = if self.start <= n {
            self.start as int
        } else {
            n as int
        };
        let upto = if from + self.len <= n {
            from + self.len
        } else {
            n as int
        };
        (from, upto)
    }
}

/// The items of `ids` that lie in the window. A window that reaches past the
/// end of the collection is cut down to it.
pub fn visible_ids(ids: &Vec<u128>, w: Window) -> (shown: Vec<u128>)
    ensures
        shown@ == ids@.subrange(w.clipped_to(ids@.len()).0, w.clipped_to(ids@.len()).1),
        w.start + w.len <= ids@.len() ==> shown@ == ids@.subrange(
            w.start as int,
            w.start + w.len,
        ),
{
    let n: usize = ids.len();
    let from: usize = if w.start <= n {
        w.start
    } else {
        n
    };
    let upto: usize = if w.len <= n - from {
        from + w.len
    } else {
        n
    };
    let mut shown: Vec<u128> = Vec::new();
    let mut k: usize = from;
    while k < upto
        invariant
            from <= k <= upto <= ids.len(),
            shown@ == ids@.subrange(from as int, k as int),
        decreases upto - k,
    {
        shown.push(ids[k]);
        proof {
            assert(shown@ =~= ids@.subrange(from as int, k + 1));
        }
        k += 1;
    }
    shown
}

/// How far through a collection the active item is: `position` of `total`,
/// counted from one. An empty collection has position zero of zero and stands
/// for the ratio zero.
#[derive(Clone, Copy, Debug, PartialEq, Eq, Structural)]
pub struct ScrollRatio {
    pub position: usize,
    pub total: usize,
}

impl ScrollRatio {
    /// The ratio lies between zero and one.
    pub open spec fn in_unit_interval(self) -> bool {
        0 <= self.position <= self.total
    }

    /// The position, held at the total where it would pass it.
    pub open spec fn clamped_position(self) -> nat {
        if self.position <= self.total {
            self.position as nat
        } else {
            self.total as nat
        }
    }

    /// The whole part of the ratio times `scale`; zero for an empty
    /// collection.
    pub open spec fn scaled(self, scale: nat) -> nat {
        if self.total == 0 {
            0
        } else {
            (self.clamped_position() * scale) / (self.total as nat)
        }
    }

    /// Whether a scroll indicator is drawn at all: not for an empty collection.
    pub fn is_shown(&self) -> (shown: bool)
        ensures
            shown == (self.total > 0),
    {
        self.total > 0
    }

    /// Number of indicator blocks on a track of `track_length` cells: the
    /// whole part of the ratio times the track length.
    pub fn indicator_blocks(&self, track_length: u16) -> (blocks: u16)
        ensures
            blocks == self.scaled(track_length as nat),
            blocks <= track_length,
    {
        let scaled = self.scale_by(track_length);
        scaled
    }

    /// The ratio in whole percent.
    pub fn percent(&self) -> (p: u16)
        ensures
            p == self.scaled(100),
            p <= 100,
    {
        self.scale_by(100)
    }

    fn scale_by(&self, scale: u16) -> (scaled: u16)
        ensures
            scaled == self.scaled(scale as nat),
            scaled <= scale,
    {
        if self.total == 0 {
            return 0;
        }
        let position: u128 = if self.position <= self.total {
            self.position as u128
        } else {
            self.total as u128
        };
        let total: u128 = self.total as u128;
        let wide: u128 = scale as u128;
        assert(position * wide <= total * wide <= 0xffff_ffff_ffff_ffff * 0xffff) by (nonlinear_arith)
            requires
                position <= total <= 0xffff_ffff_ffff_ffff,
                wide <= 0xffff,
        ;
        let product: u128 = position * wide;
        let quotient: u128 = product / total;
        assert(quotient <= wide) by (nonlinear_arith)
            requires
                quotient == product / total,
                product <= total * wide,
                total > 0,
        ;
        quotient as u16
    }
}

/// The scroll ratio of a collection of `n` items whose active item stands at
/// index `active`. Without an active item the first one counts as active.
pub open spec fn scroll_ratio_of(n: nat, active: Option<nat>) -> ScrollRatio {
    let index = match active {
        Some(i) => i,
        None => 0,
    };
    ScrollRatio {
        position: if n == 0 {
            0
        } else if index + 1 <= n {
            (index + 1) as usize
        } else {
            n as usize
        },
        total: n as usize,
    }
}

/// The scroll ratio lies between zero and one, whatever the collection and
/// the active item, and is zero for an empty collection. So does every number
/// of blocks lie between zero and the length of the track.
pub proof fn lemma_scroll_ratio_in_unit_interval(n: nat, active: Option<nat>, track_length: nat)
    requires
        n <= usize::MAX,
    ensures
        scroll_ratio_of(n, active).in_unit_interval(),
        n == 0 ==> scroll_ratio_of(n, active).position == 0,
        scroll_ratio_of(n, active).scaled(track_length) <= track_length,
        n == 0 ==> scroll_ratio_of(n, active).scaled(track_length) == 0,
{
    let r = scroll_ratio_of(n, active);
    if n > 0 {
        let p = r.clamped_position() as int;
        let t = r.total as int;
        let s = track_length as int;
        assert((p * s) / t <= s) by (nonlinear_arith)
            requires
                0 <= p <= t,
                0 < t,
                0 <= s,
        ;
    }
}

/// Computes the scroll ratio: the position of the active item, counted from
/// one, over the length of the collection, held between zero and one.
pub fn scroll_ratio(len: usize, active: Option<usize>) -> (r: ScrollRatio)
    ensures
        r == scroll_ratio_of(
            len as nat,
            match active {
                Some(i) => Some(i as nat),
                None => None,
            },
        ),
        r.in_unit_interval(),
        len == 0 ==> r.position == 0 && r.total == 0,
        len > 0 ==> r.position >= 1,
{
    let index: usize = match active {
        Some(i) => i,
        None => 0,
    };
    let position: usize = if len == 0 {
        0
    } else if index < len {
        index + 1
    } else {
        len
    };
    ScrollRatio { position, total: len }
}

/// The scroll ratio of `ids` for an active item given by its id. An id that
/// the collection does not hold counts as no active item.
pub fn scroll_ratio_for(ids: &Vec<u128>, active: Option<u128>) -> (r: ScrollRatio)
    ensures
        r == scroll_ratio_of(
            ids@.len(),
            match active {
                Some(id) => first_position(ids@, id),
                None => None,
            },
        ),
        r.in_unit_interval(),
        ids@.len() == 0 ==> r.position == 0 && r.total == 0,
{
    let at = match active {
        Some(id) => position_of(ids, id),
        None => None,
    };
    scroll_ratio(ids.len(), at)
}

/// The row of a bordered list that lies under the pointer. Rows are counted
/// from the line below the top border, and every line of the list down to its
/// last one can hold a row: the pointer is on row `k` where it stands `k + 1`
/// lines below the top of the list, above the list's bottom edge, and the
/// list has more than `k` items. The lines past the last item hold no row.
pub open spec fn row_under(pointer_y: u16, list_area: Rect, item_count: nat) -> Option<nat> {
    let row = pointer_y - list_area.y - 1;
    if 0 <= row < item_count && pointer_y < list_area.bottom_edge() {
        Some(row as nat)
    } else {
        None
    }
}

/// Finds the row of a bordered list under the pointer, for a list of
/// `item_count` items drawn in `list_area`.
pub fn hovered_row(pointer_y: u16, list_area: Rect, item_count: usize) -> (row: Option<usize>)
    ensures
        row matches Some(k) ==> row_under(pointer_y, list_area, item_count as nat) == Some(k as nat),
        row is None ==> row_under(pointer_y, list_area, item_count as nat) is None,
        row matches Some(k) ==> k < item_count,
{
    let y: u32 = pointer_y as u32;
    let first_row: u32 = list_area.y as u32 + 1;
    let bottom: u32 = list_area.y as u32 + list_area.height as u32;
    if y < first_row || y >= bottom {
        return None;
    }
    let row: usize = (y - first_row) as usize;
    if row < item_count {
        Some(row)
    } else {
        None
    }
}

} // verus!
