//! The focus resolver: which interactive region owns the pointer.
//!
//! Regions are rebuilt every tick from the layout and handed over as an
//! ordered list. A region owns the pointer when it belongs to the layer that
//! currently takes input and its rectangle covers the pointer. Where several
//! regions do, the one with the fewest cells owns it, and among regions of
//! equal size the one that stands first in the list.

use vstd::prelude::*;
use crate::geometry::Rect;
use crate::geometry::lemma_apart_share_no_point;
use crate::geometry::lemma_enclosed_is_smaller;

verus! {

/// The logical regions that can own keyboard and pointer input.
#[derive(Clone, Copy, Debug, PartialEq, Eq, Hash, Structural)]
pub enum Focus {
    NoFocus,
    Title,
    Body,
    Help,
    Log,
    ConfigTable,
    ConfigHelp,
    MainMenu,
    MainMenuHelp,
    NewBoardName,
    NewBoardDescription,
    NewCardName,
    NewCardDescription,
    NewCardDueDate,
    SubmitButton,
    ExtraFocus,
    EditKeybindingsTable,
    CloseButton,
    CommandPalette,
    LoadSave,
    SelectDefaultView,
    ChangeUiModePopup,
    ChangeCardStatusPopup,
    EditGeneralConfigPopup,
    EditSpecificKeyBindingPopup,
}

/// The blocking popups. While one is open, the view below it is muted and
/// takes no input.
#[derive(Clone, Copy, Debug, PartialEq, Eq, Hash, Structural)]
pub enum PopupMode {
    ViewCard,
    CommandPalette,
    EditSpecificKeyBinding,
    ChangeUIMode,
    ChangeCurrentCardStatus,
    EditGeneralConfig,
    SelectDefaultView,
}

/// The pointer as sampled for this tick.
#[derive(Clone, Copy, Debug, PartialEq, Eq, Structural)]
pub struct PointerState {
    pub x: u16,
    pub y: u16,
    pub pressed: Option<bool>,
}

/// The lists in which the pointer selects a row.
#[derive(Clone, Copy, Debug, PartialEq, Eq, Hash, Structural)]
pub enum ListKind {
    Config,
    DefaultView,
    EditKeybindings,
    MainMenu,
    LoadSave,
    CommandPalette,
    CardStatus,
}

/// What owning a region selects besides the focus.
#[derive(Clone, Copy, Debug, PartialEq, Eq, Structural)]
pub enum Selection {
    /// The region selects nothing.
    Keep,
    /// The region is a list and the pointer is on one of its rows: the row
    /// becomes the selected row of that list.
    Row { list: ListKind, row: usize },
    /// The region is a board: it becomes the current board.
    Board { board: u128 },
    /// The region is a card: it becomes the current card, and the board that
    /// holds it the current board.
    Card { board: u128, card: u128 },
}

/// One interactive region of the current frame.
#[derive(Clone, Copy, Debug, PartialEq, Eq, Structural)]
pub struct Region {
    /// The focus that the region stands for.
    pub target: Focus,
    /// Where the region is on screen.
    pub area: Rect,
    /// The layer that the region belongs to: the main view (`None`) or one popup.
    pub layer: Option<PopupMode>,
    /// What owning the region selects.
    pub selection: Selection,
}

/// The outcome of one resolver pass.
#[derive(Clone, Copy, Debug, PartialEq, Eq, Structural)]
pub struct Resolution {
    /// The focus after the pass.
    pub focus: Focus,
    /// What the owning region selects; `Keep` where no region owns the pointer.
    pub selection: Selection,
    /// The index of the owning region in the list.
    pub hit: Option<usize>,
}

/// The region belongs to the layer that takes input and covers the pointer.
pub open spec fn hits(region: Region, pointer: PointerState, modality: Option<PopupMode>) -> bool {
    region.layer == modality && region.area.covers(pointer.x, pointer.y)
}

/// Region `w` owns the pointer among the first `n` regions: it is hit, no hit
/// region has fewer cells, and every hit region before it has more.
pub open spec fn owns_among(
    regions: Seq<Region>,
    pointer: PointerState,
    modality: Option<PopupMode>,
    n: int,
    w: int,
) -> bool {
    &&& 0 <= w < n <= regions.len()
    &&& hits(regions[w], pointer, modality)
    &&& forall|j: int|
        0 <= j < n && #[trigger] hits(regions[j], pointer, modality) ==> regions[w].area.cells()
            <= regions[j].area.cells()
    &&& forall|j: int|
        0 <= j < w && #[trigger] hits(regions[j], pointer, modality) ==> regions[w].area.cells()
            < regions[j].area.cells()
}

/// Region `w` owns the pointer.
pub open spec fn owns(
    regions: Seq<Region>,
    pointer: PointerState,
    modality: Option<PopupMode>,
    w: int,
) -> bool {
    owns_among(regions, pointer, modality, regions.len() as int, w)
}

/// No region is hit.
pub open spec fn nothing_hit(
    regions: Seq<Region>,
    pointer: PointerState,
    modality: Option<PopupMode>,
) -> bool {
    forall|j: int| 0 <= j < regions.len() ==> !#[trigger] hits(regions[j], pointer, modality)
}

/// The index of the region that owns the pointer, if any region is hit.
pub open spec fn owner(
    regions: Seq<Region>,
    pointer: PointerState,
    modality: Option<PopupMode>,
) -> Option<int> {
    if exists|w: int| owns(regions, pointer, modality, w) {
        Some(choose|w: int| owns(regions, pointer, modality, w))
    } else {
        None
    }
}

/// What a resolver pass yields for the given inputs.
pub open spec fn resolution(
    pointer: PointerState,
    regions: Seq<Region>,
    modality: Option<PopupMode>,
    current_focus: Focus,
) -> Resolution {
    match owner(regions, pointer, modality) {
        Some(w) => Resolution {
            focus: regions[w].target,
            selection: regions[w].selection,
            hit: Some(w as usize),
        },
        None => Resolution { focus: current_focus, selection: Selection::Keep, hit: None },
    }
}

/// At most one region owns the pointer.
pub proof fn lemma_owner_is_unique(
    regions: Seq<Region>,
    pointer: PointerState,
    modality: Option<PopupMode>,
    a: int,
    b: int,
)
    requires
        owns(regions, pointer, modality, a),
        owns(regions, pointer, modality, b),
    ensures
        a == b,
{
    if a < b {
        assert(hits(regions[a], pointer, modality));
    } else if b < a {
        assert(hits(regions[b], pointer, modality));
    }
}

/// A region is hit if and only if some region owns the pointer.
pub proof fn lemma_owner_exists_iff_hit(
    regions: Seq<Region>,
    pointer: PointerState,
    modality: Option<PopupMode>,
)
    ensures
        owner(regions, pointer, modality) is None <==> nothing_hit(regions, pointer, modality),
        owner(regions, pointer, modality) matches Some(w) ==> owns(regions, pointer, modality, w),
{
    if nothing_hit(regions, pointer, modality) {
        assert forall|w: int| !owns(regions, pointer, modality, w) by {
            if 0 <= w < regions.len() {
                assert(!hits(regions[w], pointer, modality));
            }
        }
    } else {
        let j = choose|j: int| 0 <= j < regions.len() && hits(regions[j], pointer, modality);
        lemma_some_prefix_owner(regions, pointer, modality, regions.len() as int, j);
        let w = choose|w: int| owns_among(regions, pointer, modality, regions.len() as int, w);
        assert(owns(regions, pointer, modality, w));
    }
}

/// Where a region among the first `n` is hit, one of them owns the pointer
/// among those.
proof fn lemma_some_prefix_owner(
    regions: Seq<Region>,
    pointer: PointerState,
    modality: Option<PopupMode>,
    n: int,
    j: int,
)
    requires
        0 <= j < n <= regions.len(),
        hits(regions[j], pointer, modality),
    ensures
        exists|w: int| owns_among(regions, pointer, modality, n, w),
    decreases n,
{
    let last = n - 1;
    if exists|i: int| 0 <= i < last && hits(regions[i], pointer, modality) {
        let i = choose|i: int| 0 <= i < last && hits(regions[i], pointer, modality);
        lemma_some_prefix_owner(regions, pointer, modality, last, i);
        let p = choose|w: int| owns_among(regions, pointer, modality, last, w);
        if hits(regions[last], pointer, modality) && regions[last].area.cells()
            < regions[p].area.cells() {
            assert(owns_among(regions, pointer, modality, n, last));
        } else {
            assert(owns_among(regions, pointer, modality, n, p));
        }
    } else {
        assert(j == last);
        assert(owns_among(regions, pointer, modality, n, last));
    }
}

fn same_layer(a: Option<PopupMode>, b: Option<PopupMode>) -> (same: bool)
    ensures
        same == (a == b),
{
    match (a, b) {
        (None, None) => true,
        (Some(p), Some(q)) => p == q,
        _ => false,
    }
}

/// Finds the region that owns the pointer.
pub fn hit_test(pointer: PointerState, regions: &Vec<Region>, modality: Option<PopupMode>) -> (hit:
    Option<usize>)
    ensures
        hit matches Some(w) ==> owns(regions@, pointer, modality, w as int),
        hit is None ==> nothing_hit(regions@, pointer, modality),
        hit == resolution(pointer, regions@, modality, Focus::NoFocus).hit,
{
    let mut best: Option<usize> = None;
    let mut best_cells: u32 = 0;
    let mut i: usize = 0;
    while i < regions.len()
        invariant
            i <= regions.len(),
            best matches Some(w) ==> owns_among(regions@, pointer, modality, i as int, w as int)
                && best_cells == regions@[w as int].area.cells(),
            best is None ==> forall|j: int|
                0 <= j < i ==> !#[trigger] hits(regions@[j], pointer, modality),
        decreases regions.len() - i,
    {
        let region = &regions[i];
        if same_layer(region.layer, modality) && region.area.contains(pointer.x, pointer.y) {
            let cells = region.area.area();
            let better = match best {
                None => true,
                Some(_) => cells < best_cells,
            };
            if better {
                best = Some(i);
                best_cells = cells;
            }
        }
        i += 1;
    }
    proof {
        lemma_owner_exists_iff_hit(regions@, pointer, modality);
        if let Some(w) = best {
            let o = owner(regions@, pointer, modality).unwrap();
            lemma_owner_is_unique(regions@, pointer, modality, w as int, o);
        }
    }
    best
}

/// One resolver pass. The region that owns the pointer gives the new focus
/// and the selection that goes with it. Where no region owns the pointer the
/// focus stays as it is and nothing is selected.
pub fn resolve(
    pointer: PointerState,
    regions: &Vec<Region>,
    modality: Option<PopupMode>,
    current_focus: Focus,
) -> (r: Resolution)
    ensures
        r == resolution(pointer, regions@, modality, current_focus),
        r.hit matches Some(w) ==> owns(regions@, pointer, modality, w as int),
        r.hit is None ==> nothing_hit(regions@, pointer, modality),
{
    match hit_test(pointer, regions, modality) {
        Some(w) => Resolution {
            focus: regions[w].target,
            selection: regions[w].selection,
            hit: Some(w),
        },
        None => Resolution { focus: current_focus, selection: Selection::Keep, hit: None },
    }
}

/// The regions lie apart from one another, two by two.
pub open spec fn pairwise_apart(regions: Seq<Region>) -> bool {
    forall|i: int, j: int|
        0 <= i < regions.len() && 0 <= j < regions.len() && i != j ==> (#[trigger] regions[i]).area.apart_from(
            (#[trigger] regions[j]).area,
        )
}

/// Among regions that lie apart from one another at most one is hit, so the
/// pass has at most one candidate and yields it.
pub proof fn lemma_disjoint_regions_have_one_candidate(
    regions: Seq<Region>,
    pointer: PointerState,
    modality: Option<PopupMode>,
    i: int,
    j: int,
)
    requires
        pairwise_apart(regions),
        0 <= i < regions.len(),
        0 <= j < regions.len(),
        hits(regions[i], pointer, modality),
        hits(regions[j], pointer, modality),
    ensures
        i == j,
        owner(regions, pointer, modality) == Some(i),
{
    if i != j {
        lemma_apart_share_no_point(regions[i].area, regions[j].area, pointer.x, pointer.y);
    }
    lemma_owner_exists_iff_hit(regions, pointer, modality);
    let w = owner(regions, pointer, modality).unwrap();
    if w != i {
        lemma_apart_share_no_point(regions[w].area, regions[i].area, pointer.x, pointer.y);
    }
}

/// The innermost region wins: the region that owns the pointer never has
/// another hit region strictly within it.
pub proof fn lemma_innermost_region_wins(
    regions: Seq<Region>,
    pointer: PointerState,
    modality: Option<PopupMode>,
    w: int,
    j: int,
)
    requires
        owner(regions, pointer, modality) == Some(w),
        0 <= j < regions.len(),
        hits(regions[j], pointer, modality),
    ensures
        !(regions[w].area.encloses(regions[j].area) && regions[j].area != regions[w].area),
{
    lemma_owner_exists_iff_hit(regions, pointer, modality);
    if regions[w].area.encloses(regions[j].area) && regions[j].area != regions[w].area {
        lemma_enclosed_is_smaller(regions[w].area, regions[j].area);
    }
}

/// Where the hit regions are nested in one another, the one that owns the
/// pointer lies within every other hit region.
pub proof fn lemma_owner_of_nested_regions(
    regions: Seq<Region>,
    pointer: PointerState,
    modality: Option<PopupMode>,
    w: int,
    j: int,
)
    requires
        owner(regions, pointer, modality) == Some(w),
        0 <= j < regions.len(),
        hits(regions[j], pointer, modality),
        regions[w].area.encloses(regions[j].area) || regions[j].area.encloses(regions[w].area),
    ensures
        regions[j].area.encloses(regions[w].area),
{
    lemma_innermost_region_wins(regions, pointer, modality, w, j);
}

/// While a popup is open, no region of another layer can take the pointer.
pub proof fn lemma_modal_confines_focus(
    regions: Seq<Region>,
    pointer: PointerState,
    modality: Option<PopupMode>,
    current_focus: Focus,
)
    ensures
        owner(regions, pointer, modality) matches Some(w) ==> regions[w].layer == modality,
        (forall|j: int| 0 <= j < regions.len() ==> (#[trigger] regions[j]).layer != modality)
            ==> resolution(pointer, regions, modality, current_focus).focus == current_focus,
{
    lemma_owner_exists_iff_hit(regions, pointer, modality);
    if forall|j: int| 0 <= j < regions.len() ==> (#[trigger] regions[j]).layer != modality {
        assert forall|j: int| 0 <= j < regions.len() implies !#[trigger] hits(
            regions[j],
            pointer,
            modality,
        ) by {
            assert(regions[j].layer != modality);
        }
    }
}

/// The region that owns the pointer, if any region is hit.
pub open spec fn owning_region(
    regions: Seq<Region>,
    pointer: PointerState,
    modality: Option<PopupMode>,
) -> Option<Region> {
    match owner(regions, pointer, modality) {
        Some(w) => Some(regions[w]),
        None => None,
    }
}

/// Which of two owners prevails where the list of the first stands before
/// the list of the second: the one with fewer cells, and the first where
/// both have as many.
pub open spec fn prevailing(first: Option<Region>, second: Option<Region>) -> Option<Region> {
    match (first, second) {
        (Some(a), Some(b)) => if b.area.cells() < a.area.cells() {
            Some(b)
        } else {
            Some(a)
        },
        (Some(a), None) => Some(a),
        (None, b) => b,
    }
}

/// A region that is hit, has no more cells than any hit region, and fewer
/// than every hit region before it, is the one that owns the pointer.
pub proof fn lemma_owner_is(
    regions: Seq<Region>,
    pointer: PointerState,
    modality: Option<PopupMode>,
    w: int,
)
    requires
        owns(regions, pointer, modality, w),
    ensures
        owner(regions, pointer, modality) == Some(w),
        owning_region(regions, pointer, modality) == Some(regions[w]),
{
    let chosen = choose|v: int| owns(regions, pointer, modality, v);
    lemma_owner_is_unique(regions, pointer, modality, chosen, w);
}

/// A list of one region: the region owns the pointer if it is hit.
pub proof fn lemma_owner_of_one_region(
    region: Region,
    pointer: PointerState,
    modality: Option<PopupMode>,
)
    ensures
        owning_region(seq![region], pointer, modality) == (if hits(region, pointer, modality) {
            Some(region)
        } else {
            None
        }),
{
    let regions = seq![region];
    assert(regions[0] == region);
    if hits(region, pointer, modality) {
        assert(owns(regions, pointer, modality, 0));
        lemma_owner_is(regions, pointer, modality, 0);
    } else {
        assert(nothing_hit(regions, pointer, modality));
        lemma_owner_exists_iff_hit(regions, pointer, modality);
    }
}

/// A pass over two lists of regions, one after the other, yields what
/// prevails of what a pass over each yields.
pub proof fn lemma_owner_of_joined_lists(
    first: Seq<Region>,
    second: Seq<Region>,
    pointer: PointerState,
    modality: Option<PopupMode>,
)
    ensures
        owning_region(first + second, pointer, modality) == prevailing(
            owning_region(first, pointer, modality),
            owning_region(second, pointer, modality),
        ),
{
    let both = first + second;
    let n = first.len() as int;
    lemma_owner_exists_iff_hit(first, pointer, modality);
    lemma_owner_exists_iff_hit(second, pointer, modality);
    assert forall|j: int| 0 <= j < both.len() implies both[j] == (if j < n {
        first[j]
    } else {
        second[j - n]
    }) by {}
    match (owner(first, pointer, modality), owner(second, pointer, modality)) {
        (None, None) => {
            assert(nothing_hit(both, pointer, modality)) by {
                assert forall|j: int| 0 <= j < both.len() implies !#[trigger] hits(
                    both[j],
                    pointer,
                    modality,
                ) by {
                    if j < n {
                        assert(!hits(first[j], pointer, modality));
                    } else {
                        assert(!hits(second[j - n], pointer, modality));
                    }
                }
            }
            lemma_owner_exists_iff_hit(both, pointer, modality);
        },
        (Some(a), None) => {
            assert(owns(both, pointer, modality, a)) by {
                assert forall|j: int| 0 <= j < both.len() && #[trigger] hits(
                    both[j],
                    pointer,
                    modality,
                ) implies j < n && hits(first[j], pointer, modality) by {
                    if j >= n {
                        assert(!hits(second[j - n], pointer, modality));
                    }
                }
            }
            lemma_owner_is(both, pointer, modality, a);
        },
        (None, Some(b)) => {
            assert(owns(both, pointer, modality, n + b)) by {
                assert forall|j: int| 0 <= j < both.len() && #[trigger] hits(
                    both[j],
                    pointer,
                    modality,
                ) implies j >= n && hits(second[j - n], pointer, modality) by {
                    if j < n {
                        assert(!hits(first[j], pointer, modality));
                    }
                }
            }
            lemma_owner_is(both, pointer, modality, n + b);
        },
        (Some(a), Some(b)) => {
            assert forall|j: int| 0 <= j < both.len() && #[trigger] hits(
                both[j],
                pointer,
                modality,
            ) implies (if j < n {
                hits(first[j], pointer, modality)
            } else {
                hits(second[j - n], pointer, modality)
            }) by {}
            if second[b].area.cells() < first[a].area.cells() {
                assert(owns(both, pointer, modality, n + b));
                lemma_owner_is(both, pointer, modality, n + b);
            } else {
                assert(owns(both, pointer, modality, a));
                lemma_owner_is(both, pointer, modality, a);
            }
        },
    }
}

} // verus!
