//! Boards and cards as far as the views read them, and the slice of them
//! that is on screen.

use vstd::prelude::*;
use crate::viewport::first_position;
use crate::viewport::lemma_first_position;
use crate::viewport::position_of;
use crate::viewport::visible_ids;
use crate::viewport::window_for;
use crate::viewport::window_of_ids;
use crate::viewport::Window;

verus! {

/// How far a card has come.
#[derive(Clone, Copy, Debug, PartialEq, Eq, Hash, Structural)]
pub enum CardStatus {
    Active,
    Complete,
    Stale,
}

/// How much a card matters.
#[derive(Clone, Copy, Debug, PartialEq, Eq, Hash, Structural)]
pub enum CardPriority {
    High,
    Medium,
    Low,
}

/// A card. The views read it and never change it.
#[derive(Clone, Debug, PartialEq, Eq)]
pub struct Card {
    pub id: u128,
    pub name: String,
    pub description: String,
    pub date_created: String,
    pub date_modified: String,
    pub date_due: String,
    pub date_completed: String,
    pub priority: CardPriority,
    pub card_status: CardStatus,
    pub tags: Vec<String>,
    pub comments: Vec<String>,
}

/// A board with its cards in display order.
#[derive(Clone, Debug, PartialEq, Eq)]
pub struct Board {
    pub id: u128,
    pub name: String,
    pub description: String,
    pub cards: Vec<Card>,
}

/// The ids of `cards`, in order.
pub open spec fn ids_of_cards(cards: Seq<Card>) -> Seq<u128> {
    cards.map(|i: int, card: Card| card.id)
}

/// The ids of `boards`, in order.
pub open spec fn ids_of_boards(boards: Seq<Board>) -> Seq<u128> {
    boards.map(|i: int, board: Board| board.id)
}

impl Board {
    /// The ids of the board's cards, in display order.
    pub open spec fn card_id_seq(self) -> Seq<u128> {
        ids_of_cards(self.cards@)
    }

    /// The ids of the board's cards, in display order.
    pub fn card_ids(&self) -> (ids: Vec<u128>)
        ensures
            ids@ == self.card_id_seq(),
    {
        let mut ids: Vec<u128> = Vec::new();
        let mut i: usize = 0;
        while i < self.cards.len()
            invariant
                i <= self.cards.len(),
                ids@ == ids_of_cards(self.cards@.take(i as int)),
            decreases self.cards.len() - i,
        {
            ids.push(self.cards[i].id);
            proof {
                assert(ids@ =~= ids_of_cards(self.cards@.take(i + 1)));
            }
            i += 1;
        }
        proof {
            assert(self.cards@.take(self.cards@.len() as int) =~= self.cards@);
        }
        ids
    }

    /// The first card with the id `id`.
    pub fn get_card(&self, id: u128) -> (card: Option<&Card>)
        ensures
            match first_position(self.card_id_seq(), id) {
                Some(i) => card == Some(&self.cards@[i as int]),
                None => card is None,
            },
    {
        let ids = self.card_ids();
        match position_of(&ids, id) {
            Some(i) => {
                proof {
                    lemma_first_position(ids@, id);
                }
                Some(&self.cards[i])
            },
            None => None,
        }
    }
}

/// The ids of `boards`, in order.
pub fn board_ids(boards: &Vec<Board>) -> (ids: Vec<u128>)
    ensures
        ids@ == ids_of_boards(boards@),
{
    let mut ids: Vec<u128> = Vec::new();
    let mut i: usize = 0;
    while i < boards.len()
        invariant
            i <= boards.len(),
            ids@ == ids_of_boards(boards@.take(i as int)),
        decreases boards.len() - i,
    {
        ids.push(boards[i].id);
        proof {
            assert(ids@ =~= ids_of_boards(boards@.take(i + 1)));
        }
        i += 1;
    }
    proof {
        assert(boards@.take(boards@.len() as int) =~= boards@);
    }
    ids
}

/// The first board with the id `id`.
pub fn find_board(boards: &Vec<Board>, id: u128) -> (found: Option<usize>)
    ensures
        found matches Some(i) ==> first_position(ids_of_boards(boards@), id) == Some(i as nat) && i
            < boards@.len() && boards@[i as int].id == id,
        found is None ==> first_position(ids_of_boards(boards@), id) is None,
{
    let ids = board_ids(boards);
    let found = position_of(&ids, id);
    proof {
        lemma_first_position(ids@, id);
    }
    found
}

/// What is on screen of one board: the window over its cards and the cards
/// in it, with the selected card if the board holds it.
#[derive(Clone, Debug, PartialEq, Eq)]
pub struct BoardCardViewState {
    pub board_id: u128,
    /// The window over the board's cards.
    pub window: Window,
    /// The current card, where it is a card of this board.
    pub selected_card: Option<u128>,
    /// The ids of the cards in the window.
    pub visible_cards: Vec<u128>,
}

/// The current card as far as a board with the cards `card_ids` is
/// concerned: a card that the board does not hold is no selection.
pub open spec fn selection_within(card_ids: Seq<u128>, current_card: Option<u128>) -> Option<u128> {
    match current_card {
        Some(card) => if first_position(card_ids, card) is Some {
            Some(card)
        } else {
            None
        },
        None => None,
    }
}

/// `view` is what is on screen of `board` for pages of `cards_per_board`
/// cards and the current card `current_card`.
pub open spec fn shows_board(
    view: BoardCardViewState,
    board: Board,
    cards_per_board: nat,
    current_card: Option<u128>,
) -> bool {
    &&& view.board_id == board.id
    &&& view.window == window_of_ids(board.card_id_seq(), cards_per_board, current_card)
    &&& view.selected_card == selection_within(board.card_id_seq(), current_card)
    &&& view.visible_cards@ == board.card_id_seq().subrange(
        view.window.start as int,
        view.window.start + view.window.len,
    )
}

/// Computes what is on screen of one board.
pub fn board_view(board: &Board, cards_per_board: usize, current_card: Option<u128>) -> (view:
    BoardCardViewState)
    ensures
        shows_board(view, *board, cards_per_board as nat, current_card),
        view.window.start + view.window.len <= board.cards@.len(),
        cards_per_board >= 1 ==> (view.selected_card matches Some(card)
            ==> view.visible_cards@.contains(card)),
{
    let ids = board.card_ids();
    let window = window_for(&ids, cards_per_board, current_card);
    let selected_card = match current_card {
        Some(card) => if position_of(&ids, card).is_some() {
            Some(card)
        } else {
            None
        },
        None => None,
    };
    let visible_cards = visible_ids(&ids, window);
    proof {
        if cards_per_board >= 1 {
            if let Some(card) = selected_card {
                lemma_first_position(ids@, card);
                let at = first_position(ids@, card).unwrap();
                assert(ids@.contains(card));
                let i = choose|i: int| window.holds(i) && ids@[i] == card;
                assert(visible_cards@[i - window.start] == card);
            }
        }
    }
    BoardCardViewState { board_id: board.id, window, selected_card, visible_cards }
}

/// Computes what is on screen: the window over the boards, which keeps the
/// current board in view, and for each board in it the window over its cards,
/// which keeps the current card in view.
pub fn visible_boards_and_cards(
    boards: &Vec<Board>,
    boards_per_page: usize,
    cards_per_board: usize,
    current_board: Option<u128>,
    current_card: Option<u128>,
) -> (shown: (Window, Vec<BoardCardViewState>))
    ensures
        shown.0 == window_of_ids(ids_of_boards(boards@), boards_per_page as nat, current_board),
        shown.0.start + shown.0.len <= boards@.len(),
        shown.1@.len() == shown.0.len,
        forall|k: int|
            0 <= k < shown.1@.len() ==> shows_board(
                #[trigger] shown.1@[k],
                boards@[shown.0.start + k],
                cards_per_board as nat,
                current_card,
            ),
        cards_per_board >= 1 ==> forall|k: int|
            0 <= k < shown.1@.len() ==> ((#[trigger] shown.1@[k]).selected_card matches Some(card)
                ==> shown.1@[k].visible_cards@.contains(card)),
{
    let ids = board_ids(boards);
    let window = window_for(&ids, boards_per_page, current_board);
    let mut views: Vec<BoardCardViewState> = Vec::new();
    let mut k: usize = 0;
    while k < window.len
        invariant
            k <= window.len,
            window.start + window.len <= boards.len(),
            views@.len() == k,
            forall|j: int|
                0 <= j < k ==> shows_board(
                    #[trigger] views@[j],
                    boards@[window.start + j],
                    cards_per_board as nat,
                    current_card,
                ),
            cards_per_board >= 1 ==> forall|j: int|
                0 <= j < k ==> ((#[trigger] views@[j]).selected_card matches Some(card)
                    ==> views@[j].visible_cards@.contains(card)),
        decreases window.len - k,
    {
        let view = board_view(&boards[window.start + k], cards_per_board, current_card);
        views.push(view);
        k += 1;
    }
    (window, views)
}

} // verus!
