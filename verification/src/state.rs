//! The interface state that is threaded through every tick: focus, popup,
//! pointer and the current selections.

use vstd::prelude::*;
use crate::focus::resolution;
use crate::focus::resolve;
use crate::focus::Focus;
use crate::focus::ListKind;
use crate::focus::PointerState;
use crate::focus::PopupMode;
use crate::focus::Region;
use crate::focus::Resolution;
use crate::focus::Selection;
use crate::geometry::Rect;

verus! {

/// What the keyboard currently does.
#[derive(Clone, Copy, Debug, PartialEq, Eq, Hash, Structural)]
pub enum AppStatus {
    /// Keys are commands.
    Initialized,
    /// Keys are typed into the focused field.
    UserInput,
    /// Keys are recorded as a new key binding.
    KeyBindMode,
}

/// The kinds of emphasis that a part of a view can be drawn with. Which
/// colours they stand for is up to whoever draws.
#[derive(Clone, Copy, Debug, PartialEq, Eq, Hash, Structural)]
pub enum StyleKind {
    Default,
    /// Muted, because a popup lies over the part.
    Inactive,
    /// The part has the keyboard focus.
    Focused,
    /// The pointer is on the part.
    MouseHighlight,
    /// A warning colour: buttons that reset or close.
    Error,
    /// The name of a key in a help text.
    HelpKey,
    /// The selected row of a list.
    ListSelect,
    /// A scroll indicator.
    ProgressBar,
}

/// The state of the interface at one tick.
#[derive(Clone, Copy, Debug, PartialEq, Eq, Structural)]
pub struct AppState {
    /// The region that has the focus.
    pub focus: Focus,
    /// The region that the pointer last took the focus for.
    pub mouse_focus: Option<Focus>,
    /// The open popup, if any.
    pub popup_mode: Option<PopupMode>,
    pub app_status: AppStatus,
    /// The pointer as sampled for this tick.
    pub pointer: PointerState,
    pub current_board_id: Option<u128>,
    pub current_card_id: Option<u128>,
    /// Where the text cursor stands in the field that is being edited, in
    /// characters; `None` at the end of the text.
    pub current_cursor_position: Option<usize>,
    /// The selected row of each list.
    pub config_state: Option<usize>,
    pub default_view_state: Option<usize>,
    pub edit_keybindings_state: Option<usize>,
    pub main_menu_state: Option<usize>,
    pub load_save_state: Option<usize>,
    pub command_palette_list_state: Option<usize>,
    pub card_status_selector_state: Option<usize>,
    /// How many key bindings the help box lists.
    pub keybind_count: usize,
}

impl Default for AppState {
    fn default() -> (state: Self)
        ensures
            state == AppState::initial(),
    {
        AppState {
            focus: Focus::NoFocus,
            mouse_focus: None,
            popup_mode: None,
            app_status: AppStatus::Initialized,
            pointer: PointerState { x: 0, y: 0, pressed: None },
            current_board_id: None,
            current_card_id: None,
            current_cursor_position: None,
            config_state: None,
            default_view_state: None,
            edit_keybindings_state: None,
            main_menu_state: None,
            load_save_state: None,
            command_palette_list_state: None,
            card_status_selector_state: None,
            keybind_count: 0,
        }
    }
}

impl AppState {
    /// The state before anything has happened.
    pub open spec fn initial() -> AppState {
        AppState {
            focus: Focus::NoFocus,
            mouse_focus: None,
            popup_mode: None,
            app_status: AppStatus::Initialized,
            pointer: PointerState { x: 0, y: 0, pressed: None },
            current_board_id: None,
            current_card_id: None,
            current_cursor_position: None,
            config_state: None,
            default_view_state: None,
            edit_keybindings_state: None,
            main_menu_state: None,
            load_save_state: None,
            command_palette_list_state: None,
            card_status_selector_state: None,
            keybind_count: 0,
        }
    }

    /// The pointer is on `area`.
    pub open spec fn points_at(self, area: Rect) -> bool {
        area.covers(self.pointer.x, self.pointer.y)
    }

    /// The state with row `row` selected in `list`.
    pub open spec fn with_row(self, list: ListKind, row: usize) -> AppState {
        match list {
            ListKind::Config => AppState { config_state: Some(row), ..self },
            ListKind::DefaultView => AppState { default_view_state: Some(row), ..self },
            ListKind::EditKeybindings => AppState { edit_keybindings_state: Some(row), ..self },
            ListKind::MainMenu => AppState { main_menu_state: Some(row), ..self },
            ListKind::LoadSave => AppState { load_save_state: Some(row), ..self },
            ListKind::CommandPalette => AppState { command_palette_list_state: Some(row), ..self },
            ListKind::CardStatus => AppState { card_status_selector_state: Some(row), ..self },
        }
    }

    /// The state with what `selection` selects.
    pub open spec fn with_selection(self, selection: Selection) -> AppState {
        match selection {
            Selection::Keep => self,
            Selection::Row { list, row } => self.with_row(list, row),
            Selection::Board { board } => AppState { current_board_id: Some(board), ..self },
            Selection::Card { board, card } => AppState {
                current_board_id: Some(board),
                current_card_id: Some(card),
                ..self
            },
        }
    }

    /// The state after a resolver pass with the outcome `outcome`: a region
    /// that owns the pointer takes the focus and selects what goes with it;
    /// without one the state stays as it is.
    pub open spec fn after(self, outcome: Resolution) -> AppState {
        match outcome.hit {
            Some(_) => AppState {
                focus: outcome.focus,
                mouse_focus: Some(outcome.focus),
                ..self
            }.with_selection(outcome.selection),
            None => self,
        }
    }

    /// The state after a resolver pass over `regions`.
    pub open spec fn after_pass(self, regions: Seq<Region>) -> AppState {
        self.after(resolution(self.pointer, regions, self.popup_mode, self.focus))
    }

    /// The state after a resolver pass in which `owner` owns the pointer.
    pub open spec fn given_to(self, owner: Option<Region>) -> AppState {
        match owner {
            Some(region) => AppState {
                focus: region.target,
                mouse_focus: Some(region.target),
                ..self
            }.with_selection(region.selection),
            None => self,
        }
    }

    /// Whether the pointer is on `area`.
    pub fn is_pointing_at(&self, area: Rect) -> (on: bool)
        ensures
            on == self.points_at(area),
    {
        area.contains(self.pointer.x, self.pointer.y)
    }

    fn select_row(&mut self, list: ListKind, row: usize)
        ensures
            *final(self) == old(self).with_row(list, row),
    {
        match list {
            ListKind::Config => {
                self.config_state = Some(row);
            },
            ListKind::DefaultView => {
                self.default_view_state = Some(row);
            },
            ListKind::EditKeybindings => {
                self.edit_keybindings_state = Some(row);
            },
            ListKind::MainMenu => {
                self.main_menu_state = Some(row);
            },
            ListKind::LoadSave => {
                self.load_save_state = Some(row);
            },
            ListKind::CommandPalette => {
                self.command_palette_list_state = Some(row);
            },
            ListKind::CardStatus => {
                self.card_status_selector_state = Some(row);
            },
        }
    }

    /// Takes over the outcome of a resolver pass.
    pub fn apply(&mut self, outcome: Resolution)
        ensures
            *final(self) == old(self).after(outcome),
    {
        if outcome.hit.is_some() {
            self.focus = outcome.focus;
            self.mouse_focus = Some(outcome.focus);
            match outcome.selection {
                Selection::Keep => {},
                Selection::Row { list, row } => {
                    self.select_row(list, row);
                },
                Selection::Board { board } => {
                    self.current_board_id = Some(board);
                },
                Selection::Card { board, card } => {
                    self.current_board_id = Some(board);
                    self.current_card_id = Some(card);
                },
            }
        }
    }

    /// One tick of the focus resolver: finds the region of `regions` that owns
    /// the pointer and gives it the focus and its selection.
    pub fn resolve_pointer(&mut self, regions: &Vec<Region>) -> (outcome: Resolution)
        ensures
            outcome == resolution(
                old(self).pointer,
                regions@,
                old(self).popup_mode,
                old(self).focus,
            ),
            *final(self) == old(self).after_pass(regions@),
    {
        let outcome = resolve(self.pointer, regions, self.popup_mode, self.focus);
        self.apply(outcome);
        outcome
    }
}

/// The emphasis of a part of a view: muted under a popup, highlighted under
/// the pointer, accented while it has the focus, plain otherwise.
pub open spec fn emphasis(muted: bool, hovered: bool, focused: bool, accent: StyleKind) -> StyleKind {
    if muted {
        StyleKind::Inactive
    } else if hovered {
        StyleKind::MouseHighlight
    } else if focused {
        accent
    } else {
        StyleKind::Default
    }
}

/// Decides the emphasis of a part of a view.
pub fn style_for(muted: bool, hovered: bool, focused: bool, accent: StyleKind) -> (style: StyleKind)
    ensures
        style == emphasis(muted, hovered, focused, accent),
{
    if muted {
        StyleKind::Inactive
    } else if hovered {
        StyleKind::MouseHighlight
    } else if focused {
        accent
    } else {
        StyleKind::Default
    }
}

/// The style of something that is muted under a popup and drawn as `plain`
/// otherwise.
pub fn muted_or(muted: bool, plain: StyleKind) -> (style: StyleKind)
    ensures
        style == if muted {
            StyleKind::Inactive
        } else {
            plain
        },
{
    if muted {
        StyleKind::Inactive
    } else {
        plain
    }
}

/// A resolver pass over no regions leaves the state as it is.
pub proof fn lemma_pass_over_nothing(state: AppState)
    ensures
        state.after_pass(Seq::empty()) == state,
{
    let regions = Seq::<Region>::empty();
    assert forall|w: int| !crate::focus::owns(regions, state.pointer, state.popup_mode, w) by {}
}

/// A resolver pass gives the focus to the region that owns the pointer, and
/// selects what goes with it.
pub proof fn lemma_pass_follows_owner(state: AppState, regions: Seq<Region>)
    ensures
        state.after_pass(regions) == state.given_to(
            crate::focus::owning_region(regions, state.pointer, state.popup_mode),
        ),
{
}

} // verus!
