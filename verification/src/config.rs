//! The settings that the views read, and their listing for the config editor.

use vstd::prelude::*;
use vstd::string::*;
use crate::text::decimal;
use crate::text::decimal_string;
use crate::text::flag_string;
use crate::text::flag_text;

verus! {

/// At most this many notifications are shown at once.
pub const MAX_TOASTS_TO_DISPLAY: usize = 5;

/// A notification takes one part in this many of the screen's width.
pub const SCREEN_TO_TOAST_WIDTH_RATIO: u16 = 3;

/// Number of frames of the progress animation.
pub const SPINNER_FRAME_COUNT: usize = 10;

/// Board titles longer than this are cut.
pub const DEFAULT_BOARD_TITLE_LENGTH: u16 = 20;

/// Card titles longer than this are cut.
pub const DEFAULT_CARD_TITLE_LENGTH: u16 = 20;

/// The narrowest terminal that the views are laid out for.
pub const MIN_TERM_WIDTH: u16 = 110;

/// The lowest terminal that the views are laid out for.
pub const MIN_TERM_HEIGHT: u16 = 30;

/// The settings that decide how much of the boards is shown and how the
/// pointer is used.
#[derive(Clone, Copy, Debug, PartialEq, Eq, Structural)]
pub struct AppConfig {
    /// No scroll indicators are drawn.
    pub disable_scrollbars: bool,
    /// A due date at most this many days ahead is shown as a warning.
    pub warning_delta: u16,
    /// Milliseconds between two ticks.
    pub tickrate: u64,
    /// How many cards of a board are on screen at once.
    pub no_of_cards_to_show: u16,
    /// How many boards are on screen at once.
    pub no_of_boards_to_show: u16,
    /// The pointer takes part in focus and selection.
    pub enable_mouse_support: bool,
}

impl Default for AppConfig {
    fn default() -> (config: Self)
        ensures
            config == AppConfig::defaults(),
    {
        AppConfig {
            disable_scrollbars: false,
            warning_delta: 3,
            tickrate: 50,
            no_of_cards_to_show: 2,
            no_of_boards_to_show: 3,
            enable_mouse_support: true,
        }
    }
}

impl AppConfig {
    /// The settings of a fresh installation.
    pub open spec fn defaults() -> AppConfig {
        AppConfig {
            disable_scrollbars: false,
            warning_delta: 3,
            tickrate: 50,
            no_of_cards_to_show: 2,
            no_of_boards_to_show: 3,
            enable_mouse_support: true,
        }
    }

    /// The settings as rows of a name and a value.
    pub open spec fn rows(self) -> Seq<Seq<Seq<char>>> {
        seq![
            seq!["Disable Scrollbars"@, flag_text(self.disable_scrollbars)],
            seq!["Number of Days to Warn Before Due Date"@, decimal(self.warning_delta as nat)],
            seq!["Tickrate"@, decimal(self.tickrate as nat)],
            seq!["Number of Cards to Show per board"@, decimal(self.no_of_cards_to_show as nat)],
            seq!["Number of Boards to Show"@, decimal(self.no_of_boards_to_show as nat)],
            seq!["Enable Mouse Support"@, flag_text(self.enable_mouse_support)],
        ]
    }

    /// Lists the settings as rows of a name and a value, in the order in which
    /// the config editor shows them.
    pub fn to_list(&self) -> (list: Vec<Vec<String>>)
        ensures
            list.deep_view() == self.rows(),
            list@.len() == 6,
    {
        let mut list: Vec<Vec<String>> = Vec::new();
        list.push(row("Disable Scrollbars", flag_string(self.disable_scrollbars)));
        list.push(
            row("Number of Days to Warn Before Due Date", decimal_string(self.warning_delta as u64)),
        );
        list.push(row("Tickrate", decimal_string(self.tickrate)));
        list.push(
            row("Number of Cards to Show per board", decimal_string(self.no_of_cards_to_show as u64)),
        );
        list.push(row("Number of Boards to Show", decimal_string(self.no_of_boards_to_show as u64)));
        list.push(row("Enable Mouse Support", flag_string(self.enable_mouse_support)));
        proof {
            let deep = list.deep_view();
            let rows = self.rows();
            assert(deep.len() == 6);
            assert forall|i: int| 0 <= i < 6 implies deep[i] == rows[i] by {
                assert(deep[i] == list@[i].deep_view());
            }
            assert(deep =~= rows);
        }
        list
    }
}

fn row(name: &str, value: String) -> (r: Vec<String>)
    ensures
        r.deep_view() == seq![name@, value@],
{
    let mut r: Vec<String> = Vec::new();
    r.push(String::from_str(name));
    r.push(value);
    proof {
        let deep = r.deep_view();
        assert(deep.len() == 2);
        assert(deep[0] == r@[0].deep_view());
        assert(deep[1] == r@[1].deep_view());
        assert(deep =~= seq![name@, value@]);
    }
    r
}

/// The rows of the config editor: those of the settings that were loaded, or
/// of the defaults where loading failed.
pub fn get_config_items(loaded: Result<AppConfig, String>) -> (items: Vec<Vec<String>>)
    ensures
        items.deep_view() == (match loaded {
            Ok(config) => config,
            Err(_) => AppConfig::defaults(),
        }).rows(),
        items@.len() == 6,
{
    let config = match loaded {
        Ok(config) => config,
        Err(_) => AppConfig::default(),
    };
    config.to_list()
}

} // verus!
