use vstd::prelude::*;

use crate::monitor::config::SELECTOR_PAGE_SCROLL_SIZE;
use crate::monitor::ui::{spec_visible_window, visible_window};
use crate::selector::commands::{SelectorCommand, SelectorMode};
use crate::selector::filter::{can_move_by, is_ranking, moved_by, without_last, FilterState, FilterView};

verus! {

/// What the selector asks of the application after a command.
#[derive(Clone, Copy, Debug, PartialEq, Eq)]
pub enum SelectorTransition {
    Stay,
    Exit,
    RefreshDevices,
    OpenSelection,
}

pub open spec fn toggled_mode(mode: SelectorMode) -> SelectorMode {
    match mode {
        SelectorMode::Browsing => SelectorMode::Help,
        SelectorMode::Help => SelectorMode::Browsing,
    }
}

/// The filter after its query became `query` and it was matched anew
/// against `items`.
pub open spec fn refiltered(before: FilterView, after: FilterView, items: Seq<String>, query: Seq<char>) -> bool {
    &&& after.query == query
    &&& after.page_scroll_size == before.page_scroll_size
    &&& after.selected == 0
    &&& is_ranking(after.indexes, items, query)
}

/// Opening the selection: with no match the devices are looked up anew;
/// a selected entry that names one of the `device_count` devices opens it.
pub open spec fn spec_select_transition(f: FilterView, device_count: nat) -> SelectorTransition {
    if f.indexes.len() == 0 {
        SelectorTransition::RefreshDevices
    } else if f.selected < f.indexes.len() && f.indexes[f.selected as int] < device_count {
        SelectorTransition::OpenSelection
    } else {
        SelectorTransition::Stay
    }
}

/// Whether a command's selection arithmetic stays in range.
pub open spec fn can_reduce(f: FilterView, command: SelectorCommand) -> bool {
    match command {
        SelectorCommand::MoveUp => can_move_by(f, -1),
        SelectorCommand::MoveDown => can_move_by(f, 1),
        SelectorCommand::PageUp => f.page_scroll_size != i32::MIN && can_move_by(f, -f.page_scroll_size),
        SelectorCommand::PageDown => can_move_by(f, f.page_scroll_size as int),
        _ => true,
    }
}

/// How a command changes the filter and the mode, and what it asks for.
pub open spec fn reduced(
    f: FilterView,
    mode: SelectorMode,
    command: SelectorCommand,
    items: Seq<String>,
    g: FilterView,
    new_mode: SelectorMode,
    t: SelectorTransition,
) -> bool {
    match command {
        SelectorCommand::Exit => t == SelectorTransition::Exit && g == f && new_mode == mode,
        SelectorCommand::Back => if f.query.len() > 0 {
            t == SelectorTransition::Stay && refiltered(f, g, items, Seq::empty()) && new_mode == mode
        } else {
            t == SelectorTransition::Exit && g == f && new_mode == mode
        },
        SelectorCommand::ToggleHelp => t == SelectorTransition::Stay && g == f && new_mode == toggled_mode(
            mode,
        ),
        SelectorCommand::Refresh => t == SelectorTransition::RefreshDevices && g == f && new_mode == mode,
        SelectorCommand::Select => t == spec_select_transition(f, items.len()) && g == f && new_mode == mode,
        SelectorCommand::ClearSearch => t == SelectorTransition::Stay && refiltered(f, g, items, Seq::empty())
            && new_mode == mode,
        SelectorCommand::DeleteChar => t == SelectorTransition::Stay && refiltered(
            f,
            g,
            items,
            without_last(f.query),
        ) && new_mode == mode,
        SelectorCommand::AddChar(c) => t == SelectorTransition::Stay && refiltered(f, g, items, f.query.push(c))
            && new_mode == mode,
        SelectorCommand::MoveUp => t == SelectorTransition::Stay && g == moved_by(f, -1) && new_mode == mode,
        SelectorCommand::MoveDown => t == SelectorTransition::Stay && g == moved_by(f, 1) && new_mode == mode,
        SelectorCommand::PageUp => t == SelectorTransition::Stay && g == moved_by(f, -f.page_scroll_size)
            && new_mode == mode,
        SelectorCommand::PageDown => t == SelectorTransition::Stay && g == moved_by(
            f,
            f.page_scroll_size as int,
        ) && new_mode == mode,
        SelectorCommand::Home => t == SelectorTransition::Stay && g == (FilterView { selected: 0, ..f })
            && new_mode == mode,
        SelectorCommand::End => t == SelectorTransition::Stay && g == (if f.indexes.len() > 0 {
            FilterView { selected: (f.indexes.len() - 1) as nat, ..f }
        } else {
            f
        }) && new_mode == mode,
        SelectorCommand::NoOp => t == SelectorTransition::Stay && g == f && new_mode == mode,
    }
}

/// Whether moving entry `sel` of a list of `len` by `delta` stays within
/// the integer range the move computes in.
fn fits_move(len: usize, sel: usize, delta: i64) -> (r: bool)
    requires
        -0x8000_0000 <= delta <= 0x8000_0000,
    ensures
        r == (len == 0 || delta == 0 || (len - 1 <= i32::MAX && sel <= i32::MAX && i32::MIN <= sel + delta
            <= i32::MAX)),
{
    if len == 0 || delta == 0 {
        true
    } else if len - 1 > i32::MAX as usize || sel > i32::MAX as usize {
        false
    } else {
        let target = sel as i64 + delta;
        i32::MIN as i64 <= target && target <= i32::MAX as i64
    }
}

/// The device selector: its search, the message it shows, and whether
/// help is open.
pub struct SelectorState {
    pub filter: FilterState,
    pub error_message: Option<String>,
    pub mode: SelectorMode,
}

impl SelectorState {
    /// A selector over the devices labelled `identifiers`, browsing with an
    /// empty query, paging by the configured page size.
    pub fn new(identifiers: &[String], error_message: Option<String>) -> (s: Self)
        ensures
            s.filter@ == (FilterView {
                indexes: Seq::new(identifiers@.len(), |i: int| i as usize),
                selected: 0,
                query: Seq::empty(),
                page_scroll_size: SELECTOR_PAGE_SCROLL_SIZE,
            }),
            s.error_message == error_message,
            s.mode == SelectorMode::Browsing,
    {
        Self::with_page_size(identifiers, error_message, SELECTOR_PAGE_SCROLL_SIZE)
    }

    pub fn with_page_size(identifiers: &[String], error_message: Option<String>, page_scroll_size: i32) -> (s: Self)
        ensures
            s.filter@ == (FilterView {
                indexes: Seq::new(identifiers@.len(), |i: int| i as usize),
                selected: 0,
                query: Seq::empty(),
                page_scroll_size,
            }),
            s.error_message == error_message,
            s.mode == SelectorMode::Browsing,
    {
        SelectorState {
            filter: FilterState::new(identifiers.len(), page_scroll_size),
            error_message,
            mode: SelectorMode::Browsing,
        }
    }

    /// Takes the outcome of a new discovery: the query stays and is matched
    /// against the new devices, and the message is replaced.
    pub fn apply_discovery(&mut self, identifiers: &[String], error_message: Option<String>)
        ensures
            refiltered(old(self).filter@, final(self).filter@, identifiers@, old(self).filter@.query),
            final(self).error_message == error_message,
            final(self).mode == old(self).mode,
    {
        self.filter.refresh(identifiers);
        self.error_message = error_message;
    }

    pub fn mode(&self) -> (m: SelectorMode)
        ensures
            m == self.mode,
    {
        self.mode
    }

    /// Whether `reduce` can take `command` in this state.
    pub fn can_reduce(&self, command: SelectorCommand) -> (b: bool)
        ensures
            b == can_reduce(self.filter@, command),
    {
        let len = self.filter.indexes().len();
        let sel = self.filter.selected_index();
        let page = self.filter.page_scroll_size();
        match command {
            SelectorCommand::MoveUp => fits_move(len, sel, -1),
            SelectorCommand::MoveDown => fits_move(len, sel, 1),
            SelectorCommand::PageUp => page != i32::MIN && fits_move(len, sel, -(page as i64)),
            SelectorCommand::PageDown => fits_move(len, sel, page as i64),
            _ => true,
        }
    }

    /// Applies a command. While browsing, any command first clears the
    /// message shown.
    pub fn reduce(&mut self, command: SelectorCommand, identifiers: &[String]) -> (t: SelectorTransition)
        requires
            can_reduce(old(self).filter@, command),
        ensures
            final(self).error_message == (if old(self).mode == SelectorMode::Browsing {
                None
            } else {
                old(self).error_message
            }),
            reduced(
                old(self).filter@,
                old(self).mode,
                command,
                identifiers@,
                final(self).filter@,
                final(self).mode,
                t,
            ),
    {
        if self.mode.is_browsing() {
            self.error_message = None;
        }
        match command {
            SelectorCommand::Exit => SelectorTransition::Exit,
            SelectorCommand::Back => {
                if self.filter.has_query() {
                    self.clear_search(identifiers);
                    SelectorTransition::Stay
                } else {
                    SelectorTransition::Exit
                }
            },
            SelectorCommand::ToggleHelp => {
                self.toggle_help();
                SelectorTransition::Stay
            },
            SelectorCommand::Refresh => SelectorTransition::RefreshDevices,
            SelectorCommand::Select => self.select_transition(identifiers.len()),
            SelectorCommand::ClearSearch => {
                self.clear_search(identifiers);
                SelectorTransition::Stay
            },
            SelectorCommand::DeleteChar => {
                self.filter.remove_char();
                self.filter.refresh(identifiers);
                SelectorTransition::Stay
            },
            SelectorCommand::AddChar(c) => {
                self.filter.add_char(c);
                self.filter.refresh(identifiers);
                SelectorTransition::Stay
            },
            SelectorCommand::MoveUp => {
                self.filter.move_up();
                SelectorTransition::Stay
            },
            SelectorCommand::MoveDown => {
                self.filter.move_down();
                SelectorTransition::Stay
            },
            SelectorCommand::PageUp => {
                self.filter.page_up();
                SelectorTransition::Stay
            },
            SelectorCommand::PageDown => {
                self.filter.page_down();
                SelectorTransition::Stay
            },
            SelectorCommand::Home => {
                self.filter.home();
                SelectorTransition::Stay
            },
            SelectorCommand::End => {
                self.filter.end();
                SelectorTransition::Stay
            },
            SelectorCommand::NoOp => SelectorTransition::Stay,
        }
    }

    pub fn search_query(&self) -> (s: &str)
        ensures
            s@ == self.filter@.query,
    {
        self.filter.search_query()
    }

    pub fn filtered_indexes(&self) -> (s: &[usize])
        ensures
            s@ == self.filter@.indexes,
    {
        self.filter.indexes()
    }

    pub fn selected_filtered_index(&self) -> (i: usize)
        ensures
            i == self.filter@.selected,
    {
        self.filter.selected_index()
    }

    /// The device behind the selected entry.
    pub fn selected_device_index(&self) -> (r: Option<usize>)
        ensures
            r == (if self.filter@.selected < self.filter@.indexes.len() {
                Some(self.filter@.indexes[self.filter@.selected as int])
            } else {
                None
            }),
    {
        self.filter.selected_item_index()
    }

    pub fn error_message(&self) -> (m: Option<&str>)
        ensures
            match m {
                Some(s) => self.error_message matches Some(e) && s@ == e@,
                None => self.error_message is None,
            },
    {
        match &self.error_message {
            Some(e) => Some(e.as_str()),
            None => None,
        }
    }

    fn select_transition(&self, device_count: usize) -> (t: SelectorTransition)
        ensures
            t == spec_select_transition(self.filter@, device_count as nat),
    {
        if self.filter.indexes().len() == 0 {
            return SelectorTransition::RefreshDevices;
        }
        match self.filter.selected_item_index() {
            Some(index) => if index < device_count {
                SelectorTransition::OpenSelection
            } else {
                SelectorTransition::Stay
            },
            None => SelectorTransition::Stay,
        }
    }

    fn clear_search(&mut self, identifiers: &[String])
        ensures
            refiltered(old(self).filter@, final(self).filter@, identifiers@, Seq::empty()),
            final(self).mode == old(self).mode,
            final(self).error_message == old(self).error_message,
    {
        self.filter.clear_search();
        self.filter.refresh(identifiers);
    }

    fn toggle_help(&mut self)
        ensures
            final(self).mode == toggled_mode(old(self).mode),
            final(self).filter == old(self).filter,
            final(self).error_message == old(self).error_message,
    {
        self.mode = match self.mode {
            SelectorMode::Browsing => SelectorMode::Help,
            SelectorMode::Help => SelectorMode::Browsing,
        };
    }
}

/// The first entry a list of `capacity` rows shows so that entry
/// `selected` is on its last row, or from the top while that is enough.
pub open spec fn spec_list_offset(selected: int, capacity: int) -> int {
    if capacity == 0 {
        selected
    } else if selected >= capacity - 1 {
        selected - (capacity - 1)
    } else {
        0
    }
}

/// The entries `(start, count)` a list of `capacity` rows shows of `total`
/// entries with entry `selected` highlighted: a full window that keeps the
/// selection in view.
pub fn list_window(total: usize, selected: usize, capacity: usize) -> (w: (usize, usize))
    ensures
        (w.0 as int, w.1 as int) == spec_visible_window(
            total as int,
            spec_list_offset(selected as int, capacity as int),
            capacity as int,
        ),
        w.0 + w.1 <= total,
        selected < total && capacity > 0 ==> w.0 <= selected < w.0 + w.1,
{
    let offset = if capacity == 0 {
        selected
    } else {
        selected.saturating_sub(capacity - 1)
    };
    visible_window(total, offset, capacity)
}

} // verus!
