//! The application's navigation: which window is shown, how deep the user
//! is (list, detail, editing, popup), and what each key asks for.

use vstd::prelude::*;
use crate::keys::{KeyCode, KeyEvent};
use crate::numbers::{decimal_text, i64_to_string};
use crate::widgets::statusbar::StatusBar;
use crate::widgets::table::{table_action, table_action_for_key, TableAction, TableSelection};

verus! {

#[derive(Debug, Clone, Copy, PartialEq, Eq, Structural)]
pub enum MainWindow {
    Filters,
    Books,
    Contents,
}

pub open spec fn previous_window(w: MainWindow) -> MainWindow {
    match w {
        MainWindow::Filters => MainWindow::Contents,
        MainWindow::Books => MainWindow::Filters,
        MainWindow::Contents => MainWindow::Books,
    }
}

pub open spec fn next_window(w: MainWindow) -> MainWindow {
    match w {
        MainWindow::Filters => MainWindow::Books,
        MainWindow::Books => MainWindow::Contents,
        MainWindow::Contents => MainWindow::Filters,
    }
}

impl MainWindow {
    /// The window to the left, wrapping around.
    pub fn previous(self) -> (w: MainWindow)
        ensures
            w == previous_window(self),
    {
        match self {
            MainWindow::Filters => MainWindow::Contents,
            MainWindow::Books => MainWindow::Filters,
            MainWindow::Contents => MainWindow::Books,
        }
    }

    /// The window to the right, wrapping around.
    pub fn next(self) -> (w: MainWindow)
        ensures
            w == next_window(self),
    {
        match self {
            MainWindow::Filters => MainWindow::Books,
            MainWindow::Books => MainWindow::Contents,
            MainWindow::Contents => MainWindow::Filters,
        }
    }
}

#[derive(Debug, Clone, Copy, PartialEq, Eq, Structural)]
pub enum ScreenLevel {
    List,
    Detail,
    Editing,
    Popup,
}

/// One level deeper; a popup is the deepest.
pub open spec fn deeper(l: ScreenLevel) -> ScreenLevel {
    match l {
        ScreenLevel::List => ScreenLevel::Detail,
        ScreenLevel::Detail => ScreenLevel::Editing,
        ScreenLevel::Editing => ScreenLevel::Popup,
        ScreenLevel::Popup => ScreenLevel::Popup,
    }
}

/// One level up; the list is the top.
pub open spec fn shallower(l: ScreenLevel) -> ScreenLevel {
    match l {
        ScreenLevel::List => ScreenLevel::List,
        ScreenLevel::Detail => ScreenLevel::List,
        ScreenLevel::Editing => ScreenLevel::Detail,
        ScreenLevel::Popup => ScreenLevel::Editing,
    }
}

impl ScreenLevel {
    pub fn descend(self) -> (l: ScreenLevel)
        ensures
            l == deeper(self),
    {
        match self {
            ScreenLevel::List => ScreenLevel::Detail,
            ScreenLevel::Detail => ScreenLevel::Editing,
            ScreenLevel::Editing => ScreenLevel::Popup,
            ScreenLevel::Popup => ScreenLevel::Popup,
        }
    }

    pub fn ascend(self) -> (l: ScreenLevel)
        ensures
            l == shallower(self),
    {
        match self {
            ScreenLevel::List => ScreenLevel::List,
            ScreenLevel::Detail => ScreenLevel::List,
            ScreenLevel::Editing => ScreenLevel::Detail,
            ScreenLevel::Popup => ScreenLevel::Editing,
        }
    }
}

/// What a key asks of the application.
#[derive(Debug, Clone, Copy, PartialEq, Eq, Structural)]
pub enum AppAction {
    Nothing,
    Quit,
    SwitchWindow(MainWindow),
    ScrollUp,
    ScrollDown,
    EnterLevel,
    ExitLevel,
    Search,
    NewRecord,
    EditRecord,
    DeleteRecord,
    ToggleFilterSet,
    ConfirmPopup,
    CancelPopup,
}

/// The navigation state: window, level, whether to quit, the selected row of
/// each list and its length, and the status bar.
#[derive(Debug, Clone, PartialEq, Eq)]
pub struct AppNavigation {
    pub main_window: MainWindow,
    pub level: ScreenLevel,
    pub should_quit: bool,
    pub book_list: TableSelection,
    pub book_count: usize,
    pub content_list: TableSelection,
    pub content_count: usize,
    pub statusbar: StatusBar,
}

/// The window and level after `key`, and the action it asks for (before the
/// lists scroll).
pub open spec fn key_effect(window: MainWindow, level: ScreenLevel, code: KeyCode) -> (
    MainWindow,
    ScreenLevel,
    AppAction,
) {
    if level == ScreenLevel::Popup {
        match code {
            KeyCode::Enter => (window, level, AppAction::ConfirmPopup),
            KeyCode::Esc => (window, shallower(level), AppAction::CancelPopup),
            _ => (window, level, AppAction::Nothing),
        }
    } else {
        let on_list = level == ScreenLevel::List;
        match code {
            KeyCode::Char('q') if on_list => (window, level, AppAction::Quit),
            KeyCode::Left if on_list => (
                previous_window(window),
                level,
                AppAction::SwitchWindow(previous_window(window)),
            ),
            KeyCode::Right if on_list => (
                next_window(window),
                level,
                AppAction::SwitchWindow(next_window(window)),
            ),
            KeyCode::Char('f') if on_list => (
                MainWindow::Filters,
                level,
                AppAction::SwitchWindow(MainWindow::Filters),
            ),
            KeyCode::Char('b') if on_list => (
                MainWindow::Books,
                level,
                AppAction::SwitchWindow(MainWindow::Books),
            ),
            KeyCode::Char('c') if on_list => (
                MainWindow::Contents,
                level,
                AppAction::SwitchWindow(MainWindow::Contents),
            ),
            KeyCode::Esc => (window, shallower(level), AppAction::ExitLevel),
            KeyCode::Char('e') => (window, level, AppAction::EditRecord),
            KeyCode::Char(' ') if window == MainWindow::Filters && on_list => (
                window,
                level,
                AppAction::ToggleFilterSet,
            ),
            _ => {
                let t = if window == MainWindow::Filters {
                    TableAction::Nothing
                } else {
                    table_action(code)
                };
                match t {
                    TableAction::ScrollUp => (window, level, AppAction::ScrollUp),
                    TableAction::ScrollDown => (window, level, AppAction::ScrollDown),
                    TableAction::Select => (window, deeper(level), AppAction::EnterLevel),
                    TableAction::New => (window, level, AppAction::NewRecord),
                    TableAction::Delete => (window, level, AppAction::DeleteRecord),
                    TableAction::Search => (window, level, AppAction::Search),
                    TableAction::Nothing => (window, level, AppAction::Nothing),
                }
            },
        }
    }
}

/// The selected row after scrolling up or down in a list of `len` rows.
pub open spec fn scrolled(selected: usize, len: usize, up: bool) -> usize {
    if up {
        if selected > 0 {
            (selected - 1) as usize
        } else {
            0
        }
    } else if selected + 1 < len {
        (selected + 1) as usize
    } else if len == 0 {
        0
    } else {
        (len - 1) as usize
    }
}

/// The position shown for a selection: one-based, 0 in an empty list.
pub open spec fn shown_position(selected: usize, total: usize) -> int {
    if total == 0 {
        0
    } else {
        selected + 1
    }
}

/// "Book 3 of 47".
pub open spec fn book_info(selected: usize, total: usize) -> Seq<char> {
    "Book "@ + decimal_text(shown_position(selected, total)) + " of "@ + decimal_text(total as int)
}

/// "Contenuto 3 di 47".
pub open spec fn content_info(selected: usize, total: usize) -> Seq<char> {
    "Contenuto "@ + decimal_text(shown_position(selected, total)) + " di "@ + decimal_text(
        total as int,
    )
}

/// Scrolling the shown list: its selection moves (see `scrolled`), the
/// status bar shows the new position, the other list stays.
pub open spec fn scroll_effect(before: AppNavigation, after: AppNavigation, up: bool) -> bool {
    &&& before.main_window == MainWindow::Books ==> {
        &&& after.book_list.selected == scrolled(before.book_list.selected, before.book_count, up)
        &&& after.statusbar.info@ == book_info(after.book_list.selected, after.book_count)
        &&& after.content_list == before.content_list
    }
    &&& before.main_window == MainWindow::Contents ==> {
        &&& after.content_list.selected == scrolled(
            before.content_list.selected,
            before.content_count,
            up,
        )
        &&& after.statusbar.info@ == content_info(after.content_list.selected, after.content_count)
        &&& after.book_list == before.book_list
    }
}

/// The lists and the status bar are as before.
pub open spec fn lists_kept(before: AppNavigation, after: AppNavigation) -> bool {
    &&& after.book_list == before.book_list
    &&& after.content_list == before.content_list
    &&& after.statusbar == before.statusbar
}

/// "`label` `position` `word` `total`".
fn position_text(label: &str, selected: usize, total: usize, word: &str) -> (s: String)
    requires
        total == 0 || selected < total,
        total <= i64::MAX,
    ensures
        s@ == label@ + decimal_text(shown_position(selected, total)) + word@ + decimal_text(
            total as int,
        ),
{
    let position: i64 = if total == 0 {
        0
    } else {
        (selected + 1) as i64
    };
    let mut s = label.to_string();
    s.append(i64_to_string(position).as_str());
    s.append(word);
    s.append(i64_to_string(total as i64).as_str());
    s
}

impl AppNavigation {
    /// Each selection lies within its list, and the lists are shorter than
    /// `i64::MAX`.
    pub open spec fn wf(&self) -> bool {
        &&& (self.book_count == 0 || self.book_list.selected < self.book_count)
        &&& (self.content_count == 0 || self.content_list.selected < self.content_count)
        &&& self.book_count <= i64::MAX
        &&& self.content_count <= i64::MAX
    }

    /// The filters window at the list level, first rows selected.
    pub fn new(book_count: usize, content_count: usize) -> (n: AppNavigation)
        requires
            book_count <= i64::MAX,
            content_count <= i64::MAX,
        ensures
            n.wf(),
            n.main_window == MainWindow::Filters,
            n.level == ScreenLevel::List,
            !n.should_quit,
            n.book_list.selected == 0 && n.content_list.selected == 0,
            n.book_count == book_count && n.content_count == content_count,
            n.statusbar.keys@.len() == 0 && n.statusbar.info@.len() == 0
                && n.statusbar.message@.len() == 0,
    {
        AppNavigation {
            main_window: MainWindow::Filters,
            level: ScreenLevel::List,
            should_quit: false,
            book_list: TableSelection::new(),
            book_count,
            content_list: TableSelection::new(),
            content_count,
            statusbar: StatusBar::new(),
        }
    }

    pub fn should_quit(&self) -> (q: bool)
        ensures
            q == self.should_quit,
    {
        self.should_quit
    }

    /// Handles a key (see `key_effect`). Scrolling moves the selection of the
    /// shown list and reports the position in the status bar; Quit sets
    /// `should_quit`.
    pub fn handle_key(&mut self, key: KeyEvent) -> (action: AppAction)
        requires
            old(self).wf(),
        ensures
            final(self).wf(),
            (final(self).main_window, final(self).level, action) == key_effect(
                old(self).main_window,
                old(self).level,
                key.code,
            ),
            final(self).should_quit == (old(self).should_quit || action == AppAction::Quit),
            final(self).book_count == old(self).book_count,
            final(self).content_count == old(self).content_count,
            action == AppAction::ScrollUp ==> scroll_effect(*old(self), *final(self), true),
            action == AppAction::ScrollDown ==> scroll_effect(*old(self), *final(self), false),
            !(action == AppAction::ScrollUp || action == AppAction::ScrollDown) ==> lists_kept(
                *old(self),
                *final(self),
            ),
            final(self).statusbar.keys == old(self).statusbar.keys,
            final(self).statusbar.message == old(self).statusbar.message,
    {
        let action = if self.level == ScreenLevel::Popup {
            match key.code {
                KeyCode::Enter => AppAction::ConfirmPopup,
                KeyCode::Esc => {
                    self.level = self.level.ascend();
                    AppAction::CancelPopup
                },
                _ => AppAction::Nothing,
            }
        } else {
            let on_list = self.level == ScreenLevel::List;
            match key.code {
                KeyCode::Char('q') if on_list => AppAction::Quit,
                KeyCode::Left if on_list => {
                    self.main_window = self.main_window.previous();
                    AppAction::SwitchWindow(self.main_window)
                },
                KeyCode::Right if on_list => {
                    self.main_window = self.main_window.next();
                    AppAction::SwitchWindow(self.main_window)
                },
                KeyCode::Char('f') if on_list => {
                    self.main_window = MainWindow::Filters;
                    AppAction::SwitchWindow(self.main_window)
                },
                KeyCode::Char('b') if on_list => {
                    self.main_window = MainWindow::Books;
                    AppAction::SwitchWindow(self.main_window)
                },
                KeyCode::Char('c') if on_list => {
                    self.main_window = MainWindow::Contents;
                    AppAction::SwitchWindow(self.main_window)
                },
                KeyCode::Esc => {
                    self.level = self.level.ascend();
                    AppAction::ExitLevel
                },
                KeyCode::Char('e') => AppAction::EditRecord,
                KeyCode::Char(' ') if self.main_window == MainWindow::Filters && on_list => {
                    AppAction::ToggleFilterSet
                },
                _ => self.delegate_to_table(key),
            }
        };
        if action == AppAction::Quit {
            self.should_quit = true;
        }
        action
    }

    fn delegate_to_table(&mut self, key: KeyEvent) -> (action: AppAction)
        requires
            old(self).wf(),
            old(self).level != ScreenLevel::Popup,
        ensures
            final(self).wf(),
            ({
                let t = if old(self).main_window == MainWindow::Filters {
                    TableAction::Nothing
                } else {
                    table_action(key.code)
                };
                &&& final(self).main_window == old(self).main_window
                &&& final(self).should_quit == old(self).should_quit
                &&& final(self).book_count == old(self).book_count
                &&& final(self).content_count == old(self).content_count
                &&& final(self).statusbar.keys == old(self).statusbar.keys
                &&& final(self).statusbar.message == old(self).statusbar.message
                &&& match t {
                    TableAction::ScrollUp => action == AppAction::ScrollUp,
                    TableAction::ScrollDown => action == AppAction::ScrollDown,
                    TableAction::Select => action == AppAction::EnterLevel,
                    TableAction::New => action == AppAction::NewRecord,
                    TableAction::Delete => action == AppAction::DeleteRecord,
                    TableAction::Search => action == AppAction::Search,
                    TableAction::Nothing => action == AppAction::Nothing,
                }
                &&& final(self).level == (if t == TableAction::Select {
                    deeper(old(self).level)
                } else {
                    old(self).level
                })
                &&& t == TableAction::ScrollUp ==> scroll_effect(*old(self), *final(self), true)
                &&& t == TableAction::ScrollDown ==> scroll_effect(*old(self), *final(self), false)
                &&& !(t == TableAction::ScrollUp || t == TableAction::ScrollDown) ==> lists_kept(
                    *old(self),
                    *final(self),
                )
            }),
    {
        let table_action = match self.main_window {
            MainWindow::Books | MainWindow::Contents => table_action_for_key(key),
            MainWindow::Filters => TableAction::Nothing,
        };
        match table_action {
            TableAction::ScrollUp => {
                self.scroll(true);
                AppAction::ScrollUp
            },
            TableAction::ScrollDown => {
                self.scroll(false);
                AppAction::ScrollDown
            },
            TableAction::Select => {
                self.level = self.level.descend();
                AppAction::EnterLevel
            },
            TableAction::New => AppAction::NewRecord,
            TableAction::Delete => AppAction::DeleteRecord,
            TableAction::Search => AppAction::Search,
            TableAction::Nothing => AppAction::Nothing,
        }
    }

    /// Moves the selection of the shown list and reports the position.
    fn scroll(&mut self, up: bool)
        requires
            old(self).wf(),
            old(self).main_window != MainWindow::Filters,
        ensures
            final(self).wf(),
            final(self).main_window == old(self).main_window,
            final(self).level == old(self).level,
            final(self).should_quit == old(self).should_quit,
            final(self).book_count == old(self).book_count,
            final(self).content_count == old(self).content_count,
            final(self).statusbar.keys == old(self).statusbar.keys,
            final(self).statusbar.message == old(self).statusbar.message,
            scroll_effect(*old(self), *final(self), up),
    {
        if self.main_window == MainWindow::Books {
            if up {
                self.book_list.previous();
            } else {
                self.book_list.next(self.book_count);
            }
            let info = position_text("Book ", self.book_list.selected_index(), self.book_count, " of ");
            self.statusbar.set_info(info);
        } else {
            if up {
                self.content_list.previous();
            } else {
                self.content_list.next(self.content_count);
            }
            let info = position_text(
                "Contenuto ",
                self.content_list.selected_index(),
                self.content_count,
                " di ",
            );
            self.statusbar.set_info(info);
        }
    }
}


/// Moving to the next window and back, or back and on, returns to the
/// window.
pub proof fn lemma_window_cycle(w: MainWindow)
    ensures
        previous_window(next_window(w)) == w,
        next_window(previous_window(w)) == w,
{
}

/// Going one level deeper and back up returns to the level, below the
/// popup level (the deepest).
pub proof fn lemma_level_round_trip(l: ScreenLevel)
    requires
        l != ScreenLevel::Popup,
    ensures
        shallower(deeper(l)) == l,
{
}

/// q quits exactly on the list level.
pub proof fn lemma_quit_only_on_list(w: MainWindow, l: ScreenLevel)
    ensures
        (key_effect(w, l, KeyCode::Char('q')).2 == AppAction::Quit) == (l == ScreenLevel::List),
{
}

/// Below the list level the window does not change, whatever the key.
pub proof fn lemma_window_kept_below_list(w: MainWindow, l: ScreenLevel, code: KeyCode)
    requires
        l != ScreenLevel::List,
    ensures
        key_effect(w, l, code).0 == w,
{
}

/// On the popup level Enter confirms and stays; Esc cancels and goes back
/// to the editing level.
pub proof fn lemma_popup_keys(w: MainWindow)
    ensures
        key_effect(w, ScreenLevel::Popup, KeyCode::Enter) == (
            w,
            ScreenLevel::Popup,
            AppAction::ConfirmPopup,
        ),
        key_effect(w, ScreenLevel::Popup, KeyCode::Esc) == (
            w,
            ScreenLevel::Editing,
            AppAction::CancelPopup,
        ),
{
}
} // verus!
