use vstd::prelude::*;
use crate::app::{App, AppState, AppView, Space};
use crate::locale::UiText;

verus! {

/// A selection in a scrolling list: the selected line, the first line shown,
/// and how many lines the window shows.
#[derive(Clone, Copy, Debug, PartialEq, Eq, Structural)]
pub struct Cursor {
    pub cursor: usize,
    pub scroll: usize,
    pub visable_lines: usize,
}

/// Where the window's first line goes so that the selected line is shown:
/// it moves up to a selection above the window, down just far enough for a
/// selection below it, and stays put otherwise.
pub open spec fn scrolled(c: Cursor) -> Cursor {
    Cursor {
        scroll: if c.cursor < c.scroll {
            c.cursor
        } else if c.cursor >= c.scroll + c.visable_lines {
            (c.cursor - c.visable_lines + 1) as usize
        } else {
            c.scroll
        },
        ..c
    }
}

/// Scrolls the window of `input` so that its selected line is in view.
pub fn update_scroll(input: &mut Cursor)
    requires
        old(input).visable_lines > 0 || old(input).cursor < usize::MAX,
    ensures
        *final(input) == scrolled(*old(input)),
        final(input).visable_lines > 0 ==> final(input).scroll <= final(input).cursor
            < final(input).scroll + final(input).visable_lines,
{
    if input.cursor < input.scroll {
        input.scroll = input.cursor;
    } else if input.cursor - input.scroll >= input.visable_lines {
        input.scroll = input.cursor - input.visable_lines + 1;
    }
}

/// The key help shown under the right half of the window in each state.
pub open spec fn tooltip_for(s: AppState) -> Option<UiText> {
    match s {
        AppState::EnteringDishName | AppState::EnteringIngredients => Some(UiText::TTInputBox),
        AppState::ViewingDatabase => Some(UiText::TTViewingDb),
        AppState::EditingDish => Some(UiText::TTEditingDish),
        AppState::EditingIngredient | AppState::EditingDishName => Some(UiText::TTEditingIngDName),
        AppState::PickingCategory | AppState::AreYouSureDelDish => Some(UiText::TTPopUp),
        AppState::ShowGeneratedList => Some(UiText::TTShowGenList),
        AppState::ShowShoppingList => Some(UiText::TTShowShoppingList),
        AppState::PromptPrint => Some(UiText::TTPromtPrint),
        _ => None,
    }
}

/// The key help shown under the right half of the window in the state `s`.
pub fn tooltip(s: AppState) -> (r: Option<UiText>)
    ensures
        r == tooltip_for(s),
{
    match s {
        AppState::EnteringDishName | AppState::EnteringIngredients => Some(UiText::TTInputBox),
        AppState::ViewingDatabase => Some(UiText::TTViewingDb),
        AppState::EditingDish => Some(UiText::TTEditingDish),
        AppState::EditingIngredient | AppState::EditingDishName => Some(UiText::TTEditingIngDName),
        AppState::PickingCategory | AppState::AreYouSureDelDish => Some(UiText::TTPopUp),
        AppState::ShowGeneratedList => Some(UiText::TTShowGenList),
        AppState::ShowShoppingList => Some(UiText::TTShowShoppingList),
        AppState::PromptPrint => Some(UiText::TTPromtPrint),
        _ => None,
    }
}

/// States that show a yes/no or two-option prompt.
pub open spec fn is_prompt(s: AppState) -> bool {
    s == AppState::AreYouSureDelDish || s == AppState::ReplaceList || s == AppState::PromptPrint
}

/// The proposed name of an uploaded list made on `date`.
pub open spec fn upload_name(date: Seq<char>) -> Seq<char> {
    "Shopping List "@ + date
}

/// The answer of the check for an upload login, as plain values.
pub open spec fn token_view(token: Result<bool, String>) -> Result<bool, Seq<char>> {
    match token {
        Ok(b) => Ok(b),
        Err(e) => Err(e@),
    }
}

impl AppView {
    /// The state after choosing "new list" in the main menu.
    pub open spec fn after_open_new_list(self) -> AppView {
        match self.current_dish_list {
            Some(l) => if l.len() == 0 {
                AppView { state: AppState::NewList, ..self }
            } else {
                AppView {
                    state: AppState::ReplaceList,
                    selected_space: Space::MainRight,
                    moving_focus: false,
                    ..self
                }
            },
            None => AppView { state: AppState::NewList, selected_space: Space::MainRight, ..self },
        }
    }

    /// The state after opening the view that `state` stands for in the right
    /// half of the window.
    pub open spec fn opened(self, state: AppState) -> AppView {
        AppView { state, selected_space: Space::MainRight, ..self }
    }

    /// The state after choosing "upload" in the main menu, given whether an
    /// upload login exists and today's date.
    pub open spec fn after_open_upload(self, token: Result<bool, Seq<char>>, date: Seq<char>) -> AppView {
        let v = match token {
            Ok(true) => AppView {
                state: AppState::UploadMenu,
                input: upload_name(date),
                default_upload_name: true,
                ..self
            },
            Ok(false) => AppView { state: AppState::UploadFirstLogin, ..self },
            Err(e) => AppView { state: AppState::Error, err_msg: Some(e), ..self },
        };
        AppView { selected_space: Space::MainRight, ..v }
    }

    /// What the down key needs in order not to fail: the dish being edited
    /// exists, and a menu on show is not empty.
    pub open spec fn can_move_down(self) -> bool {
        &&& (!is_prompt(self.state) && self.selected_space == Space::MainRight && self.state
            == AppState::EditingDish ==> self.db_cursor.cursor < self.db.len())
        &&& (!is_prompt(self.state) && self.selected_space == Space::MainRight && self.state
            == AppState::ShowGeneratedList && self.current_dish_list is Some
            ==> self.current_dish_list->0.len() > 0)
    }

    /// What the up key needs in order not to fail: the dish being edited
    /// exists.
    pub open spec fn can_move_up(self) -> bool {
        !is_prompt(self.state) && self.selected_space == Space::MainRight && self.state
            == AppState::EditingDish ==> self.db_cursor.cursor < self.db.len()
    }

    /// The state after the down key.
    pub open spec fn after_down(self) -> AppView {
        if is_prompt(self.state) {
            AppView { ays_cursor: 1, ..self }
        } else if self.selected_space == Space::MainLeft {
            if self.cursor == self.left_window_actions.len() - 1 {
                AppView { cursor: 0, ..self }
            } else if self.cursor < self.left_window_actions.len() - 1 {
                AppView { cursor: (self.cursor + 1) as usize, ..self }
            } else {
                self
            }
        } else if self.state == AppState::ShowShoppingList {
            if self.shopping_list.len() > 0 && self.db_cursor.cursor < self.shopping_list.len() - 1 {
                AppView {
                    db_cursor: scrolled(Cursor { cursor: (self.db_cursor.cursor + 1) as usize, ..self.db_cursor }),
                    ..self
                }
            } else {
                self
            }
        } else if self.state == AppState::ViewingDatabase || self.state == AppState::AddToGeneratedList {
            if self.db.len() == 0 {
                self
            } else {
                let c = if self.db_cursor.cursor < self.db.len() - 1 {
                    Cursor { cursor: (self.db_cursor.cursor + 1) as usize, ..self.db_cursor }
                } else {
                    self.db_cursor
                };
                AppView { db_cursor: scrolled(c), ..self }
            }
        } else if self.state == AppState::EditingDish {
            let n = self.db[self.db_cursor.cursor as int].ingredients.len();
            if n > 0 && self.edit_cursor.cursor < n - 1 {
                AppView {
                    edit_cursor: scrolled(Cursor { cursor: (self.edit_cursor.cursor + 1) as usize, ..self.edit_cursor }),
                    ..self
                }
            } else {
                self
            }
        } else if self.state == AppState::PickingCategory {
            if self.picking_cursor == 6 {
                self
            } else {
                AppView { picking_cursor: (self.picking_cursor + 1) as usize, ..self }
            }
        } else if self.state == AppState::ShowGeneratedList {
            match self.current_dish_list {
                Some(l) => if self.edit_cursor.cursor < l.len() - 1 {
                    AppView {
                        edit_cursor: Cursor { cursor: (self.edit_cursor.cursor + 1) as usize, ..self.edit_cursor },
                        ..self
                    }
                } else {
                    self
                },
                None => self,
            }
        } else {
            self
        }
    }

    /// The state after the up key.
    pub open spec fn after_up(self) -> AppView {
        if is_prompt(self.state) {
            AppView { ays_cursor: 0, ..self }
        } else if self.selected_space == Space::MainLeft {
            if self.cursor == 0 {
                AppView { cursor: 4, ..self }
            } else {
                AppView { cursor: (self.cursor - 1) as usize, ..self }
            }
        } else if self.state == AppState::ViewingDatabase || self.state == AppState::ShowShoppingList
            || self.state == AppState::AddToGeneratedList {
            if self.shopping_list.len() == 0 && self.state == AppState::ShowShoppingList {
                self
            } else if self.db_cursor.cursor > 0 {
                AppView {
                    db_cursor: scrolled(Cursor { cursor: (self.db_cursor.cursor - 1) as usize, ..self.db_cursor }),
                    ..self
                }
            } else {
                self
            }
        } else if self.state == AppState::EditingDish {
            let n = self.db[self.db_cursor.cursor as int].ingredients.len();
            if n > 0 && self.edit_cursor.cursor > 0 {
                AppView {
                    edit_cursor: scrolled(Cursor { cursor: (self.edit_cursor.cursor - 1) as usize, ..self.edit_cursor }),
                    ..self
                }
            } else {
                self
            }
        } else if self.state == AppState::PickingCategory {
            if self.picking_cursor == 0 {
                self
            } else {
                AppView { picking_cursor: (self.picking_cursor - 1) as usize, ..self }
            }
        } else if self.state == AppState::ShowGeneratedList && self.edit_cursor.cursor > 0 {
            AppView {
                edit_cursor: Cursor { cursor: (self.edit_cursor.cursor - 1) as usize, ..self.edit_cursor },
                ..self
            }
        } else {
            self
        }
    }

    /// The state after the left key.
    pub open spec fn after_left(self) -> AppView {
        if self.state == AppState::AreYouSureDelDish || self.state == AppState::ReplaceList {
            self.after_up()
        } else if self.selected_space == Space::MainRight {
            AppView { selected_space: Space::MainLeft, moving_focus: true, ..self }
        } else {
            self
        }
    }

    /// The state after the right key.
    pub open spec fn after_right(self) -> AppView {
        if self.state == AppState::Normal {
            self
        } else if self.state == AppState::AreYouSureDelDish || self.state == AppState::ReplaceList {
            self.after_down()
        } else if self.selected_space == Space::MainLeft {
            AppView { selected_space: Space::MainRight, moving_focus: false, ..self }
        } else {
            self
        }
    }
}

impl App {
    /// Main menu: starts a new list, or asks first when a menu exists.
    pub fn open_new_list(&mut self)
        requires
            old(self)@.wf(),
        ensures
            final(self)@.wf(),
            final(self)@ == old(self)@.after_open_new_list(),
    {
        if let Some(list) = self.current_dish_list.as_ref() {
            if list.len() == 0 {
                self.state = AppState::NewList;
                return;
            } else {
                self.state = AppState::ReplaceList;
                self.selected_space = Space::MainRight;
                self.moving_focus = false;
                return;
            }
        }
        self.state = AppState::NewList;
        self.selected_space = Space::MainRight;
    }

    /// Main menu: shows the shopping list.
    pub fn open_view_edit_list(&mut self)
        requires
            old(self)@.wf(),
        ensures
            final(self)@.wf(),
            final(self)@ == old(self)@.opened(AppState::ShowShoppingList),
    {
        self.state = AppState::ShowShoppingList;
        self.selected_space = Space::MainRight;
    }

    /// Main menu: starts adding a dish to the Dishtabase.
    pub fn open_add_dish_to_dishtabase(&mut self)
        requires
            old(self)@.wf(),
        ensures
            final(self)@.wf(),
            final(self)@ == old(self)@.opened(AppState::EnteringDishName),
    {
        self.state = AppState::EnteringDishName;
        self.selected_space = Space::MainRight;
    }

    /// Main menu: shows the Dishtabase.
    pub fn open_view_edit_dishtabase(&mut self)
        requires
            old(self)@.wf(),
        ensures
            final(self)@.wf(),
            final(self)@ == old(self)@.opened(AppState::ViewingDatabase),
    {
        self.state = AppState::ViewingDatabase;
        self.selected_space = Space::MainRight;
    }

    /// Main menu: opens the upload view, given whether a login for the
    /// upload service exists and today's date, which names the list.
    pub fn open_upload(&mut self, token: Result<bool, String>, date: &str)
        requires
            old(self)@.wf(),
        ensures
            final(self)@.wf(),
            final(self)@ == old(self)@.after_open_upload(token_view(token), date@),
    {
        match token {
            Ok(true) => {
                self.state = AppState::UploadMenu;
                let mut name = "Shopping List ".to_owned();
                name.append(date);
                self.input = name;
                self.default_upload_name = true;
            },
            Ok(false) => self.state = AppState::UploadFirstLogin,
            Err(s) => {
                self.state = AppState::Error;
                self.err_msg = Some(s);
            },
        }
        self.selected_space = Space::MainRight;
    }

    /// Moves the focus to the menu, or the prompt's selection up.
    pub fn move_focus_left(&mut self)
        requires
            old(self)@.wf(),
        ensures
            final(self)@ == old(self)@.after_left(),
            final(self)@.wf(),
    {
        if self.state == AppState::AreYouSureDelDish || self.state == AppState::ReplaceList {
            self.move_cursor_up();
            return;
        }
        if self.selected_space == Space::MainRight {
            self.selected_space = Space::MainLeft;
            self.moving_focus = true;
        }
    }

    /// Moves the focus to the view, or the prompt's selection down.
    pub fn move_focus_right(&mut self)
        requires
            old(self)@.wf(),
        ensures
            final(self)@ == old(self)@.after_right(),
            final(self)@.wf(),
    {
        if self.state == AppState::Normal {
            return;
        }
        if self.state == AppState::AreYouSureDelDish || self.state == AppState::ReplaceList {
            self.move_cursor_down();
            return;
        }
        if self.selected_space == Space::MainLeft {
            self.selected_space = Space::MainRight;
            self.moving_focus = false;
        }
    }

    /// Moves the selection of the current view down one line.
    pub fn move_cursor_down(&mut self)
        requires
            old(self)@.wf(),
            old(self)@.can_move_down(),
        ensures
            final(self)@ == old(self)@.after_down(),
            final(self)@.wf(),
    {
        if self.state == AppState::AreYouSureDelDish || self.state == AppState::ReplaceList
            || self.state == AppState::PromptPrint {
            self.ays_cursor = 1;
            return;
        }
        match self.selected_space {
            Space::MainLeft => {
                if self.cursor == self.left_window_actions.len() - 1 {
                    self.cursor = 0;
                    return;
                }
                if self.cursor < self.left_window_actions.len() - 1 {
                    self.cursor += 1;
                }
            },
            Space::MainRight => match self.state {
                AppState::ShowShoppingList => {
                    if self.shopping_list.len() == 0 {
                        return;
                    }
                    if self.db_cursor.cursor < self.shopping_list.len() - 1 {
                        self.db_cursor.cursor += 1;
                        update_scroll(&mut self.db_cursor);
                    }
                },
                AppState::ViewingDatabase | AppState::AddToGeneratedList => {
                    if self.db.dishes.len() == 0 {
                        return;
                    }
                    if self.db_cursor.cursor < self.db.dishes.len() - 1 {
                        self.db_cursor.cursor += 1;
                    }
                    update_scroll(&mut self.db_cursor);
                },
                AppState::EditingDish => {
                    let n = self.db.dishes[self.db_cursor.cursor].ingredients.len();
                    if n == 0 {
                        return;
                    }
                    if self.edit_cursor.cursor < n - 1 {
                        self.edit_cursor.cursor += 1;
                        update_scroll(&mut self.edit_cursor);
                    }
                },
                AppState::PickingCategory => {
                    if self.picking_cursor == 6 {
                        return;
                    }
                    self.picking_cursor += 1;
                },
                AppState::ShowGeneratedList => {
                    if let Some(list) = self.current_dish_list.as_ref() {
                        if self.edit_cursor.cursor < list.len() - 1 {
                            self.edit_cursor.cursor += 1;
                        }
                    }
                },
                _ => {},
            },
        }
    }

    /// Moves the selection of the current view up one line.
    pub fn move_cursor_up(&mut self)
        requires
            old(self)@.wf(),
            old(self)@.can_move_up(),
        ensures
            final(self)@ == old(self)@.after_up(),
            final(self)@.wf(),
    {
        if self.state == AppState::AreYouSureDelDish || self.state == AppState::ReplaceList
            || self.state == AppState::PromptPrint {
            self.ays_cursor = 0;
            return;
        }
        match self.selected_space {
            Space::MainLeft => {
                if self.cursor == 0 {
                    self.cursor = 4;
                    return;
                }
                self.cursor -= 1;
            },
            Space::MainRight => match self.state {
                AppState::ViewingDatabase
                | AppState::ShowShoppingList
                | AppState::AddToGeneratedList => {
                    if self.shopping_list.len() == 0 && self.state == AppState::ShowShoppingList {
                        return;
                    }
                    if self.db_cursor.cursor > 0 {
                        self.db_cursor.cursor -= 1;
                        update_scroll(&mut self.db_cursor);
                    }
                },
                AppState::EditingDish => {
                    if self.db.dishes[self.db_cursor.cursor].ingredients.len() == 0 {
                        return;
                    }
                    if self.edit_cursor.cursor > 0 {
                        self.edit_cursor.cursor -= 1;
                        update_scroll(&mut self.edit_cursor);
                    }
                },
                AppState::PickingCategory => {
                    if self.picking_cursor == 0 {
                        return;
                    }
                    self.picking_cursor -= 1;
                },
                AppState::ShowGeneratedList => {
                    if self.edit_cursor.cursor > 0 {
                        self.edit_cursor.cursor -= 1;
                    }
                },
                _ => {},
            },
        }
    }
}

} // verus!
