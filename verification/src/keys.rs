use vstd::prelude::*;
use crate::app::{App, AppState, AppView, Effect, EffectView, Space};
use crate::dishtabase::with_ingredients;
use crate::items::{lemma_dishes_view_update, sort_by_category, sorted_by_category};
use crate::list::distinct_dish_count;
use crate::text::{is_ascii_numeral, is_numeric_text, parse_numeral};
use crate::ui::Cursor;

verus! {

/// A key, as the terminal reports it.
#[derive(Clone, Copy, Debug, PartialEq, Eq, Structural)]
pub enum KeyCode {
    Char(char),
    Backspace,
    Esc,
    Up,
    Down,
    Left,
    Right,
    Delete,
    Enter,
    Tab,
    Other,
}

/// A key press: the key, and whether Control (and no other modifier) was
/// held.
#[derive(Clone, Copy, Debug, PartialEq, Eq, Structural)]
pub struct Key {
    pub code: KeyCode,
    pub ctrl: bool,
}

/// States in which `q` is typed rather than quitting.
pub open spec fn types_q(s: AppState) -> bool {
    s == AppState::EnteringDishName || s == AppState::EnteringIngredients || s
        == AppState::EditingIngredient || s == AppState::EditingDishName || s
        == AppState::EditingAddIngredient || s == AppState::NewList || s
        == AppState::AddToShoppingList || s == AppState::UploadEnterCode
}

/// The Control combinations that have a meaning of their own.
pub open spec fn is_ctrl_command(key: Key) -> bool {
    key.ctrl && match key.code {
        KeyCode::Char(c) => c == 's' || c == 'n' || c == 'a' || c == 'k' || c == 'p' || c == 'h',
        KeyCode::Backspace => true,
        _ => false,
    }
}

impl AppView {
    /// The state as Enter first leaves it: with the focus on the menu, Enter
    /// acts on the menu, remembering where it was.
    pub open spec fn focused(self) -> AppView {
        if self.moving_focus {
            AppView {
                prev_state: Some(self.state),
                state: AppState::MovingFocus,
                db_cursor: Cursor { cursor: 0, scroll: 0, ..self.db_cursor },
                ..self
            }
        } else {
            self
        }
    }

    /// The state after Enter on the main menu: the chosen view opens. For
    /// the upload view the program is asked to check for a login first.
    pub open spec fn after_menu_choice(self) -> AppView {
        let v = AppView { input: Seq::empty(), ..self };
        if v.selected_space == Space::MainLeft {
            let w = if v.cursor == 0 {
                v.after_open_new_list()
            } else if v.cursor == 1 {
                v.opened(AppState::ShowShoppingList)
            } else if v.cursor == 2 {
                v.opened(AppState::EnteringDishName)
            } else if v.cursor == 3 {
                v.opened(AppState::ViewingDatabase)
            } else if v.cursor == 4 {
                v.with_effect(EffectView::CheckUploadToken)
            } else {
                v
            };
            AppView { moving_focus: false, ..w }
        } else {
            v
        }
    }

    /// What Enter needs in order not to fail in the state it acts on.
    pub open spec fn can_enter(self) -> bool {
        let v = self.focused();
        let c = v.db_cursor.cursor;
        match v.state {
            AppState::AddToGeneratedList => v.prev_state is Some && (v.current_dish_list is Some
                ==> c < v.db.len()),
            AppState::EditingDish => c < v.db.len(),
            AppState::EditingIngredient => v.pending_dish is Some ==> {
                &&& v.edit_cursor.cursor < v.pending_dish->0.ingredients.len()
                &&& c < v.db.len()
            },
            AppState::EditingDishName => v.pending_dish is Some ==> c < v.db.len(),
            AppState::AreYouSureDelDish => v.ays_cursor == 0 && v.db.len() > 0 ==> c < v.db.len(),
            AppState::EditingAddIngredient => c < v.db.len(),
            AppState::PickingCategory => v.can_confirm_category(),
            AppState::NewList => v.can_generate_list(),
            _ => true,
        }
    }

    /// Whether `new` is a possible state after Enter: the step of the state
    /// that Enter acts on.
    pub open spec fn enters(self, new: AppView) -> bool {
        let v = self.focused();
        match v.state {
            AppState::Normal | AppState::MovingFocus => new == v.after_menu_choice(),
            AppState::NewList => v.generates_list(new),
            AppState::ReplaceList => new == v.after_replace_old_list(),
            AppState::AddToGeneratedList => new == v.after_manual_add_dish(),
            AppState::ShowGeneratedList => new == v.after_accept_generated_list(),
            AppState::AddToShoppingList => new == v.after_add_to_shopping_list(),
            AppState::PromptPrint => new == v.after_toggle_print_option(),
            AppState::EnteringDishName => new == v.after_confirm_dish_name(),
            AppState::EnteringIngredients => new == v.after_confirm_ingredient(),
            AppState::ViewingDatabase => new == v.after_start_editing_dish(),
            AppState::EditingDish => new == v.after_confirm_editing_dish(),
            AppState::EditingIngredient => new == v.after_edit_ingredient(),
            AppState::EditingDishName => new == v.after_edit_dish_name(),
            AppState::AreYouSureDelDish => new == v.after_delete_dish_option(),
            AppState::EditingAddIngredient => new == v.after_edit_add_ingredient(),
            AppState::PickingCategory => new == v.after_confirm_category(),
            AppState::UploadFirstLogin => new == v.after_upload_first_login(),
            AppState::UploadShowLoginUrl => new == (AppView { state: AppState::UploadEnterCode, ..v }),
            AppState::UploadEnterCode => new == v.after_send_code(),
            AppState::UploadMenu => new == v.after_init_upload_list(),
            _ => new == v,
        }
    }

    /// What Escape needs in order not to fail: the dish being edited exists,
    /// and a menu being added to has a view to go back to.
    pub open spec fn can_escape(self) -> bool {
        &&& (self.state == AppState::EditingDish || self.state == AppState::AreYouSureDelDish
            ==> self.db_cursor.cursor < self.db.len())
        &&& (self.state == AppState::AddToGeneratedList ==> self.prev_state is Some)
    }

    /// The state after Escape: back one view, and to the main menu from the
    /// views reached from it.
    pub open spec fn after_escape(self) -> AppView {
        if self.state == AppState::EditingDish || self.state == AppState::AreYouSureDelDish {
            let c = self.db_cursor.cursor as int;
            AppView {
                db: self.db.update(c, with_ingredients(self.db[c], sorted_by_category(self.db[c].ingredients))),
                state: AppState::ViewingDatabase,
                edit_cursor: Cursor { cursor: 0, scroll: 0, ..self.edit_cursor },
                ays_cursor: 0,
                ..self
            }
        } else if self.state == AppState::EditingIngredient || self.state == AppState::EditingDishName {
            AppView { state: AppState::EditingDish, pending_dish: None, input: Seq::empty(), ..self }
        } else if self.state == AppState::PickingCategory {
            match self.prev_state {
                Some(p) => AppView { state: p, prev_state: None, ..self },
                None => AppView { state: AppState::Normal, ..self },
            }
        } else if self.state == AppState::AddToShoppingList {
            AppView { state: AppState::ShowShoppingList, input: Seq::empty(), ..self }
        } else if self.state == AppState::AddToGeneratedList {
            AppView {
                state: self.prev_state->0,
                prev_state: None,
                db_cursor: Cursor { cursor: 0, ..self.db_cursor },
                ..self
            }
        } else {
            AppView {
                state: AppState::Normal,
                selected_space: Space::MainLeft,
                pending_dish: None,
                input: Seq::empty(),
                cursor: 0,
                db_cursor: Cursor { cursor: 0, ..self.db_cursor },
                edit_cursor: Cursor { cursor: 0, ..self.edit_cursor },
                ..self
            }
        }
    }

    /// What Delete needs in order not to fail.
    pub open spec fn can_delete(self) -> bool {
        &&& (self.state == AppState::EnteringIngredients || self.state == AppState::EditingDish
            || self.state == AppState::ShowShoppingList ==> self.can_delete_ingredient())
        &&& (self.state == AppState::ShowGeneratedList ==> self.can_generate_new_dish())
    }

    /// Whether `new` is a possible state after Delete: an ingredient or a
    /// shopping-list item goes, a dish is offered for deletion, or the
    /// selected dish of the menu is drawn anew.
    pub open spec fn deletes(self, new: AppView) -> bool {
        if self.state == AppState::EnteringIngredients || self.state == AppState::EditingDish
            || self.state == AppState::ShowShoppingList {
            new == self.after_delete_ingredient()
        } else if self.state == AppState::ViewingDatabase && self.db.len() > 0 {
            new == (AppView { state: AppState::AreYouSureDelDish, ..self })
        } else if self.state == AppState::ShowGeneratedList {
            self.generates_new_dish(new)
        } else {
            new == self
        }
    }

    /// The state after a Control combination with a meaning of its own.
    pub open spec fn after_ctrl(self, c: Option<char>) -> AppView {
        match c {
            Some('s') => if self.pending_dish is Some && (self.state == AppState::EnteringIngredients
                || self.state == AppState::EditingDishName) {
                self.after_push_dish_to_db()
            } else {
                self
            },
            Some('n') => if self.state == AppState::ViewingDatabase {
                let d = self.db[self.db_cursor.cursor as int];
                AppView { state: AppState::EditingDishName, pending_dish: Some(d), input: d.name, ..self }
            } else {
                self
            },
            Some('a') => if self.state == AppState::EditingDish {
                AppView { state: AppState::EditingAddIngredient, ..self }
            } else if self.state == AppState::ShowGeneratedList {
                AppView { prev_state: Some(self.state), state: AppState::AddToGeneratedList, ..self }
            } else if self.state == AppState::ShowShoppingList {
                AppView { state: AppState::AddToShoppingList, ..self }
            } else {
                self
            },
            Some('k') => if self.state == AppState::EditingDish {
                AppView {
                    pending_dish: Some(self.db[self.db_cursor.cursor as int]),
                    prev_state: Some(self.state),
                    state: AppState::PickingCategory,
                    ..self
                }
            } else {
                self
            },
            Some('p') => if self.state == AppState::ShowShoppingList {
                AppView { state: AppState::PromptPrint, ..self }
            } else {
                self
            },
            _ => self.after_backspace(true),
        }
    }

    /// What a key needs in order not to fail.
    pub open spec fn can_handle_key(self, key: Key) -> bool {
        if is_ctrl_command(key) {
            match key.code {
                KeyCode::Char(c) => (c == 'n' && self.state == AppState::ViewingDatabase) || (c == 'k'
                    && self.state == AppState::EditingDish) ==> self.db_cursor.cursor < self.db.len(),
                _ => true,
            }
        } else {
            match key.code {
                KeyCode::Esc => self.can_escape(),
                KeyCode::Down => self.can_move_down(),
                KeyCode::Up => self.can_move_up(),
                KeyCode::Delete => self.can_delete(),
                KeyCode::Enter => self.can_enter(),
                _ => true,
            }
        }
    }

    /// The state after a character key without Control: `q` quits outside
    /// input fields; `p` writes the shopping list to a file from the export
    /// prompt and pastes the login code where it is asked for; `c` copies
    /// the login address on show; any other key is typed.
    pub open spec fn after_char_key(self, c: char) -> AppView {
        if c == 'q' && !types_q(self.state) {
            self.with_effect(EffectView::Quit)
        } else if c == 'p' && self.state == AppState::PromptPrint {
            AppView { state: AppState::ShowShoppingList, ..self.with_effect(EffectView::PrintShoppingList) }
        } else if c == 'p' && self.state == AppState::UploadShowLoginUrl {
            AppView { state: AppState::UploadEnterCode, ..self.with_effect(EffectView::PasteLoginCode) }
        } else if c == 'c' && self.state == AppState::UploadShowLoginUrl {
            self.with_effect(EffectView::CopyLoginUrl)
        } else {
            self.after_char(c)
        }
    }

    /// Whether `new` is a possible state after the key `key`.
    pub open spec fn handles_key(self, key: Key, new: AppView) -> bool {
        if is_ctrl_command(key) {
            new == self.after_ctrl(
                match key.code {
                    KeyCode::Char(c) => if c == 'h' {
                        None
                    } else {
                        Some(c)
                    },
                    _ => None,
                },
            )
        } else {
            match key.code {
                KeyCode::Char(c) => new == self.after_char_key(c),
                KeyCode::Esc => new == self.after_escape(),
                KeyCode::Down => new == self.after_down(),
                KeyCode::Up => new == self.after_up(),
                KeyCode::Left => new == self.after_left(),
                KeyCode::Right => new == self.after_right(),
                KeyCode::Backspace => new == self.after_backspace(false),
                KeyCode::Delete => self.deletes(new),
                KeyCode::Enter => self.enters(new),
                KeyCode::Tab => new == self.after_tab(),
                KeyCode::Other => new == self,
            }
        }
    }
}

/// Whether `q` is typed in the state `s`.
fn state_types_q(s: AppState) -> (r: bool)
    ensures
        r == types_q(s),
{
    match s {
        AppState::EnteringDishName
        | AppState::EnteringIngredients
        | AppState::EditingIngredient
        | AppState::EditingDishName
        | AppState::EditingAddIngredient
        | AppState::NewList
        | AppState::AddToShoppingList
        | AppState::UploadEnterCode => true,
        _ => false,
    }
}

impl App {
    /// Enter: confirms, chooses or accepts, depending on the state.
    pub fn handle_enter(&mut self)
        requires
            old(self)@.wf(),
            old(self)@.can_enter(),
        ensures
            old(self)@.enters(final(self)@),
            final(self)@.wf(),
    {
        if self.moving_focus {
            self.prev_state = Some(self.state);
            self.state = AppState::MovingFocus;
            self.db_cursor.cursor = 0;
            self.db_cursor.scroll = 0;
        }
        match self.state {
            AppState::Normal | AppState::MovingFocus => self.choose_menu_item(),
            AppState::NewList => self.generate_list(),
            AppState::ReplaceList => self.replace_old_list(),
            AppState::AddToGeneratedList => self.manual_add_dish_to_shoppinglist(),
            AppState::ShowGeneratedList => self.show_and_save_generated_list(),
            AppState::AddToShoppingList => self.add_to_shopping_list(),
            AppState::PromptPrint => self.print_promt_confirm_options(),
            AppState::EnteringDishName => self.confirm_dish_name(),
            AppState::EnteringIngredients => self.confirm_ingredient(),
            AppState::ViewingDatabase => self.start_editing_dish(),
            AppState::EditingDish => self.confirm_editing_dish(),
            AppState::EditingIngredient => self.edit_ingredient(),
            AppState::EditingDishName => self.edit_dish_name(),
            AppState::AreYouSureDelDish => self.delete_dish_option(),
            AppState::EditingAddIngredient => self.edit_add_ingredient(),
            AppState::PickingCategory => self.confim_category(),
            AppState::UploadFirstLogin => self.upload_first_login(),
            AppState::UploadShowLoginUrl => self.state = AppState::UploadEnterCode,
            AppState::UploadEnterCode => self.send_code(),
            AppState::UploadMenu => self.init_upload_list(),
            _ => {},
        }
    }

    /// Enter on the main menu: opens the chosen view.
    fn choose_menu_item(&mut self)
        requires
            old(self)@.wf(),
        ensures
            final(self)@ == old(self)@.after_menu_choice(),
            final(self)@.wf(),
    {
        self.input = String::new();
        if self.selected_space == Space::MainLeft {
            if self.cursor == 0 {
                self.open_new_list();
            } else if self.cursor == 1 {
                self.open_view_edit_list();
            } else if self.cursor == 2 {
                self.open_add_dish_to_dishtabase();
            } else if self.cursor == 3 {
                self.open_view_edit_dishtabase();
            } else if self.cursor == 4 {
                self.emit(Effect::CheckUploadToken);
            }
            self.moving_focus = false;
        }
    }

    /// Escape: back one view.
    pub fn handle_esc(&mut self)
        requires
            old(self)@.wf(),
            old(self)@.can_escape(),
        ensures
            final(self)@ == old(self)@.after_escape(),
            final(self)@.wf(),
    {
        match self.state {
            AppState::EditingDish | AppState::AreYouSureDelDish => {
                let c = self.db_cursor.cursor;
                let mut d = self.db.dishes[c].clone();
                sort_by_category(&mut d.ingredients);
                let ghost dbs = self.db.dishes@;
                self.db.dishes.set(c, d);
                proof {
                    lemma_dishes_view_update(dbs, c as int, d);
                }
                self.state = AppState::ViewingDatabase;
                self.edit_cursor.cursor = 0;
                self.ays_cursor = 0;
                self.edit_cursor.scroll = 0;
            },
            AppState::EditingIngredient | AppState::EditingDishName => {
                self.state = AppState::EditingDish;
                self.pending_dish = None;
                self.input = String::new();
            },
            AppState::PickingCategory => {
                if let Some(prev_state) = self.prev_state {
                    self.state = prev_state;
                    self.prev_state = None;
                } else {
                    self.state = AppState::Normal;
                }
            },
            AppState::AddToShoppingList => {
                self.state = AppState::ShowShoppingList;
                self.input = String::new();
            },
            AppState::AddToGeneratedList => {
                self.state = self.prev_state.unwrap();
                self.prev_state = None;
                self.db_cursor.cursor = 0;
            },
            _ => {
                self.state = AppState::Normal;
                self.selected_space = Space::MainLeft;
                self.pending_dish = None;
                self.input = String::new();
                self.cursor = 0;
                self.db_cursor.cursor = 0;
                self.edit_cursor.cursor = 0;
            },
        }
    }

    /// Delete: removes an ingredient or item, asks before deleting a dish, or
    /// draws a new dish for the menu.
    pub fn handle_delete(&mut self)
        requires
            old(self)@.wf(),
            old(self)@.can_delete(),
        ensures
            old(self)@.deletes(final(self)@),
            final(self)@.wf(),
    {
        match self.state {
            AppState::EnteringIngredients | AppState::EditingDish | AppState::ShowShoppingList => {
                self.delete_ingredient()
            },
            AppState::ViewingDatabase => {
                if self.db.dishes.len() > 0 {
                    self.state = AppState::AreYouSureDelDish;
                }
            },
            AppState::ShowGeneratedList => self.generate_new_dish(),
            _ => {},
        }
    }

    /// A Control combination with a meaning of its own.
    fn handle_ctrl(&mut self, c: Option<char>)
        requires
            old(self)@.wf(),
            c == Some('n') && old(self).state == AppState::ViewingDatabase ==> old(self).db_cursor.cursor
                < old(self)@.db.len(),
            c == Some('k') && old(self).state == AppState::EditingDish ==> old(self).db_cursor.cursor
                < old(self)@.db.len(),
        ensures
            final(self)@ == old(self)@.after_ctrl(c),
            final(self)@.wf(),
    {
        match c {
            Some('s') => {
                if self.pending_dish.is_some() && (self.state == AppState::EnteringIngredients
                    || self.state == AppState::EditingDishName) {
                    self.push_dish_to_db();
                }
            },
            Some('n') => {
                if self.state == AppState::ViewingDatabase {
                    self.state = AppState::EditingDishName;
                    let d = self.db.dishes[self.db_cursor.cursor].clone();
                    self.input = d.name.clone();
                    self.pending_dish = Some(d);
                }
            },
            Some('a') => {
                if self.state == AppState::EditingDish {
                    self.state = AppState::EditingAddIngredient;
                } else if self.state == AppState::ShowGeneratedList {
                    self.prev_state = Some(self.state);
                    self.state = AppState::AddToGeneratedList;
                } else if self.state == AppState::ShowShoppingList {
                    self.state = AppState::AddToShoppingList;
                }
            },
            Some('k') => {
                if self.state == AppState::EditingDish {
                    self.pending_dish = Some(self.db.dishes[self.db_cursor.cursor].clone());
                    self.prev_state = Some(self.state);
                    self.state = AppState::PickingCategory;
                }
            },
            Some('p') => {
                if self.state == AppState::ShowShoppingList {
                    self.state = AppState::PromptPrint;
                }
            },
            _ => self.backspace(true),
        }
    }

    /// Whether the key `key` can be handled now without failing: it fails
    /// where it would select or edit a dish, ingredient or item that does
    /// not exist.
    pub fn can_handle(&self, key: Key) -> (r: bool)
        requires
            self@.wf(),
        ensures
            r == self@.can_handle_key(key),
    {
        let c = self.db_cursor.cursor;
        let ndb = self.db.dishes.len();
        let state = self.state;
        if key.ctrl {
            match key.code {
                KeyCode::Char(ch) => {
                    if ch == 's' || ch == 'n' || ch == 'a' || ch == 'k' || ch == 'p' || ch == 'h' {
                        if (ch == 'n' && state == AppState::ViewingDatabase) || (ch == 'k' && state
                            == AppState::EditingDish) {
                            return c < ndb;
                        }
                        return true;
                    }
                },
                KeyCode::Backspace => {
                    return true;
                },
                _ => {},
            }
        }
        match key.code {
            KeyCode::Esc => {
                if state == AppState::EditingDish || state == AppState::AreYouSureDelDish {
                    c < ndb
                } else if state == AppState::AddToGeneratedList {
                    self.prev_state.is_some()
                } else {
                    true
                }
            },
            KeyCode::Down => {
                if state == AppState::AreYouSureDelDish || state == AppState::ReplaceList || state
                    == AppState::PromptPrint || self.selected_space == Space::MainLeft {
                    true
                } else if state == AppState::EditingDish {
                    c < ndb
                } else if state == AppState::ShowGeneratedList {
                    match &self.current_dish_list {
                        Some(l) => l.len() > 0,
                        None => true,
                    }
                } else {
                    true
                }
            },
            KeyCode::Up => {
                if state == AppState::AreYouSureDelDish || state == AppState::ReplaceList || state
                    == AppState::PromptPrint || self.selected_space == Space::MainLeft {
                    true
                } else if state == AppState::EditingDish {
                    c < ndb
                } else {
                    true
                }
            },
            KeyCode::Delete => {
                if state == AppState::EditingDish {
                    c < ndb && (self.db.dishes[c].ingredients.len() == 0 || self.edit_cursor.cursor
                        < self.db.dishes[c].ingredients.len())
                } else if state == AppState::ShowShoppingList {
                    self.shopping_list.len() == 0 || c < self.shopping_list.len()
                } else if state == AppState::ShowGeneratedList {
                    match &self.current_dish_list {
                        Some(l) => self.edit_cursor.cursor < l.len() && ndb > 0 && (l.len() == ndb
                            || self.has_replacement()),
                        None => false,
                    }
                } else {
                    true
                }
            },
            KeyCode::Enter => {
                if self.moving_focus {
                    return true;
                }
                match state {
                    AppState::AddToGeneratedList => self.prev_state.is_some() && (self.current_dish_list.is_none()
                        || c < ndb),
                    AppState::EditingDish | AppState::EditingAddIngredient => c < ndb,
                    AppState::EditingIngredient => match &self.pending_dish {
                        Some(p) => self.edit_cursor.cursor < p.ingredients.len() && c < ndb,
                        None => true,
                    },
                    AppState::EditingDishName => self.pending_dish.is_none() || c < ndb,
                    AppState::AreYouSureDelDish => !(self.ays_cursor == 0 && ndb > 0) || c < ndb,
                    AppState::NewList => {
                        let input = self.input.as_str();
                        if ndb > 0 && is_numeric_text(input) && input.unicode_len() > 0 {
                            if !is_ascii_numeral(input) {
                                return false;
                            }
                            match parse_numeral(input) {
                                Some(v) => {
                                    let asked = if v > ndb { ndb } else { v };
                                    asked <= distinct_dish_count(&self.db.dishes)
                                },
                                None => false,
                            }
                        } else {
                            true
                        }
                    },
                    AppState::PickingCategory => {
                        let pending_ok = match &self.pending_dish {
                            Some(p) => p.ingredients.len() > 0,
                            None => true,
                        };
                        let prev_ok = if self.prev_state == Some(AppState::EditingDish) {
                            c < ndb && self.edit_cursor.cursor < self.db.dishes[c].ingredients.len()
                        } else {
                            true
                        };
                        pending_ok && prev_ok
                    },
                    _ => true,
                }
            },
            _ => true,
        }
    }

    /// One key press: the step of the interface that it stands for.
    pub fn handle_key(&mut self, key: Key)
        requires
            old(self)@.wf(),
            old(self)@.can_handle_key(key),
        ensures
            old(self)@.handles_key(key, final(self)@),
            final(self)@.wf(),
    {
        if key.ctrl {
            let command = match key.code {
                KeyCode::Char(c) => {
                    if c == 's' || c == 'n' || c == 'a' || c == 'k' || c == 'p' {
                        Some(Some(c))
                    } else if c == 'h' {
                        Some(None)
                    } else {
                        None
                    }
                },
                KeyCode::Backspace => Some(None),
                _ => None,
            };
            if let Some(c) = command {
                self.handle_ctrl(c);
                return;
            }
        }
        match key.code {
            KeyCode::Char(c) => self.handle_char_key(c),
            KeyCode::Esc => self.handle_esc(),
            KeyCode::Down => self.move_cursor_down(),
            KeyCode::Up => self.move_cursor_up(),
            KeyCode::Left => self.move_focus_left(),
            KeyCode::Right => self.move_focus_right(),
            KeyCode::Backspace => self.backspace(false),
            KeyCode::Delete => self.handle_delete(),
            KeyCode::Enter => self.handle_enter(),
            KeyCode::Tab => self.handle_tab(),
            KeyCode::Other => {},
        }
    }

    /// One key press, where it can be handled: says whether it was, and
    /// leaves the state as it was where it was not.
    pub fn try_handle_key(&mut self, key: Key) -> (handled: bool)
        requires
            old(self)@.wf(),
        ensures
            handled == old(self)@.can_handle_key(key),
            handled ==> old(self)@.handles_key(key, final(self)@),
            !handled ==> final(self)@ == old(self)@,
            final(self)@.wf(),
    {
        if self.can_handle(key) {
            self.handle_key(key);
            true
        } else {
            false
        }
    }

    /// A character key without Control.
    fn handle_char_key(&mut self, c: char)
        requires
            old(self)@.wf(),
        ensures
            final(self)@ == old(self)@.after_char_key(c),
            final(self)@.wf(),
    {
                if c == 'q' && !state_types_q(self.state) {
                    self.emit(Effect::Quit);
                } else if c == 'p' && self.state == AppState::PromptPrint {
                    self.emit(Effect::PrintShoppingList);
                    self.state = AppState::ShowShoppingList;
                } else if c == 'p' && self.state == AppState::UploadShowLoginUrl {
                    self.emit(Effect::PasteLoginCode);
                    self.state = AppState::UploadEnterCode;
                } else if c == 'c' && self.state == AppState::UploadShowLoginUrl {
                    self.emit(Effect::CopyLoginUrl);
                } else {
                    self.char_input(c);
                }
    }
}

} // verus!
