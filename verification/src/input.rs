use vstd::prelude::*;
use crate::app::{App, AppState, AppView};
use crate::text::{erase_word, erase_word_in_place, pop_char, push_char, tail_string, to_lowercase};

verus! {

/// States whose input field takes plain text.
pub open spec fn takes_plain_text(s: AppState) -> bool {
    s == AppState::EnteringDishName || s == AppState::EditingDishName || s == AppState::NewList
        || s == AppState::UploadEnterCode
}

/// States whose input field names an ingredient and offers completions.
pub open spec fn takes_ingredient(s: AppState) -> bool {
    s == AppState::EnteringIngredients || s == AppState::EditingIngredient || s
        == AppState::EditingAddIngredient || s == AppState::AddToShoppingList
}

/// `s` with its last character removed, if it has one.
pub open spec fn without_last(s: Seq<char>) -> Seq<char> {
    if s.len() == 0 {
        s
    } else {
        s.drop_last()
    }
}

impl AppView {
    /// The state after typing `c`.
    pub open spec fn after_char(self, c: char) -> AppView {
        if takes_plain_text(self.state) {
            AppView { input: self.input.push(c), ..self }
        } else if takes_ingredient(self.state) {
            self.with_completed_input(self.input.push(c))
        } else if self.state == AppState::UploadMenu {
            if self.default_upload_name {
                AppView { default_upload_name: false, input: seq![c], ..self }
            } else {
                AppView { input: self.input.push(c), ..self }
            }
        } else {
            self
        }
    }

    /// The state after a backspace, word-wise when `ctrl` is held.
    pub open spec fn after_backspace(self, ctrl: bool) -> AppView {
        let erased = if ctrl {
            erase_word(self.input)
        } else {
            without_last(self.input)
        };
        if takes_plain_text(self.state) || self.state == AppState::UploadMenu {
            AppView { input: erased, ..self }
        } else if takes_ingredient(self.state) {
            self.with_completed_input(erased)
        } else {
            self
        }
    }

    /// The state after accepting the completion on offer.
    pub open spec fn after_tab_complete(self) -> AppView {
        AppView {
            input: match self.inline_complete_whole_word {
                Some(w) => w,
                None => self.input,
            },
            inline_complete: None,
            inline_complete_whole_word: None,
            ..self
        }
    }

    /// The state after the tab key.
    pub open spec fn after_tab(self) -> AppView {
        if takes_plain_text(self.state) || takes_ingredient(self.state) {
            self.after_tab_complete()
        } else {
            self
        }
    }
}

impl App {
    /// Types the character `c` into the input of the current state.
    pub fn char_input(&mut self, c: char)
        requires
            old(self)@.wf(),
        ensures
            final(self)@.wf(),
            final(self)@ == old(self)@.after_char(c),
    {
        match self.state {
            AppState::EnteringDishName
            | AppState::EditingDishName
            | AppState::NewList
            | AppState::UploadEnterCode => push_char(&mut self.input, c),
            AppState::EnteringIngredients
            | AppState::EditingIngredient
            | AppState::EditingAddIngredient
            | AppState::AddToShoppingList => {
                push_char(&mut self.input, c);
                self.update_inline_complete_ingredients();
            },
            AppState::UploadMenu => {
                self.clear_and_push_input_upload(c);
            },
            _ => {},
        }
    }

    /// In the upload menu, the first key typed replaces the proposed name.
    fn clear_and_push_input_upload(&mut self, c: char)
        ensures
            final(self)@ == (if old(self)@.default_upload_name {
                AppView { default_upload_name: false, input: seq![c], ..old(self)@ }
            } else {
                AppView { input: old(self)@.input.push(c), ..old(self)@ }
            }),
    {
        if self.default_upload_name == true {
            self.default_upload_name = false;
            self.input = String::new();
            push_char(&mut self.input, c);
        } else {
            push_char(&mut self.input, c);
        }
    }

    /// Deletes the last character of the input, or with `ctrl` the last word.
    pub fn backspace(&mut self, ctrl: bool)
        requires
            old(self)@.wf(),
        ensures
            final(self)@.wf(),
            final(self)@ == old(self)@.after_backspace(ctrl),
    {
        match self.state {
            AppState::EnteringDishName
            | AppState::EditingDishName
            | AppState::NewList
            | AppState::UploadEnterCode
            | AppState::UploadMenu => {
                if ctrl == false {
                    pop_char(&mut self.input);
                } else {
                    self.backspace_to_delimiter_or_whitespace();
                }
            },
            AppState::EnteringIngredients
            | AppState::EditingIngredient
            | AppState::EditingAddIngredient
            | AppState::AddToShoppingList => {
                if ctrl == false {
                    pop_char(&mut self.input);
                    self.update_inline_complete_ingredients();
                } else {
                    self.backspace_to_delimiter_or_whitespace();
                    self.update_inline_complete_ingredients();
                }
            },
            _ => {},
        }
    }

    /// Deletes the delimiter the input ends in, or else its last word.
    fn backspace_to_delimiter_or_whitespace(&mut self)
        ensures
            final(self)@ == (AppView { input: erase_word(old(self)@.input), ..old(self)@ }),
    {
        erase_word_in_place(&mut self.input);
    }

    /// Offers the first known ingredient name that starts with the input.
    pub fn update_inline_complete_ingredients(&mut self)
        requires
            old(self)@.wf(),
        ensures
            final(self)@.wf(),
            final(self)@ == old(self)@.with_completed_input(old(self)@.input),
    {
        self.inline_complete = None;
        self.inline_complete_whole_word = None;
        let lower = to_lowercase(self.input.as_str());
        match self.non_normalized_category_db.first_key_with_prefix(lower.as_str()) {
            Some(key) => {
                let n = self.input.as_str().unicode_len();
                self.inline_complete = Some(tail_string(key.as_str(), n));
                self.inline_complete_whole_word = Some(key);
            },
            None => {},
        }
        if self.input.as_str().unicode_len() == 0 {
            self.inline_complete = None;
            self.inline_complete_whole_word = None;
        }
    }

    /// Accepts the completion on offer.
    pub(crate) fn tab_complete(&mut self)
        requires
            old(self)@.wf(),
        ensures
            final(self)@.wf(),
            final(self)@ == old(self)@.after_tab_complete(),
    {
        if let Some(w) = &self.inline_complete_whole_word {
            self.input = w.clone();
        }
        self.inline_complete = None;
        self.inline_complete_whole_word = None;
    }

    /// The tab key: accepts the completion in the states with an input field.
    pub fn handle_tab(&mut self)
        requires
            old(self)@.wf(),
        ensures
            final(self)@.wf(),
            final(self)@ == old(self)@.after_tab(),
    {
        match self.state {
            AppState::EnteringDishName
            | AppState::EnteringIngredients
            | AppState::EditingIngredient
            | AppState::EditingDishName
            | AppState::EditingAddIngredient
            | AppState::NewList
            | AppState::AddToShoppingList
            | AppState::UploadEnterCode => self.tab_complete(),
            _ => {},
        }
    }
}

} // verus!
