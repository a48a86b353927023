use vstd::prelude::*;
use crate::app::{App, AppState, AppView, Effect, EffectView};
use crate::items::{
    Category, Dish, DishView, Ingredient, IngredientView, ingredients_view,
    lemma_dishes_view_remove, lemma_dishes_view_update, lemma_ingredients_view_drop_last,
    lemma_ingredients_view_push, lemma_ingredients_view_remove, lemma_ingredients_view_update,
    sort_by_category, sorted_by_category,
};
use crate::text::{capitalised_words, uppercase_words};
use crate::ui::{Cursor, scrolled, update_scroll};

verus! {

broadcast use vstd::seq_lib::group_seq_properties;

/// A new ingredient as the interface makes it: never frozen.
pub open spec fn new_ingredient(name: Seq<char>, category: Category) -> IngredientView {
    IngredientView { name, category, frozen: false }
}

/// `d` with its ingredients replaced.
pub open spec fn with_ingredients(d: DishView, ingredients: Seq<IngredientView>) -> DishView {
    DishView { ingredients, ..d }
}

impl AppView {
    /// The state after confirming the name of a new dish.
    pub open spec fn after_confirm_dish_name(self) -> AppView {
        let name = capitalised_words(self.input);
        if name.len() == 0 {
            self
        } else {
            AppView {
                pending_dish: Some(DishView { name, ingredients: Seq::empty() }),
                input: Seq::empty(),
                state: AppState::EnteringIngredients,
                ..self
            }
        }
    }

    /// The state after confirming an ingredient of a new dish. An ingredient
    /// of no known category sends the user to pick one.
    pub open spec fn after_confirm_ingredient(self) -> AppView {
        let name = capitalised_words(self.input);
        let c = self.category_for(name);
        if name.len() == 0 {
            self
        } else {
            let v = AppView {
                pending_dish: match self.pending_dish {
                    Some(d) => Some(with_ingredients(d, d.ingredients.push(new_ingredient(name, c)))),
                    None => None,
                },
                ..self
            };
            let v = if c == Category::Misc {
                AppView { prev_state: Some(v.state), state: AppState::PickingCategory, ..v }
            } else {
                v
            };
            AppView { inline_complete: None, inline_complete_whole_word: None, input: Seq::empty(), ..v }
        }
    }

    /// The state after choosing a dish of the Dishtabase to edit.
    pub open spec fn after_start_editing_dish(self) -> AppView {
        if self.db.len() == 0 {
            self
        } else {
            AppView { state: AppState::EditingDish, ..self }
        }
    }

    /// The state after choosing the ingredient of the dish to edit.
    pub open spec fn after_confirm_editing_dish(self) -> AppView {
        AppView {
            state: AppState::EditingIngredient,
            pending_dish: Some(self.db[self.db_cursor.cursor as int]),
            ..self
        }
    }

    /// The state after confirming the new name of an ingredient: the
    /// ingredient is renamed and filed anew, and the Dishtabase is saved.
    pub open spec fn after_edit_ingredient(self) -> AppView {
        let c = self.category_for(self.input);
        let name = capitalised_words(self.input);
        let v = match self.pending_dish {
            Some(p) => {
                let e = self.edit_cursor.cursor as int;
                let old_ing = p.ingredients[e];
                let p2 = with_ingredients(p, p.ingredients.update(e, IngredientView { name, category: c, ..old_ing }));
                AppView {
                    db: self.db.update(self.db_cursor.cursor as int, p2),
                    pending_dish: None,
                    input: Seq::empty(),
                    ..self
                }.with_effect(EffectView::SaveDishtabase)
            },
            None => self,
        };
        AppView { state: AppState::EditingDish, ..v }
    }

    /// The state after confirming the new name of a dish.
    pub open spec fn after_edit_dish_name(self) -> AppView {
        if self.state != AppState::EditingDishName {
            self
        } else {
            match self.pending_dish {
                Some(p) => AppView {
                    db: self.db.update(self.db_cursor.cursor as int, DishView { name: capitalised_words(self.input), ..p }),
                    input: Seq::empty(),
                    pending_dish: None,
                    state: AppState::EditingDish,
                    ..self
                }.with_effect(EffectView::SaveDishtabase),
                None => self,
            }
        }
    }

    /// The state after deleting the selected dish of the Dishtabase: the
    /// selection stays on the same line, or on the last dish when the last
    /// one went.
    pub open spec fn after_delete_dish(self) -> AppView {
        if self.db.len() == 0 {
            self
        } else {
            let c = self.db_cursor.cursor;
            let db = self.db.remove(c as int);
            AppView {
                db,
                ays_cursor: 0,
                db_cursor: if c == db.len() && db.len() > 0 {
                    Cursor { cursor: (c - 1) as usize, ..self.db_cursor }
                } else {
                    self.db_cursor
                },
                state: AppState::ViewingDatabase,
                ..self
            }.with_effect(EffectView::SaveDishtabase)
        }
    }

    /// The state after answering the question whether to delete a dish.
    pub open spec fn after_delete_dish_option(self) -> AppView {
        if self.ays_cursor == 0 {
            self.after_delete_dish()
        } else {
            AppView { state: AppState::ViewingDatabase, ..self }
        }
    }

    /// The state after adding an ingredient to the dish being edited: it is
    /// selected, and the Dishtabase is saved.
    pub open spec fn after_edit_add_ingredient(self) -> AppView {
        let d = self.db[self.db_cursor.cursor as int];
        let name = capitalised_words(self.input);
        let c = self.category_for(name);
        let d2 = with_ingredients(d, d.ingredients.push(new_ingredient(name, c)));
        AppView {
            db: self.db.update(self.db_cursor.cursor as int, d2),
            edit_cursor: scrolled(Cursor { cursor: (d2.ingredients.len() - 1) as usize, ..self.edit_cursor }),
            state: AppState::EditingDish,
            input: Seq::empty(),
            pending_dish: None,
            ..self
        }.with_effect(EffectView::SaveDishtabase)
    }

    /// The state after saving the new dish to the Dishtabase, its
    /// ingredients sorted by category.
    pub open spec fn after_push_dish_to_db(self) -> AppView {
        if self.cursor == 4 {
            self
        } else {
            let v = match self.pending_dish {
                Some(d) => AppView {
                    db: self.db.push(with_ingredients(d, sorted_by_category(d.ingredients))),
                    pending_dish: None,
                    ..self
                }.with_effect(EffectView::SaveDishtabase),
                None => self,
            };
            AppView { state: AppState::EnteringDishName, input: Seq::empty(), ..v }
        }
    }

    /// What deleting an ingredient needs in order not to fail: the dish
    /// being edited exists, and so does its selected ingredient; on the
    /// shopping list, the selected item exists.
    pub open spec fn can_delete_ingredient(self) -> bool {
        &&& (self.state == AppState::EditingDish ==> {
            &&& self.db_cursor.cursor < self.db.len()
            &&& self.db[self.db_cursor.cursor as int].ingredients.len() > 0 ==> self.edit_cursor.cursor
                < self.db[self.db_cursor.cursor as int].ingredients.len()
        })
        &&& (self.state == AppState::ShowShoppingList && self.shopping_list.len() > 0
            ==> self.db_cursor.cursor < self.shopping_list.len())
    }

    /// The state after deleting an ingredient: the last one of a new dish,
    /// the selected one of a dish being edited (saving the Dishtabase), or
    /// the selected item of the shopping list (saving it).
    pub open spec fn after_delete_ingredient(self) -> AppView {
        if self.state == AppState::EnteringIngredients {
            match self.pending_dish {
                Some(d) => AppView {
                    pending_dish: Some(
                        if d.ingredients.len() == 0 {
                            d
                        } else {
                            with_ingredients(d, d.ingredients.drop_last())
                        },
                    ),
                    ..self
                },
                None => self,
            }
        } else if self.state == AppState::EditingDish {
            let d = self.db[self.db_cursor.cursor as int];
            let e = self.edit_cursor.cursor;
            let ings = if d.ingredients.len() == 0 {
                d.ingredients
            } else {
                d.ingredients.remove(e as int)
            };
            AppView {
                edit_cursor: if e == ings.len() && ings.len() > 0 {
                    Cursor { cursor: (e - 1) as usize, ..self.edit_cursor }
                } else {
                    self.edit_cursor
                },
                db: self.db.update(self.db_cursor.cursor as int, with_ingredients(d, ings)),
                pending_dish: None,
                ..self
            }.with_effect(EffectView::SaveDishtabase)
        } else if self.state == AppState::ShowShoppingList {
            let v = if self.shopping_list.len() == 0 {
                self
            } else {
                let c = self.db_cursor.cursor;
                let list = self.shopping_list.remove(c as int);
                AppView {
                    shopping_list: list,
                    db_cursor: if c >= list.len() && list.len() > 0 {
                        Cursor { cursor: (list.len() - 1) as usize, ..self.db_cursor }
                    } else {
                        self.db_cursor
                    },
                    current_dish_list: if list.len() == 0 {
                        None
                    } else {
                        self.current_dish_list
                    },
                    ..self
                }
            };
            v.with_effect(EffectView::SaveShoppingList)
        } else {
            self
        }
    }
}

impl App {
    /// Confirms the name of a new dish and starts asking for ingredients.
    pub fn confirm_dish_name(&mut self)
        requires
            old(self)@.wf(),
        ensures
            final(self)@.wf(),
            final(self)@ == old(self)@.after_confirm_dish_name(),
    {
        let input = uppercase_words(self.input.as_str());
        if input.as_str().unicode_len() == 0 {
            return;
        }
        let d = Dish { name: input, ingredients: Vec::new() };
        assert(ingredients_view(d.ingredients@) =~= Seq::<IngredientView>::empty());
        self.pending_dish = Some(d);
        self.input = String::new();
        self.state = AppState::EnteringIngredients;
    }

    /// Adds the typed ingredient to the new dish, filed under its known
    /// category, or asks for one.
    pub fn confirm_ingredient(&mut self)
        requires
            old(self)@.wf(),
        ensures
            final(self)@.wf(),
            final(self)@ == old(self)@.after_confirm_ingredient(),
    {
        let input = uppercase_words(self.input.as_str());
        let found_category = self.find_category(input.as_str());
        if input.as_str().unicode_len() == 0 {
            return;
        }
        if let Some(dish) = &self.pending_dish {
            let mut d = dish.clone();
            let ghost before = d.ingredients@;
            let i = Ingredient { name: input, frozen: false, category: found_category };
            d.ingredients.push(i);
            proof {
                lemma_ingredients_view_push(before, i);
            }
            self.pending_dish = Some(d);
        }
        if found_category == Category::Misc {
            self.prev_state = Some(self.state);
            self.state = AppState::PickingCategory;
        }
        self.inline_complete = None;
        self.inline_complete_whole_word = None;
        self.input = String::new();
    }

    /// Starts editing the selected dish of the Dishtabase.
    pub fn start_editing_dish(&mut self)
        requires
            old(self)@.wf(),
        ensures
            final(self)@.wf(),
            final(self)@ == old(self)@.after_start_editing_dish(),
    {
        if self.db.dishes.len() == 0 {
            return;
        }
        self.state = AppState::EditingDish;
    }

    /// Starts editing the selected ingredient of the dish being edited.
    pub fn confirm_editing_dish(&mut self)
        requires
            old(self)@.wf(),
            old(self).db_cursor.cursor < old(self)@.db.len(),
        ensures
            final(self)@.wf(),
            final(self)@ == old(self)@.after_confirm_editing_dish(),
    {
        self.state = AppState::EditingIngredient;
        self.pending_dish = Some(self.db.dishes[self.db_cursor.cursor].clone());
    }

    /// Renames the selected ingredient of the dish being edited.
    pub fn edit_ingredient(&mut self)
        requires
            old(self)@.wf(),
            old(self)@.pending_dish is Some ==> {
                &&& old(self).edit_cursor.cursor < old(self)@.pending_dish->0.ingredients.len()
                &&& old(self).db_cursor.cursor < old(self)@.db.len()
            },
        ensures
            final(self)@.wf(),
            final(self)@ == old(self)@.after_edit_ingredient(),
    {
        let found_category = self.find_category(self.input.as_str());
        let input = uppercase_words(self.input.as_str());
        if let Some(pending) = &self.pending_dish {
            let mut p = pending.clone();
            let e = self.edit_cursor.cursor;
            let mut ing = p.ingredients[e].clone();
            ing.name = input;
            ing.category = found_category;
            let ghost before = p.ingredients@;
            p.ingredients.set(e, ing);
            proof {
                lemma_ingredients_view_update(before, e as int, ing);
            }
            let ghost dbs = self.db.dishes@;
            self.db.dishes.set(self.db_cursor.cursor, p);
            proof {
                lemma_dishes_view_update(dbs, self.db_cursor.cursor as int, p);
            }
            self.emit(Effect::SaveDishtabase);
            self.pending_dish = None;
            self.input = String::new();
        }
        self.state = AppState::EditingDish;
    }

    /// Renames the dish being edited.
    pub fn edit_dish_name(&mut self)
        requires
            old(self)@.wf(),
            old(self)@.state == AppState::EditingDishName && old(self)@.pending_dish is Some
                ==> old(self).db_cursor.cursor < old(self)@.db.len(),
        ensures
            final(self)@.wf(),
            final(self)@ == old(self)@.after_edit_dish_name(),
    {
        if self.state != AppState::EditingDishName {
            return;
        }
        if let Some(pending) = &self.pending_dish {
            let mut p = pending.clone();
            p.name = uppercase_words(self.input.as_str());
            let ghost dbs = self.db.dishes@;
            self.db.dishes.set(self.db_cursor.cursor, p);
            proof {
                lemma_dishes_view_update(dbs, self.db_cursor.cursor as int, p);
            }
            self.input = String::new();
            self.emit(Effect::SaveDishtabase);
            self.pending_dish = None;
            self.state = AppState::EditingDish;
        }
    }

    /// Deletes the selected dish from the Dishtabase.
    pub fn delete_dish(&mut self)
        requires
            old(self)@.wf(),
            old(self)@.db.len() > 0 ==> old(self).db_cursor.cursor < old(self)@.db.len(),
        ensures
            final(self)@.wf(),
            final(self)@ == old(self)@.after_delete_dish(),
    {
        if self.db.dishes.len() == 0 {
            return;
        }
        let ghost dbs = self.db.dishes@;
        self.db.dishes.remove(self.db_cursor.cursor);
        proof {
            lemma_dishes_view_remove(dbs, self.db_cursor.cursor as int);
        }
        self.ays_cursor = 0;
        if self.db_cursor.cursor == self.db.dishes.len() && self.db.dishes.len() > 0 {
            self.db_cursor.cursor -= 1;
        }
        self.emit(Effect::SaveDishtabase);
        self.state = AppState::ViewingDatabase;
    }

    /// Deletes the dish when the user said yes; goes back to the Dishtabase
    /// either way.
    pub fn delete_dish_option(&mut self)
        requires
            old(self)@.wf(),
            old(self).ays_cursor == 0 && old(self)@.db.len() > 0 ==> old(self).db_cursor.cursor
                < old(self)@.db.len(),
        ensures
            final(self)@.wf(),
            final(self)@ == old(self)@.after_delete_dish_option(),
    {
        if self.ays_cursor == 0 {
            self.delete_dish();
        } else {
            self.state = AppState::ViewingDatabase;
        }
    }

    /// Adds the typed ingredient to the dish being edited.
    pub fn edit_add_ingredient(&mut self)
        requires
            old(self)@.wf(),
            old(self).db_cursor.cursor < old(self)@.db.len(),
        ensures
            final(self)@.wf(),
            final(self)@ == old(self)@.after_edit_add_ingredient(),
    {
        let mut p = self.db.dishes[self.db_cursor.cursor].clone();
        let input = uppercase_words(self.input.as_str());
        let found_category = self.find_category(input.as_str());
        let ghost before = p.ingredients@;
        let i = Ingredient { name: input, category: found_category, frozen: false };
        p.ingredients.push(i);
        proof {
            lemma_ingredients_view_push(before, i);
        }
        let n = p.ingredients.len();
        let ghost dbs = self.db.dishes@;
        self.db.dishes.set(self.db_cursor.cursor, p);
        proof {
            lemma_dishes_view_update(dbs, self.db_cursor.cursor as int, p);
        }
        self.edit_cursor.cursor = n - 1;
        update_scroll(&mut self.edit_cursor);
        self.state = AppState::EditingDish;
        self.input = String::new();
        self.emit(Effect::SaveDishtabase);
        self.pending_dish = None;
    }

    /// Saves the new dish to the Dishtabase and starts on the next one.
    pub fn push_dish_to_db(&mut self)
        requires
            old(self)@.wf(),
        ensures
            final(self)@.wf(),
            final(self)@ == old(self)@.after_push_dish_to_db(),
    {
        if self.cursor == 4 {
            return;
        }
        if let Some(dish) = &self.pending_dish {
            let mut d = dish.clone();
            sort_by_category(&mut d.ingredients);
            let ghost dbs = self.db.dishes@;
            self.db.dishes.push(d);
            proof {
                crate::items::lemma_dishes_view_push(dbs, d);
            }
            self.pending_dish = None;
            self.emit(Effect::SaveDishtabase);
        }
        self.state = AppState::EnteringDishName;
        self.input = String::new();
    }

    /// Deletes an ingredient: the last one of a new dish, the selected one of
    /// the dish being edited, or the selected item of the shopping list.
    pub(crate) fn delete_ingredient(&mut self)
        requires
            old(self)@.wf(),
            old(self)@.can_delete_ingredient(),
        ensures
            final(self)@.wf(),
            final(self)@ == old(self)@.after_delete_ingredient(),
    {
        match self.state {
            AppState::EnteringIngredients => {
                if let Some(dish) = &self.pending_dish {
                    let mut d = dish.clone();
                    if d.ingredients.len() > 0 {
                        let ghost before = d.ingredients@;
                        d.ingredients.pop();
                        proof {
                            lemma_ingredients_view_drop_last(before);
                        }
                    }
                    self.pending_dish = Some(d);
                }
            },
            AppState::EditingDish => {
                let mut p = self.db.dishes[self.db_cursor.cursor].clone();
                if p.ingredients.len() > 0 {
                    let ghost before = p.ingredients@;
                    p.ingredients.remove(self.edit_cursor.cursor);
                    proof {
                        lemma_ingredients_view_remove(before, self.edit_cursor.cursor as int);
                    }
                }
                if self.edit_cursor.cursor == p.ingredients.len() && p.ingredients.len() > 0 {
                    self.edit_cursor.cursor -= 1;
                }
                let ghost dbs = self.db.dishes@;
                self.db.dishes.set(self.db_cursor.cursor, p);
                proof {
                    lemma_dishes_view_update(dbs, self.db_cursor.cursor as int, p);
                }
                self.emit(Effect::SaveDishtabase);
                self.pending_dish = None;
            },
            AppState::ShowShoppingList => {
                if self.shopping_list.len() > 0 {
                    let ghost before = self.shopping_list@;
                    self.shopping_list.remove(self.db_cursor.cursor);
                    proof {
                        lemma_ingredients_view_remove(before, self.db_cursor.cursor as int);
                    }
                    if self.db_cursor.cursor >= self.shopping_list.len() && self.shopping_list.len() > 0 {
                        self.db_cursor.cursor = self.shopping_list.len() - 1;
                    }
                    if self.shopping_list.len() == 0 {
                        self.current_dish_list = None;
                    }
                }
                self.emit(Effect::SaveShoppingList);
            },
            _ => {},
        }
    }
}

} // verus!
