use vstd::prelude::*;
use crate::app::{App, AppState, AppView, Effect, EffectView, picked_category};
use crate::dishtabase::{new_ingredient, with_ingredients};
use crate::items::{
    Category, Dish, DishView, Ingredient, IngredientView, clone_dishes, dishes_view, ingredients_view,
    lemma_dishes_view_push, lemma_dishes_view_update, lemma_ingredients_view_drop_last,
    lemma_ingredients_view_push, lemma_ingredients_view_update, sort_by_category, sorted_by_category,
};
use crate::list::{make_shopping_list, shopping_list_for};
use crate::text::{capitalised_words, lowercase, to_lowercase, uppercase_words};
use crate::ui::{Cursor, scrolled, update_scroll};

verus! {

broadcast use vstd::seq_lib::group_seq_properties;

/// Where the selection ends up after going over the first `k` items of `s`
/// and moving to (and scrolling to) each one named `name`: on the last such
/// item, if there is one.
pub open spec fn point_at_name(c: Cursor, s: Seq<IngredientView>, name: Seq<char>, k: nat) -> Cursor
    decreases k,
{
    if k == 0 {
        c
    } else {
        let prev = point_at_name(c, s, name, (k - 1) as nat);
        if s[k - 1].name == name {
            scrolled(Cursor { cursor: (k - 1) as usize, ..prev })
        } else {
            prev
        }
    }
}

/// The menu that stands in for a shopping list made by hand.
pub open spec fn placeholder_menu() -> Seq<DishView> {
    seq![DishView { name: "n/a"@, ingredients: Seq::empty() }]
}

impl AppView {
    /// The state after selecting the items of the shopping list named `name`.
    pub open spec fn pointing_at(self, name: Seq<char>) -> AppView {
        AppView {
            db_cursor: point_at_name(self.db_cursor, self.shopping_list, name, self.shopping_list.len()),
            ..self
        }
    }

    /// The state after adding the typed item to the shopping list: it is
    /// filed under its known category (or the user is asked for one), the
    /// list is sorted by category, the new item is selected and the list is
    /// saved.
    pub open spec fn after_add_to_shopping_list(self) -> AppView {
        let c = self.category_for(self.input);
        let name = capitalised_words(self.input);
        let v = AppView { shopping_list: self.shopping_list.push(new_ingredient(name, c)), ..self };
        let v = if c == Category::Misc {
            AppView { prev_state: Some(v.state), state: AppState::PickingCategory, ..v }
        } else {
            v
        };
        let v = AppView { input: Seq::empty(), shopping_list: sorted_by_category(v.shopping_list), ..v };
        let v = v.pointing_at(name);
        let v = if v.current_dish_list is None {
            AppView { current_dish_list: Some(placeholder_menu()), ..v }
        } else {
            v
        };
        v.with_effect(EffectView::SaveShoppingList)
    }

    /// The state after adding the selected dish of the Dishtabase to the
    /// menu on show.
    pub open spec fn after_manual_add_dish(self) -> AppView {
        AppView {
            current_dish_list: match self.current_dish_list {
                Some(l) => Some(l.push(self.db[self.db_cursor.cursor as int])),
                None => None,
            },
            state: self.prev_state->0,
            prev_state: None,
            ..self
        }
    }

    /// The state after accepting the menu on show: its shopping list is
    /// made, both are saved, and the shopping list is shown from the top.
    pub open spec fn after_accept_generated_list(self) -> AppView {
        AppView {
            shopping_list: match self.current_dish_list {
                Some(l) => shopping_list_for(l),
                None => Seq::empty(),
            },
            state: AppState::ShowShoppingList,
            db_cursor: Cursor { cursor: 0, scroll: 0, ..self.db_cursor },
            ..self
        }.with_effect(EffectView::SaveDishList).with_effect(EffectView::SaveShoppingList)
    }

    /// The state after toggling the selected option of the text export.
    pub open spec fn after_toggle_print_option(self) -> AppView {
        AppView {
            text_options: if self.ays_cursor == 0 {
                (!self.text_options.0, self.text_options.1)
            } else {
                (self.text_options.0, !self.text_options.1)
            },
            ..self
        }
    }

    /// The state after answering whether to replace the current menu.
    pub open spec fn after_replace_old_list(self) -> AppView {
        if self.ays_cursor == 0 {
            AppView { state: AppState::NewList, ays_cursor: 0, ..self }
        } else {
            AppView {
                state: AppState::Normal,
                selected_space: crate::app::Space::MainLeft,
                ays_cursor: 0,
                ..self
            }
        }
    }

    /// What choosing a category needs in order not to fail: a dish being
    /// made has an ingredient to file, and the dish and ingredient being
    /// edited exist.
    pub open spec fn can_confirm_category(self) -> bool {
        &&& (self.pending_dish is Some ==> self.pending_dish->0.ingredients.len() > 0)
        &&& (self.prev_state == Some(AppState::EditingDish) ==> {
            &&& self.db_cursor.cursor < self.db.len()
            &&& self.edit_cursor.cursor < self.db[self.db_cursor.cursor as int].ingredients.len()
        })
    }

    /// The state after choosing a category in the picking menu: the last
    /// ingredient of the dish at hand gets it and is remembered under its
    /// lower-case name; the ingredient being edited, or the item just added
    /// to the shopping list, gets it too; and the previous view comes back.
    pub open spec fn after_confirm_category(self) -> AppView {
        let chosen = picked_category(self.picking_cursor);
        let v = self.after_learn_category(chosen);
        let v = match self.prev_state {
            Some(ps) => AppView { state: ps, ..v.after_apply_category(chosen, ps) },
            None => v,
        };
        AppView { prev_state: None, picking_cursor: 0, ..v }
    }

    /// The state after the last ingredient of the dish at hand gets the
    /// category `chosen` and is remembered under its lower-case name.
    pub open spec fn after_learn_category(self, chosen: Category) -> AppView {
        match self.pending_dish {
            Some(p) => {
                let i = IngredientView { category: chosen, ..p.ingredients.last() };
                AppView {
                    pending_dish: Some(with_ingredients(p, p.ingredients.drop_last().push(i))),
                    category_db: self.category_db.push((lowercase(i.name), chosen)),
                    ..self
                }.with_effect(EffectView::SaveLearnedCategory(i))
            },
            None => self,
        }
    }

    /// The state after the ingredient being edited (when `ps` is editing a
    /// dish) or the item just added to the shopping list (when `ps` is adding
    /// one) gets the category `chosen`.
    pub open spec fn after_apply_category(self, chosen: Category, ps: AppState) -> AppView {
        if ps == AppState::EditingDish {
            let d = self.db[self.db_cursor.cursor as int];
            let e = self.edit_cursor.cursor as int;
            let ing = IngredientView { category: chosen, ..d.ingredients[e] };
            AppView {
                db: self.db.update(self.db_cursor.cursor as int, with_ingredients(d, d.ingredients.update(e, ing))),
                ..self
            }
        } else if ps == AppState::AddToShoppingList && self.shopping_list.len() > 0 {
            let last = self.shopping_list.last();
            let i = IngredientView { category: chosen, ..last };
            AppView {
                shopping_list: sorted_by_category(self.shopping_list.drop_last().push(i)),
                ..self
            }.pointing_at(last.name).with_effect(EffectView::SaveShoppingList)
        } else {
            self
        }
    }
}

impl App {
    /// Selects the items of the shopping list named `name`, scrolling to each.
    fn select_by_name(&mut self, name: &String)
        requires
            old(self)@.wf(),
        ensures
            final(self)@ == old(self)@.pointing_at(name@),
            final(self)@.wf(),
    {
        let ghost s = ingredients_view(self.shopping_list@);
        let ghost c0 = self.db_cursor;
        let n = self.shopping_list.len();
        for i in 0..n
            invariant
                n == self.shopping_list.len(),
                s == ingredients_view(self.shopping_list@),
                self@ == (AppView { db_cursor: point_at_name(c0, s, name@, i as nat), ..old(self)@ }),
                old(self)@.wf(),
                self@.wf(),
        {
            if self.shopping_list[i].name == *name {
                self.db_cursor.cursor = i;
                update_scroll(&mut self.db_cursor);
            }
        }
    }

    /// Adds the typed item to the shopping list.
    pub(crate) fn add_to_shopping_list(&mut self)
        requires
            old(self)@.wf(),
        ensures
            final(self)@ == old(self)@.after_add_to_shopping_list(),
            final(self)@.wf(),
    {
        let found_category = self.find_category(self.input.as_str());
        let input = uppercase_words(self.input.as_str());
        let search_input = input.clone();
        let ghost before = self.shopping_list@;
        let i = Ingredient { name: input, category: found_category, frozen: false };
        self.shopping_list.push(i);
        proof {
            lemma_ingredients_view_push(before, i);
        }
        if found_category == Category::Misc {
            self.prev_state = Some(self.state);
            self.state = AppState::PickingCategory;
        }
        self.input = String::new();
        sort_by_category(&mut self.shopping_list);
        self.select_by_name(&search_input);
        if self.current_dish_list.is_none() {
            let placeholder = Dish { name: "n/a".to_owned(), ingredients: Vec::new() };
            let mut menu: Vec<Dish> = Vec::new();
            menu.push(placeholder);
            proof {
                assert(ingredients_view(placeholder.ingredients@) =~= Seq::<IngredientView>::empty());
                assert(dishes_view(menu@) =~= placeholder_menu());
            }
            self.current_dish_list = Some(menu);
        }
        self.emit(Effect::SaveShoppingList);
    }

    /// Adds the selected dish of the Dishtabase to the menu on show and goes
    /// back to it.
    pub(crate) fn manual_add_dish_to_shoppinglist(&mut self)
        requires
            old(self)@.wf(),
            old(self)@.prev_state is Some,
            old(self)@.current_dish_list is Some ==> old(self).db_cursor.cursor < old(self)@.db.len(),
        ensures
            final(self)@.wf(),
            final(self)@ == old(self)@.after_manual_add_dish(),
    {
        if let Some(list) = &self.current_dish_list {
            let mut l = clone_dishes(list);
            let d = self.db.dishes[self.db_cursor.cursor].clone();
            let ghost before = l@;
            l.push(d);
            proof {
                lemma_dishes_view_push(before, d);
            }
            self.current_dish_list = Some(l);
        }
        self.state = self.prev_state.unwrap();
        self.prev_state = None;
    }

    /// Accepts the menu on show: makes and saves its shopping list.
    pub(crate) fn show_and_save_generated_list(&mut self)
        requires
            old(self)@.wf(),
        ensures
            final(self)@.wf(),
            final(self)@ == old(self)@.after_accept_generated_list(),
    {
        let menu = match &self.current_dish_list {
            Some(l) => Some(clone_dishes(l)),
            None => None,
        };
        make_shopping_list(menu, &mut self.shopping_list);
        self.emit(Effect::SaveDishList);
        self.emit(Effect::SaveShoppingList);
        self.state = AppState::ShowShoppingList;
        self.db_cursor.cursor = 0;
        self.db_cursor.scroll = 0;
    }

    /// Toggles the selected option of the text export: numbering, or
    /// grouping by category.
    pub(crate) fn print_promt_confirm_options(&mut self)
        requires
            old(self)@.wf(),
        ensures
            final(self)@.wf(),
            final(self)@ == old(self)@.after_toggle_print_option(),
    {
        if self.ays_cursor == 0 {
            self.text_options.0 = !self.text_options.0;
        } else {
            self.text_options.1 = !self.text_options.1;
        }
    }

    /// Replaces the current menu when the user said yes; back to the main
    /// menu otherwise.
    pub(crate) fn replace_old_list(&mut self)
        requires
            old(self)@.wf(),
        ensures
            final(self)@.wf(),
            final(self)@ == old(self)@.after_replace_old_list(),
    {
        if self.ays_cursor == 0 {
            self.state = AppState::NewList;
        } else {
            self.state = AppState::Normal;
            self.selected_space = crate::app::Space::MainLeft;
        }
        self.ays_cursor = 0;
    }

    /// Gives the last ingredient of the dish at hand the category `chosen`
    /// and remembers it.
    fn learn_category(&mut self, chosen_category: Category)
        requires
            old(self)@.pending_dish is Some ==> old(self)@.pending_dish->0.ingredients.len() > 0,
        ensures
            final(self)@ == old(self)@.after_learn_category(chosen_category),
    {
        if let Some(pending) = &self.pending_dish {
            let mut p = pending.clone();
            let ghost before = p.ingredients@;
            let mut i = p.ingredients.pop().unwrap();
            proof {
                lemma_ingredients_view_drop_last(before);
            }
            i.category = chosen_category;
            let learned = i.clone();
            let key = to_lowercase(i.name.as_str());
            let ghost mid = p.ingredients@;
            p.ingredients.push(i);
            proof {
                lemma_ingredients_view_push(mid, i);
            }
            self.pending_dish = Some(p);
            self.emit(Effect::SaveLearnedCategory(learned));
            self.category_db.insert(key, chosen_category);
        }
    }

    /// Gives the ingredient being edited, or the item just added to the
    /// shopping list, the category `chosen`.
    fn apply_category(&mut self, chosen_category: Category, prev_state: AppState)
        requires
            old(self)@.wf(),
            prev_state == AppState::EditingDish ==> {
                &&& old(self).db_cursor.cursor < old(self)@.db.len()
                &&& old(self).edit_cursor.cursor < old(self)@.db[old(self).db_cursor.cursor as int].ingredients.len()
            },
        ensures
            final(self)@ == old(self)@.after_apply_category(chosen_category, prev_state),
            final(self)@.wf(),
    {
        if prev_state == AppState::EditingDish {
            let mut d = self.db.dishes[self.db_cursor.cursor].clone();
            let e = self.edit_cursor.cursor;
            let mut ing = d.ingredients[e].clone();
            ing.category = chosen_category;
            let ghost before = d.ingredients@;
            d.ingredients.set(e, ing);
            proof {
                lemma_ingredients_view_update(before, e as int, ing);
            }
            let ghost dbs = self.db.dishes@;
            self.db.dishes.set(self.db_cursor.cursor, d);
            proof {
                lemma_dishes_view_update(dbs, self.db_cursor.cursor as int, d);
            }
        } else if prev_state == AppState::AddToShoppingList && self.shopping_list.len() > 0 {
            let ghost before = self.shopping_list@;
            let mut i = self.shopping_list.pop().unwrap();
            proof {
                lemma_ingredients_view_drop_last(before);
            }
            let search_input = i.name.clone();
            i.category = chosen_category;
            let ghost mid = self.shopping_list@;
            self.shopping_list.push(i);
            proof {
                lemma_ingredients_view_push(mid, i);
            }
            sort_by_category(&mut self.shopping_list);
            self.select_by_name(&search_input);
            self.emit(Effect::SaveShoppingList);
        }
    }

    /// Files the ingredient at hand under the category chosen in the picking
    /// menu.
    pub(crate) fn confim_category(&mut self)
        requires
            old(self)@.wf(),
            old(self)@.can_confirm_category(),
        ensures
            final(self)@ == old(self)@.after_confirm_category(),
            final(self)@.wf(),
    {
        let chosen_category: Category = match self.picking_cursor {
            0 => Category::Misc,
            1 => Category::Vegetables,
            2 => Category::Fruit,
            3 => Category::Dairy,
            4 => Category::Protein,
            5 => Category::Pantry,
            6 => Category::Spices,
            _ => Category::Misc,
        };
        self.learn_category(chosen_category);
        if let Some(prev_state) = self.prev_state {
            self.apply_category(chosen_category, prev_state);
            self.state = prev_state;
        }
        self.prev_state = None;
        self.picking_cursor = 0;
    }
}

} // verus!
