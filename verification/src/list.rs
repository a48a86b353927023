use vstd::prelude::*;
use rand::Rng;
use crate::app::{App, AppState, AppView, Effect, EffectView};
use crate::text::{all_ascii_digits, all_numeric, digits_value, is_numeric_text, parse_numeral};
use crate::items::{
    Dish, DishView, Ingredient, IngredientView, clone_dishes, dish_equal, dish_in, dishes_view, ingredients_view,
    lemma_dishes_view_push, lemma_dishes_view_update,
    lemma_ingredients_view_push, lemma_ingredients_view_take_succ, sort_by_category,
    sorted_by_category,
};

verus! {

broadcast use vstd::seq_lib::group_seq_properties;

/// The names of a sequence of ingredients.
pub open spec fn names(s: Seq<IngredientView>) -> Seq<Seq<char>> {
    s.map_values(|i: IngredientView| i.name)
}

/// Every ingredient of every dish, dish after dish.
pub open spec fn all_ingredients(ds: Seq<DishView>) -> Seq<IngredientView>
    decreases ds.len(),
{
    if ds.len() == 0 {
        Seq::empty()
    } else {
        all_ingredients(ds.drop_last()) + ds.last().ingredients
    }
}

/// Keeps the first ingredient of each name, in order.
pub open spec fn first_of_each_name(s: Seq<IngredientView>) -> Seq<IngredientView>
    decreases s.len(),
{
    if s.len() == 0 {
        Seq::empty()
    } else if names(s.drop_last()).contains(s.last().name) {
        first_of_each_name(s.drop_last())
    } else {
        first_of_each_name(s.drop_last()).push(s.last())
    }
}

/// The shopping list for a menu: each ingredient of the menu's dishes once
/// (the first one of each name), sorted by category.
pub open spec fn shopping_list_for(ds: Seq<DishView>) -> Seq<IngredientView> {
    sorted_by_category(first_of_each_name(all_ingredients(ds)))
}

/// Removing repeated names keeps exactly the same set of names.
pub proof fn lemma_first_of_each_name_names(s: Seq<IngredientView>, n: Seq<char>)
    ensures
        names(first_of_each_name(s)).contains(n) <==> names(s).contains(n),
    decreases s.len(),
{
    if s.len() > 0 {
        let t = s.drop_last();
        lemma_first_of_each_name_names(t, n);
        assert(names(s) =~= names(t).push(s.last().name));
        let d = first_of_each_name(t);
        assert(names(d.push(s.last())) =~= names(d).push(s.last().name));
        if names(t).contains(s.last().name) {
        } else {
        }
    }
}

/// No two ingredients of `first_of_each_name(s)` share a name.
pub proof fn lemma_first_of_each_name_distinct(s: Seq<IngredientView>)
    ensures
        names(first_of_each_name(s)).no_duplicates(),
    decreases s.len(),
{
    if s.len() > 0 {
        let t = s.drop_last();
        lemma_first_of_each_name_distinct(t);
        let d = first_of_each_name(t);
        if !names(t).contains(s.last().name) {
            lemma_first_of_each_name_names(t, s.last().name);
            assert(names(d.push(s.last())) =~= names(d).push(s.last().name));
        }
    }
}

/// Whether an ingredient named `name` is in `v`.
fn has_name(v: &Vec<Ingredient>, name: &String) -> (r: bool)
    ensures
        r == names(ingredients_view(v@)).contains(name@),
{
    let ghost ns = names(ingredients_view(v@));
    for j in 0..v.len()
        invariant
            ns == names(ingredients_view(v@)),
            forall|i: int| 0 <= i < j ==> ns[i] != name@,
    {
        if v[j].name == *name {
            assert(ns[j as int] == name@);
            return true;
        }
    }
    false
}

/// Fills `shopping_list` with the shopping list for the menu `list`: each
/// ingredient once by name, the first of each name, sorted by category. With
/// no menu, the list is emptied.
pub fn make_shopping_list(list: Option<Vec<Dish>>, shopping_list: &mut Vec<Ingredient>)
    ensures
        match list {
            None => final(shopping_list)@.len() == 0,
            Some(l) => ingredients_view(final(shopping_list)@) == shopping_list_for(dishes_view(l@)),
        },
{
    shopping_list.clear();
    if let Some(l) = list {
        let ghost ds = dishes_view(l@);
        let mut out: Vec<Ingredient> = Vec::new();
        for k in 0..l.len()
            invariant
                ds == dishes_view(l@),
                ingredients_view(out@) == first_of_each_name(all_ingredients(ds.take(k as int))),
        {
            let ing = &l[k].ingredients;
            let ghost before = all_ingredients(ds.take(k as int));
            assert(ds[k as int].ingredients == ingredients_view(ing@));
            for j in 0..ing.len()
                invariant
                    ds == dishes_view(l@),
                    k < l.len(),
                    ing == l@[k as int].ingredients,
                    before == all_ingredients(ds.take(k as int)),
                    ingredients_view(out@) == first_of_each_name(
                        before + ingredients_view(ing@).take(j as int),
                    ),
            {
                let ghost t = before + ingredients_view(ing@).take(j as int);
                let ghost prev = out@;
                let ghost x = ing@[j as int]@;
                proof {
                    lemma_ingredients_view_take_succ(ing@, j as int);
                    assert(before + ingredients_view(ing@).take(j + 1) =~= t.push(x));
                    assert(t.push(x).drop_last() =~= t);
                    lemma_first_of_each_name_names(t, x.name);
                }
                if !has_name(&out, &ing[j].name) {
                    let c = ing[j].clone();
                    out.push(c);
                    proof {
                        lemma_ingredients_view_push(prev, c);
                    }
                }
            }
            proof {
                assert(ingredients_view(ing@).take(ing.len() as int) =~= ingredients_view(ing@));
                assert(ds.take(k + 1).drop_last() =~= ds.take(k as int));
                assert(all_ingredients(ds.take(k + 1)) == before + ds[k as int].ingredients);
            }
        }
        assert(ds.take(l.len() as int) =~= ds);
        sort_by_category(&mut out);
        *shopping_list = out;
    }
}

/// A number drawn from `0..bound` by the thread-local generator of the
/// `rand` crate: `rand::thread_rng().gen_range(0..bound)`. Which number comes
/// out is left open; it is below `bound`.
#[verifier::external_body]
fn random_below(bound: usize) -> (r: usize)
    requires
        bound > 0,
    ensures
        r < bound,
{
    rand::thread_rng().gen_range(0..bound)
}

/// `menu` is a possible menu of `size` dishes drawn from `db`: `size`
/// distinct dishes of the Dishtabase.
pub open spec fn is_menu_from(menu: Seq<DishView>, db: Seq<DishView>, size: nat) -> bool {
    &&& menu.len() == size
    &&& menu.no_duplicates()
    &&& forall|i: int| 0 <= i < menu.len() ==> db.contains(#[trigger] menu[i])
}

/// How many different dishes the Dishtabase holds.
pub open spec fn distinct_dishes(db: Seq<DishView>) -> nat {
    db.to_set().len()
}

/// The number of dishes the input asks for, at most the number of dishes in
/// the Dishtabase.
pub open spec fn requested_dishes(input: Seq<char>, db_len: nat) -> nat {
    if digits_value(input) <= db_len {
        digits_value(input)
    } else {
        db_len
    }
}

/// The positions below `k` of the dishes of `db` that are not on `chosen`,
/// in order: the candidates of a draw.
pub open spec fn candidate_positions(db: Seq<DishView>, chosen: Seq<DishView>, k: nat) -> Seq<int>
    decreases k,
{
    if k == 0 {
        Seq::empty()
    } else if chosen.contains(db[k - 1]) {
        candidate_positions(db, chosen, (k - 1) as nat)
    } else {
        candidate_positions(db, chosen, (k - 1) as nat).push(k - 1)
    }
}

/// The dish that the draw `r` picks when the dishes `chosen` are on the menu
/// already: the `r`th candidate, counting from 0.
pub open spec fn drawn_dish(db: Seq<DishView>, chosen: Seq<DishView>, r: int) -> DishView {
    db[candidate_positions(db, chosen, db.len())[r]]
}

/// The menu that the draws `draws` make: one dish per draw, each among the
/// dishes not drawn before.
pub open spec fn menu_for_draws(db: Seq<DishView>, draws: Seq<usize>) -> Seq<DishView>
    decreases draws.len(),
{
    if draws.len() == 0 {
        Seq::empty()
    } else {
        let m = menu_for_draws(db, draws.drop_last());
        m.push(drawn_dish(db, m, draws.last() as int))
    }
}

/// Each draw is below the number of candidates left at its turn.
pub open spec fn draws_fit(db: Seq<DishView>, draws: Seq<usize>) -> bool
    decreases draws.len(),
{
    draws.len() == 0 || (draws_fit(db, draws.drop_last()) && draws.last() < candidate_positions(
        db,
        menu_for_draws(db, draws.drop_last()),
        db.len(),
    ).len())
}

/// The candidates are positions of dishes not chosen yet, and every such
/// position is one of them.
pub proof fn lemma_candidate_positions(db: Seq<DishView>, chosen: Seq<DishView>, k: nat)
    requires
        k <= db.len(),
    ensures
        forall|i: int| 0 <= i < candidate_positions(db, chosen, k).len() ==> {
            let p = #[trigger] candidate_positions(db, chosen, k)[i];
            0 <= p < k && !chosen.contains(db[p])
        },
        forall|j: int| 0 <= j < k && !chosen.contains(#[trigger] db[j]) ==> candidate_positions(
            db,
            chosen,
            k,
        ).contains(j),
    decreases k,
{
    if k > 0 {
        lemma_candidate_positions(db, chosen, (k - 1) as nat);
        let prev = candidate_positions(db, chosen, (k - 1) as nat);
        if !chosen.contains(db[k - 1]) {
            assert(prev.push(k - 1)[prev.len() as int] == k - 1);
            assert forall|j: int| 0 <= j < k && !chosen.contains(#[trigger] db[j]) implies prev.push(
                k - 1,
            ).contains(j) by {
                if j < k - 1 {
                    let i = choose|i: int| 0 <= i < prev.len() && prev[i] == j;
                    assert(prev.push(k - 1)[i] == j);
                }
            }
        }
    }
}

/// Draws that fit make a menu of distinct dishes of the Dishtabase, one per
/// draw.
pub proof fn lemma_menu_for_draws(db: Seq<DishView>, draws: Seq<usize>)
    requires
        draws_fit(db, draws),
    ensures
        menu_for_draws(db, draws).len() == draws.len(),
        menu_for_draws(db, draws).no_duplicates(),
        forall|i: int| 0 <= i < draws.len() ==> db.contains(#[trigger] menu_for_draws(db, draws)[i]),
    decreases draws.len(),
{
    if draws.len() > 0 {
        let d = draws.drop_last();
        lemma_menu_for_draws(db, d);
        let m = menu_for_draws(db, d);
        lemma_candidate_positions(db, m, db.len());
        let c = candidate_positions(db, m, db.len());
        let p = c[draws.last() as int];
        let x = db[p];
        assert(!m.contains(x));
        assert(db.contains(x));
        let m2 = m.push(x);
        assert forall|i: int, j: int| 0 <= i < m2.len() && 0 <= j < m2.len() && i != j implies m2[i]
            != m2[j] by {
            if i == m.len() {
                assert(m[j] == m2[j]);
            } else if j == m.len() {
                assert(m[i] == m2[i]);
            }
        }
        assert forall|i: int| 0 <= i < draws.len() implies db.contains(#[trigger] m2[i]) by {
            if i < m.len() {
                assert(m2[i] == m[i]);
            }
        }
    }
}

/// Draws that fit fit on every prefix too.
pub proof fn lemma_draws_fit_take(db: Seq<DishView>, draws: Seq<usize>, k: int)
    requires
        draws_fit(db, draws),
        0 <= k <= draws.len(),
    ensures
        draws_fit(db, draws.take(k)),
    decreases draws.len(),
{
    if k == draws.len() {
        assert(draws.take(k) =~= draws);
    } else {
        lemma_draws_fit_take(db, draws.drop_last(), k);
        assert(draws.drop_last().take(k) =~= draws.take(k));
    }
}

/// The dishes of `db` that are not on `found`, by position.
fn not_yet_chosen(db: &Vec<Dish>, found: &Vec<Dish>) -> (r: Vec<usize>)
    ensures
        r@.map_values(|x: usize| x as int) == candidate_positions(
            dishes_view(db@),
            dishes_view(found@),
            db.len() as nat,
        ),
{
    let ghost dbv = dishes_view(db@);
    let ghost fv = dishes_view(found@);
    let mut r: Vec<usize> = Vec::new();
    for j in 0..db.len()
        invariant
            dbv == dishes_view(db@),
            fv == dishes_view(found@),
            r@.map_values(|x: usize| x as int) == candidate_positions(dbv, fv, j as nat),
    {
        let ghost before = r@;
        let in_found = dish_in(found, &db[j]);
        assert(dbv[j as int] == db@[j as int]@);
        if !in_found {
            r.push(j);
            assert(r@.map_values(|x: usize| x as int) =~= before.map_values(|x: usize| x as int).push(j as int));
        }
    }
    r
}

/// The dish that the draw `draw` picks when the dishes `chosen` are on the
/// menu already: the `draw`th of the dishes of `db` not on it, in the order
/// of `db`.
pub fn draw_dish(db: &Vec<Dish>, chosen: &Vec<Dish>, draw: usize) -> (d: Dish)
    requires
        draw < candidate_positions(dishes_view(db@), dishes_view(chosen@), db.len() as nat).len(),
    ensures
        d@ == drawn_dish(dishes_view(db@), dishes_view(chosen@), draw as int),
{
    let c = not_yet_chosen(db, chosen);
    proof {
        lemma_candidate_positions(dishes_view(db@), dishes_view(chosen@), db.len() as nat);
        assert(c@.map_values(|x: usize| x as int)[draw as int] == c[draw as int] as int);
    }
    db[c[draw]].clone()
}

/// The menu that the draws `draws` make: each draw picks among the dishes
/// not drawn before, as `draw_dish` does.
pub fn menu_from_draws(db: &Vec<Dish>, draws: &Vec<usize>) -> (menu: Vec<Dish>)
    requires
        draws_fit(dishes_view(db@), draws@),
    ensures
        dishes_view(menu@) == menu_for_draws(dishes_view(db@), draws@),
{
    let ghost dbv = dishes_view(db@);
    let mut menu: Vec<Dish> = Vec::new();
    assert(draws@.take(0) =~= Seq::<usize>::empty());
    for k in 0..draws.len()
        invariant
            dbv == dishes_view(db@),
            draws_fit(dbv, draws@),
            dishes_view(menu@) == menu_for_draws(dbv, draws@.take(k as int)),
    {
        proof {
            lemma_draws_fit_take(dbv, draws@, k + 1);
            assert(draws@.take(k + 1).drop_last() =~= draws@.take(k as int));
            assert(draws@.take(k + 1).last() == draws[k as int]);
        }
        let d = draw_dish(db, &menu, draws[k]);
        let ghost before = menu@;
        menu.push(d);
        proof {
            lemma_dishes_view_push(before, d);
        }
    }
    assert(draws@.take(draws.len() as int) =~= draws@);
    menu
}

/// The positions below `k` of the dishes of `db` that may replace a dish
/// named `name` on `menu`: those of another name that are not on the menu,
/// in order.
pub open spec fn replacement_positions(db: Seq<DishView>, menu: Seq<DishView>, name: Seq<char>, k: nat) -> Seq<int>
    decreases k,
{
    if k == 0 {
        Seq::empty()
    } else if db[k - 1].name != name && !menu.contains(db[k - 1]) {
        replacement_positions(db, menu, name, (k - 1) as nat).push(k - 1)
    } else {
        replacement_positions(db, menu, name, (k - 1) as nat)
    }
}

/// The replacements are positions of dishes of another name that are not on
/// the menu, and every such position is one of them.
pub proof fn lemma_replacement_positions(db: Seq<DishView>, menu: Seq<DishView>, name: Seq<char>, k: nat)
    requires
        k <= db.len(),
    ensures
        forall|i: int| 0 <= i < replacement_positions(db, menu, name, k).len() ==> {
            let p = #[trigger] replacement_positions(db, menu, name, k)[i];
            0 <= p < k && db[p].name != name && !menu.contains(db[p])
        },
        forall|j: int| 0 <= j < k && (#[trigger] db[j]).name != name && !menu.contains(db[j])
            ==> replacement_positions(db, menu, name, k).contains(j),
    decreases k,
{
    if k > 0 {
        lemma_replacement_positions(db, menu, name, (k - 1) as nat);
        let prev = replacement_positions(db, menu, name, (k - 1) as nat);
        if db[k - 1].name != name && !menu.contains(db[k - 1]) {
            assert(prev.push(k - 1)[prev.len() as int] == k - 1);
            assert forall|j: int| 0 <= j < k && (#[trigger] db[j]).name != name && !menu.contains(db[j])
                implies prev.push(k - 1).contains(j) by {
                if j < k - 1 {
                    let i = choose|i: int| 0 <= i < prev.len() && prev[i] == j;
                    assert(prev.push(k - 1)[i] == j);
                }
            }
        }
    }
}

/// The dishes of `db` that may replace the dish at `selected` on `menu`, by
/// position.
fn replacements_of(db: &Vec<Dish>, menu: &Vec<Dish>, selected: usize) -> (r: Vec<usize>)
    requires
        selected < menu.len(),
    ensures
        r@.map_values(|x: usize| x as int) == replacement_positions(
            dishes_view(db@),
            dishes_view(menu@),
            menu@[selected as int]@.name,
            db.len() as nat,
        ),
{
    let ghost dbv = dishes_view(db@);
    let ghost mv = dishes_view(menu@);
    let mut r: Vec<usize> = Vec::new();
    for j in 0..db.len()
        invariant
            dbv == dishes_view(db@),
            mv == dishes_view(menu@),
            selected < menu.len(),
            r@.map_values(|x: usize| x as int) == replacement_positions(dbv, mv, menu@[selected as int]@.name, j as nat),
    {
        let ghost before = r@;
        assert(dbv[j as int] == db@[j as int]@);
        if db[j].name != menu[selected].name && !dish_in(menu, &db[j]) {
            r.push(j);
            assert(r@.map_values(|x: usize| x as int) =~= before.map_values(|x: usize| x as int).push(j as int));
        }
    }
    r
}

/// The dish that the draw `draw` picks to replace the dish at `selected` on
/// `menu`: the `draw`th of the dishes of `db` that have another name and are
/// not on the menu, in the order of `db`.
pub fn replacement_from_draw(db: &Vec<Dish>, menu: &Vec<Dish>, selected: usize, draw: usize) -> (d: Dish)
    requires
        selected < menu.len(),
        draw < replacement_positions(
            dishes_view(db@),
            dishes_view(menu@),
            menu@[selected as int]@.name,
            db.len() as nat,
        ).len(),
    ensures
        d@ == dishes_view(db@)[replacement_positions(
            dishes_view(db@),
            dishes_view(menu@),
            menu@[selected as int]@.name,
            db.len() as nat,
        )[draw as int]],
{
    let c = replacements_of(db, menu, selected);
    proof {
        lemma_replacement_positions(dishes_view(db@), dishes_view(menu@), menu@[selected as int]@.name, db.len() as nat);
        assert(c@.map_values(|x: usize| x as int)[draw as int] == c[draw as int] as int);
    }
    db[c[draw]].clone()
}

/// Whether one of the first `n` dishes of `v` equals `d`.
fn dish_in_prefix(v: &Vec<Dish>, n: usize, d: &Dish) -> (r: bool)
    requires
        n <= v.len(),
    ensures
        r == dishes_view(v@).take(n as int).contains(d@),
{
    let ghost s = dishes_view(v@).take(n as int);
    for j in 0..n
        invariant
            n <= v.len(),
            s == dishes_view(v@).take(n as int),
            forall|k: int| 0 <= k < j ==> s[k] != d@,
    {
        if dish_equal(&v[j], d) {
            assert(s[j as int] == d@);
            return true;
        }
    }
    false
}

/// How many different dishes `db` holds.
pub fn distinct_dish_count(db: &Vec<Dish>) -> (r: usize)
    ensures
        r == distinct_dishes(dishes_view(db@)),
{
    broadcast use vstd::set::group_set_axioms, vstd::seq_lib::seq_to_set_is_finite;
    let ghost s = dishes_view(db@);
    let mut r: usize = 0;
    assert(s.take(0).to_set() =~= Set::<DishView>::empty());
    for j in 0..db.len()
        invariant
            s == dishes_view(db@),
            r <= j,
            r == s.take(j as int).to_set().len(),
    {
        let seen = dish_in_prefix(db, j, &db[j]);
        proof {
            assert(s.take(j + 1) =~= s.take(j as int).push(s[j as int]));
            s.take(j as int).lemma_push_to_set_commute(s[j as int]);
        }
        if !seen {
            r = r + 1;
        }
    }
    assert(s.take(db.len() as int) =~= s);
    r
}

/// A menu of distinct dishes of the Dishtabase that holds every dish of it
/// is as long as the Dishtabase has different dishes.
proof fn lemma_all_chosen(menu: Seq<DishView>, db: Seq<DishView>)
    requires
        menu.no_duplicates(),
        forall|i: int| 0 <= i < menu.len() ==> db.contains(#[trigger] menu[i]),
        forall|j: int| 0 <= j < db.len() ==> menu.contains(#[trigger] db[j]),
    ensures
        menu.len() == distinct_dishes(db),
{
    broadcast use vstd::set::group_set_axioms, vstd::seq_lib::seq_to_set_is_finite;
    menu.unique_seq_to_set();
    assert(menu.to_set() =~= db.to_set()) by {
        assert forall|x: DishView| menu.to_set().contains(x) implies db.to_set().contains(x) by {
            let i = choose|i: int| 0 <= i < menu.len() && menu[i] == x;
            assert(db.contains(menu[i]));
        }
        assert forall|x: DishView| db.to_set().contains(x) implies menu.to_set().contains(x) by {
            let j = choose|j: int| 0 <= j < db.len() && db[j] == x;
            assert(menu.contains(db[j]));
        }
    }
}

impl AppView {
    /// The state after a menu `menu` was drawn: it becomes the current menu,
    /// its shopping list is made, both are saved, and the menu is shown.
    pub open spec fn with_generated_menu(self, menu: Seq<DishView>) -> AppView {
        AppView {
            current_dish_list: Some(menu),
            shopping_list: shopping_list_for(menu),
            input: Seq::empty(),
            state: AppState::ShowGeneratedList,
            ..self
        }.with_effect(EffectView::SaveDishList).with_effect(EffectView::SaveShoppingList)
    }

    /// Whether `new` is a possible state after asking for a new menu of as
    /// many dishes as the input says: the menu that some draws make, one
    /// draw per dish. Nothing happens with an empty Dishtabase or an input
    /// with a character that is not a number character; an empty input goes
    /// back to the main menu.
    pub open spec fn generates_list(self, new: AppView) -> bool {
        if self.db.len() == 0 || !all_numeric(self.input) {
            new == self
        } else if self.input.len() == 0 {
            new == (AppView { state: AppState::Normal, ..self })
        } else {
            &&& new.current_dish_list is Some
            &&& exists|draws: Seq<usize>|
                #![trigger draws_fit(self.db, draws)]
                draws_fit(self.db, draws) && draws.len() == requested_dishes(self.input, self.db.len())
                    && new.current_dish_list->0 == menu_for_draws(self.db, draws)
            &&& is_menu_from(new.current_dish_list->0, self.db, requested_dishes(self.input, self.db.len()))
            &&& new == self.with_generated_menu(new.current_dish_list->0)
        }
    }

    /// What asking for a new menu needs in order to end without failing: an
    /// input of number characters must be a numeral of ASCII digits that
    /// fits in a `usize`, and must not ask for more dishes than there are
    /// different dishes in the Dishtabase (the draw would never end).
    pub open spec fn can_generate_list(self) -> bool {
        self.db.len() > 0 && all_numeric(self.input) && self.input.len() > 0 ==> {
            &&& all_ascii_digits(self.input)
            &&& digits_value(self.input) <= usize::MAX
            &&& requested_dishes(self.input, self.db.len()) <= distinct_dishes(self.db)
        }
    }

    /// What drawing a replacement dish needs in order to end without
    /// failing: a menu is shown, its selected line exists, the Dishtabase is
    /// not empty, and unless the menu is as long as the Dishtabase some dish
    /// may replace the selected one (the draw would never end).
    pub open spec fn can_generate_new_dish(self) -> bool {
        &&& self.current_dish_list is Some
        &&& self.edit_cursor.cursor < self.current_dish_list->0.len()
        &&& self.db.len() > 0
        &&& (self.current_dish_list->0.len() != self.db.len() ==> exists|j: int|
            0 <= j < self.db.len() && self.is_replacement(#[trigger] self.db[j]))
    }

    /// A dish of the Dishtabase that may replace the selected dish of the
    /// menu: it has another name and is not on the menu yet.
    pub open spec fn is_replacement(self, d: DishView) -> bool {
        let menu = self.current_dish_list->0;
        &&& self.db.contains(d)
        &&& d.name != menu[self.edit_cursor.cursor as int].name
        &&& !menu.contains(d)
    }

    /// The positions in the Dishtabase of the dishes that may replace the
    /// selected dish of the menu, in order.
    pub open spec fn replacements(self) -> Seq<int> {
        let menu = self.current_dish_list->0;
        replacement_positions(self.db, menu, menu[self.edit_cursor.cursor as int].name, self.db.len())
    }

    /// The state after the draw `r` replaced the selected dish of the menu
    /// with the `r`th of the dishes that may replace it.
    pub open spec fn replaced_by(self, r: int) -> AppView {
        let menu = self.current_dish_list->0;
        AppView {
            current_dish_list: Some(menu.update(self.edit_cursor.cursor as int, self.db[self.replacements()[r]])),
            ..self
        }
    }

    /// Whether `new` is a possible state after drawing a new dish for the
    /// selected line of the menu: the replacement that some draw picks. When
    /// the menu holds as many dishes as the Dishtabase, nothing changes.
    pub open spec fn generates_new_dish(self, new: AppView) -> bool {
        let menu = self.current_dish_list->0;
        if menu.len() == self.db.len() {
            new == self
        } else {
            &&& exists|r: int| 0 <= r < self.replacements().len() && new == #[trigger] self.replaced_by(r)
            &&& new.current_dish_list is Some
            &&& self.is_replacement(new.current_dish_list->0[self.edit_cursor.cursor as int])
        }
    }
}

impl App {
    /// Draws a new menu of as many distinct dishes as the input asks for (at
    /// most all of them), makes its shopping list, saves both and shows the
    /// menu.
    pub fn generate_list(&mut self)
        requires
            old(self)@.wf(),
            old(self)@.can_generate_list(),
        ensures
            final(self)@.wf(),
            old(self)@.generates_list(final(self)@),
    {
        if self.db.dishes.len() == 0 {
            return;
        }
        if !is_numeric_text(self.input.as_str()) {
            return;
        }
        if self.input.as_str().unicode_len() == 0 {
            self.state = AppState::Normal;
            return;
        }
        let mut number_of_dishes = match parse_numeral(self.input.as_str()) {
            Some(v) => v,
            None => {
                return;
            },
        };
        if number_of_dishes > self.db.dishes.len() {
            number_of_dishes = self.db.dishes.len();
        }
        assert(number_of_dishes == requested_dishes(self@.input, self@.db.len()));
        let mut found_dishes: Vec<Dish> = Vec::new();
        let mut draws: Vec<usize> = Vec::new();
        let ghost db = self@.db;
        while found_dishes.len() < number_of_dishes
            invariant
                db == self@.db,
                self@ == old(self)@,
                number_of_dishes <= db.len(),
                number_of_dishes <= distinct_dishes(db),
                found_dishes.len() <= number_of_dishes,
                draws_fit(db, draws@),
                dishes_view(found_dishes@) == menu_for_draws(db, draws@),
            decreases number_of_dishes - found_dishes.len(),
        {
            let count = not_yet_chosen(&self.db.dishes, &found_dishes).len();
            proof {
                lemma_menu_for_draws(db, draws@);
                let m = dishes_view(found_dishes@);
                lemma_candidate_positions(db, m, db.len());
                // Fewer dishes than asked for are chosen, so some dish is left.
                if count == 0 {
                    assert forall|j: int| 0 <= j < db.len() implies m.contains(#[trigger] db[j]) by {
                        if !m.contains(db[j]) {
                            assert(candidate_positions(db, m, db.len()).contains(j));
                        }
                    }
                    lemma_all_chosen(m, db);
                }
            }
            let draw = random_below(count);
            let d = draw_dish(&self.db.dishes, &found_dishes, draw);
            let ghost before = found_dishes@;
            let ghost before_draws = draws@;
            found_dishes.push(d);
            draws.push(draw);
            proof {
                lemma_dishes_view_push(before, d);
                assert(draws@.drop_last() =~= before_draws);
            }
        }
        let ghost menu = dishes_view(found_dishes@);
        proof {
            lemma_menu_for_draws(db, draws@);
        }
        assert(is_menu_from(menu, db, requested_dishes(self@.input, db.len())));
        assert(draws_fit(db, draws@) && draws@.len() == requested_dishes(self@.input, db.len()) && menu
            == menu_for_draws(db, draws@));
        let copy = clone_dishes(&found_dishes);
        self.current_dish_list = Some(found_dishes);
        make_shopping_list(Some(copy), &mut self.shopping_list);
        self.emit(Effect::SaveDishList);
        self.emit(Effect::SaveShoppingList);
        self.input = String::new();
        self.state = AppState::ShowGeneratedList;
    }

    /// Draws a new dish for the selected line of the menu on show: one of
    /// another name that is not on the menu yet.
    pub fn generate_new_dish(&mut self)
        requires
            old(self)@.wf(),
            old(self)@.can_generate_new_dish(),
        ensures
            final(self)@.wf(),
            old(self)@.generates_new_dish(final(self)@),
    {
        let selected_dish = self.edit_cursor.cursor;
        let list = match &self.current_dish_list {
            Some(l) => clone_dishes(l),
            None => {
                return;
            },
        };
        if list.len() == self.db.dishes.len() {
            return;
        }
        let ghost menu = dishes_view(list@);
        let ghost db = self@.db;
        let count = replacements_of(&self.db.dishes, &list, selected_dish).len();
        proof {
            lemma_replacement_positions(db, menu, menu[selected_dish as int].name, db.len());
            // Some dish may replace the selected one, so the draw has a choice.
            if count == 0 {
                let j = choose|j: int| 0 <= j < db.len() && self@.is_replacement(#[trigger] db[j]);
                assert(replacement_positions(db, menu, menu[selected_dish as int].name, db.len()).contains(j));
            }
        }
        let draw = random_below(count);
        let d = replacement_from_draw(&self.db.dishes, &list, selected_dish, draw);
        let mut l = list;
        let ghost before = l@;
        l.set(selected_dish, d);
        proof {
            lemma_dishes_view_update(before, selected_dish as int, d);
            let p = self@.replacements()[draw as int];
            assert(db.contains(db[p]));
            assert(self@.is_replacement(d@));
        }
        self.current_dish_list = Some(l);
        assert(self@ == old(self)@.replaced_by(draw as int));
    }

    /// Whether some dish of the Dishtabase may replace the selected dish of
    /// the menu on show.
    pub(crate) fn has_replacement(&self) -> (r: bool)
        requires
            self@.current_dish_list is Some,
            self@.edit_cursor.cursor < self@.current_dish_list->0.len(),
        ensures
            r == exists|j: int| 0 <= j < self@.db.len() && self@.is_replacement(#[trigger] self@.db[j]),
    {
        let list = match &self.current_dish_list {
            Some(l) => l,
            None => {
                return false;
            },
        };
        let selected_dish = self.edit_cursor.cursor;
        let ghost db = self@.db;
        let ghost menu = dishes_view(list@);
        let found = replacements_of(&self.db.dishes, list, selected_dish).len() > 0;
        proof {
            lemma_replacement_positions(db, menu, menu[selected_dish as int].name, db.len());
            if found {
                let p = self@.replacements()[0];
                assert(db.contains(db[p]));
                assert(self@.is_replacement(db[p]));
            } else {
                assert forall|j: int| 0 <= j < db.len() implies !self@.is_replacement(#[trigger] db[j]) by {
                    if self@.is_replacement(db[j]) {
                        assert(self@.replacements().contains(j));
                    }
                }
            }
        }
        found
    }
}

} // verus!
