use vstd::prelude::*;

verus! {

broadcast use vstd::seq_lib::group_seq_properties;

/// The grocery-store section an ingredient belongs to. Shopping lists are
/// ordered by section in the order the variants are declared here.
#[derive(Clone, Copy, Debug, PartialEq, Eq, Structural)]
pub enum Category {
    Vegetables,
    Fruit,
    Dairy,
    Protein,
    Pantry,
    Spices,
    Misc,
}

/// Number of categories.
pub const CATEGORY_COUNT: usize = 7;

impl Category {
    /// Position of the category in store order.
    pub open spec fn rank(self) -> nat {
        match self {
            Category::Vegetables => 0,
            Category::Fruit => 1,
            Category::Dairy => 2,
            Category::Protein => 3,
            Category::Pantry => 4,
            Category::Spices => 5,
            Category::Misc => 6,
        }
    }

    /// The category at a given position in store order.
    pub open spec fn spec_from_rank(r: nat) -> Category {
        if r == 0 {
            Category::Vegetables
        } else if r == 1 {
            Category::Fruit
        } else if r == 2 {
            Category::Dairy
        } else if r == 3 {
            Category::Protein
        } else if r == 4 {
            Category::Pantry
        } else if r == 5 {
            Category::Spices
        } else {
            Category::Misc
        }
    }

    /// The category at position `r` in store order.
    pub fn from_rank(r: usize) -> (c: Category)
        requires
            r < CATEGORY_COUNT,
        ensures
            c == Category::spec_from_rank(r as nat),
            c.rank() == r,
    {
        if r == 0 {
            Category::Vegetables
        } else if r == 1 {
            Category::Fruit
        } else if r == 2 {
            Category::Dairy
        } else if r == 3 {
            Category::Protein
        } else if r == 4 {
            Category::Pantry
        } else if r == 5 {
            Category::Spices
        } else {
            Category::Misc
        }
    }
}

/// Every category is the one at its own rank.
pub proof fn lemma_rank_roundtrip(c: Category)
    ensures
        c.rank() < 7,
        Category::spec_from_rank(c.rank()) == c,
{
}

/// An ingredient of a dish or an item of a shopping list.
#[derive(Debug)]
pub struct Ingredient {
    pub name: String,
    pub category: Category,
    pub frozen: bool,
}

/// What an ingredient is, as plain values.
#[verifier::ext_equal]
pub struct IngredientView {
    pub name: Seq<char>,
    pub category: Category,
    pub frozen: bool,
}

impl View for Ingredient {
    type V = IngredientView;

    open spec fn view(&self) -> IngredientView {
        IngredientView { name: self.name@, category: self.category, frozen: self.frozen }
    }
}

impl Clone for Ingredient {
    fn clone(&self) -> (r: Self)
        ensures
            r@ == self@,
    {
        Ingredient { name: self.name.clone(), category: self.category, frozen: self.frozen }
    }
}

/// A dish: its name and its ingredients.
#[derive(Debug)]
pub struct Dish {
    pub name: String,
    pub ingredients: Vec<Ingredient>,
}

/// What a dish is, as plain values.
#[verifier::ext_equal]
pub struct DishView {
    pub name: Seq<char>,
    pub ingredients: Seq<IngredientView>,
}

/// The views of a sequence of ingredients.
pub open spec fn ingredients_view(v: Seq<Ingredient>) -> Seq<IngredientView> {
    v.map_values(|i: Ingredient| i@)
}

impl View for Dish {
    type V = DishView;

    open spec fn view(&self) -> DishView {
        DishView { name: self.name@, ingredients: ingredients_view(self.ingredients@) }
    }
}

/// Viewing commutes with appending an ingredient.
pub proof fn lemma_ingredients_view_push(s: Seq<Ingredient>, x: Ingredient)
    ensures
        ingredients_view(s.push(x)) == ingredients_view(s).push(x@),
{
    assert(ingredients_view(s.push(x)) =~= ingredients_view(s).push(x@));
}

/// Viewing a prefix one longer adds the view of the next ingredient.
pub proof fn lemma_ingredients_view_take_succ(s: Seq<Ingredient>, j: int)
    requires
        0 <= j < s.len(),
    ensures
        ingredients_view(s).take(j + 1) == ingredients_view(s).take(j).push(s[j]@),
{
    assert(ingredients_view(s).take(j + 1) =~= ingredients_view(s).take(j).push(s[j]@));
}

/// Viewing commutes with replacing an ingredient.
pub proof fn lemma_ingredients_view_update(s: Seq<Ingredient>, i: int, x: Ingredient)
    requires
        0 <= i < s.len(),
    ensures
        ingredients_view(s.update(i, x)) == ingredients_view(s).update(i, x@),
{
    assert(ingredients_view(s.update(i, x)) =~= ingredients_view(s).update(i, x@));
}

/// Viewing commutes with removing an ingredient.
pub proof fn lemma_ingredients_view_remove(s: Seq<Ingredient>, i: int)
    requires
        0 <= i < s.len(),
    ensures
        ingredients_view(s.remove(i)) == ingredients_view(s).remove(i),
{
    assert(ingredients_view(s.remove(i)) =~= ingredients_view(s).remove(i));
}

/// Viewing commutes with dropping the last ingredient.
pub proof fn lemma_ingredients_view_drop_last(s: Seq<Ingredient>)
    requires
        s.len() > 0,
    ensures
        ingredients_view(s.drop_last()) == ingredients_view(s).drop_last(),
{
    assert(ingredients_view(s.drop_last()) =~= ingredients_view(s).drop_last());
}

/// Copies a list of ingredients.
pub fn clone_ingredients(v: &Vec<Ingredient>) -> (r: Vec<Ingredient>)
    ensures
        ingredients_view(r@) == ingredients_view(v@),
{
    let mut r: Vec<Ingredient> = Vec::new();
    for j in 0..v.len()
        invariant
            ingredients_view(r@) == ingredients_view(v@).take(j as int),
    {
        let ghost prev = r@;
        let x = v[j].clone();
        r.push(x);
        proof {
            lemma_ingredients_view_push(prev, x);
            lemma_ingredients_view_take_succ(v@, j as int);
        }
    }
    assert(ingredients_view(v@).take(v.len() as int) =~= ingredients_view(v@));
    r
}

impl Clone for Dish {
    fn clone(&self) -> (r: Self)
        ensures
            r@ == self@,
    {
        Dish { name: self.name.clone(), ingredients: clone_ingredients(&self.ingredients) }
    }
}

/// Whether two ingredients are the same in every field.
pub fn ingredient_equal(a: &Ingredient, b: &Ingredient) -> (r: bool)
    ensures
        r == (a@ == b@),
{
    a.name == b.name && a.category == b.category && a.frozen == b.frozen
}

/// Whether two dishes are the same: same name, same ingredients in the same
/// order.
pub fn dish_equal(a: &Dish, b: &Dish) -> (r: bool)
    ensures
        r == (a@ == b@),
{
    if a.name != b.name {
        return false;
    }
    if a.ingredients.len() != b.ingredients.len() {
        assert(a@.ingredients.len() != b@.ingredients.len());
        return false;
    }
    for j in 0..a.ingredients.len()
        invariant
            a.ingredients.len() == b.ingredients.len(),
            forall|k: int| 0 <= k < j ==> a@.ingredients[k] == b@.ingredients[k],
    {
        if !ingredient_equal(&a.ingredients[j], &b.ingredients[j]) {
            assert(a@.ingredients[j as int] != b@.ingredients[j as int]);
            return false;
        }
    }
    assert(a@.ingredients =~= b@.ingredients);
    true
}

/// Whether the dish `d` is in `v`.
pub fn dish_in(v: &Vec<Dish>, d: &Dish) -> (r: bool)
    ensures
        r == dishes_view(v@).contains(d@),
{
    for j in 0..v.len()
        invariant
            forall|k: int| 0 <= k < j ==> dishes_view(v@)[k] != d@,
    {
        if dish_equal(&v[j], d) {
            assert(dishes_view(v@)[j as int] == d@);
            return true;
        }
    }
    false
}

/// The Dishtabase: every dish the user knows how to cook.
#[derive(Debug)]
pub struct Database {
    pub dishes: Vec<Dish>,
}

/// The views of a sequence of dishes.
pub open spec fn dishes_view(v: Seq<Dish>) -> Seq<DishView> {
    v.map_values(|d: Dish| d@)
}

impl View for Database {
    type V = Seq<DishView>;

    open spec fn view(&self) -> Seq<DishView> {
        dishes_view(self.dishes@)
    }
}

/// Viewing commutes with appending a dish.
pub proof fn lemma_dishes_view_push(s: Seq<Dish>, x: Dish)
    ensures
        dishes_view(s.push(x)) == dishes_view(s).push(x@),
{
    assert(dishes_view(s.push(x)) =~= dishes_view(s).push(x@));
}

/// Viewing a prefix one longer adds the view of the next dish.
pub proof fn lemma_dishes_view_take_succ(s: Seq<Dish>, j: int)
    requires
        0 <= j < s.len(),
    ensures
        dishes_view(s).take(j + 1) == dishes_view(s).take(j).push(s[j]@),
{
    assert(dishes_view(s).take(j + 1) =~= dishes_view(s).take(j).push(s[j]@));
}

/// Viewing commutes with replacing a dish.
pub proof fn lemma_dishes_view_update(s: Seq<Dish>, i: int, x: Dish)
    requires
        0 <= i < s.len(),
    ensures
        dishes_view(s.update(i, x)) == dishes_view(s).update(i, x@),
{
    assert(dishes_view(s.update(i, x)) =~= dishes_view(s).update(i, x@));
}

/// Viewing commutes with removing a dish.
pub proof fn lemma_dishes_view_remove(s: Seq<Dish>, i: int)
    requires
        0 <= i < s.len(),
    ensures
        dishes_view(s.remove(i)) == dishes_view(s).remove(i),
{
    assert(dishes_view(s.remove(i)) =~= dishes_view(s).remove(i));
}

/// Copies a list of dishes.
pub fn clone_dishes(v: &Vec<Dish>) -> (r: Vec<Dish>)
    ensures
        dishes_view(r@) == dishes_view(v@),
{
    let mut r: Vec<Dish> = Vec::new();
    for j in 0..v.len()
        invariant
            dishes_view(r@) == dishes_view(v@).take(j as int),
    {
        let ghost prev = r@;
        let x = v[j].clone();
        r.push(x);
        proof {
            lemma_dishes_view_push(prev, x);
            lemma_dishes_view_take_succ(v@, j as int);
        }
    }
    assert(dishes_view(v@).take(v.len() as int) =~= dishes_view(v@));
    r
}

/// The shopping list as it is written to disk.
pub struct ShListSaveFile {
    pub items: Vec<Ingredient>,
}

/// Keeps the ingredients of category `c`.
pub open spec fn in_category(c: Category) -> spec_fn(IngredientView) -> bool {
    |i: IngredientView| i.category == c
}

/// The ingredients of `s` whose category ranks below `k`, grouped by category
/// in store order, each group in the order of `s`.
pub open spec fn grouped_below(s: Seq<IngredientView>, k: nat) -> Seq<IngredientView>
    decreases k,
{
    if k == 0 {
        Seq::empty()
    } else {
        grouped_below(s, (k - 1) as nat) + s.filter(in_category(Category::spec_from_rank((k - 1) as nat)))
    }
}

/// `s` sorted by category, stably: the ordering that a stable sort keyed on
/// the category gives.
pub open spec fn sorted_by_category(s: Seq<IngredientView>) -> Seq<IngredientView> {
    grouped_below(s, 7)
}

/// Sorts a list of ingredients by category, keeping the order of the
/// ingredients within each category.
pub fn sort_by_category(v: &mut Vec<Ingredient>)
    ensures
        ingredients_view(final(v)@) == sorted_by_category(ingredients_view(old(v)@)),
{
    let ghost s = ingredients_view(v@);
    let mut out: Vec<Ingredient> = Vec::new();
    for k in 0..CATEGORY_COUNT
        invariant
            s == ingredients_view(v@),
            ingredients_view(out@) == grouped_below(s, k as nat),
    {
        let c = Category::from_rank(k);
        let ghost before = ingredients_view(out@);
        for j in 0..v.len()
            invariant
                s == ingredients_view(v@),
                c == Category::spec_from_rank(k as nat),
                before == grouped_below(s, k as nat),
                ingredients_view(out@) == before + s.take(j as int).filter(in_category(c)),
        {
            let ghost prev = out@;
            if v[j].category == c {
                let x = v[j].clone();
                out.push(x);
                proof {
                    lemma_ingredients_view_push(prev, x);
                }
            }
            proof {
                lemma_ingredients_view_take_succ(v@, j as int);
                s.take(j as int).lemma_filter_push(s[j as int], in_category(c));
                assert(ingredients_view(out@) =~= before + s.take(j + 1).filter(in_category(c)));
            }
        }
        assert(s.take(v.len() as int) =~= s);
    }
    *v = out;
}

} // verus!
