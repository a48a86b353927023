use vstd::prelude::*;
use crate::items::{Category, DishView, IngredientView, grouped_below, in_category, sorted_by_category};
use crate::locale::UiText;
use crate::app::{AppState, AppView, Space, category_text, picked_category};
use crate::category_db::{first_with_prefix, lookup};
use crate::dishtabase::new_ingredient;
use crate::input::takes_ingredient;
use crate::shopping::point_at_name;
use crate::text::{
    all_ascii_digits, ascii_upper, capitalised_words, decimal, digit_char, digits_value, is_ascii_char, is_prefix,
    lowercase,
};
use crate::ui::{Cursor, is_prompt, scrolled};
use crate::list::{all_ingredients, first_of_each_name, lemma_first_of_each_name_distinct, lemma_first_of_each_name_names, names, shopping_list_for};

verus! {

broadcast use vstd::seq_lib::group_seq_properties;

/// How many times `x` occurs in `s`.
pub open spec fn count_of(s: Seq<IngredientView>, x: IngredientView) -> nat
    decreases s.len(),
{
    if s.len() == 0 {
        0
    } else {
        count_of(s.drop_last(), x) + if s.last() == x {
            1nat
        } else {
            0nat
        }
    }
}

/// Counting is additive over concatenation.
pub proof fn lemma_count_add(a: Seq<IngredientView>, b: Seq<IngredientView>, x: IngredientView)
    ensures
        count_of(a + b, x) == count_of(a, x) + count_of(b, x),
    decreases b.len(),
{
    if b.len() == 0 {
        assert(a + b =~= a);
    } else {
        lemma_count_add(a, b.drop_last(), x);
        assert((a + b).drop_last() =~= a + b.drop_last());
    }
}

/// Keeping the items of one category keeps all occurrences of an item of
/// that category and none of another.
pub proof fn lemma_count_filter(s: Seq<IngredientView>, c: Category, x: IngredientView)
    ensures
        count_of(s.filter(in_category(c)), x) == if x.category == c {
            count_of(s, x)
        } else {
            0
        },
    decreases s.len(),
{
    if s.len() > 0 {
        lemma_count_filter(s.drop_last(), c, x);
        s.drop_last().lemma_filter_push(s.last(), in_category(c));
        assert(s.drop_last().push(s.last()) =~= s);
        let f = s.drop_last().filter(in_category(c));
        if s.last().category == c {
            assert(f.push(s.last()).drop_last() =~= f);
        }
    } else {
        reveal(Seq::filter);
    }
}

/// The items of the first `k` categories, grouped, hold each item of those
/// categories as often as `s` does, and no other.
pub proof fn lemma_count_grouped(s: Seq<IngredientView>, k: nat, x: IngredientView)
    requires
        k <= 7,
    ensures
        count_of(grouped_below(s, k), x) == if x.category.rank() < k {
            count_of(s, x)
        } else {
            0
        },
    decreases k,
{
    if k > 0 {
        lemma_count_grouped(s, (k - 1) as nat, x);
        let c = Category::spec_from_rank((k - 1) as nat);
        lemma_count_add(grouped_below(s, (k - 1) as nat), s.filter(in_category(c)), x);
        lemma_count_filter(s, c, x);
        crate::items::lemma_rank_roundtrip(x.category);
    }
}

/// Sorting a list by category keeps every item, as often as it occurs.
pub proof fn law_sort_keeps_items(s: Seq<IngredientView>, x: IngredientView)
    ensures
        count_of(sorted_by_category(s), x) == count_of(s, x),
{
    lemma_count_grouped(s, 7, x);
    crate::items::lemma_rank_roundtrip(x.category);
}

/// The items of the first `k` categories, grouped, come in category order.
proof fn lemma_grouped_ordered(s: Seq<IngredientView>, k: nat)
    requires
        k <= 7,
    ensures
        forall|i: int| 0 <= i < grouped_below(s, k).len() ==> (#[trigger] grouped_below(s, k)[i]).category.rank() < k,
        forall|i: int, j: int|
            0 <= i < j < grouped_below(s, k).len() ==> (#[trigger] grouped_below(s, k)[i]).category.rank()
                <= (#[trigger] grouped_below(s, k)[j]).category.rank(),
    decreases k,
{
    broadcast use vstd::seq_lib::group_filter_ensures;

    if k > 0 {
        lemma_grouped_ordered(s, (k - 1) as nat);
        let c = Category::spec_from_rank((k - 1) as nat);
        let a = grouped_below(s, (k - 1) as nat);
        let b = s.filter(in_category(c));
        let g = grouped_below(s, k);
        assert(g == a + b);
        assert forall|i: int| 0 <= i < b.len() implies (#[trigger] b[i]).category.rank() == k - 1 by {
            assert(in_category(c)(b[i]));
        }
        assert forall|i: int| 0 <= i < g.len() implies (#[trigger] g[i]).category.rank() < k by {
            if i >= a.len() {
                assert(g[i] == b[i - a.len()]);
            }
        }
        assert forall|i: int, j: int| 0 <= i < j < g.len() implies (#[trigger] g[i]).category.rank()
            <= (#[trigger] g[j]).category.rank() by {
            if j < a.len() {
                assert(g[i] == a[i] && g[j] == a[j]);
            } else if i < a.len() {
                assert(g[i] == a[i] && g[j] == b[j - a.len()]);
            } else {
                assert(g[i] == b[i - a.len()] && g[j] == b[j - a.len()]);
            }
        }
    }
}

/// A list sorted by category comes in store order.
pub proof fn law_sort_orders(s: Seq<IngredientView>)
    ensures
        forall|i: int, j: int|
            0 <= i < j < sorted_by_category(s).len() ==> (#[trigger] sorted_by_category(s)[i]).category.rank()
                <= (#[trigger] sorted_by_category(s)[j]).category.rank(),
{
    lemma_grouped_ordered(s, 7);
}

/// Keeping one category of a list that keeps another: all of it, or
/// nothing.
proof fn lemma_filter_twice(s: Seq<IngredientView>, c: Category, d: Category)
    ensures
        s.filter(in_category(d)).filter(in_category(c)) == if c == d {
            s.filter(in_category(c))
        } else {
            Seq::empty()
        },
    decreases s.len(),
{
    reveal(Seq::filter);
    if s.len() > 0 {
        lemma_filter_twice(s.drop_last(), c, d);
        s.drop_last().lemma_filter_push(s.last(), in_category(d));
        s.drop_last().filter(in_category(d)).lemma_filter_push(s.last(), in_category(c));
        assert(s.drop_last().push(s.last()) =~= s);
    }
}

/// Within the first `k` categories, grouping keeps the items of one
/// category in their order.
proof fn lemma_grouped_stable(s: Seq<IngredientView>, k: nat, c: Category)
    requires
        k <= 7,
    ensures
        grouped_below(s, k).filter(in_category(c)) == if c.rank() < k {
            s.filter(in_category(c))
        } else {
            Seq::empty()
        },
    decreases k,
{
    if k == 0 {
        reveal(Seq::filter);
    } else {
        lemma_grouped_stable(s, (k - 1) as nat, c);
        let d = Category::spec_from_rank((k - 1) as nat);
        Seq::filter_distributes_over_add(grouped_below(s, (k - 1) as nat), s.filter(in_category(d)), in_category(c));
        lemma_filter_twice(s, c, d);
        crate::items::lemma_rank_roundtrip(c);
        if c.rank() < k - 1 {
            assert(c != d);
            assert(s.filter(in_category(c)) + Seq::<IngredientView>::empty() =~= s.filter(in_category(c)));
        } else if c.rank() == k - 1 {
            assert(c == d);
            assert(Seq::<IngredientView>::empty() + s.filter(in_category(c)) =~= s.filter(in_category(c)));
        } else {
            assert(c != d);
            assert(Seq::<IngredientView>::empty() + Seq::<IngredientView>::empty() =~= Seq::<IngredientView>::empty());
        }
    }
}

/// Sorting by category is stable: the items of each category keep their
/// order.
pub proof fn law_sort_stable(s: Seq<IngredientView>, c: Category)
    ensures
        sorted_by_category(s).filter(in_category(c)) == s.filter(in_category(c)),
{
    lemma_grouped_stable(s, 7, c);
    crate::items::lemma_rank_roundtrip(c);
}

/// An item occurs in a list exactly when it is counted there.
pub proof fn lemma_count_contains(s: Seq<IngredientView>, x: IngredientView)
    ensures
        count_of(s, x) > 0 <==> s.contains(x),
    decreases s.len(),
{
    if s.len() > 0 {
        lemma_count_contains(s.drop_last(), x);
        assert(s.drop_last().push(s.last()) =~= s);
        if s.drop_last().contains(x) {
            let i = choose|i: int| 0 <= i < s.drop_last().len() && s.drop_last()[i] == x;
            assert(s[i] == x);
        }
        if s.contains(x) && s.last() != x {
            let i = choose|i: int| 0 <= i < s.len() && s[i] == x;
            assert(s.drop_last()[i] == x);
        }
    }
}

/// Two positions of a list that hold the same item count it twice.
proof fn lemma_count_two(s: Seq<IngredientView>, i: int, j: int)
    requires
        0 <= i < j < s.len(),
        s[i] == s[j],
    ensures
        count_of(s, s[i]) >= 2,
    decreases s.len(),
{
    let t = s.drop_last();
    if j < s.len() - 1 {
        lemma_count_two(t, i, j);
    } else {
        lemma_count_contains(t, s[i]);
        assert(t[i] == s[i]);
    }
}

/// The names of a list, as a predicate on its items.
pub open spec fn has_name(n: Seq<char>) -> spec_fn(IngredientView) -> bool {
    |x: IngredientView| x.name == n
}

/// A name occurs in a list exactly when some item of the list carries it.
proof fn lemma_names_contains(s: Seq<IngredientView>, n: Seq<char>)
    ensures
        names(s).contains(n) <==> exists|x: IngredientView| s.contains(x) && x.name == n,
{
    if names(s).contains(n) {
        let i = choose|i: int| 0 <= i < names(s).len() && names(s)[i] == n;
        assert(s.contains(s[i]));
    }
    if exists|x: IngredientView| s.contains(x) && x.name == n {
        let x = choose|x: IngredientView| s.contains(x) && x.name == n;
        let i = choose|i: int| 0 <= i < s.len() && s[i] == x;
        assert(names(s)[i] == n);
    }
}

/// Each name is on the shopping list of a menu at most once.
pub proof fn law_shopping_list_names_once(ds: Seq<DishView>)
    ensures
        names(shopping_list_for(ds)).no_duplicates(),
{
    let d = first_of_each_name(all_ingredients(ds));
    let l = shopping_list_for(ds);
    lemma_first_of_each_name_distinct(all_ingredients(ds));
    assert forall|i: int, j: int| 0 <= i < names(l).len() && 0 <= j < names(l).len() && i != j implies names(l)[i]
        != names(l)[j] by {
        if names(l)[i] == names(l)[j] {
            let (a, b) = if i < j {
                (i, j)
            } else {
                (j, i)
            };
            law_sort_keeps_items(d, l[a]);
            law_sort_keeps_items(d, l[b]);
            if l[a] == l[b] {
                lemma_count_two(l, a, b);
                lemma_count_contains(d, l[a]);
                let p = choose|p: int| 0 <= p < d.len() && d[p] == l[a];
                assert(count_of(d, l[a]) >= 2);
                lemma_count_at_most_one(d, p);
                assert(false);
            } else {
                lemma_count_contains(l, l[a]);
                lemma_count_contains(l, l[b]);
                lemma_count_contains(d, l[a]);
                lemma_count_contains(d, l[b]);
                let p = choose|p: int| 0 <= p < d.len() && d[p] == l[a];
                let q = choose|q: int| 0 <= q < d.len() && d[q] == l[b];
                assert(p != q);
                assert(names(d)[p] == names(d)[q]);
                assert(false);
            }
        }
    }
}

/// In a list whose names are distinct, every item is counted once.
proof fn lemma_count_at_most_one(s: Seq<IngredientView>, p: int)
    requires
        names(s).no_duplicates(),
        0 <= p < s.len(),
    ensures
        count_of(s, s[p]) == 1,
    decreases s.len(),
{
    let t = s.drop_last();
    assert(names(t) =~= names(s).drop_last());
    if p == s.len() - 1 {
        if t.contains(s[p]) {
            let q = choose|q: int| 0 <= q < t.len() && t[q] == s[p];
            assert(names(s)[q] == names(s)[p]);
        }
        lemma_count_contains(t, s[p]);
    } else {
        lemma_count_at_most_one(t, p);
        assert(names(s)[p] != names(s)[s.len() - 1]);
    }
}

/// The shopping list of a menu names every ingredient of the menu's dishes,
/// and nothing else.
pub proof fn law_shopping_list_covers_menu(ds: Seq<DishView>, n: Seq<char>)
    ensures
        names(shopping_list_for(ds)).contains(n) <==> names(all_ingredients(ds)).contains(n),
{
    let d = first_of_each_name(all_ingredients(ds));
    let l = shopping_list_for(ds);
    lemma_first_of_each_name_names(all_ingredients(ds), n);
    lemma_names_contains(l, n);
    lemma_names_contains(d, n);
    if exists|x: IngredientView| l.contains(x) && x.name == n {
        let x = choose|x: IngredientView| l.contains(x) && x.name == n;
        law_sort_keeps_items(d, x);
        lemma_count_contains(l, x);
        lemma_count_contains(d, x);
    }
    if exists|x: IngredientView| d.contains(x) && x.name == n {
        let x = choose|x: IngredientView| d.contains(x) && x.name == n;
        law_sort_keeps_items(d, x);
        lemma_count_contains(l, x);
        lemma_count_contains(d, x);
    }
}

/// After going over the first `k` items, the selection is on an item named
/// `name` whenever one of them is.
proof fn lemma_point_at_name(c: Cursor, s: Seq<IngredientView>, name: Seq<char>, k: nat)
    requires
        k <= s.len(),
        s.len() < usize::MAX,
    ensures
        (exists|i: int| 0 <= i < k && (#[trigger] s[i]).name == name) ==> {
            let p = point_at_name(c, s, name, k);
            p.cursor < k && s[p.cursor as int].name == name
        },
    decreases k,
{
    if k > 0 {
        lemma_point_at_name(c, s, name, (k - 1) as nat);
        if exists|i: int| 0 <= i < k && (#[trigger] s[i]).name == name {
            if s[k - 1].name != name {
                let i = choose|i: int| 0 <= i < k && (#[trigger] s[i]).name == name;
                assert(i < k - 1);
            }
        }
    }
}

/// The item just added to the shopping list is the one selected, wherever
/// sorting by category put it.
pub proof fn law_added_item_selected(v: AppView)
    requires
        v.shopping_list.len() + 1 < usize::MAX,
    ensures
        ({
            let w = v.after_add_to_shopping_list();
            &&& w.db_cursor.cursor < w.shopping_list.len()
            &&& w.shopping_list[w.db_cursor.cursor as int].name == capitalised_words(v.input)
        }),
{
    let name = capitalised_words(v.input);
    let x = new_ingredient(name, v.category_for(v.input));
    let l1 = v.shopping_list.push(x);
    let sorted = sorted_by_category(l1);
    assert(l1[l1.len() - 1] == x);
    lemma_count_contains(l1, x);
    law_sort_keeps_items(l1, x);
    lemma_count_contains(sorted, x);
    let i = choose|i: int| 0 <= i < sorted.len() && sorted[i] == x;
    assert(sorted[i].name == name);
    lemma_count_grouped(l1, 7, x);
    law_sort_keeps_length(l1);
    lemma_point_at_name(v.db_cursor, sorted, name, sorted.len());
}

/// Keeps the items whose category ranks below `k`.
pub open spec fn ranked_below(k: nat) -> spec_fn(IngredientView) -> bool {
    |x: IngredientView| x.category.rank() < k
}

/// The items ranked below `k` are those ranked below `k - 1` and those of
/// the category ranked `k - 1`.
proof fn lemma_filter_split(s: Seq<IngredientView>, k: nat)
    requires
        1 <= k <= 7,
    ensures
        s.filter(ranked_below(k)).len() == s.filter(ranked_below((k - 1) as nat)).len() + s.filter(
            in_category(Category::spec_from_rank((k - 1) as nat)),
        ).len(),
    decreases s.len(),
{
    reveal(Seq::filter);
    if s.len() > 0 {
        lemma_filter_split(s.drop_last(), k);
        crate::items::lemma_rank_roundtrip(s.last().category);
    }
}

/// Every item ranks below 7.
proof fn lemma_filter_all(s: Seq<IngredientView>)
    ensures
        s.filter(ranked_below(7)).len() == s.len(),
    decreases s.len(),
{
    reveal(Seq::filter);
    if s.len() > 0 {
        lemma_filter_all(s.drop_last());
        crate::items::lemma_rank_roundtrip(s.last().category);
    }
}

/// The first `k` categories, grouped, hold as many items as `s` has of them.
proof fn lemma_grouped_len(s: Seq<IngredientView>, k: nat)
    requires
        k <= 7,
    ensures
        grouped_below(s, k).len() == s.filter(ranked_below(k)).len(),
    decreases k,
{
    if k == 0 {
        reveal(Seq::filter);
        lemma_filter_none(s);
    } else {
        lemma_grouped_len(s, (k - 1) as nat);
        lemma_filter_split(s, k);
    }
}

/// No item ranks below 0.
proof fn lemma_filter_none(s: Seq<IngredientView>)
    ensures
        s.filter(ranked_below(0)).len() == 0,
    decreases s.len(),
{
    reveal(Seq::filter);
    if s.len() > 0 {
        lemma_filter_none(s.drop_last());
    }
}

/// Sorting by category keeps the length of a list.
pub proof fn law_sort_keeps_length(s: Seq<IngredientView>)
    ensures
        sorted_by_category(s).len() == s.len(),
{
    lemma_grouped_len(s, 7);
    lemma_filter_all(s);
}

/// Typing a character into an ingredient field and then pressing Tab either
/// leaves the typed text, or replaces it with a known ingredient name that
/// starts with the typed text in lower case.
pub proof fn law_tab_completes_to_known_name(v: AppView, c: char)
    requires
        takes_ingredient(v.state),
    ensures
        ({
            let typed = v.input.push(c);
            let w = v.after_char(c).after_tab();
            &&& w.inline_complete is None
            &&& w.inline_complete_whole_word is None
            &&& (w.input == typed || exists|i: int|
                0 <= i < v.non_normalized_category_db.len() && (#[trigger] v.non_normalized_category_db[i]).0
                    == w.input && is_prefix(lowercase(typed), w.input))
        }),
{
    let typed = v.input.push(c);
    let db = v.non_normalized_category_db;
    match first_with_prefix(db, lowercase(typed)) {
        Some(i) => {
            crate::category_db::lemma_first_with_prefix(db, lowercase(typed));
            assert(is_prefix(lowercase(typed), db[i].0));
            assert(typed.len() > 0);
            assert(v.after_char(c).inline_complete_whole_word == Some(db[i].0));
            assert(v.after_char(c).after_tab().input == db[i].0);
        },
        None => {},
    }
}

/// A category chosen for an ingredient is what the next look-up of that
/// ingredient's name finds, unless the space-free table already files it.
pub proof fn law_learned_category_found(v: AppView)
    requires
        v.pending_dish is Some,
        v.pending_dish->0.ingredients.len() > 0,
        lookup(v.normalized_category_db, lowercase(v.pending_dish->0.ingredients.last().name)) is None,
    ensures
        v.after_confirm_category().category_for(v.pending_dish->0.ingredients.last().name)
            == picked_category(v.picking_cursor),
{
}

/// In the main menu, the down key undoes the up key and the other way
/// round: the selection wraps around the five entries.
pub proof fn law_menu_up_down_undo(v: AppView)
    requires
        v.wf(),
        !is_prompt(v.state),
        v.selected_space == Space::MainLeft,
    ensures
        v.after_down().after_up() == v,
        v.after_up().after_down() == v,
{
}

/// A word-wise backspace leaves a prefix of the input.
pub proof fn law_word_backspace_keeps_prefix(v: AppView)
    ensures
        is_prefix(v.after_backspace(true).input, v.input),
{
    crate::text::lemma_erase_word_is_prefix(v.input);
}

/// Scrolling again changes nothing: once the selection is in view, the
/// window stays where it is.
pub proof fn law_scroll_idempotent(c: Cursor)
    requires
        c.visable_lines > 0,
    ensures
        scrolled(scrolled(c)) == scrolled(c),
{
}

/// Capitalising the words of an ASCII text twice is capitalising them once.
pub proof fn law_uppercase_words_idempotent_on_ascii(s: Seq<char>)
    requires
        forall|i: int| 0 <= i < s.len() ==> is_ascii_char(#[trigger] s[i]),
    ensures
        capitalised_words(capitalised_words(s)) == capitalised_words(s),
{
    let t = capitalised_words(s);
    assert forall|i: int| 0 <= i < s.len() implies (t[i] == ' ') == (s[i] == ' ') && ascii_upper(t[i])
        == ascii_upper(s[i]) && is_ascii_char(t[i]) by {
        assert(is_ascii_char(s[i]));
    }
    assert(capitalised_words(t) =~= t);
}

/// The selections of the right-hand views are on an item: on the shopping
/// list, on the Dishtabase and among the categories, unless the list is
/// empty.
pub open spec fn selection_in_range(v: AppView) -> bool {
    &&& (v.state == AppState::ShowShoppingList ==> v.shopping_list.len() == 0 || v.db_cursor.cursor
        < v.shopping_list.len())
    &&& (v.state == AppState::ViewingDatabase || v.state == AppState::AddToGeneratedList ==> v.db.len()
        == 0 || v.db_cursor.cursor < v.db.len())
    &&& (v.state == AppState::PickingCategory ==> v.picking_cursor <= 6)
}

/// One step down, stopping at the last of `len` lines.
pub open spec fn step_down(c: usize, len: nat) -> int {
    if c + 1 < len {
        c + 1
    } else {
        c as int
    }
}

/// The down key on the right-hand side keeps the selection on an item: it
/// moves one line down, or stays on the last line; the lists and the state
/// stay as they were.
pub proof fn law_cursor_down_stays_in_range(v: AppView)
    requires
        v.wf(),
        v.selected_space == Space::MainRight,
        selection_in_range(v),
    ensures
        ({
            let w = v.after_down();
            &&& selection_in_range(w)
            &&& w.db == v.db
            &&& w.shopping_list == v.shopping_list
            &&& w.state == v.state
            &&& (v.state == AppState::ShowShoppingList ==> w.db_cursor.cursor == step_down(
                v.db_cursor.cursor,
                v.shopping_list.len(),
            ))
            &&& (v.state == AppState::ViewingDatabase || v.state == AppState::AddToGeneratedList
                ==> w.db_cursor.cursor == step_down(v.db_cursor.cursor, v.db.len()))
            &&& (v.state == AppState::PickingCategory ==> w.picking_cursor == step_down(
                v.picking_cursor,
                7,
            ))
        }),
{
}

/// Deleting a dish after confirming removes exactly the selected dish: the
/// dishes before it keep their places, the ones after it move up by one.
pub proof fn law_delete_removes_selected_dish(v: AppView)
    requires
        v.ays_cursor == 0,
        v.db_cursor.cursor < v.db.len(),
    ensures
        ({
            let w = v.after_delete_dish_option();
            let c = v.db_cursor.cursor as int;
            &&& w.db.len() + 1 == v.db.len()
            &&& forall|i: int| 0 <= i < c ==> #[trigger] w.db[i] == v.db[i]
            &&& forall|i: int| c <= i < w.db.len() ==> #[trigger] w.db[i] == v.db[i + 1]
            &&& w.state == AppState::ViewingDatabase
        }),
{
}

/// The categories of the picking menu, in the order it shows them.
pub open spec fn picking_menu() -> Seq<UiText> {
    seq![
        UiText::Misc,
        UiText::Vegetables,
        UiText::Fruit,
        UiText::Dairy,
        UiText::Protein,
        UiText::Pantry,
        UiText::Spices,
    ]
}

/// The category picked at a position of the picking menu is the one whose
/// name the menu shows there.
pub proof fn law_picked_category_is_the_one_shown(p: usize)
    requires
        p < 7,
    ensures
        category_text(picked_category(p)) == picking_menu()[p as int],
{
}

/// Picking a category for a new ingredient of unknown category files it
/// under the category shown at the selection, and learns that: the last
/// ingredient keeps its name and takes that category, the others stay, and
/// the lower-case name is added to the category table with it.
pub proof fn law_confirmed_category_is_the_one_shown(v: AppView)
    requires
        v.pending_dish is Some,
        v.pending_dish->0.ingredients.len() > 0,
        v.prev_state == Some(AppState::EnteringIngredients),
        v.picking_cursor < 7,
    ensures
        ({
            let w = v.after_confirm_category();
            let p = v.pending_dish->0.ingredients;
            let q = w.pending_dish->0.ingredients;
            &&& w.pending_dish is Some
            &&& q.len() == p.len()
            &&& category_text(q.last().category) == picking_menu()[v.picking_cursor as int]
            &&& q.last().name == p.last().name
            &&& forall|i: int| 0 <= i < p.len() - 1 ==> #[trigger] q[i] == p[i]
            &&& w.category_db == v.category_db.push((lowercase(p.last().name), q.last().category))
            &&& w.state == AppState::EnteringIngredients
        }),
{
    let p = v.pending_dish->0.ingredients;
    let q = v.after_confirm_category().pending_dish->0.ingredients;
    assert forall|i: int| 0 <= i < p.len() - 1 implies #[trigger] q[i] == p[i] by {
        assert(q[i] == p.drop_last()[i]);
    }
}

/// Saving the new dish adds one dish at the end of the Dishtabase, with the
/// name of the dish at hand and every one of its ingredients, as often as
/// they occur, in store order; the dishes already there stay.
pub proof fn law_saved_dish_keeps_its_ingredients(v: AppView)
    requires
        v.cursor != 4,
        v.pending_dish is Some,
    ensures
        ({
            let w = v.after_push_dish_to_db();
            let p = v.pending_dish->0;
            let d = w.db.last();
            &&& w.db.len() == v.db.len() + 1
            &&& forall|i: int| 0 <= i < v.db.len() ==> #[trigger] w.db[i] == v.db[i]
            &&& d.name == p.name
            &&& forall|x: IngredientView| #[trigger] count_of(d.ingredients, x) == count_of(p.ingredients, x)
            &&& forall|i: int, j: int|
                0 <= i < j < d.ingredients.len() ==> (#[trigger] d.ingredients[i]).category.rank()
                    <= (#[trigger] d.ingredients[j]).category.rank()
            &&& w.pending_dish is None
        }),
{
    let p = v.pending_dish->0;
    assert forall|x: IngredientView| #[trigger] count_of(sorted_by_category(p.ingredients), x) == count_of(
        p.ingredients,
        x,
    ) by {
        law_sort_keeps_items(p.ingredients, x);
    }
    law_sort_orders(p.ingredients);
}

/// Editing an ingredient of a dish of the Dishtabase gives it the typed
/// name, capitalised, and the category that name is filed under; the other
/// ingredients, the dish's name and the other dishes stay.
pub proof fn law_edited_ingredient_takes_name_and_category(v: AppView)
    requires
        v.pending_dish is Some,
        v.edit_cursor.cursor < v.pending_dish->0.ingredients.len(),
        v.db_cursor.cursor < v.db.len(),
    ensures
        ({
            let w = v.after_edit_ingredient();
            let p = v.pending_dish->0;
            let e = v.edit_cursor.cursor as int;
            let c = v.db_cursor.cursor as int;
            let d = w.db[c];
            &&& w.db.len() == v.db.len()
            &&& forall|j: int| 0 <= j < v.db.len() && j != c ==> #[trigger] w.db[j] == v.db[j]
            &&& d.name == p.name
            &&& d.ingredients.len() == p.ingredients.len()
            &&& d.ingredients[e].name == capitalised_words(v.input)
            &&& d.ingredients[e].category == v.category_for(v.input)
            &&& forall|i: int| 0 <= i < p.ingredients.len() && i != e ==> #[trigger] d.ingredients[i]
                == p.ingredients[i]
            &&& w.state == AppState::EditingDish
        }),
{
}

/// The character of a digit is an ASCII digit worth that digit.
proof fn lemma_digit_char_value(d: nat)
    requires
        d < 10,
    ensures
        '0' <= digit_char(d) <= '9',
        digit_char(d) as nat - '0' as nat == d,
{
    if d == 0 {
    } else if d == 1 {
    } else if d == 2 {
    } else if d == 3 {
    } else if d == 4 {
    } else if d == 5 {
    } else if d == 6 {
    } else if d == 7 {
    } else if d == 8 {
    } else {
    }
}

/// The decimal numeral of `n` is made of ASCII digits, reads back as `n`,
/// and starts with a digit other than 0 when `n` is not 0.
pub proof fn lemma_decimal_reads_back(n: nat)
    ensures
        all_ascii_digits(decimal(n)),
        digits_value(decimal(n)) == n,
        decimal(n).len() > 0,
        n > 0 ==> decimal(n)[0] != '0',
    decreases n,
{
    if n < 10 {
        lemma_digit_char_value(n);
        let t = seq![digit_char(n)];
        assert(t.drop_last() =~= Seq::<char>::empty());
        assert(decimal(n) == t);
        assert(digits_value(t.drop_last()) == 0);
        assert(digits_value(t) == digits_value(t.drop_last()) * 10 + (t.last() as nat - '0' as nat) as nat);
    } else {
        lemma_decimal_reads_back(n / 10);
        let s = decimal(n / 10);
        let d = (n % 10) as nat;
        lemma_digit_char_value(d);
        let t = s.push(digit_char(d));
        assert(t.drop_last() =~= s);
        assert(decimal(n) == t);
        assert(t.last() == digit_char(d));
        assert(digits_value(t) == digits_value(s) * 10 + (digit_char(d) as nat - '0' as nat) as nat);
        vstd::arithmetic::div_mod::lemma_fundamental_div_mod(n as int, 10);
        assert(digits_value(t) == n);
        assert forall|i: int| 0 <= i < t.len() implies crate::text::is_ascii_digit(#[trigger] t[i]) by {
            if i < s.len() {
                assert(t[i] == s[i]);
            }
        }
        assert(n / 10 > 0);
        assert(s.push(digit_char(d))[0] == s[0]);
    }
}

/// In the numbered text export, line `k` (counted from 0) starts with a
/// numeral of ASCII digits that reads as `k + 1`, without a leading zero,
/// followed by `. `.
pub proof fn law_numbered_line_starts_with_its_number(
    v: AppView,
    s: Seq<IngredientView>,
    k: int,
    categories: bool,
)
    requires
        0 <= k < s.len(),
    ensures
        exists|p: Seq<char>|
            #![trigger digits_value(p)]
            all_ascii_digits(p) && digits_value(p) == k + 1 && p.len() > 0 && p[0] != '0' && is_prefix(
                p + ". "@,
                v.txt_line(s, k, categories, true),
            ),
{
    let p = decimal((k + 1) as nat);
    lemma_decimal_reads_back((k + 1) as nat);
    let line = v.txt_line(s, k, categories, true);
    assert(line.take((p + ". "@).len() as int) =~= p + ". "@);
}

/// Adding an ingredient to the dish being edited puts it last, with the
/// typed name capitalised and the category that name is filed under, and
/// selects it; the dish's other ingredients and the other dishes stay.
pub proof fn law_added_ingredient_goes_last(v: AppView)
    requires
        v.db_cursor.cursor < v.db.len(),
        v.db[v.db_cursor.cursor as int].ingredients.len() < usize::MAX,
    ensures
        ({
            let w = v.after_edit_add_ingredient();
            let c = v.db_cursor.cursor as int;
            let old_ings = v.db[c].ingredients;
            let ings = w.db[c].ingredients;
            let name = capitalised_words(v.input);
            &&& w.db.len() == v.db.len()
            &&& forall|j: int| 0 <= j < v.db.len() && j != c ==> #[trigger] w.db[j] == v.db[j]
            &&& w.db[c].name == v.db[c].name
            &&& ings.len() == old_ings.len() + 1
            &&& forall|i: int| 0 <= i < old_ings.len() ==> #[trigger] ings[i] == old_ings[i]
            &&& ings.last().name == name
            &&& ings.last().category == v.category_for(name)
            &&& w.edit_cursor.cursor == old_ings.len()
            &&& w.state == AppState::EditingDish
        }),
{
}

/// Deleting an ingredient of the dish being edited removes exactly the
/// selected one: those before it keep their places, those after it move up
/// by one, and the other dishes stay.
pub proof fn law_deleted_ingredient_is_the_selected_one(v: AppView)
    requires
        v.state == AppState::EditingDish,
        v.db_cursor.cursor < v.db.len(),
        v.edit_cursor.cursor < v.db[v.db_cursor.cursor as int].ingredients.len(),
    ensures
        ({
            let w = v.after_delete_ingredient();
            let c = v.db_cursor.cursor as int;
            let e = v.edit_cursor.cursor as int;
            let old_ings = v.db[c].ingredients;
            let ings = w.db[c].ingredients;
            &&& w.db.len() == v.db.len()
            &&& forall|j: int| 0 <= j < v.db.len() && j != c ==> #[trigger] w.db[j] == v.db[j]
            &&& w.db[c].name == v.db[c].name
            &&& ings.len() + 1 == old_ings.len()
            &&& forall|i: int| 0 <= i < e ==> #[trigger] ings[i] == old_ings[i]
            &&& forall|i: int| e <= i < ings.len() ==> #[trigger] ings[i] == old_ings[i + 1]
        }),
{
}

/// Deleting an item of the shopping list removes exactly the selected one:
/// those before it keep their places, those after it move up by one.
pub proof fn law_deleted_item_is_the_selected_one(v: AppView)
    requires
        v.state == AppState::ShowShoppingList,
        v.db_cursor.cursor < v.shopping_list.len(),
    ensures
        ({
            let w = v.after_delete_ingredient();
            let c = v.db_cursor.cursor as int;
            &&& w.shopping_list.len() + 1 == v.shopping_list.len()
            &&& forall|i: int| 0 <= i < c ==> #[trigger] w.shopping_list[i] == v.shopping_list[i]
            &&& forall|i: int| c <= i < w.shopping_list.len() ==> #[trigger] w.shopping_list[i]
                == v.shopping_list[i + 1]
        }),
{
}

/// Renaming the dish being edited gives it the typed name, capitalised,
/// and keeps its ingredients; the other dishes stay.
pub proof fn law_renamed_dish_keeps_its_ingredients(v: AppView)
    requires
        v.state == AppState::EditingDishName,
        v.pending_dish is Some,
        v.db_cursor.cursor < v.db.len(),
    ensures
        ({
            let w = v.after_edit_dish_name();
            let c = v.db_cursor.cursor as int;
            &&& w.db.len() == v.db.len()
            &&& forall|j: int| 0 <= j < v.db.len() && j != c ==> #[trigger] w.db[j] == v.db[j]
            &&& w.db[c].name == capitalised_words(v.input)
            &&& w.db[c].ingredients == v.pending_dish->0.ingredients
            &&& w.state == AppState::EditingDish
        }),
{
}

} // verus!
