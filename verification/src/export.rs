use vstd::prelude::*;
use vstd::string::StringSliceAdditionalSpecFns;
use crate::app::{App, AppView, category_text};
use crate::items::{Category, Ingredient, IngredientView, ingredients_view};
use crate::locale::UiText;
use crate::text::{decimal, push_char, push_decimal};

verus! {

broadcast use vstd::seq_lib::group_seq_properties;

/// `n` spaces.
pub open spec fn spaces(n: nat) -> Seq<char> {
    Seq::new(n, |i: int| ' ')
}

/// `a - b`, or 0 when `b` is larger.
pub open spec fn minus_or_zero(a: nat, b: nat) -> nat {
    if a >= b {
        (a - b) as nat
    } else {
        0
    }
}

/// The width of the column that a line's text and padding fill.
pub open spec fn column_width() -> nat {
    25
}

impl AppView {
    /// The name of a category, as the interface shows it.
    pub open spec fn category_name(self, c: Category) -> &'static str {
        self.text[category_text(c).index() as int]
    }

    /// Line `k` of `s` closes a bracket: its item is not the first of its
    /// category, and the next item, if any, is of another category.
    pub open spec fn closing_line(s: Seq<IngredientView>, k: int) -> bool {
        &&& 0 < k < s.len()
        &&& s[k].category == s[k - 1].category
        &&& (k + 1 == s.len() || s[k + 1].category != s[k].category)
    }

    /// The column layout of the text export has room, on every line that
    /// closes a bracket, for the two characters the closing mark takes back
    /// from the padding: the padding and the category's name together take
    /// at least three places there.
    pub open spec fn txt_export_fits(self, s: Seq<IngredientView>, categories: bool, numbers: bool) -> bool {
        categories ==> forall|k: int| #[trigger] Self::closing_line(s, k) ==> self.txt_base(s, k, numbers)
            + self.category_name(s[k].category).len() >= 3
    }

    /// The padding a line of the text export starts with after the item's
    /// name: what is left of the column.
    pub open spec fn txt_base(self, s: Seq<IngredientView>, k: int, numbers: bool) -> nat {
        let extra: nat = if numbers && k + 1 > 9 {
            1
        } else {
            0
        };
        minus_or_zero(column_width(), s[k].name.len() + extra)
    }

    /// What follows the item's name on line `k` of the text export: with
    /// categories, the first item of each category is followed by the
    /// category's name, the others by a bracket that closes under the last
    /// one.
    pub open spec fn txt_tail(self, s: Seq<IngredientView>, k: int, categories: bool, numbers: bool) -> Seq<char> {
        let ing = s[k];
        let base = self.txt_base(s, k, numbers);
        if !categories {
            Seq::empty()
        } else if k == 0 || ing.category != s[k - 1].category {
            spaces(base) + self.category_name(ing.category)@
        } else {
            let w = minus_or_zero((base + self.category_name(ing.category).len()) as nat, 1);
            if k + 1 == s.len() || s[k + 1].category != ing.category {
                spaces((w - 2) as nat) + "──┘"@
            } else {
                spaces(w) + "│"@
            }
        }
    }

    /// Line `k` of the text export of `s`: the item's number when `numbers`,
    /// its name, what follows it, and a line break.
    pub open spec fn txt_line(self, s: Seq<IngredientView>, k: int, categories: bool, numbers: bool) -> Seq<char> {
        let prefix = if numbers {
            decimal((k + 1) as nat) + ". "@
        } else {
            Seq::empty()
        };
        prefix + s[k].name + self.txt_tail(s, k, categories, numbers) + "\n"@
    }

    /// The first `k` lines of the text export of `s`.
    pub open spec fn txt_lines(self, s: Seq<IngredientView>, k: nat, categories: bool, numbers: bool) -> Seq<char>
        decreases k,
    {
        if k == 0 {
            Seq::empty()
        } else {
            self.txt_lines(s, (k - 1) as nat, categories, numbers) + self.txt_line(s, k - 1, categories, numbers)
        }
    }
}

/// The name of the text file of a shopping list exported on `date`: the
/// `n`th export of the day is numbered from the second on.
pub open spec fn txt_file_name_for(date: Seq<char>, n: nat) -> Seq<char> {
    if n <= 1 {
        "Shopping_List-"@ + date + ".txt"@
    } else {
        "Shopping_List-"@ + date + ":"@ + decimal(n) + ".txt"@
    }
}

/// The name of the text file of the `n`th shopping list exported on `date`.
pub fn txt_file_name(date: &str, n: usize) -> (r: String)
    ensures
        r@ == txt_file_name_for(date@, n as nat),
{
    let mut r = "Shopping_List-".to_owned();
    r.append(date);
    if n > 1 {
        r.append(":");
        push_decimal(&mut r, n);
    }
    r.append(".txt");
    r
}

/// Appends `n` spaces.
fn push_spaces(s: &mut String, n: usize)
    ensures
        final(s)@ == old(s)@ + spaces(n as nat),
{
    let mut k: usize = 0;
    while k < n
        invariant
            k <= n,
            s@ == old(s)@ + spaces(k as nat),
        decreases n - k,
    {
        push_char(s, ' ');
        assert(s@ =~= old(s)@ + spaces((k + 1) as nat));
        k = k + 1;
    }
}

/// Spaces put together are spaces.
proof fn lemma_spaces_add(a: nat, b: nat)
    ensures
        spaces(a) + spaces(b) == spaces(a + b),
{
    assert(spaces(a) + spaces(b) =~= spaces(a + b));
}

/// The padding after the name of line `k` (counted from 0), whose name has
/// `name_len` characters.
fn txt_base_of(name_len: usize, k: usize, i_option: bool) -> (base: usize)
    requires
        k < usize::MAX,
    ensures
        base as nat == minus_or_zero(
            column_width(),
            (name_len + (if i_option && k + 1 > 9 { 1nat } else { 0nat })) as nat,
        ),
{
    let extra: usize = if i_option && k + 1 > 9 { 1 } else { 0 };
    if name_len < 25 && extra <= 25 - name_len { 25 - name_len - extra } else { 0 }
}

impl App {
    /// Whether the column layout of the text export of `shopping_list` has
    /// room for every bracket it closes.
    pub fn txt_export_fits(&self, shopping_list: &Vec<Ingredient>, cat_option: bool, i_option: bool) -> (r: bool)
        requires
            self@.wf(),
        ensures
            r == self@.txt_export_fits(ingredients_view(shopping_list@), cat_option, i_option),
    {
        let ghost s = ingredients_view(shopping_list@);
        if !cat_option {
            return true;
        }
        let n = shopping_list.len();
        for k in 0..n
            invariant
                n == shopping_list.len(),
                s == ingredients_view(shopping_list@),
                self@.wf(),
                cat_option,
                forall|j: int| 0 <= j < k && #[trigger] AppView::closing_line(s, j) ==> self@.txt_base(s, j, i_option)
                    + self@.category_name(s[j].category).len() >= 3,
        {
            let ing = &shopping_list[k];
            if k > 0 && ing.category == shopping_list[k - 1].category && (k + 1 == n
                || shopping_list[k + 1].category != ing.category) {
                assert(AppView::closing_line(s, k as int));
                let base = txt_base_of(ing.name.as_str().unicode_len(), k, i_option);
                let cat_count = self.text[category_position(ing.category)].len();
                assert(cat_count == self@.category_name(s[k as int].category).len());
                assert(base as nat == self@.txt_base(s, k as int, i_option));
                if cat_count < 3 && base + cat_count < 3 {
                    return false;
                }
            }
        }
        true
    }

    /// What follows the item's name on line `k` of the text export.
    fn txt_tail_string(&self, shopping_list: &Vec<Ingredient>, k: usize, cat_option: bool, i_option: bool) -> (output: String)
        requires
            self@.wf(),
            self@.txt_export_fits(ingredients_view(shopping_list@), cat_option, i_option),
            k < shopping_list.len(),
        ensures
            output@ == self@.txt_tail(ingredients_view(shopping_list@), k as int, cat_option, i_option),
    {
        let ghost s = ingredients_view(shopping_list@);
        let n = shopping_list.len();
        let ing = &shopping_list[k];
        let base = txt_base_of(ing.name.as_str().unicode_len(), k, i_option);
        assert(base as nat == self@.txt_base(s, k as int, i_option));
        let mut output = String::new();
        if cat_option {
            let name = self.text[category_position(ing.category)];
            assert(name == self@.category_name(s[k as int].category));
            if k == 0 || ing.category != shopping_list[k - 1].category {
                push_spaces(&mut output, base);
                output.append(name);
            } else {
                let cat_count = name.len();
                assert(cat_count == self@.category_name(s[k as int].category).len());
                if k + 1 == n || shopping_list[k + 1].category != ing.category {
                    assert(AppView::closing_line(s, k as int));
                    if cat_count >= 3 {
                        push_spaces(&mut output, base);
                        push_spaces(&mut output, cat_count - 3);
                        proof {
                            lemma_spaces_add(base as nat, (cat_count - 3) as nat);
                        }
                    } else {
                        push_spaces(&mut output, base + cat_count - 3);
                    }
                    output.append("──┘");
                } else {
                    if cat_count >= 1 {
                        push_spaces(&mut output, base);
                        push_spaces(&mut output, cat_count - 1);
                        proof {
                            lemma_spaces_add(base as nat, (cat_count - 1) as nat);
                        }
                    } else if base >= 1 {
                        push_spaces(&mut output, base - 1);
                    }
                    output.append("│");
                }
            }
        }
        output
    }

    /// Line `k` of the text export of a shopping list.
    fn txt_line_string(&self, shopping_list: &Vec<Ingredient>, k: usize, cat_option: bool, i_option: bool) -> (output: String)
        requires
            self@.wf(),
            self@.txt_export_fits(ingredients_view(shopping_list@), cat_option, i_option),
            k < shopping_list.len(),
        ensures
            output@ == self@.txt_line(ingredients_view(shopping_list@), k as int, cat_option, i_option),
    {
        let ghost s = ingredients_view(shopping_list@);
        let mut output = String::new();
        if i_option {
            push_decimal(&mut output, k + 1);
            output.append(". ");
        }
        output.append(shopping_list[k].name.as_str());
        let tail = self.txt_tail_string(shopping_list, k, cat_option, i_option);
        output.append(tail.as_str());
        push_char(&mut output, '\n');
        proof {
            reveal_strlit("\n");
            assert(output@ =~= self@.txt_line(s, k as int, cat_option, i_option));
        }
        output
    }

    /// The text export of a shopping list: one line per item, numbered when
    /// `i_option`, with category names and brackets when `cat_option`.
    pub fn make_txt_string(&self, shopping_list: &Vec<Ingredient>, cat_option: bool, i_option: bool) -> (txt: String)
        requires
            self@.wf(),
            self@.txt_export_fits(ingredients_view(shopping_list@), cat_option, i_option),
        ensures
            txt@ == self@.txt_lines(ingredients_view(shopping_list@), shopping_list.len() as nat, cat_option, i_option),
    {
        let ghost s = ingredients_view(shopping_list@);
        let n = shopping_list.len();
        let mut txt = String::new();
        for k in 0..n
            invariant
                n == shopping_list.len(),
                s == ingredients_view(shopping_list@),
                self@.wf(),
                self@.txt_export_fits(s, cat_option, i_option),
                txt@ == self@.txt_lines(s, k as nat, cat_option, i_option),
        {
            let output = self.txt_line_string(shopping_list, k, cat_option, i_option);
            txt.append(output.as_str());
        }
        txt
    }
}

/// The position in the translation table of a category's name.
fn category_position(c: Category) -> (r: usize)
    ensures
        r == category_text(c).index(),
{
    match c {
        Category::Vegetables => UiText::Vegetables.position(),
        Category::Fruit => UiText::Fruit.position(),
        Category::Dairy => UiText::Dairy.position(),
        Category::Protein => UiText::Protein.position(),
        Category::Pantry => UiText::Pantry.position(),
        Category::Spices => UiText::Spices.position(),
        Category::Misc => UiText::Misc.position(),
    }
}

} // verus!
