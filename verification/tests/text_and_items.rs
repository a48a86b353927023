use al_goma::category_db::CategoryDb;
use al_goma::items::{sort_by_category, Category, Database, Dish, Ingredient};
use al_goma::list::make_shopping_list;
use al_goma::locale::{english, swedish, UiText, UI_TEXT_COUNT};
use al_goma::text::{
    erase_word_in_place, is_ascii_numeral, parse_numeral, remove_spaces, starts_with, uppercase_words,
};
use al_goma::ui::{update_scroll, Cursor};

fn ing(name: &str, category: Category) -> Ingredient {
    Ingredient { name: name.to_string(), category, frozen: false }
}

fn names(v: &[Ingredient]) -> Vec<String> {
    v.iter().map(|i| i.name.clone()).collect()
}

#[test]
fn uppercase_words_capitalises_each_word() {
    assert_eq!(uppercase_words("hello world"), "Hello World");
    assert_eq!(uppercase_words(""), "");
    assert_eq!(uppercase_words("a  b"), "A  B");
    assert_eq!(uppercase_words("élan vital"), "Élan Vital");
    assert_eq!(uppercase_words("already Up"), "Already Up");
}

#[test]
fn uppercase_words_twice_is_once_on_ascii() {
    for s in ["hello world", "a  b", " x-ray 9lives", "ALL CAPS", ""] {
        let once = uppercase_words(s);
        assert_eq!(uppercase_words(&once), once);
    }
}


#[test]
fn word_erase_removes_last_word_or_delimiter() {
    let mut s = "foo bar".to_string();
    erase_word_in_place(&mut s);
    assert_eq!(s, "foo ");
    erase_word_in_place(&mut s);
    assert_eq!(s, "foo");
    erase_word_in_place(&mut s);
    assert_eq!(s, "");
    erase_word_in_place(&mut s);
    assert_eq!(s, "");
    let mut t = "a.b-c_d".to_string();
    erase_word_in_place(&mut t);
    assert_eq!(t, "a.b-c_");
}

#[test]
fn prefix_and_spaces() {
    assert!(starts_with("tomato", "tom"));
    assert!(!starts_with("tom", "tomato"));
    assert!(starts_with("x", ""));
    assert_eq!(remove_spaces("ice cream "), "icecream");
}

#[test]
fn numerals() {
    assert_eq!(parse_numeral("12"), Some(12));
    assert_eq!(parse_numeral("007"), Some(7));
    assert_eq!(parse_numeral(""), Some(0));
    assert_eq!(parse_numeral("99999999999999999999999999"), None);
    assert_eq!(parse_numeral(&usize::MAX.to_string()), Some(usize::MAX));
    assert!(is_ascii_numeral("0123"));
    assert!(!is_ascii_numeral("12a"));
    assert!(!is_ascii_numeral("٣"));
}

#[test]
fn scroll_follows_selection() {
    let mut c = Cursor { cursor: 2, scroll: 5, visable_lines: 4 };
    update_scroll(&mut c);
    assert_eq!(c.scroll, 2);
    let mut c = Cursor { cursor: 10, scroll: 2, visable_lines: 4 };
    update_scroll(&mut c);
    assert_eq!(c.scroll, 7);
    let before = c;
    update_scroll(&mut c);
    assert_eq!(c, before);
    let mut c = Cursor { cursor: 4, scroll: 2, visable_lines: 4 };
    update_scroll(&mut c);
    assert_eq!(c.scroll, 2);
}

#[test]
fn sorting_is_by_category_and_stable() {
    let mut v = vec![
        ing("Salt", Category::Spices),
        ing("Apple", Category::Fruit),
        ing("Leek", Category::Vegetables),
        ing("Pear", Category::Fruit),
        ing("Milk", Category::Dairy),
        ing("Onion", Category::Vegetables),
    ];
    sort_by_category(&mut v);
    assert_eq!(names(&v), vec!["Leek", "Onion", "Apple", "Pear", "Milk", "Salt"]);
}

#[test]
fn shopping_list_has_each_name_once_sorted() {
    let menu = vec![
        Dish {
            name: "Soup".to_string(),
            ingredients: vec![ing("Leek", Category::Vegetables), ing("Cream", Category::Dairy)],
        },
        Dish {
            name: "Pie".to_string(),
            ingredients: vec![
                ing("Apple", Category::Fruit),
                ing("Cream", Category::Misc),
                ing("Flour", Category::Pantry),
            ],
        },
    ];
    let mut list = vec![ing("Old", Category::Misc)];
    make_shopping_list(Some(menu), &mut list);
    assert_eq!(names(&list), vec!["Leek", "Apple", "Cream", "Flour"]);
    assert_eq!(list[2].category, Category::Dairy);
    make_shopping_list(None, &mut list);
    assert!(list.is_empty());
}

#[test]
fn translations_cover_every_text() {
    let en = english();
    let sv = swedish();
    assert_eq!(en.len(), UI_TEXT_COUNT);
    assert_eq!(sv.len(), UI_TEXT_COUNT);
    assert_eq!(en[UiText::NewList.position()], "New List");
    assert_eq!(sv[UiText::NewList.position()], "Ny Lista");
    assert_eq!(en[UiText::Pantry.position()], "Pantry");
    assert_eq!(sv[UiText::Pantry.position()], "Skafferi/Torrvaror");
    assert_eq!(en[UiText::TTPromtPrint.position()], "[up/down] select   [enter] confirm   [p] print   [esc] cancel");
}

#[test]
fn category_table_lookups() {
    let mut db = CategoryDb::from_entries(vec![
        ("ice cream".to_string(), Category::Dairy),
        ("milk".to_string(), Category::Dairy),
    ]);
    assert_eq!(db.get("milk"), Some(Category::Dairy));
    assert_eq!(db.get("bread"), None);
    db.insert("milk".to_string(), Category::Protein);
    assert_eq!(db.get("milk"), Some(Category::Protein));
    let n = db.without_spaces();
    assert_eq!(n.get("icecream"), Some(Category::Dairy));
    assert_eq!(n.get("ice cream"), None);
    assert_eq!(db.first_key_with_prefix("ic"), Some("ice cream".to_string()));
    assert_eq!(db.first_key_with_prefix("x"), None);
    let _ = Database { dishes: vec![] };
}
