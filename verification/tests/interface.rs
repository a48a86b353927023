use al_goma::app::{App, AppState, Effect, Language, Space};
use al_goma::export::txt_file_name;
use al_goma::items::{Category, Database, Dish, Ingredient};
use al_goma::keys::{Key, KeyCode};
use al_goma::list::{draw_dish, menu_from_draws, replacement_from_draw};
use al_goma::locale::UiText;
use al_goma::upload::task_titles;

fn ing(name: &str, category: Category) -> Ingredient {
    Ingredient { name: name.to_string(), category, frozen: false }
}

fn dish(name: &str, ings: Vec<Ingredient>) -> Dish {
    Dish { name: name.to_string(), ingredients: ings }
}

fn sample_db() -> Database {
    Database {
        dishes: vec![
            dish("Soup", vec![ing("Leek", Category::Vegetables), ing("Cream", Category::Dairy)]),
            dish("Pie", vec![ing("Apple", Category::Fruit), ing("Flour", Category::Pantry)]),
            dish("Steak", vec![ing("Beef", Category::Protein)]),
        ],
    }
}

fn categories() -> Vec<(String, Category)> {
    vec![
        ("milk".to_string(), Category::Dairy),
        ("ice cream".to_string(), Category::Dairy),
        ("tomato".to_string(), Category::Vegetables),
    ]
}

fn app() -> App {
    App::init(Language::Eng, sample_db(), vec![], None, categories())
}

fn key(app: &mut App, code: KeyCode) {
    let k = Key { code, ctrl: false };
    assert!(app.can_handle(k));
    app.handle_key(k);
}

fn ctrl(app: &mut App, c: char) {
    let k = Key { code: KeyCode::Char(c), ctrl: true };
    assert!(app.can_handle(k));
    app.handle_key(k);
}

fn typed(app: &mut App, s: &str) {
    for c in s.chars() {
        key(app, KeyCode::Char(c));
    }
}

fn names(v: &[Ingredient]) -> Vec<String> {
    v.iter().map(|i| i.name.clone()).collect()
}

#[test]
fn starts_in_main_menu() {
    let a = app();
    assert_eq!(a.state, AppState::Normal);
    assert_eq!(a.selected_space, Space::MainLeft);
    assert_eq!(a.left_window_actions, vec!["New List", "View/Edit List", "Add Dish to Dishtabase", "View/Edit Dishtabase", "Upload"]);
    assert_eq!(a.text_get(al_goma::locale::UiText::Yes), "Yes");
    let s = App::init(Language::Swe, sample_db(), vec![], None, categories());
    assert_eq!(s.text_get(al_goma::locale::UiText::Yes), "Ja");
    assert_eq!(s.get_category_name(Category::Dairy), "Mejeri");
}

#[test]
fn saved_menu_kept_only_with_a_shopping_list() {
    let a = App::init(Language::Eng, sample_db(), vec![], Some(vec![dish("X", vec![])]), categories());
    assert!(a.current_dish_list.is_none());
    let b = App::init(Language::Eng, sample_db(), vec![ing("Milk", Category::Dairy)], Some(vec![dish("X", vec![])]), categories());
    assert_eq!(b.current_dish_list.as_ref().unwrap().len(), 1);
}

#[test]
fn menu_selection_wraps() {
    let mut a = app();
    key(&mut a, KeyCode::Up);
    assert_eq!(a.cursor, 4);
    key(&mut a, KeyCode::Down);
    assert_eq!(a.cursor, 0);
    key(&mut a, KeyCode::Down);
    key(&mut a, KeyCode::Down);
    assert_eq!(a.cursor, 2);
    key(&mut a, KeyCode::Up);
    assert_eq!(a.cursor, 1);
}

#[test]
fn add_a_dish_to_the_dishtabase() {
    let mut a = app();
    key(&mut a, KeyCode::Down);
    key(&mut a, KeyCode::Down);
    key(&mut a, KeyCode::Enter);
    assert_eq!(a.state, AppState::EnteringDishName);
    typed(&mut a, "tomato soup");
    key(&mut a, KeyCode::Enter);
    assert_eq!(a.state, AppState::EnteringIngredients);
    assert_eq!(a.pending_dish.as_ref().unwrap().name, "Tomato Soup");
    typed(&mut a, "tom");
    assert_eq!(a.inline_complete.as_deref(), Some("ato"));
    assert_eq!(a.inline_complete_whole_word.as_deref(), Some("tomato"));
    key(&mut a, KeyCode::Tab);
    assert_eq!(a.input, "tomato");
    key(&mut a, KeyCode::Enter);
    assert_eq!(a.state, AppState::EnteringIngredients);
    typed(&mut a, "milk");
    key(&mut a, KeyCode::Enter);
    let p = a.pending_dish.as_ref().unwrap();
    assert_eq!(names(&p.ingredients), vec!["Tomato", "Milk"]);
    assert_eq!(p.ingredients[0].category, Category::Vegetables);
    assert_eq!(p.ingredients[1].category, Category::Dairy);
    ctrl(&mut a, 's');
    assert_eq!(a.db.dishes.len(), 4);
    assert_eq!(a.db.dishes[3].name, "Tomato Soup");
    assert!(a.pending_dish.is_none());
    assert_eq!(a.state, AppState::EnteringDishName);
    assert!(matches!(a.effects.last(), Some(Effect::SaveDishtabase)));
}

#[test]
fn unknown_ingredient_asks_for_category_and_learns_it() {
    let mut a = app();
    key(&mut a, KeyCode::Down);
    key(&mut a, KeyCode::Down);
    key(&mut a, KeyCode::Enter);
    typed(&mut a, "stew");
    key(&mut a, KeyCode::Enter);
    typed(&mut a, "saffron");
    key(&mut a, KeyCode::Enter);
    assert_eq!(a.state, AppState::PickingCategory);
    assert_eq!(a.prev_state, Some(AppState::EnteringIngredients));
    for _ in 0..6 {
        key(&mut a, KeyCode::Down);
    }
    assert_eq!(a.picking_cursor, 6);
    key(&mut a, KeyCode::Down);
    assert_eq!(a.picking_cursor, 6);
    key(&mut a, KeyCode::Enter);
    assert_eq!(a.state, AppState::EnteringIngredients);
    assert_eq!(a.pending_dish.as_ref().unwrap().ingredients[0].category, Category::Spices);
    assert_eq!(a.find_category("Saffron"), Category::Spices);
    assert!(a.effects.iter().any(|e| matches!(e, Effect::SaveLearnedCategory(i) if i.name == "Saffron")));
}

#[test]
fn delete_a_dish_after_confirming() {
    let mut a = app();
    key(&mut a, KeyCode::Down);
    key(&mut a, KeyCode::Down);
    key(&mut a, KeyCode::Down);
    key(&mut a, KeyCode::Enter);
    assert_eq!(a.state, AppState::ViewingDatabase);
    key(&mut a, KeyCode::Down);
    key(&mut a, KeyCode::Down);
    key(&mut a, KeyCode::Down);
    assert_eq!(a.db_cursor.cursor, 2);
    key(&mut a, KeyCode::Delete);
    assert_eq!(a.state, AppState::AreYouSureDelDish);
    key(&mut a, KeyCode::Enter);
    assert_eq!(a.db.dishes.len(), 2);
    assert_eq!(a.db_cursor.cursor, 1);
    assert_eq!(a.state, AppState::ViewingDatabase);
    key(&mut a, KeyCode::Delete);
    key(&mut a, KeyCode::Down);
    assert_eq!(a.ays_cursor, 1);
    key(&mut a, KeyCode::Enter);
    assert_eq!(a.db.dishes.len(), 2);
}

#[test]
fn edit_a_dish() {
    let mut a = app();
    for _ in 0..3 {
        key(&mut a, KeyCode::Down);
    }
    key(&mut a, KeyCode::Enter);
    key(&mut a, KeyCode::Enter);
    assert_eq!(a.state, AppState::EditingDish);
    key(&mut a, KeyCode::Down);
    assert_eq!(a.edit_cursor.cursor, 1);
    key(&mut a, KeyCode::Enter);
    assert_eq!(a.state, AppState::EditingIngredient);
    typed(&mut a, "milk");
    key(&mut a, KeyCode::Enter);
    assert_eq!(a.db.dishes[0].ingredients[1].name, "Milk");
    assert_eq!(a.db.dishes[0].ingredients[1].category, Category::Dairy);
    ctrl(&mut a, 'a');
    assert_eq!(a.state, AppState::EditingAddIngredient);
    typed(&mut a, "salt");
    key(&mut a, KeyCode::Enter);
    assert_eq!(a.db.dishes[0].ingredients.len(), 3);
    assert_eq!(a.edit_cursor.cursor, 2);
    key(&mut a, KeyCode::Delete);
    assert_eq!(a.db.dishes[0].ingredients.len(), 2);
    assert_eq!(a.edit_cursor.cursor, 1);
    key(&mut a, KeyCode::Esc);
    assert_eq!(a.state, AppState::ViewingDatabase);
    assert_eq!(names(&a.db.dishes[0].ingredients), vec!["Leek", "Milk"]);
    ctrl(&mut a, 'n');
    assert_eq!(a.state, AppState::EditingDishName);
    assert_eq!(a.input, "Soup");
    key(&mut a, KeyCode::Backspace);
    typed(&mut a, "per soup");
    key(&mut a, KeyCode::Enter);
    assert_eq!(a.db.dishes[0].name, "Souper Soup");
}

#[test]
fn generate_a_menu_and_accept_it() {
    let mut a = app();
    key(&mut a, KeyCode::Enter);
    assert_eq!(a.state, AppState::NewList);
    assert_eq!(a.selected_space, Space::MainRight);
    typed(&mut a, "2");
    key(&mut a, KeyCode::Enter);
    assert_eq!(a.state, AppState::ShowGeneratedList);
    let menu = a.current_dish_list.clone().unwrap();
    assert_eq!(menu.len(), 2);
    assert_ne!(menu[0].name, menu[1].name);
    assert!(a.effects.iter().any(|e| matches!(e, Effect::SaveDishList)));
    let sel = a.edit_cursor.cursor;
    key(&mut a, KeyCode::Delete);
    let menu2 = a.current_dish_list.clone().unwrap();
    assert_eq!(menu2.len(), 2);
    assert!(menu2[sel].name != menu[sel].name);
    assert!(menu2[0].name != menu2[1].name);
    key(&mut a, KeyCode::Enter);
    assert_eq!(a.state, AppState::ShowShoppingList);
    let total: usize = menu2.iter().map(|d| d.ingredients.len()).sum();
    assert_eq!(a.shopping_list.len(), total);
}

#[test]
fn menu_requests_beyond_the_dishtabase_take_every_dish() {
    let mut a = app();
    key(&mut a, KeyCode::Enter);
    typed(&mut a, "10");
    key(&mut a, KeyCode::Enter);
    let mut menu: Vec<String> = a.current_dish_list.as_ref().unwrap().iter().map(|d| d.name.clone()).collect();
    menu.sort();
    assert_eq!(menu, vec!["Pie", "Soup", "Steak"]);
    assert_eq!(names(&a.shopping_list), vec!["Leek", "Apple", "Cream", "Beef", "Flour"]);
}

#[test]
fn menu_request_that_is_not_a_number_is_ignored() {
    let mut a = app();
    key(&mut a, KeyCode::Enter);
    typed(&mut a, "x2");
    key(&mut a, KeyCode::Enter);
    assert_eq!(a.state, AppState::NewList);
    assert!(a.current_dish_list.is_none());
    let mut b = app();
    key(&mut b, KeyCode::Enter);
    key(&mut b, KeyCode::Enter);
    assert_eq!(b.state, AppState::Normal);
}

#[test]
fn add_items_to_the_shopping_list_by_hand() {
    let mut a = app();
    key(&mut a, KeyCode::Down);
    key(&mut a, KeyCode::Enter);
    assert_eq!(a.state, AppState::ShowShoppingList);
    ctrl(&mut a, 'a');
    typed(&mut a, "milk");
    key(&mut a, KeyCode::Enter);
    ctrl(&mut a, 'a');
    typed(&mut a, "tomato");
    key(&mut a, KeyCode::Enter);
    assert_eq!(names(&a.shopping_list), vec!["Tomato", "Milk"]);
    assert_eq!(a.db_cursor.cursor, 0);
    assert_eq!(a.current_dish_list.as_ref().unwrap()[0].name, "n/a");
    ctrl(&mut a, 'a');
    typed(&mut a, "mystery");
    key(&mut a, KeyCode::Enter);
    assert_eq!(a.state, AppState::PickingCategory);
    key(&mut a, KeyCode::Down);
    key(&mut a, KeyCode::Down);
    key(&mut a, KeyCode::Enter);
    assert_eq!(a.state, AppState::AddToShoppingList);
    assert_eq!(names(&a.shopping_list), vec!["Tomato", "Mystery", "Milk"]);
    assert_eq!(a.db_cursor.cursor, 1);
    key(&mut a, KeyCode::Esc);
    assert_eq!(a.state, AppState::ShowShoppingList);
    key(&mut a, KeyCode::Delete);
    assert_eq!(names(&a.shopping_list), vec!["Tomato", "Milk"]);
    key(&mut a, KeyCode::Delete);
    key(&mut a, KeyCode::Delete);
    assert!(a.shopping_list.is_empty());
    assert!(a.current_dish_list.is_none());
}

#[test]
fn export_options_and_text() {
    let mut a = App::init(
        Language::Eng,
        sample_db(),
        vec![ing("Leek", Category::Vegetables), ing("Onion", Category::Vegetables), ing("Milk", Category::Dairy)],
        None,
        categories(),
    );
    key(&mut a, KeyCode::Down);
    key(&mut a, KeyCode::Enter);
    ctrl(&mut a, 'p');
    assert_eq!(a.state, AppState::PromptPrint);
    key(&mut a, KeyCode::Enter);
    assert_eq!(a.text_options, (true, false));
    key(&mut a, KeyCode::Down);
    key(&mut a, KeyCode::Enter);
    assert_eq!(a.text_options, (true, true));
    key(&mut a, KeyCode::Char('p'));
    assert_eq!(a.state, AppState::ShowShoppingList);
    assert!(matches!(a.effects.last(), Some(Effect::PrintShoppingList)));
    assert!(a.txt_export_fits(&a.shopping_list, true, false));
    let plain = a.make_txt_string(&a.shopping_list, false, false);
    assert_eq!(plain, "Leek\nOnion\nMilk\n");
    let numbered = a.make_txt_string(&a.shopping_list, false, true);
    assert_eq!(numbered, "1. Leek\n2. Onion\n3. Milk\n");
    let grouped = a.make_txt_string(&a.shopping_list, true, false);
    let expected = format!(
        "Leek{}Vegetables\nOnion{}──┘\nMilk{}Dairy\n",
        " ".repeat(21),
        " ".repeat(20 + 10 - 1 - 2),
        " ".repeat(21)
    );
    assert_eq!(grouped, expected);
}

#[test]
fn export_file_names() {
    assert_eq!(txt_file_name("2024-05-01", 1), "Shopping_List-2024-05-01.txt");
    assert_eq!(txt_file_name("2024-05-01", 2), "Shopping_List-2024-05-01:2.txt");
    assert_eq!(txt_file_name("2024-05-01", 12), "Shopping_List-2024-05-01:12.txt");
}

#[test]
fn upload_flow() {
    let mut a = app();
    key(&mut a, KeyCode::Up);
    key(&mut a, KeyCode::Enter);
    assert!(matches!(a.effects.last(), Some(Effect::CheckUploadToken)));
    a.open_upload(Ok(false), "2024-05-01");
    assert_eq!(a.state, AppState::UploadFirstLogin);
    key(&mut a, KeyCode::Enter);
    assert_eq!(a.state, AppState::UploadWaitingForLoginUrl);
    assert!(matches!(a.effects.last(), Some(Effect::StartLogin)));
    a.login_url_received("https://login".to_string());
    assert_eq!(a.state, AppState::UploadShowLoginUrl);
    key(&mut a, KeyCode::Char('c'));
    assert!(matches!(a.effects.last(), Some(Effect::CopyLoginUrl)));
    key(&mut a, KeyCode::Enter);
    assert_eq!(a.state, AppState::UploadEnterCode);
    typed(&mut a, "code");
    key(&mut a, KeyCode::Enter);
    assert!(matches!(a.effects.last(), Some(Effect::SendCode(c)) if c == "code"));
    assert_eq!(a.state, AppState::UploadLogginginWait);
    a.login_finished(Ok(()), "2024-05-01");
    assert_eq!(a.state, AppState::UploadMenu);
    assert_eq!(a.input, "Shopping List 2024-05-01");
    key(&mut a, KeyCode::Enter);
    assert_eq!(a.state, AppState::Uploading);
    a.upload_progress(false);
    assert_eq!(a.state, AppState::Uploading);
    a.upload_progress(true);
    assert_eq!(a.state, AppState::UploadDone);
}

#[test]
fn upload_menu_name_is_replaced_by_typing() {
    let mut a = app();
    a.open_upload(Ok(true), "2024-05-01");
    assert_eq!(a.state, AppState::UploadMenu);
    assert_eq!(a.input, "Shopping List 2024-05-01");
    typed(&mut a, "Week");
    assert_eq!(a.input, "Week");
    let mut b = app();
    b.open_upload(Err("no data dir".to_string()), "2024-05-01");
    assert_eq!(b.state, AppState::Error);
    assert_eq!(b.err_msg.as_deref(), Some("no data dir"));
}

#[test]
fn upload_titles_last_item_first() {
    let list = vec![ing("A", Category::Misc), ing("B", Category::Misc), ing("C", Category::Misc)];
    assert_eq!(task_titles(&list), vec!["C", "B", "A"]);
}

#[test]
fn quit_outside_inputs_but_type_q_inside() {
    let mut a = app();
    key(&mut a, KeyCode::Char('q'));
    assert!(matches!(a.effects.last(), Some(Effect::Quit)));
    let mut b = app();
    key(&mut b, KeyCode::Enter);
    key(&mut b, KeyCode::Char('q'));
    assert_eq!(b.input, "q");
}

#[test]
fn failing_keys_are_reported() {
    let mut a = App::init(Language::Eng, Database { dishes: vec![] }, vec![], None, categories());
    for _ in 0..3 {
        key(&mut a, KeyCode::Down);
    }
    key(&mut a, KeyCode::Enter);
    assert_eq!(a.state, AppState::ViewingDatabase);
    assert!(!a.can_handle(Key { code: KeyCode::Char('n'), ctrl: true }));
    key(&mut a, KeyCode::Delete);
    assert_eq!(a.state, AppState::ViewingDatabase);
    let mut b = app();
    key(&mut b, KeyCode::Enter);
    typed(&mut b, "99999999999999999999999999");
    assert!(!b.can_handle(Key { code: KeyCode::Enter, ctrl: false }));
}

#[test]
fn word_backspace_with_ctrl() {
    let mut a = app();
    key(&mut a, KeyCode::Down);
    key(&mut a, KeyCode::Down);
    key(&mut a, KeyCode::Enter);
    typed(&mut a, "pasta al forno");
    ctrl(&mut a, 'h');
    assert_eq!(a.input, "pasta al ");
    a.handle_key(Key { code: KeyCode::Backspace, ctrl: true });
    assert_eq!(a.input, "pasta al");
}

#[test]
fn category_look_up_ignores_case() {
    let a = App::init(
        Language::Eng,
        sample_db(),
        vec![],
        None,
        vec![("milk".to_string(), Category::Dairy), ("ånga".to_string(), Category::Pantry)],
    );
    assert_eq!(a.find_category("MiLK"), Category::Dairy);
    assert_eq!(a.find_category("ÅNGA"), Category::Pantry);
    assert_eq!(a.find_category("Ice Cream"), Category::Misc);
}

#[test]
fn export_layout_needs_room_for_closing_mark() {
    let long = "Aaaaaaaaaaaaaaaaaaaaaaaaa";
    let mut a = App::init(
        Language::Eng,
        sample_db(),
        vec![ing(long, Category::Vegetables), ing(long, Category::Vegetables)],
        None,
        categories(),
    );
    a.text[UiText::Vegetables.position()] = "ab";
    assert!(!a.txt_export_fits(&a.shopping_list, true, false));
    assert!(a.txt_export_fits(&a.shopping_list, false, false));
    assert_eq!(a.make_txt_string(&a.shopping_list, false, false), format!("{long}\n{long}\n"));
    a.text[UiText::Vegetables.position()] = "abc";
    assert!(a.txt_export_fits(&a.shopping_list, true, false));
    assert_eq!(a.make_txt_string(&a.shopping_list, true, false), format!("{long}abc\n{long}──┘\n"));
}

#[test]
fn menu_request_beyond_the_different_dishes_is_refused() {
    let soup = dish("Soup", vec![ing("Leek", Category::Vegetables)]);
    let db = Database { dishes: vec![soup.clone(), soup.clone(), dish("Pie", vec![ing("Apple", Category::Fruit)])] };
    let mut a = App::init(Language::Eng, db, vec![], None, categories());
    key(&mut a, KeyCode::Enter);
    typed(&mut a, "3");
    let enter = Key { code: KeyCode::Enter, ctrl: false };
    assert!(!a.can_handle(enter));
    assert!(!a.try_handle_key(enter));
    assert_eq!(a.state, AppState::NewList);
    assert!(a.current_dish_list.is_none());
    key(&mut a, KeyCode::Backspace);
    typed(&mut a, "2");
    assert!(a.try_handle_key(enter));
    let mut menu: Vec<String> = a.current_dish_list.as_ref().unwrap().iter().map(|d| d.name.clone()).collect();
    menu.sort();
    assert_eq!(menu, vec!["Pie", "Soup"]);
}

#[test]
fn menu_request_in_other_digits_is_refused() {
    let mut a = app();
    key(&mut a, KeyCode::Enter);
    typed(&mut a, "\u{663}");
    assert!(!a.can_handle(Key { code: KeyCode::Enter, ctrl: false }));
    let mut b = app();
    key(&mut b, KeyCode::Enter);
    typed(&mut b, "\u{bd}2");
    assert!(!b.can_handle(Key { code: KeyCode::Enter, ctrl: false }));
}

#[test]
fn redraw_without_a_possible_replacement_is_refused() {
    let soup = dish("Soup", vec![ing("Leek", Category::Vegetables)]);
    let other_soup = dish("Soup", vec![ing("Onion", Category::Vegetables)]);
    let db = Database { dishes: vec![soup.clone(), other_soup] };
    let mut a = App::init(Language::Eng, db, vec![ing("Leek", Category::Vegetables)], Some(vec![soup]), categories());
    a.state = AppState::ShowGeneratedList;
    a.selected_space = Space::MainRight;
    assert!(!a.can_handle(Key { code: KeyCode::Delete, ctrl: false }));
}

#[test]
fn draws_pick_among_the_dishes_left() {
    let db = sample_db().dishes;
    assert_eq!(draw_dish(&db, &vec![], 1).name, "Pie");
    assert_eq!(draw_dish(&db, &vec![db[1].clone()], 1).name, "Steak");
    let menu = menu_from_draws(&db, &vec![1, 0]);
    let names: Vec<String> = menu.iter().map(|d| d.name.clone()).collect();
    assert_eq!(names, vec!["Pie", "Soup"]);
    let menu = menu_from_draws(&db, &vec![2, 1, 0]);
    let names: Vec<String> = menu.iter().map(|d| d.name.clone()).collect();
    assert_eq!(names, vec!["Steak", "Pie", "Soup"]);
    assert!(menu_from_draws(&db, &vec![]).is_empty());
}

#[test]
fn replacement_draw_skips_the_menu_and_the_same_name() {
    let db = sample_db().dishes;
    let menu = vec![db[0].clone(), db[1].clone()];
    assert_eq!(replacement_from_draw(&db, &menu, 0, 0).name, "Steak");
    let mut db2 = db.clone();
    db2.push(dish("Soup", vec![ing("Onion", Category::Vegetables)]));
    db2.push(dish("Stew", vec![ing("Beef", Category::Protein)]));
    let menu2 = vec![db2[0].clone()];
    assert_eq!(replacement_from_draw(&db2, &menu2, 0, 0).name, "Pie");
    assert_eq!(replacement_from_draw(&db2, &menu2, 0, 2).name, "Stew");
}

#[test]
fn down_key_stops_on_the_last_item() {
    let mut a = App::init(
        Language::Eng,
        sample_db(),
        vec![ing("Leek", Category::Vegetables), ing("Milk", Category::Dairy)],
        None,
        categories(),
    );
    key(&mut a, KeyCode::Down);
    key(&mut a, KeyCode::Enter);
    assert_eq!(a.state, AppState::ShowShoppingList);
    assert_eq!(a.db_cursor.cursor, 0);
    key(&mut a, KeyCode::Down);
    assert_eq!(a.db_cursor.cursor, 1);
    key(&mut a, KeyCode::Down);
    assert_eq!(a.db_cursor.cursor, 1);
    assert_eq!(a.shopping_list.len(), 2);
}

