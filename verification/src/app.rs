use vstd::prelude::*;
use crate::category_db::{CategoryDb, entries_view, first_with_prefix, lookup, lookup_without_spaces};
use crate::items::{
    Category, Database, Dish, DishView, Ingredient, IngredientView, dishes_view,
    ingredients_view,
};
use crate::locale::{UI_TEXT_COUNT, UiText, english, english_text, swedish, swedish_text};
use crate::text::{lowercase, tail_from, to_lowercase};
use crate::ui::Cursor;

verus! {

broadcast use vstd::seq_lib::group_seq_properties;

/// Which half of the main window has the focus.
#[derive(Clone, Copy, Debug, PartialEq, Eq, Structural)]
pub enum Space {
    MainLeft,
    MainRight,
}

/// The language of the interface.
#[derive(Clone, Copy, Debug, PartialEq, Eq, Structural)]
pub enum Language {
    Eng,
    Swe,
}

/// The user's settings.
#[derive(Clone, Copy, Debug, PartialEq, Eq, Structural)]
pub struct Settings {
    pub language: Language,
}

/// What the interface is doing.
#[derive(Clone, Copy, Debug, PartialEq, Eq, Structural)]
pub enum AppState {
    Error,
    Normal,
    MovingFocus,
    EnteringDishName,
    EnteringIngredients,
    PickingCategory,
    ViewingDatabase,
    EditingDish,
    EditingIngredient,
    EditingAddIngredient,
    EditingDishName,
    AreYouSureDelDish,
    NewList,
    ReplaceList,
    ShowGeneratedList,
    AddToGeneratedList,
    ShowShoppingList,
    AddToShoppingList,
    PromptPrint,
    UploadMenu,
    UploadFirstLogin,
    UploadWaitingForLoginUrl,
    UploadShowLoginUrl,
    UploadEnterCode,
    UploadLogginginWait,
    Uploading,
    UploadDone,
}

/// Work outside the program that a step of the interface asks for; the
/// program around the library carries it out in the order asked.
#[derive(Debug)]
pub enum Effect {
    /// Write the Dishtabase to disk.
    SaveDishtabase,
    /// Write the shopping list to disk.
    SaveShoppingList,
    /// Write the current menu to disk.
    SaveDishList,
    /// Remember the category the user chose for this ingredient.
    SaveLearnedCategory(Ingredient),
    /// Find out whether an upload login exists, and hand the answer to
    /// `App::open_upload`.
    CheckUploadToken,
    /// Write the shopping list to a text file, with the options chosen.
    PrintShoppingList,
    /// Copy the login address to the clipboard.
    CopyLoginUrl,
    /// Paste the login code from the clipboard, and hand it to
    /// `App::pasted_login_code`.
    PasteLoginCode,
    /// Start logging in to the upload service.
    StartLogin,
    /// Send this login code to the login that is under way.
    SendCode(String),
    /// Upload the shopping list under the name in the input.
    StartUpload,
    /// Leave the program.
    Quit,
}

/// An effect as plain values.
pub enum EffectView {
    SaveDishtabase,
    SaveShoppingList,
    SaveDishList,
    SaveLearnedCategory(IngredientView),
    CheckUploadToken,
    PrintShoppingList,
    CopyLoginUrl,
    PasteLoginCode,
    StartLogin,
    SendCode(Seq<char>),
    StartUpload,
    Quit,
}

impl View for Effect {
    type V = EffectView;

    open spec fn view(&self) -> EffectView {
        match self {
            Effect::SaveDishtabase => EffectView::SaveDishtabase,
            Effect::SaveShoppingList => EffectView::SaveShoppingList,
            Effect::SaveDishList => EffectView::SaveDishList,
            Effect::SaveLearnedCategory(i) => EffectView::SaveLearnedCategory(i@),
            Effect::CheckUploadToken => EffectView::CheckUploadToken,
            Effect::PrintShoppingList => EffectView::PrintShoppingList,
            Effect::CopyLoginUrl => EffectView::CopyLoginUrl,
            Effect::PasteLoginCode => EffectView::PasteLoginCode,
            Effect::StartLogin => EffectView::StartLogin,
            Effect::SendCode(s) => EffectView::SendCode(s@),
            Effect::StartUpload => EffectView::StartUpload,
            Effect::Quit => EffectView::Quit,
        }
    }
}

/// The views of a sequence of effects.
pub open spec fn effects_view(s: Seq<Effect>) -> Seq<EffectView> {
    s.map_values(|e: Effect| e@)
}

/// An optional string as plain values.
pub open spec fn opt_string_view(o: Option<String>) -> Option<Seq<char>> {
    match o {
        Some(s) => Some(s@),
        None => None,
    }
}

/// An optional dish as plain values.
pub open spec fn opt_dish_view(o: Option<Dish>) -> Option<DishView> {
    match o {
        Some(d) => Some(d@),
        None => None,
    }
}

/// An optional list of dishes as plain values.
pub open spec fn opt_dishes_view(o: Option<Vec<Dish>>) -> Option<Seq<DishView>> {
    match o {
        Some(d) => Some(dishes_view(d@)),
        None => None,
    }
}

/// The whole state of the interface.
pub struct App {
    pub current_dish_list: Option<Vec<Dish>>,
    pub shopping_list: Vec<Ingredient>,
    pub text_options: (bool, bool),
    pub text: Vec<&'static str>,
    pub cursor: usize,
    pub db_cursor: Cursor,
    pub edit_cursor: Cursor,
    pub ays_cursor: usize,
    pub picking_cursor: usize,
    pub moving_focus: bool,
    pub selected_space: Space,
    pub left_window_actions: Vec<&'static str>,
    pub db: Database,
    pub state: AppState,
    pub prev_state: Option<AppState>,
    pub input: String,
    pub inline_complete: Option<String>,
    pub inline_complete_whole_word: Option<String>,
    pub default_upload_name: bool,
    pub pending_dish: Option<Dish>,
    pub category_db: CategoryDb,
    pub normalized_category_db: CategoryDb,
    pub non_normalized_category_db: CategoryDb,
    pub err_msg: Option<String>,
    pub login_url: Option<String>,
    pub effects: Vec<Effect>,
}

/// The state of the interface as plain values.
#[verifier::ext_equal]
pub struct AppView {
    pub current_dish_list: Option<Seq<DishView>>,
    pub shopping_list: Seq<IngredientView>,
    pub text_options: (bool, bool),
    pub text: Seq<&'static str>,
    pub cursor: usize,
    pub db_cursor: Cursor,
    pub edit_cursor: Cursor,
    pub ays_cursor: usize,
    pub picking_cursor: usize,
    pub moving_focus: bool,
    pub selected_space: Space,
    pub left_window_actions: Seq<&'static str>,
    pub db: Seq<DishView>,
    pub state: AppState,
    pub prev_state: Option<AppState>,
    pub input: Seq<char>,
    pub inline_complete: Option<Seq<char>>,
    pub inline_complete_whole_word: Option<Seq<char>>,
    pub default_upload_name: bool,
    pub pending_dish: Option<DishView>,
    pub category_db: Seq<(Seq<char>, Category)>,
    pub normalized_category_db: Seq<(Seq<char>, Category)>,
    pub non_normalized_category_db: Seq<(Seq<char>, Category)>,
    pub err_msg: Option<Seq<char>>,
    pub login_url: Option<Seq<char>>,
    pub effects: Seq<EffectView>,
}

impl View for App {
    type V = AppView;

    open spec fn view(&self) -> AppView {
        AppView {
            current_dish_list: opt_dishes_view(self.current_dish_list),
            shopping_list: ingredients_view(self.shopping_list@),
            text_options: self.text_options,
            text: self.text@,
            cursor: self.cursor,
            db_cursor: self.db_cursor,
            edit_cursor: self.edit_cursor,
            ays_cursor: self.ays_cursor,
            picking_cursor: self.picking_cursor,
            moving_focus: self.moving_focus,
            selected_space: self.selected_space,
            left_window_actions: self.left_window_actions@,
            db: self.db@,
            state: self.state,
            prev_state: self.prev_state,
            input: self.input@,
            inline_complete: opt_string_view(self.inline_complete),
            inline_complete_whole_word: opt_string_view(self.inline_complete_whole_word),
            default_upload_name: self.default_upload_name,
            pending_dish: opt_dish_view(self.pending_dish),
            category_db: self.category_db@,
            normalized_category_db: self.normalized_category_db@,
            non_normalized_category_db: self.non_normalized_category_db@,
            err_msg: opt_string_view(self.err_msg),
            login_url: opt_string_view(self.login_url),
            effects: effects_view(self.effects@),
        }
    }
}

/// The text naming a category.
pub open spec fn category_text(c: Category) -> UiText {
    match c {
        Category::Vegetables => UiText::Vegetables,
        Category::Fruit => UiText::Fruit,
        Category::Dairy => UiText::Dairy,
        Category::Protein => UiText::Protein,
        Category::Pantry => UiText::Pantry,
        Category::Spices => UiText::Spices,
        Category::Misc => UiText::Misc,
    }
}

/// The translation table of a language.
pub open spec fn text_of(language: Language, k: UiText) -> Seq<char> {
    match language {
        Language::Eng => english_text(k),
        Language::Swe => swedish_text(k),
    }
}

/// The category that the first key of the picking menu stands for at each
/// position.
pub open spec fn picked_category(p: usize) -> Category {
    if p == 1 {
        Category::Vegetables
    } else if p == 2 {
        Category::Fruit
    } else if p == 3 {
        Category::Dairy
    } else if p == 4 {
        Category::Protein
    } else if p == 5 {
        Category::Pantry
    } else if p == 6 {
        Category::Spices
    } else {
        Category::Misc
    }
}

impl AppView {
    /// What holds of the interface at every step.
    pub open spec fn wf(self) -> bool {
        &&& self.text.len() == UI_TEXT_COUNT
        &&& self.left_window_actions.len() == 5
        &&& self.cursor < 5
        &&& self.picking_cursor <= 6
        &&& self.ays_cursor <= 1
        &&& self.db_cursor.cursor < usize::MAX
        &&& self.edit_cursor.cursor < usize::MAX
    }

    /// The text shown for `k`.
    pub open spec fn text_for(self, k: UiText) -> Seq<char> {
        self.text[k.index() as int]@
    }

    /// The category that an ingredient named `name` is filed under: the
    /// space-free table is asked first, then the full one, both with the
    /// lower-case name; with no answer from either it is `Misc`.
    pub open spec fn category_for(self, name: Seq<char>) -> Category {
        let key = lowercase(name);
        match lookup(self.normalized_category_db, key) {
            Some(c) => c,
            None => match lookup(self.category_db, key) {
                Some(c) => c,
                None => Category::Misc,
            },
        }
    }

    /// The completion offered for the input: the first known ingredient
    /// name that starts with the lower-case input, and what of that name
    /// follows the input. Nothing for an empty input.
    pub open spec fn completion(self, input: Seq<char>) -> (Option<Seq<char>>, Option<Seq<char>>) {
        if input.len() == 0 {
            (None, None)
        } else {
            match first_with_prefix(self.non_normalized_category_db, lowercase(input)) {
                None => (None, None),
                Some(i) => {
                    let key = self.non_normalized_category_db[i].0;
                    (Some(tail_from(key, input.len())), Some(key))
                },
            }
        }
    }

    /// The state after the input changed to `input` in a field that offers
    /// completions.
    pub open spec fn with_completed_input(self, input: Seq<char>) -> AppView {
        AppView {
            input: input,
            inline_complete: self.completion(input).0,
            inline_complete_whole_word: self.completion(input).1,
            ..self
        }
    }

    /// The state after asking for `e`.
    pub open spec fn with_effect(self, e: EffectView) -> AppView {
        AppView { effects: self.effects.push(e), ..self }
    }
}

/// The interface as it starts: in `language`, with the Dishtabase `db`, the
/// saved shopping list and menu, and the known ingredient categories.
pub open spec fn initial_view(
    language: Language,
    db: Seq<DishView>,
    shopping_list: Seq<IngredientView>,
    saved_menu: Option<Seq<DishView>>,
    categories: Seq<(Seq<char>, Category)>,
    text: Seq<&'static str>,
    left_window_actions: Seq<&'static str>,
    normalized: Seq<(Seq<char>, Category)>,
) -> AppView {
    AppView {
        current_dish_list: if shopping_list.len() == 0 {
            None
        } else {
            saved_menu
        },
        shopping_list,
        text_options: (false, false),
        text,
        cursor: 0,
        db_cursor: Cursor { cursor: 0, scroll: 0, visable_lines: 0 },
        edit_cursor: Cursor { cursor: 0, scroll: 0, visable_lines: 0 },
        ays_cursor: 0,
        picking_cursor: 0,
        moving_focus: false,
        selected_space: Space::MainLeft,
        left_window_actions,
        db,
        state: AppState::Normal,
        prev_state: None,
        input: Seq::empty(),
        inline_complete: None,
        inline_complete_whole_word: None,
        default_upload_name: true,
        pending_dish: None,
        category_db: categories,
        normalized_category_db: normalized,
        non_normalized_category_db: categories,
        err_msg: None,
        login_url: None,
        effects: Seq::empty(),
    }
}

impl App {
    /// Starts the interface in `language` with the Dishtabase, the saved
    /// shopping list, the saved menu (kept only when the shopping list is not
    /// empty) and the known ingredient categories.
    pub fn init(
        language: Language,
        db: Database,
        shopping_list: Vec<Ingredient>,
        saved_menu: Option<Vec<Dish>>,
        categories: Vec<(String, Category)>,
    ) -> (app: App)
        ensures
            app@ == initial_view(
                language,
                db@,
                ingredients_view(shopping_list@),
                opt_dishes_view(saved_menu),
                entries_view(categories@),
                app.text@,
                app.left_window_actions@,
                app.normalized_category_db@,
            ),
            app@.wf(),
            forall|k: UiText| #[trigger] app@.text_for(k) == text_of(language, k),
            app@.left_window_actions == seq![
                app.text@[UiText::NewList.index() as int],
                app.text@[UiText::ViewEditList.index() as int],
                app.text@[UiText::AddToDishtabase.index() as int],
                app.text@[UiText::ViewEditDishtabase.index() as int],
                app.text@[UiText::Upload.index() as int],
            ],
            forall|k: Seq<char>|
                lookup(#[trigger] app@.normalized_category_db, k) == lookup_without_spaces(
                    entries_view(categories@),
                    k,
                ),
    {
        let text = match language {
            Language::Eng => english(),
            Language::Swe => swedish(),
        };
        let mut left_window_actions: Vec<&'static str> = Vec::new();
        left_window_actions.push(text[UiText::NewList.position()]);
        left_window_actions.push(text[UiText::ViewEditList.position()]);
        left_window_actions.push(text[UiText::AddToDishtabase.position()]);
        left_window_actions.push(text[UiText::ViewEditDishtabase.position()]);
        left_window_actions.push(text[UiText::Upload.position()]);
        let ghost lwa = left_window_actions@;
        assert(lwa =~= seq![
            text@[UiText::NewList.index() as int],
            text@[UiText::ViewEditList.index() as int],
            text@[UiText::AddToDishtabase.index() as int],
            text@[UiText::ViewEditDishtabase.index() as int],
            text@[UiText::Upload.index() as int],
        ]);
        let current_dish_list = if shopping_list.len() == 0 {
            None
        } else {
            saved_menu
        };
        let non_normalized = clone_categories(&categories);
        let category_db = CategoryDb::from_entries(categories);
        let normalized_category_db = category_db.without_spaces();
        let non_normalized_category_db = CategoryDb::from_entries(non_normalized);
        App {
            current_dish_list,
            shopping_list,
            text_options: (false, false),
            text,
            cursor: 0,
            db_cursor: Cursor { cursor: 0, scroll: 0, visable_lines: 0 },
            edit_cursor: Cursor { cursor: 0, scroll: 0, visable_lines: 0 },
            ays_cursor: 0,
            picking_cursor: 0,
            moving_focus: false,
            selected_space: Space::MainLeft,
            left_window_actions,
            db,
            state: AppState::Normal,
            prev_state: None,
            input: String::new(),
            inline_complete: None,
            inline_complete_whole_word: None,
            default_upload_name: true,
            pending_dish: None,
            category_db,
            normalized_category_db,
            non_normalized_category_db,
            err_msg: None,
            login_url: None,
            effects: Vec::new(),
        }
    }

    /// The text shown for `input`.
    pub fn text_get(&self, input: UiText) -> (r: String)
        requires
            self@.wf(),
        ensures
            r@ == self@.text_for(input),
    {
        self.text[input.position()].to_owned()
    }

    /// The name of a category in the interface's language.
    pub fn get_category_name(&self, c: Category) -> (r: String)
        requires
            self@.wf(),
        ensures
            r@ == self@.text_for(category_text(c)),
    {
        match c {
            Category::Dairy => self.text_get(UiText::Dairy),
            Category::Pantry => self.text_get(UiText::Pantry),
            Category::Spices => self.text_get(UiText::Spices),
            Category::Vegetables => self.text_get(UiText::Vegetables),
            Category::Fruit => self.text_get(UiText::Fruit),
            Category::Protein => self.text_get(UiText::Protein),
            Category::Misc => self.text_get(UiText::Misc),
        }
    }

    /// The category an ingredient named `look_up` is filed under.
    pub fn find_category(&self, look_up: &str) -> (c: Category)
        ensures
            c == self@.category_for(look_up@),
    {
        let key = to_lowercase(look_up);
        if let Some(c) = self.normalized_category_db.get(key.as_str()) {
            c
        } else if let Some(c) = self.category_db.get(key.as_str()) {
            c
        } else {
            Category::Misc
        }
    }
}

/// Viewing commutes with asking for one more effect.
pub proof fn lemma_effects_view_push(s: Seq<Effect>, e: Effect)
    ensures
        effects_view(s.push(e)) == effects_view(s).push(e@),
{
    assert(effects_view(s.push(e)) =~= effects_view(s).push(e@));
}

impl App {
    /// Asks for the effect `e`.
    pub fn emit(&mut self, e: Effect)
        ensures
            final(self)@ == old(self)@.with_effect(e@),
    {
        let ghost before = self.effects@;
        let ghost ev = e@;
        self.effects.push(e);
        proof {
            assert(self.effects@ == before.push(self.effects@.last()));
            lemma_effects_view_push(before, self.effects@.last());
        }
    }
}

/// Copies a list of name-category pairs.
fn clone_categories(v: &Vec<(String, Category)>) -> (r: Vec<(String, Category)>)
    ensures
        entries_view(r@) == entries_view(v@),
{
    let mut r: Vec<(String, Category)> = Vec::new();
    for j in 0..v.len()
        invariant
            entries_view(r@) == entries_view(v@).take(j as int),
    {
        let ghost prev = r@;
        let e = (v[j].0.clone(), v[j].1);
        r.push(e);
        proof {
            assert(entries_view(r@) =~= entries_view(prev).push((v@[j as int].0@, v@[j as int].1)));
            assert(entries_view(v@).take(j + 1) =~= entries_view(v@).take(j as int).push(
                (v@[j as int].0@, v@[j as int].1),
            ));
        }
    }
    assert(entries_view(v@).take(v.len() as int) =~= entries_view(v@));
    r
}

} // verus!
