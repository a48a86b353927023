use vstd::prelude::*;

verus! {

/// Every piece of text that the interface shows, in either language.
#[derive(Clone, Copy, Debug, PartialEq, Eq, Structural)]
pub enum UiText {
    NewList,
    ViewEditList,
    AddToDishtabase,
    ViewEditDishtabase,
    Upload,
    NoDishesInDishtabase,
    HowManyDishes,
    OnlyEnterNums,
    Menu,
    GeneratedList,
    ShoppingList,
    IngredientsHeader,
    DishtabaseHeader,
    Yes,
    No,
    WriteTxt,
    CheckIfWant,
    CheckNumNo,
    CheckCategoryNo,
    CheckNumYes,
    CheckCategoryYes,
    CantFindCategory,
    PleaseChooseOne,
    PleaseChooseCategory,
    GeneratingReplaceOld1,
    GeneratingReplaceOld2,
    GeneratingReplaceOld3,
    DeletingAys1,
    DeletingAys2,
    PPEnterDishName,
    PPEnterIngredient,
    Vegetables,
    Fruit,
    Dairy,
    Protein,
    Pantry,
    Spices,
    Misc,
    TTInputBox,
    TTViewingDb,
    TTEditingDish,
    TTEditingIngDName,
    TTPopUp,
    TTShowGenList,
    TTShowShoppingList,
    TTPromtPrint,
}

/// How many pieces of text there are.
pub const UI_TEXT_COUNT: usize = 46;

impl UiText {
    /// The position of this text in a translation table.
    pub open spec fn index(self) -> nat {
        match self {
            UiText::NewList => 0,
            UiText::ViewEditList => 1,
            UiText::AddToDishtabase => 2,
            UiText::ViewEditDishtabase => 3,
            UiText::Upload => 4,
            UiText::NoDishesInDishtabase => 5,
            UiText::HowManyDishes => 6,
            UiText::OnlyEnterNums => 7,
            UiText::Menu => 8,
            UiText::GeneratedList => 9,
            UiText::ShoppingList => 10,
            UiText::IngredientsHeader => 11,
            UiText::DishtabaseHeader => 12,
            UiText::Yes => 13,
            UiText::No => 14,
            UiText::WriteTxt => 15,
            UiText::CheckIfWant => 16,
            UiText::CheckNumNo => 17,
            UiText::CheckCategoryNo => 18,
            UiText::CheckNumYes => 19,
            UiText::CheckCategoryYes => 20,
            UiText::CantFindCategory => 21,
            UiText::PleaseChooseOne => 22,
            UiText::PleaseChooseCategory => 23,
            UiText::GeneratingReplaceOld1 => 24,
            UiText::GeneratingReplaceOld2 => 25,
            UiText::GeneratingReplaceOld3 => 26,
            UiText::DeletingAys1 => 27,
            UiText::DeletingAys2 => 28,
            UiText::PPEnterDishName => 29,
            UiText::PPEnterIngredient => 30,
            UiText::Vegetables => 31,
            UiText::Fruit => 32,
            UiText::Dairy => 33,
            UiText::Protein => 34,
            UiText::Pantry => 35,
            UiText::Spices => 36,
            UiText::Misc => 37,
            UiText::TTInputBox => 38,
            UiText::TTViewingDb => 39,
            UiText::TTEditingDish => 40,
            UiText::TTEditingIngDName => 41,
            UiText::TTPopUp => 42,
            UiText::TTShowGenList => 43,
            UiText::TTShowShoppingList => 44,
            UiText::TTPromtPrint => 45,
        }
    }

    /// The position of this text in a translation table.
    pub fn position(&self) -> (r: usize)
        ensures
            r == self.index(),
            r < UI_TEXT_COUNT,
    {
        match self {
            UiText::NewList => 0,
            UiText::ViewEditList => 1,
            UiText::AddToDishtabase => 2,
            UiText::ViewEditDishtabase => 3,
            UiText::Upload => 4,
            UiText::NoDishesInDishtabase => 5,
            UiText::HowManyDishes => 6,
            UiText::OnlyEnterNums => 7,
            UiText::Menu => 8,
            UiText::GeneratedList => 9,
            UiText::ShoppingList => 10,
            UiText::IngredientsHeader => 11,
            UiText::DishtabaseHeader => 12,
            UiText::Yes => 13,
            UiText::No => 14,
            UiText::WriteTxt => 15,
            UiText::CheckIfWant => 16,
            UiText::CheckNumNo => 17,
            UiText::CheckCategoryNo => 18,
            UiText::CheckNumYes => 19,
            UiText::CheckCategoryYes => 20,
            UiText::CantFindCategory => 21,
            UiText::PleaseChooseOne => 22,
            UiText::PleaseChooseCategory => 23,
            UiText::GeneratingReplaceOld1 => 24,
            UiText::GeneratingReplaceOld2 => 25,
            UiText::GeneratingReplaceOld3 => 26,
            UiText::DeletingAys1 => 27,
            UiText::DeletingAys2 => 28,
            UiText::PPEnterDishName => 29,
            UiText::PPEnterIngredient => 30,
            UiText::Vegetables => 31,
            UiText::Fruit => 32,
            UiText::Dairy => 33,
            UiText::Protein => 34,
            UiText::Pantry => 35,
            UiText::Spices => 36,
            UiText::Misc => 37,
            UiText::TTInputBox => 38,
            UiText::TTViewingDb => 39,
            UiText::TTEditingDish => 40,
            UiText::TTEditingIngDName => 41,
            UiText::TTPopUp => 42,
            UiText::TTShowGenList => 43,
            UiText::TTShowShoppingList => 44,
            UiText::TTPromtPrint => 45,
        }
    }
}

/// The English text for each piece of the interface.
pub open spec fn english_text(k: UiText) -> Seq<char> {
    match k {
        UiText::NewList => "New List"@,
        UiText::ViewEditList => "View/Edit List"@,
        UiText::AddToDishtabase => "Add Dish to Dishtabase"@,
        UiText::ViewEditDishtabase => "View/Edit Dishtabase"@,
        UiText::Upload => "Upload"@,
        UiText::NoDishesInDishtabase => "No Dishes in Dishtabase!"@,
        UiText::HowManyDishes => "How many dishes?"@,
        UiText::OnlyEnterNums => "Please only enter Numbers"@,
        UiText::Menu => "Menu"@,
        UiText::GeneratedList => "Generated List"@,
        UiText::ShoppingList => "Shopping List:"@,
        UiText::IngredientsHeader => "Ingredients:"@,
        UiText::DishtabaseHeader => "Dishtabase"@,
        UiText::Yes => "Yes"@,
        UiText::No => "No"@,
        UiText::WriteTxt => "Write txt"@,
        UiText::CheckIfWant => "Check if you want:"@,
        UiText::CheckNumNo => "[ ] Numbers"@,
        UiText::CheckCategoryNo => "[ ] Categories"@,
        UiText::CheckNumYes => "[x] Numbers"@,
        UiText::CheckCategoryYes => "[x] Categories"@,
        UiText::CantFindCategory => "I can't find a category for:"@,
        UiText::PleaseChooseOne => "Please choose one:"@,
        UiText::PleaseChooseCategory => "Please choose category for:"@,
        UiText::GeneratingReplaceOld1 => "Generating a new list will"@,
        UiText::GeneratingReplaceOld2 => "delete the old one."@,
        UiText::GeneratingReplaceOld3 => "Make new list?"@,
        UiText::DeletingAys1 => "Deleting:"@,
        UiText::DeletingAys2 => "Are You Sure?"@,
        UiText::PPEnterDishName => "Enter the Dish Name"@,
        UiText::PPEnterIngredient => "Enter Ingredient"@,
        UiText::Vegetables => "Vegetables"@,
        UiText::Fruit => "Fruit"@,
        UiText::Dairy => "Dairy"@,
        UiText::Protein => "Protein"@,
        UiText::Pantry => "Pantry"@,
        UiText::Spices => "Spices"@,
        UiText::Misc => "Misc"@,
        UiText::TTInputBox => "[enter] confirm   [del] remove   [ctrl+s] save   [esc] cancel"@,
        UiText::TTViewingDb => "[up/down] select   [enter] edit   [esc] cancel"@,
        UiText::TTEditingDish => "[up/down] select [enter] edit [ctrl+n] name [ctrl+a] add  [ctrl+k] category [del] remove [esc] cancel"@,
        UiText::TTEditingIngDName => "[enter] confirm   [esc] cancel"@,
        UiText::TTPopUp => "[up/down] select   [enter] confirm   [esc] cancel"@,
        UiText::TTShowGenList => "[enter] accept   [del] new dish   [esc] cancel"@,
        UiText::TTShowShoppingList => "[del] remove   [ctrl+a] add   [ctrl+p] print txt   [esc] cancel"@,
        UiText::TTPromtPrint => "[up/down] select   [enter] confirm   [p] print   [esc] cancel"@,
    }
}

/// The Swedish text for each piece of the interface.
pub open spec fn swedish_text(k: UiText) -> Seq<char> {
    match k {
        UiText::NewList => "Ny Lista"@,
        UiText::ViewEditList => "Se/Ändra Lista"@,
        UiText::AddToDishtabase => "Lägg till Rätt i Matabas"@,
        UiText::ViewEditDishtabase => "Se/Ändra Matabas"@,
        UiText::Upload => "Ladda upp"@,
        UiText::NoDishesInDishtabase => "Inga Rätter i Matabas!"@,
        UiText::HowManyDishes => "Hur Många Rätter?"@,
        UiText::OnlyEnterNums => "Ange bara Siffror"@,
        UiText::Menu => "Menu"@,
        UiText::GeneratedList => "Genererad Lista"@,
        UiText::ShoppingList => "Shoppinglista:"@,
        UiText::IngredientsHeader => "Ingredienser:"@,
        UiText::DishtabaseHeader => "Matabas"@,
        UiText::Yes => "Ja"@,
        UiText::No => "Nej"@,
        UiText::WriteTxt => "Exportera txt"@,
        UiText::CheckIfWant => "Markera om du vill ha:"@,
        UiText::CheckNumNo => "[ ] Nummer"@,
        UiText::CheckCategoryNo => "[ ] Kategorier"@,
        UiText::CheckNumYes => "[x] Nummer"@,
        UiText::CheckCategoryYes => "[x] Kategorier"@,
        UiText::CantFindCategory => "Jag kan inte hitta kategori för:"@,
        UiText::PleaseChooseOne => "Välj en:"@,
        UiText::PleaseChooseCategory => "Välj en kategori för:"@,
        UiText::GeneratingReplaceOld1 => "Att generera en ny lista kommer"@,
        UiText::GeneratingReplaceOld2 => "ta bort den gamla."@,
        UiText::GeneratingReplaceOld3 => "Gör ny lista?"@,
        UiText::DeletingAys1 => "Tar Bort:"@,
        UiText::DeletingAys2 => "Är du säker?"@,
        UiText::PPEnterDishName => "Skriv Rättens Namn"@,
        UiText::PPEnterIngredient => "Lägg till Ingrediens"@,
        UiText::Vegetables => "Grönsaker"@,
        UiText::Fruit => "Frukt"@,
        UiText::Dairy => "Mejeri"@,
        UiText::Protein => "Protein"@,
        UiText::Pantry => "Skafferi/Torrvaror"@,
        UiText::Spices => "Kryddor"@,
        UiText::Misc => "Annat"@,
        UiText::TTInputBox => "[enter] bekräfta   [del] ta bort   [ctrl+s] spara   [esc] avbryt"@,
        UiText::TTViewingDb => "[up/down] välj   [enter] redigera   [esc] avbryt"@,
        UiText::TTEditingDish => "[up/down] välj [enter] redigera [ctrl+n] namn [ctrl+a] lägg till  [ctrl+k] kategori [del] ta bort [esc] avbryt"@,
        UiText::TTEditingIngDName => "[enter] bekräfta   [esc] avbryt"@,
        UiText::TTPopUp => "[up/down] välj   [enter] bekräfta   [esc] avbryt"@,
        UiText::TTShowGenList => "[enter] accept   [del] ny rätt   [esc] avbryt"@,
        UiText::TTShowShoppingList => "[del] ta bort   [ctrl+a] lägg till   [ctrl+p] exportera txt   [esc] avbryt"@,
        UiText::TTPromtPrint => "[up/down] välj   [enter] bekräfta   [p] exportera   [esc] avbryt"@,
    }
}

/// The English translation table, indexed by `UiText::position`.
pub fn english() -> (t: Vec<&'static str>)
    ensures
        t.len() == UI_TEXT_COUNT,
        forall|k: UiText| #[trigger] t@[k.index() as int]@ == english_text(k),
{
    let t = vec![
        "New List",
        "View/Edit List",
        "Add Dish to Dishtabase",
        "View/Edit Dishtabase",
        "Upload",
        "No Dishes in Dishtabase!",
        "How many dishes?",
        "Please only enter Numbers",
        "Menu",
        "Generated List",
        "Shopping List:",
        "Ingredients:",
        "Dishtabase",
        "Yes",
        "No",
        "Write txt",
        "Check if you want:",
        "[ ] Numbers",
        "[ ] Categories",
        "[x] Numbers",
        "[x] Categories",
        "I can't find a category for:",
        "Please choose one:",
        "Please choose category for:",
        "Generating a new list will",
        "delete the old one.",
        "Make new list?",
        "Deleting:",
        "Are You Sure?",
        "Enter the Dish Name",
        "Enter Ingredient",
        "Vegetables",
        "Fruit",
        "Dairy",
        "Protein",
        "Pantry",
        "Spices",
        "Misc",
        "[enter] confirm   [del] remove   [ctrl+s] save   [esc] cancel",
        "[up/down] select   [enter] edit   [esc] cancel",
        "[up/down] select [enter] edit [ctrl+n] name [ctrl+a] add  [ctrl+k] category [del] remove [esc] cancel",
        "[enter] confirm   [esc] cancel",
        "[up/down] select   [enter] confirm   [esc] cancel",
        "[enter] accept   [del] new dish   [esc] cancel",
        "[del] remove   [ctrl+a] add   [ctrl+p] print txt   [esc] cancel",
        "[up/down] select   [enter] confirm   [p] print   [esc] cancel",
    ];
    t
}

/// The Swedish translation table, indexed by `UiText::position`.
pub fn swedish() -> (t: Vec<&'static str>)
    ensures
        t.len() == UI_TEXT_COUNT,
        forall|k: UiText| #[trigger] t@[k.index() as int]@ == swedish_text(k),
{
    let t = vec![
        "Ny Lista",
        "Se/Ändra Lista",
        "Lägg till Rätt i Matabas",
        "Se/Ändra Matabas",
        "Ladda upp",
        "Inga Rätter i Matabas!",
        "Hur Många Rätter?",
        "Ange bara Siffror",
        "Menu",
        "Genererad Lista",
        "Shoppinglista:",
        "Ingredienser:",
        "Matabas",
        "Ja",
        "Nej",
        "Exportera txt",
        "Markera om du vill ha:",
        "[ ] Nummer",
        "[ ] Kategorier",
        "[x] Nummer",
        "[x] Kategorier",
        "Jag kan inte hitta kategori för:",
        "Välj en:",
        "Välj en kategori för:",
        "Att generera en ny lista kommer",
        "ta bort den gamla.",
        "Gör ny lista?",
        "Tar Bort:",
        "Är du säker?",
        "Skriv Rättens Namn",
        "Lägg till Ingrediens",
        "Grönsaker",
        "Frukt",
        "Mejeri",
        "Protein",
        "Skafferi/Torrvaror",
        "Kryddor",
        "Annat",
        "[enter] bekräfta   [del] ta bort   [ctrl+s] spara   [esc] avbryt",
        "[up/down] välj   [enter] redigera   [esc] avbryt",
        "[up/down] välj [enter] redigera [ctrl+n] namn [ctrl+a] lägg till  [ctrl+k] kategori [del] ta bort [esc] avbryt",
        "[enter] bekräfta   [esc] avbryt",
        "[up/down] välj   [enter] bekräfta   [esc] avbryt",
        "[enter] accept   [del] ny rätt   [esc] avbryt",
        "[del] ta bort   [ctrl+a] lägg till   [ctrl+p] exportera txt   [esc] avbryt",
        "[up/down] välj   [enter] bekräfta   [p] exportera   [esc] avbryt",
    ];
    t
}

} // verus!
