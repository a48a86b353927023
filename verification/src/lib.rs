//! A meal planner and grocery list generator: a "Dishtabase" of dishes and
//! their ingredients, random weekly menus drawn from it, shopping lists built
//! from a menu and grouped by grocery-store section, and the state machine of
//! the terminal interface that edits all of it.

pub mod items;
pub mod list;
pub mod text;
pub mod locale;
pub mod category_db;
pub mod ui;
pub mod app;
pub mod input;
pub mod dishtabase;
pub mod shopping;
pub mod upload;
pub mod keys;
pub mod export;
pub mod laws;
