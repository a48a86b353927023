# al-goma — Albin's Grocery Machine

A terminal meal planner: it keeps a "Dishtabase" of dishes and their
ingredients, draws a menu of as many dishes as asked for, builds a shopping
list sorted by grocery-store section, exports it to a text file and can upload
it to Google Tasks.

## Layout

- `src/` is the library, written in Verus. Its public functions carry
  contracts that Verus proves: the interface is a state machine over `App`,
  whose `handle_key` takes one key press to the next state and lists the work
  outside the program (saving, printing, clipboard, login, upload) that the
  step asks for as `Effect`s.
  - `items`, `list`: dishes, ingredients, sorting by category, menus and
    shopping lists.
  - `text`, `category_db`, `locale`: strings, the ingredient category tables
    and the English and Swedish interface texts.
  - `app`, `ui`, `input`, `keys`: the interface state, cursors and scrolling,
    typing and completion, and the key dispatch.
  - `dishtabase`, `shopping`, `upload`, `export`: editing the Dishtabase, the
    shopping list, the upload steps and the text export.
  - `laws`: properties stated over several of the functions above, proved.
- `tests/` runs the library on concrete values.
- `app/` is the terminal program around the library: files under `.config/`,
  drawing with ratatui, keys from crossterm, the clipboard, and the Google
  login and upload on threads of their own.
