# comicdb

Warehouse bookkeeping for a comic shop: a list of comics kept in an SQLite
store, loads and unloads of stock, and a search of the Google Books catalogue
for comics not yet stocked.

- `src/` is the verified library:
  - `types` — the comic record (`Comic`, with its view `ComicView`), the kinds
    of detail window (`DetailType`), the detail window's contents
    (`DetailComic`) and the colour scheme (`Theme`);
  - `statement` — the statements that add, change, list and move stock, with
    the values bound to their placeholders;
  - `text` — decimal numerals and the query-string form of a title;
  - `catalogue` — the addresses of the catalogue's result pages, what a volume
    becomes, and the page-by-page walk of a search (`OnlineSearch`);
  - `model` — the state of the main window (`MyApp`) and the decisions of its
    buttons and menus.
- `app/` is the program around it: the egui windows, the SQLite connection,
  the HTTP requests to the catalogue and the clipboard.
- `tests/` runs the library on concrete values.
