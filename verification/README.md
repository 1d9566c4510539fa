# cce_files

The model of a desktop file manager — browsing a directory, previewing a
file, the Network page's node graph, the Space page's disk-usage tree, the
home trash, and opening files with applications — as a library verified
with Verus.

- `src/` — the verified library.
  - `path.rs`, `text.rs`, `spaces.rs`: Unix paths as text, character-level
    helpers, whitespace, trimming and word splitting.
  - `pages/`: the Browse page's state machine (`browse::update`), its
    keyboard handling, the chooser decisions, the Network graph, the Space
    page's scan bookkeeping and categories.
  - `services/`: directory listing order and preview text (`fs`), the
    recursive scan's tree (`scan`), the freedesktop trash (`trash`), and
    MIME associations, desktop entries and launch commands (`apps`).
- `tests/`: tests of the library on concrete values.
- `app/`: the filesystem, process and thread work around the library, and
  the treemap's floating-point geometry.
