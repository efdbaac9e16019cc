# oa_notifier

A desktop notifier for the notice board of Jilin University's OA portal,
with its logic verified by Verus.

- `src/` is the verified library: reading notices and list pages out of the
  portal's HTML (`html`, with the HTML queries answered by `scraper` behind
  the trusted items of `scrape`), the notice table and its updates
  (`table`), the keyword filter of the periodic check (`poll`), the update
  check (`update`), the table's painting (`style`), the window's reactions
  to input (`actions`), the text primitives they rest on (`text`), and laws
  that hold across them (`laws`).
- `app/` is the program: fetching pages, threads, the timer, the FLTK
  window, the tray icon and desktop notifications.
- `tests/` runs the library on concrete pages and tables.
