# zenith_browser

The core of the Zenith web browser as a verified library, with the
window, web views, database and event loop around it in `app/`.

`src/` (checked by Verus):

- `text` — character-level string operations (`trim`, `contains`,
  `replace`, ASCII lower case, decimal formatting) with their specifications.
- `url_parts`, `encoding` — the calls into `url`, `percent-encoding` and
  `serde_json`, with the contracts those crates' sources support.
- `urls` — URL classification: web and asset URLs, sign-in windows, Google
  account-sync pages, tab titles and address-bar normalisation.
- `config` — profile paths and the records kept in the profile.
- `ipc` — messages from the chrome and from tabs, and the events each one
  leads to.
- `tab` — the scripts injected into tabs and their navigation, pop-up and
  download decisions.
- `browser` — the tab strip: opening, switching, closing and navigating
  tabs, titles, permissions and settings.
- `suggestions` — merging bookmark, history and tab suggestions.
- `scripts` — the scripts evaluated in the chrome and in tabs.
- `layout`, `downloads`, `ui_handler` — content area, download reports and
  `zenith://` routing.
- `laws` — properties that relate these operations to each other.

`app/` builds the window and web views (tao, wry, muda), stores history,
bookmarks, downloads and sessions in SQLite (sqlx) and runs the event loop.
