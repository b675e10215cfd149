# tomato_novel

The interface logic of a novel downloader, written in Verus and verified:
what each menu and editor does with what the user types, how settings are
shown and changed, how a download is planned, and the texts the program
prints.

Layout:

- `src/` — the verified library.
  - `text.rs`: trimming, ASCII case, decimal numbers, comma-separated lists.
  - `i18n.rs`, `templates.rs`, `labels.rs`: interface languages, the
    free-use notice, labels of the book-name and format settings.
  - `config.rs`: the settings and their errors.
  - `cli_config.rs`: the line-based settings menu.
  - `tui_config.rs`: the full-screen settings editor.
  - `cli_menus.rs`: the main prompt, the download history, the update list.
  - `download.rs`: download options, modes, chapter ranges, saved chapters,
    local records, the cover file and the book summary.
  - `cover.rs`: the character-drawn cover preview (scaling through the
    `image` crate).
  - `app_update.rs`: shortened release notes and the update prompt.
  - `tui_download.rs`: the state of the full-screen download page.
- `tests/` — tests of the library.
- `app/` — the line-based loops, the full-screen editor and download-page
  steps (no screen drawing), files, the terminal size and image decoding,
  and the fractional settings, around the library; the services of the rest
  of the program come through its `Host` trait.
