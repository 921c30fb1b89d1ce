# pkgman

A keyboard-driven terminal front end for pacman and the AUR helpers paru and
yay. The library under `src/` holds the program's logic, each function
stated by a contract and proved with Verus; `app/` is the terminal program
around it (process and file I/O, the tokio event loop, drawing with ratatui).

## Layout of the library

| Module | What it holds |
|---|---|
| `text` | string primitives: lines, words, trimming, searching, word deletion, decimal numbers |
| `package` | package records, `Key : Value` fields, repository priorities |
| `sort` | the stable merge sort behind the list's sort modes |
| `theme` | colors, their configuration-file names, the built-in themes |
| `app` | the application state: filtering, sorting, the status message, the console log |
| `handlers` | what every key does in every mode, and the outside work it asks for |
| `events` | what the main loop does with ticks, loaded lists and fetched data |
| `config` | the configuration file: defaults, reading, writing, the AUR helper |
| `loader` | building the package list from pacman's and the helper's output |
| `actions` | the commands that carry out actions, and their result messages |
| `wiki` | finding a package's ArchWiki page and turning its markup into text |
| `display` | truncating and wrapping text, the colors of repositories and states |
| `view` | what the panels, header, tabs, list rows and overlays show |

Laws proved about the library include: reading back a written configuration
gives the written values; sorting is deterministic and idempotent; movement
keys keep the cursor on the list and on screen; toggling the selection keeps
it free of repeated names; the console keeps at most 1000 lines and writing
two chunks equals writing their concatenation; a longer query never shows
more packages; an expiring message is cleared by the first check after its
deadline and a kept one never; an appended `aur = …` line overrides the earlier
value or, when unreadable, keeps it; toggling a name twice restores the
selection, which never holds a name twice. Closing the theme builder asks for
the configuration to be written only while no file exists, and a search with
AUR features off shows that they are disabled.
