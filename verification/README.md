# christ-cli

A terminal Bible reader: a three-panel browser (Books, Chapters,
Scripture), live search, copying verses to the clipboard, and one-shot
commands (`christ read "John 3:16"`, `christ search ...`, `christ random`).

The library in `src/` holds the reader's logic with its contracts, proved
by Verus:

- `books`, `reference`: the 66 books, their names in twelve languages, and
  the forgiving reference parser ("jn 3:16", "1. Mose 3,16", "João 3.16"),
  with the law that a reference's display form parses back to it.
- `book_lookup`, `book_names`: the proofs that every book's English name
  finds that book, and reads back inside a reference.
- `browser`: the browser state and every key's effect on it, with laws
  such as "a saved session restores the reading position" and "switching
  views keeps the reading row".
- `layout`, `wrap`: what the screen shows (names cut to fit, scroll
  positions, the translation picker's rows) and greedy word wrapping.
- `cache`, `markup`, `clipboard`, `state`, `theme`, `types`: the on-disk
  cache's decisions, plain text from the online API's markup, Base64 and
  OSC 52 for the clipboard, the saved session, themes, verse types.

`app/` is the program around it: the terminal UI (ratatui, crossterm),
files on disk, the Bolls.life API client, the system clipboard and the
command line.
