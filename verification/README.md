# logana modes

The input modes of a terminal log viewer — normal mode, line and character
selection, the command line, the filter and group lists, comments, pickers
and small popups — written as a Verus library: each mode is a value, and
each key press is a verified function from the mode's state (and what it
reads of the tab) to its next state and what the application must do.

Layout:

- `src/` — the verified library, one module per mode or shared concern
  (`text`, `editor`, `motion`, `nav`, `fuzzy`, `commands` hold the pieces the
  modes share; `modebar` builds each mode's key bar as strong and plain
  pieces of text; `render` gives what each mode shows; `highlight` marks a
  character selection on a styled line). Contracts are stated over `Seq`/`Seq<char>` views; the laws
  that relate several calls are public proof functions next to the code
  they speak of.
- `tests/` — concrete scenarios run against the compiled library.
- `app/` — the terminal side: crossterm key events to key presses, the clap
  parser of the command line, the colours of the mode-bar pieces and of a
  marked selection, and key dispatch for the command, comment and footer
  editors that tests that the cursor lies in the text and, with the mode's
  `accepts`, that a key edits at a character boundary before handing it
  over (as the string operations would otherwise panic).
