# duel_game

A two-player duel in the terminal, with its rules verified by Verus.

- `src/` is the verified library: scoring (`scoring.rs`), players (`player.rs`), the counter's
  state and steps (`counter.rs`), settings, turns, rounds and the parsing of the players'
  answers (`game.rs`), the errors (`errors.rs`) and decimal
  text for integers (`decimal.rs`).
- `app/` is the program around it: command-line arguments (clap), logging, the terminal and
  the threads that run the counter.
- `tests/` runs the library on concrete values.
