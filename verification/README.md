# skat_engine

A Skat card game engine whose logic is proved correct with Verus.

- `src/` is the verified library:
  - `card`, `suit`, `rank`: the 32-card deck, card points and rank orders.
  - `rules` and `game`: the rules of suit, grand and null games, stated as
    which cards follow suit and how strong each card is in a trick.
  - `hand`: sorting a hand for a game.
  - `trick`: playing cards on a trick and finding its winner.
  - `state`: the players, the state of a running game and bidding values.
  - `bot`: what a bot knows on its turn and two simple bots.
  - `utils::deal`: shuffling and dealing (the shuffle is done by `rand`).
  - `ui`: the focus, help and error state of the interactive table.
- `app/` is the terminal program: an interactive game against two bots
  (`ratatui`, `crossterm`, logging with `tracing`), and a `deal` command that
  prints a dealt hand (`clap`, `owo-colors`, `itertools`).
- `tests/` exercises the library on concrete games.
