# paddle_games

The rules of two small paddle games, Pong and Breakout, as a Verus library
whose contracts are proved, and the engine program that plays them.

- `src/` — the verified library.
  - `interaction`, `controls`: how menu buttons answer the pointer, and how
    held keys become a direction; shared by both games.
  - `pong::flow`: a Pong match as a state machine (state, the switch asked
    for, score, the ball's pace, which overlays show), with its laws.
  - `pong::score`: awarding points and the `{:02} | {:02}` score text, with
    a proof that the text determines the score.
  - `pong::field`, `pong::input`: bar positions, bounds and steering.
  - `breakout::state`, `breakout::main_menu`: the scene and game states,
    the handlers that switch them, and the menu buttons.
  - `breakout::arena`, `breakout::brick`: the walls, the bar, the serve
    point and the brick wall, laid out exactly in 1/32 world units.
  - `breakout::ball`, `breakout::collision`, `breakout::schedule`,
    `breakout::input`, `breakout::ui`: the ball's speed, collision answers,
    the order of gameplay sets, bar steering and the game-over text.
- `tests/`: tests of the library, including comparisons with the
  floating-point formulas that the engine side uses.
- `app/`: the engine program (`pong` as first argument runs Pong, anything
  else Breakout). It reads keys, moves things by frame time, does the float
  geometry, sound and drawing, and asks the library for every decision.
