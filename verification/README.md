# pong

The rules of a two-player Pong game with power-ups, as a verified library,
and the program that plays it.

- `src/` — the rules, verified with Verus: screens and menus (`screen`),
  scoring and shields (`score`), paddle height, speed and steering
  (`paddle`), the ball's pace and last touch (`ball`), the abilities and
  their timed effects (`ability`), the two players (`side`).
  Heights are counted in half pixels and speed multipliers in quarters,
  which hold every value the game uses exactly.
- `app/` — the macroquad program: window, keys, drawing, and the
  floating-point physics of balls and paddles. It asks the library for
  every decision.
- `tests/` — tests of the library on concrete games.
