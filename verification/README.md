# jam_games

The rules of a collection of small arcade games played one after another:
a visual novel, Pac-Man's walk across the title, a flapping game, a
gravity-flipping runner, a colour-switching platformer, a false ending, a
night-shift survival game, a top-down shooter with a boss fight, and a
finale.

- `src/` holds the rules as a library checked by Verus: every public function
  states what it returns or changes, and the proof functions state the
  properties that span several calls (a door clicked twice is as it was, a
  closed door keeps the bear out, a path is walked in order, recycled pipes
  are pipes that were made, a screenshot is taken one at a time, ...).
  Positions, speeds and times are whole numbers (thousandths of a pixel,
  milliseconds) so that every rule can be stated exactly.
- `tests/` runs the library on concrete values.
- `app/` is the program: the bevy schedule, states, input and clock around
  the library. Physics, drawing and sound, and the computations in floating
  point that belong to them, stay there.
