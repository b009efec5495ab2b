# le_word

The game logic of Le Word, a five-letter word puzzle with one daily board
and any number of replay boards, verified with Verus.

- `src/score.rs`: scoring a guess cell by cell (Correct / Present / Absent,
  with duplicate letters handled by spare copies) and the keyboard hint of
  a letter.
- `src/text.rs`: the texts a board shows (decimal counts, typed letters, the
  answer in capitals).
- `src/board.rs`: modes, puzzle dates, boards, saved games, and the work a
  session hands to its caller (`Effect`).
- `src/state.rs`: a player's session as a state machine; every operation is
  specified as a transition of its view, `StateView`.
- `src/laws.rs`: properties that span operations (restoring the daily board
  after a replay, the two-press replay reset, daily wins recorded once and
  never for replays, the rollover to a new day's word, boards kept in order,
  scoring of duplicate letters, the symmetry of the scores, keyboard hints
  that never drop and ignore the order of the guesses).
- `app/`: the I/O around a session: the service (clock, word list, database),
  the background fetch of a new day's word, and stored rows.
