# hardback_server

The game logic of a server for a word-building deck game: the card table,
the players' tallies and piles, resolving a submitted word, buying and locking
up cards, drawing and uncovering cards, the end of the game, the lobby of
tables and the replay of a logged game. The library is verified with Verus:
each public function states in its contract what it does, over views of the
players, queues and messages.

Layout:

- `src/` the verified library. `game_engine` runs a game: `begin`/`start`,
  `tick` (one round of the game loop, stated by `round_played`),
  `handle_command` (stated by `command::command_handled`) and `end_of_loop`.
  `lobby` keeps the connections and tables; `replay_engine` replays a log.
  `piles` states that the starting deal, each command and each round of the
  game loop leave no card in two places, and that each move of cards keeps
  every card of the game.
  Randomness and grouping go through a few trusted wrappers in `random` and
  `lobby`.
- `tests/` tests of the library.
- `app/` the server around it: websocket connections, JSON, threads and the
  dictionary lookup.
