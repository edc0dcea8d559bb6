# client

Verified core of a tic-tac-toe game client that plays against bots or against other users
over a game server.

- `src/` is the library, verified with Verus:
  - `board`, `tic_tac_toe`: the board, the winning lines and the game rules (`spec_update`),
    with laws on what a move does;
  - `pending_action`, `action_queue`: actions waiting for confirmation by the server, and the
    operations on their queue (pop the confirmed ones, confirm the latest, revert, send);
  - `game_flow`, `ttt_flow`, `menu`, `session`: the decisions that the client's systems take on
    events (which queue changed, which actions to revert, applying confirmed actions,
    synchronising with the server's board, bot and menu settings, connection changes and
    session updates);
  - `info_panel`: what the in-game panel shows for the two players and the game state;
  - `game_info`, `game_events`, `bot`, `app_state`, `common`, `game_error`: data types, and the
    random choices of bots;
  - `small_lists`: short inline lists (`smallvec`) behind trusted wrappers.
- `tests/` runs the library on concrete values.
- `app/` is the ECS application (`bevy`): components, events and systems that hand the world's
  values to the library and carry out what it decides.
