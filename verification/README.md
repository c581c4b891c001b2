# pikadick

The logic of the pikadick Discord bot as a Verus library, with the I/O
around it in a small program.

- `src/` — the verified library:
  - `tic_tac_toe` — the board, turns, winners, the base-3 board code and a
    perfect-play computer opponent;
  - `database` — the stored forms of players, server ids and TikTok embed
    flags, the rules of a Tic-Tac-Toe move and of a new game, and server
    settings;
  - `commands` — each command's parsing, decisions and replies: the text
    transforms (uwuify, twitterify, vaporwave), the quizizz code search and
    its cache, reddit and TikTok embeds, polldaddy jobs, system status and
    the lookup commands;
  - `slash_framework` (also under the names of `framework`) — slash
    commands built from a name, a description and a handler, kept under
    distinct names and looked up by name;
  - `handler` — which links of a message get embedded, the bot's status,
    and the replies to commands that cannot run;
  - `config`, `setup`, `logger` — config validation, start-up decisions and
    the delayed log writer.
- `tests/` — tests of the library on concrete values.
- `app/` — the start-up program: reads the config file, validates it, and
  prepares the data directory.
