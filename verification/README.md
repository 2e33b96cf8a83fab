# ototune

A terminal player for MPD, tailored to daily listening and audio
immersion: a library browser and a searchable play queue side by side,
shuffle-and-loop "immersion" of a folder, and a remembered playback
position across restarts.

## Layout

- `src/` is the library. It holds the interface state and every decision
  of the player, each with a contract that states its result:
  - `app.rs`: the state, the live fuzzy search filter (the query's letters in order), moving the selection,
    notifications, and what is remembered between runs;
  - `keys.rs`: the key bindings. A key press changes the state and names
    the work to do with MPD (an `Effect`); the outcome of that work comes
    back through the `finish_*` methods;
  - `browser.rs`: which entries of an MPD directory listing are shown
    (hidden names only on request), the path each is queued by, and their
    stable order, directories first and then by case-folded name;
  - `mpd_client.rs`: songs, status and commands, and the decisions behind
    the commands (play/pause, volume, seeking, immersion target, address);
  - `ui.rs`: the texts and figures drawn on screen;
  - `state.rs`, `text.rs`, `format.rs`, `clock.rs`: remembered settings,
    text operations, number formatting and the clock;
  - `laws.rs`: properties proved across operations, such as the saved
    state being what the next run starts from, or search results always
    pointing into the queue.
- `app/` is the binary: command line, MPD connection, terminal drawing
  with ratatui, the state file, and the event loop.
- `tests/` exercises the library on concrete values.
