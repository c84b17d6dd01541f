# rlbuddy

A companion library for Rocket League, verified with Verus: rank tables and rank estimates,
the match tracker fed by the game's stats feed, buddy badges, the match view's texts and
ratings, rich presence decisions, music control decisions, the custom map loader and its
search page reader, tracker profile records and addresses, session statistics and the
panel list of the main window.

Layout:

- `src/` — the verified library. Verus proves every function there against its contract.
  Where a function works on something a contract cannot see, its contract says only what
  holds whatever that is, and its doc comment says what is left unsaid: the queues of
  `common::channel`, shared between handles through a cell whose contents specifications do
  not reach (so `send`, `try_recv`, `drain` and `take_all` promise nothing of the items), and
  the two flags of the presence thread's controller in `discord::rpc`, which the other thread
  sets. The commands that controller hands to its channel are recorded in its contracts, so
  `DiscordService::update` states exactly which it sends. The few calls into std and into outside crates
  (`urlencoding`; `zip` and `serde_json` for reading map archives; std's `String::push`,
  `Rc::clone`, `Rc::strong_count`, `Arc::clone`, `mpsc::Sender::send`, `SystemTime::now`) sit
  behind small trusted wrappers whose contracts say only what their documentation promises;
  where a result takes more than a few lines to state (what an archive holds, what a JSON
  file says), the contract names it and the library's own contracts speak through that name. Paths are joined with the rules `Path::join`
  has on Unix.
  Each service owns its state and hands out values, not shared `RefCell` or `RwLock`
  handles, which Verus does not support.
- `tests/` — tests of the library on concrete values.
- `app/` — a headless runner around the library: the stats feed socket, HTTP lookups, the
  chat client connection, file work for custom maps, settings files and the stats feed setup.
