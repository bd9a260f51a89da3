# dol_save_server

A save server for a browser game: it serves the game's files, stores the
saves the game sends (through a companion mod) as files on the server, lists,
returns and deletes them, and backs the save directories up.

- `src/` is the library, written in Verus: every rule the server applies
  (who may call what, which game a request is for, how a save file is named
  and encoded, which files are listed, which paths are refused, how the
  configuration is completed, when a backup is due, how the mod list is
  updated) is an executable function whose contract Verus proves. Calls
  into other crates (regex, serde_json, lz-str, base64, mime_guess, http)
  sit behind small trusted functions whose contracts state what those
  crates document; the proofs rest on them.
- `app/` is the program around it: configuration file, HTTP routing and
  middleware, file system access, mail and the backup schedule.
- `tests/` runs the library on concrete values.

Save files are named `{new|old}-{name}-{slot}.save` (`new` for saves kept in
IndexedDB, `old` for local storage; the slot written in decimal, `0`
being the autosave) and are listed at `/saves`.
