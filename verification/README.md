# bannus_trackus

A tracker of game accounts and the bans placed on them.

- `src/` is the verified library (Verus): the records (`model`), the calls
  into std and chrono with their trusted contracts (`outside`), the
  arithmetic of a ban's time left and the review that lifts expired bans
  (`bans`), the add-account form (`form`) and the edit window's rules
  (`edit`).
- `app/` is the egui window and the `smurfs.json` file (JSON lines), which
  call the library for every rule.
- `tests/` runs the library on concrete values.
