# brewman

A terminal interface for Homebrew formulae and casks: list installed packages
(all, formulae, casks, outdated), mark several for a batch upgrade, upgrade,
uninstall, update the sources, and watch the running command's output.

- `src/` is the verified library (Verus):
  - `model.rs`: packages, the data of `brew info` / `brew outdated`, and the
    stable sort of the list (outdated first, then by name);
  - `app.rs`: the interface state and how keys and worker messages change it,
    each operation stated over `AppModel`;
  - `brew.rs`: jobs, messages, and the worker's decisions (arguments, labels,
    outcomes of finished commands);
  - `screen.rs`: the text of each panel;
  - `text.rs`: strings helpers (decimal numerals, white space, search, join,
    lexicographic order);
  - `laws.rs`: properties across operations.
- `app/` is the program: terminal drawing (ratatui), keys (crossterm), the
  worker thread that runs `brew`, and the JSON reading (serde).
- `tests/` exercises the library.
