# interactive_picker

A picker whose contents follow a search query: a search prompt above a file picker. When it is
opened the picker lists the files of the workspace. A changed query looks at the current working
directory: one that is shorter than two bytes lists all files there; a longer one is a regular
expression that is searched for in the contents of the files, or of the documents that are open for
them.

- `src/` is the logic, verified with Verus: what an event means (`keys`, `picker`), where things
  are drawn (`graphics`, `layout`, `text`) and in which order (`draw`), when a search is started and the one before cancelled
  (`picker`, `flag`), what a query asks for and which lines it finds (`search`), how a directory
  is walked and its files fed to the picker (`walk`), what opening an entry does (`open`), and which
  events hooks can rely on (`events`).
- `src/walker.rs`, `src/grep.rs`, `src/matcher.rs` and the head of `src/file_result.rs` state what is
  taken on trust of the crates `ignore`, `grep-regex`, `grep-searcher` and `nucleo`, and of paths.
- `app/` is the component for an editor: drawing, input, threads and the disk. An editor provides
  the traits in `app/host.rs`.
- `tests/` runs the library on concrete values, together with the crates it calls.
