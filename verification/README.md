# lazydc

A small command line and terminal interface for a directory of `docker compose` projects.

The crate is a verified library with a program around it.

- `src/` holds everything that decides something, written in Verus: which projects there are
  (`project`), what the configuration is (`config`), which projects a command means (`cli`), which
  command lines an action runs and how they are quoted (`compose`, `shell`), in which order a batch
  runs and what it reports (`batch`, `output`), what is made of Docker's answers (`loading`,
  `docker_api`, `metrics`), what every key and every report does to the screen (`tui`), how it is
  shown (`views`, `screen`, `help`, `layout`), what the editor and shell commands are (`launch`),
  and how the command line reports (`report`). `text`, `names` and `native` are the building blocks.
  `tui_laws` and the public proof functions beside the code state what holds of the whole.
- `app/` is the program: arguments, files, processes, the Docker API, the terminal, and percentages
  in floating point.
- `tests/` runs the library.

What the library takes on trust is marked `external_body` or `assume_specification`: the lossy
reading of bytes as text, the TOML parser, the layout solver, and two methods of `String`.
