# tokio-console configuration

The configuration of the console: the `console.toml` files in the user's configuration directory
and in the current directory, the command line, and which of them prevails.

`src/` is the library, verified with Verus:

- `config`: the whole configuration, the file generated from it, and where diagnostics go;
- `file`: what configuration files hold and where they lie;
- `options`: charset, colors, palette, and how options override each other;
- `palette`: color palettes, and what `tput colors` says of them;
- `retain`, `duration`: how long completed tasks stay on display, and how lengths of time are
  written;
- `scan`: reading such lengths, to tell those that `humantime` panics on;
- `text`: the little that is needed of text;
- `laws`: what holds of all this together.

What is trusted is `humantime::parse_duration` (in `duration`) and `String::from_utf8` (in
`palette`), each with the contract that stands beside it.

`app/` reads the command line, the environment and the files, writes TOML, runs `tput` and starts
the logs. `tests/` runs the library.
