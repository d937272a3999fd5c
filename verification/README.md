# ambient_light

An ambient-lighting daemon: it captures the screen, turns its edges into LED colours and
sends them to a strip over DDP, WLED DRGB or a serial line.

- `src/` is the verified library. Each public function states its result in its contract,
  except those of the shared run flag (`controller`) and `logger::set_max_log_level`,
  whose atomic values vstd does not model; the properties that span functions are proved
  as lemmas:
  - `ddp`, `wled_drgb`, `hardware`, `color`: the frames sent to the strip;
  - `config_tree`, `manifest`, `configs`, `paths`: merging the configuration with its
    overlays, locating its files, validating its sections;
  - `crypto`: the obfuscation of the stored capture-session token;
  - `cli`, `logger`, `form`, `widgets`, `rust_items`, `naming`: the command line, log
    lines, the HTML of the settings form, its widget grammar, the enums read from registry
    files and the names of generated configuration types;
  - `capture`, `geometry`, `units`, `debug_output`, `controller`, `backend`,
    `shinombra_serial`, `text`: the smaller value types and helpers.
- `app/` is the program around it: reading files, sockets and serial ports, the signal
  handler, and the code generators built on `syn` and `quote`.
- `tests/` runs the library on concrete values.
