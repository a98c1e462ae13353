# neko

A minimal `cat(1)` for Linux on x86-64, with Japanese diagnostics, whose
logic is verified with Verus.

- `src/` is the verified library. `cat` holds the program as a state
  machine: it asks for one system call at a time (`fstat`, `openat`,
  `read`, `write`, `close`, `exit_group`), takes its outcome, and says what
  to report on standard error and which call comes next. The other modules
  hold what it is built from: error numbers and their descriptions
  (`errno`), diagnostic lines (`error`), file metadata and raw system call
  results (`fs`), the loops that write whole buffers and lists of buffers
  (`io`), and the handling of interrupted calls (`retries`).
- `app/main.rs` is the program: it makes the system calls that the state
  machine asks for and hands their outcomes back.
- `tests/` runs the library on concrete values.
