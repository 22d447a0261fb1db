# UnionC agent

The telemetry agent of UnionC samples a host and reports it to its server. This crate is its
library, verified with Verus, and the program around it.

- `src/` holds what the agent decides: how arguments, environment and files become a
  configuration; how a host is paired; when samples are taken, stored and delivered; what the
  collectors make of the kernel's answers; what the status and doctor commands tell; and, for
  Windows, the tray companion, the maintenance transactions of the installer and the service host.
- `tests/` runs the library on concrete values.
- `app/` is the program: files, sockets, clocks and system calls. It asks the library what to do,
  does it, and hands back what came of it. The windows, pipes and elevation of the tray companion
  are a program of their own and not part of it.

Long-running work is a state machine in `src/`: a `start` gives the first action, and `step` takes
the outcome of an action and gives the next one. Time is counted in nanoseconds on the clock of the
process. Readings with a fraction pass through the library as the bits of a double.
