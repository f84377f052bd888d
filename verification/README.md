# bubbletea-rs

A Model-View-Update framework for terminal user interfaces, in the style of
Go's Bubble Tea, whose core is verified with Verus.

- `src/` is the verified library: the messages and the error type, the
  decisions of the event loop (`program::dispatch`, `batch_exit`, the
  terminal requests of start-up, release and shutdown), the bookkeeping of
  terminal modes (`terminal::TerminalState`), the decoding of line input into
  key messages, gradient rendering with exact integer colour interpolation,
  the health check of the memory monitor, the registry of running timers
  and the `Model` trait. The public functions state their results in their
  `ensures`, except where a result rests on something the library does not
  model: the memory monitor's counters are shared atomics, whose values
  are read, not modelled, and the variant of a tokio send error is opaque.
  The laws that relate several functions are public proof functions named
  `law_*`.
- `app/` is the asynchronous runtime around it (tokio, crossterm): it reads
  input, performs terminal effects, runs commands and timers, and carries
  out what the library decides for each message.
- `tests/` runs the library on concrete values.
