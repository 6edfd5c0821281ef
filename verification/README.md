# sentinel_io

The scheduling and state-keeping logic of a small single-threaded async
runtime, verified with Verus.

- `src/` — the verified library: task queues (`scheduler`, `executor`,
  `desk`), the join-handle state shared between a task and its awaiter
  (`join`), the runtime's task accounting and wake-up channel (`runtime`),
  the per-thread runtime slot (`context`), the timer's decision (`timer`),
  the non-blocking I/O poll decision (`io`) and the expansion of the
  entry-point attribute (`entry`).
- `app/` — the executors, wakers, futures and sockets that drive it.
- `tests/` — tests of the library on concrete values.
