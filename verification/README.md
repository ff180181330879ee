# wql_process_monitor

Reports the creation and deletion of Windows processes, over WMI.

- `src/` decides, and is verified with Verus: it writes the WQL query of a subscription, says
  which call into COM or WMI is due and what its outcome means, turns WMI event objects into
  process events, runs the listener thread's protocol with its callers, and keeps the one
  listener that a process has.
- `app/` performs the calls: the N-API bindings, the listener thread, COM and the process API.
- `tests/` runs the library.
