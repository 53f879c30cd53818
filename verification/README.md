# exo-server

Server of the boat's DriverInterface PCB. It listens on the CAN bus, orchestrates
the boat's start and shutdown with the other PCBs, feeds the dashboard over a
WebSocket, and keeps and uploads daily log files.

- `src/` — the library, verified with Verus:
  - `protocol`: module numbers and the shared raw signal values;
  - `dbc`: the decoded content of the bus's messages;
  - `categorize`: every message collapses into one `CanRxEvent`;
  - `send`: the frames this PCB transmits and the CAN frame checks;
  - `dashboard_state`: the PCB alert panel and its titles;
  - `receiver`: the start/shutdown orchestrator and the handling of a received message;
  - `handshake`: laws over whole runs of the receiving loop (the order of the
    announced states, and when a final state is announced);
  - `log_text`: the text of the log lines about CAN traffic and missing confirmations;
  - `uploader`, `logs`, `frontend`: the upload retry policy, log file naming and
    selection, and the frontend's log lines.
- `app/` — the program around it: sockets, threads, the web server, files and SSH.
  It needs the bus description's message module, built from `exo_can.dbc` at
  compile time.
- `tests/` — tests of the library.
