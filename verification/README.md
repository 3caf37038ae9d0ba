# eefoctui

A keyboard-first terminal dashboard for Docker containers, host metrics and
network diagnostics, whose core is verified with Verus.

- `src/` is the verified library: the dashboard's state machine (`app`), key
  routing (`input`), the parsers of `docker stats`, `ip -br addr`, `ss`,
  `netstat` and `ipconfig` output (`container`, `network`), the styling of
  console output (`ansi`), the port-list and number formats (`network`,
  `number`), and the text helpers they rest on (`text`, `textbuf`).
  Properties that span several events are proved in `app_laws`.
- `app/` is the program around it: terminal set-up, the event loop, the
  background workers that talk to Docker and the host, and drawing with
  ratatui.
- `tests/` runs the library on concrete inputs.
