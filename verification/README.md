# ratablet

Use a reMarkable tablet as a pen tablet on Linux, Windows, or macOS.

The library in `src/` holds the logic, verified with Verus:

- `text` — characters, trimming, searching, integer literals and decimal output;
- `pen` — evdev records, the pen state, rotation and scaling of coordinates;
- `device` — the session header and the models' digitizer ranges;
- `args` — the command line and SSH targets;
- `rotation` — rotation modes, their stored numbers and names;
- `retry` — kinds of connection errors;
- `state` — the state that the connection worker and the panel share, and how the worker waits after a failed connection;
- `session` — the decisions of a connected session and of ssh's diagnostics;
- `ssh` — the tablet-side program, shell quoting, the ssh invocation, the session token;
- `ui` — the panel's languages, texts, icon, opening settings and window behaviour;
- `output` — the reports for the virtual pen on each platform;
- `laws` — properties that span functions, proved.

`app/` is the program: command-line entry, ssh and TCP plumbing, threads, the
panel (eframe), the tray, the credential store, and the platform pen output.
