# bugsnag

The data model of an error-report notifier, with its behaviour stated in
contracts and proved.

- `src/` — the library: device, user, application, exception, event and
  notification descriptions (`deviceinfo`, `user`, `appinfo`, `exception`,
  `stacktrace`, `severity`, `event`, `notification`); the logic that turns
  what platform probes report into a hardware description (`hardware`),
  with the text handling it needs (`text`); and the calls that read the
  running system, the clock and the machine identifier (`platform`).
- `app/` — what stays outside the proofs: running the platform's probe
  commands and reading DMI files, keeping the system information for the
  life of the process, and the serde forms of the library's values.
- `tests/` — tests of the library.
