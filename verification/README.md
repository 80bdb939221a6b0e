# flute_webhooks_cli

A command-line tool and terminal dashboard for Flute webhooks: manage
endpoints, watch delivery logs, retry failed deliveries and forward new
successful deliveries to a local listener.

The crate is in two parts.

- `src/` is the library, written in Verus. Its functions carry contracts
  (`requires` / `ensures`) that Verus proves; the one exception is
  `now_unix`, which reads the wall clock, so nothing can be said of its
  value (the rule it applies to the reading, `secs_or_zero`, is stated).
  The contracts cover the request paths and
  queries, error rendering and redaction, the bearer-token cache, the polling
  cadence and back-off, the listener's "forward each delivery once" rule,
  the dashboard's key handling and state, and every table and detail view the
  CLI prints, and where the settings files live. Calls into other crates
  (time formatting, the home directory, version comparison) go through
  small trusted wrappers whose doc comments say what they claim.
- `app/` is the program around it: argument parsing, HTTP, the OS keychain,
  terminal drawing, files and the event loops. It hands plain values to the
  library and performs the actions the library decides on.

`tests/` runs the library on concrete inputs.

Laws that relate several functions (for example, that a token read back
right after it was stored is the stored token, or that polling the same
logs twice forwards nothing the second time) are public proof functions in
the module they concern, each with a doc comment stating it in words.
