# croak

`croak` runs a command, waits for it to exit, and sends a notification that
reports its exit status through the transports of its configuration (HTTP
endpoints, or mail).

The library under `src/` is verified with Verus:

- `text` — white space as Unicode defines it, trimming, splitting into words,
  splitting at a delimiter, decimal numbers.
- `config` — the configuration, its check (blank host-name overrides are
  dropped, transport names must be distinct), the files it is read from and
  the steps of editing it.
- `transport` — transports: the HTTP transport, its request and its
  interactive set-up; sending through the first transport that accepts a
  notification; mail straight to a recipient's mail exchangers.
- `email` — the domain whose mail exchangers are asked, and their order.
- `process` — what is run, how the wait for it goes, and the notification.
- `utils` — where data and configuration live.
- `cli` — the command line and the task it asks for.

`app/` is the program around the library: argument parsing, the terminal,
files, the network, the child process and logging.
