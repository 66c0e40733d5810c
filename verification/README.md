# rustmix

A grab-bag of everyday helpers, written in Verus: the library under `src/`
is verified, and `app/` holds the thin layer that talks to the console, the
file system, child processes and the network.

- `src/string.rs`, `src/text.rs`: trimming by characters, prefixes and
  suffixes, searching and splitting character sequences, with laws on
  trimming (idempotence, order of the two ends).
- `src/io.rs`, `src/input.rs`: what a line, a key or a password typed at the
  console becomes; menu numbering.
- `src/vpn.rs`: the arguments of the ExpressVPN command-line client and the
  reading of its output into statuses and location lists.
- `src/file.rs`, `src/path.rs`: open flags, batching of lines, path parts and
  the decisions of copy, move, list and delete.
- `src/threading.rs`: the state machine of a work queue served by worker
  threads, with laws on starting, completing and cancelling, and the
  decisions of waits.
- `src/web.rs`, `src/date.rs`, `src/log.rs`, `src/random.rs`, `src/ai.rs`,
  `src/app.rs`, `src/error.rs`: URLs and percent-encoding, date parsing,
  logger settings, random text, chat requests, application info and errors.

Calls into `regex`, `chrono`, `url`, `urlencoding`, `rand` and a few `std`
path functions sit behind small trusted wrappers whose contracts name what
the call returns.
