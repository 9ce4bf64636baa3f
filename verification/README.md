# Live Replay

Records live streams, cuts them into parts, and uploads the parts to Bilibili or YouTube without
losing, repeating or prematurely deleting any of them.

- `src/` is the library: the rules by which recordings are named, cut, journalled and recovered, the
  upload queues and what moves them on, the settings, and the choice of streams and upload lines.
  Each function carries a contract that Verus proves. Properties that span several functions are
  stated as public proof functions whose names begin with `law_`.
- `app/` is ordinary Rust around the library: state files, the database, the network and the
  interface of the server. It asks the library what to do, does it, and reports back.
- `tests/` runs the library on concrete values.

What the library takes from other crates (JSON, playlists, addresses, the clock, random numbers, the
home directory) it reaches through small wrappers marked `#[verifier::external_body]`. Their contracts
are taken as given; each says above it what it claims.
