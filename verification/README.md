# cargo-upload

A cargo subcommand that publishes crate archives (`*.crate`) to a registry,
typically a private one.

- `src/` is the verified library: the rules an upload follows, with their
  contracts and proofs.
  - `opts.rs`: command-line arguments, selection of crate archives (a folder
    stands for the archives in it), and how the outcomes of many uploads end
    a run.
  - `registry.rs`: which registry a package may be published to, how it is
    reached, and which configured sources are refused.
  - `dependency.rs`: the checks on a package's dependencies.
  - `listing.rs`: the dependencies as the publish request lists them.
  - `publish.rs`: token purposes, the publish request plan, the wait for the
    index and the warnings after a publish.
  - `wait.rs`: the decision after each look at the index.
  - `source.rs`, `error.rs`, `text.rs`, `digest.rs`: sources of packages,
    errors and their messages, text helpers, and the calls into
    `cargo-util` and `crates-io`.
  - `laws.rs`: properties that span several functions.
- `app/` is the program: argument parsing, unpacking archives, cargo's
  configuration and the network, driven by the library's decisions.
- `tests/` runs the library on concrete values.
