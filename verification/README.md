# ai-pendrive launcher, verified core

A hardware-aware launcher for local language models kept on a portable
drive: it checks which catalog profiles a machine can run, saves the chosen
one, downloads it through a resumable `.partial` file guarded by a lock and a
SHA-256 check, verifies it, and starts a runtime found in `runtimes/`.

## Layout

- `src/` is the library, written in Verus. Every function there carries a
  contract that Verus proves, except the few marked
  `#[verifier::external_body]` that call `std`, `hex`, `reqwest` or `sha2`:
  their contracts are trusted, and each says in its doc comment what it
  claims of the call.
  - `catalog.rs`: catalog entries, the saved choice, model lookup and the
    list of eligible profiles.
  - `compat.rs`: why a profile is unavailable on a machine, in checking
    order, with the laws that relate machines and profiles.
  - `layout.rs`: where files live inside the portable directory.
  - `download.rs`, `verify.rs`, `commands.rs`: the download, cancellation,
    verification, preflight, setup, launch and status flows, each a state
    machine from state and observation to next state and actions.
  - `digest.rs`, `text.rs`, `logging.rs`, `machine.rs`, `runtime.rs`,
    `setup.rs`, `error.rs`: the smaller pieces those flows use.
- `app/` is the command-line program around the library: argument parsing,
  JSON, files, HTTP, the lock, hashing files, probing the machine and
  running the runtime. It performs the actions the state machines ask for
  and feeds back what it observed.
- `tests/` exercises the library on concrete values.
