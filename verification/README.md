# kapsaro-core

The core of a team secrets tool, written in Verus: the library's logic under
`src/` states what it does in `requires`/`ensures` contracts that Verus
proves. Calls into outside crates stand behind small trusted wrappers whose
contracts say what those crates document.

## Layout

- `src/` — the verified library.
  - `error`, `text`, `ids`, `limits`, `validation`, `display`, `json_limits`,
    `timing`, `warning`, `path`, `shell`, `post_write`, `secret`: input
    validation, message sanitisation, resource limits, time stamps and
    warning collection.
  - `fs/` — the rules of the local-state tree: child names, permission
    judgments, directory policy, mount classification, bounded reads and the
    lock back-off.
  - `trust/` — the trust store model, the policy evaluator, review requests,
    recovery routes and snapshots of the signer and member sets.
  - `model`, `online`, `ssh`, `registration`, `operation`, `member`, `read`,
    `rewrap`, `rewrap_session` — the decisions taken before a secret is read,
    rewrapped or a member is approved or removed.
- `tests/` — tests run against the compiled library.
- `app/` — the I/O around the library: the per-thread warning sink, bounded
  file reads and atomic writes, directory locks, storage-locality probes and
  the serde form of the online verification status.

The outside crates called from `src/` are `zeroize`, `time`, `uuid` and
`rustix`.
