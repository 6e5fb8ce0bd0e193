# forgive-me

A follower-cleanup controller for X whose browser work runs in a paired
Chrome extension. The rules that decide who may be removed, the pacing of
removals, the pairing checks, the scheduling of browser work and the
handling of its results are written in Verus and carry proved contracts.

## Layout

- `src/` — the verified library.
  - `model` — accounts, removal rules and their reasons, text cleaning,
    identifiers and the clock.
  - `pacing` — the rolling hourly budget and cooldowns.
  - `bridge`, `protocol`, `native`, `config` — pairing, message admission,
    extension identity and native-messaging checks.
  - `controller`, `apply` — the controller's state and what each key
    request, collected page, deferral, receipt, queue tick and settings
    change does to it.
  - `app`, `schedule`, `guards`, `results`, `keys`, `session`, `worker` — the
    controller's decisions: collection progress, retries, queues, what each tick
    sends, which requests are refused, what each browser result changes,
    what each key asks for, and what a connection change or page load
    asks for.
  - `manager`, `background` — the browser manager's snapshot rows and the
    worker's status.
  - `ui`, `ritual`, `insect`, `theme` — labels, notices, the approval
    dialog's text and layout arithmetic of the terminal views.
  - `setup` — the pairing guide, what each guide request does to it, and
    Chrome installation hints.
  - `demo` — the fictional inventory and the simulated browser.
  - `order`, `text` — sorting and string helpers.
- `tests/` — tests of the library.
- `app/` — the command: configuration files, the SQLite journal, the
  WebSocket bridge, the native-messaging host, and a complete demo pass
  driven by the library. Without `--demo` it pairs with the extension and
  identifies the signed-in account; `status`, `pause`, `resume` and `stop`
  speak the private socket of a detached worker, which this command does
  not start. There is no terminal interface.

## Rules

The removal rules are those of `model`: relationship protections, fresh
activity evidence (at most a day old), recent activity, which protects
whatever the post count, then zero posts or inactivity since the cutoff
with coverage reaching back to it. Accounts carry no creation date, so
zero-post accounts are not held to a minimum age, and there is no separate
single-rule cleanup policy: the cleanup runs under the current `Policy`.
