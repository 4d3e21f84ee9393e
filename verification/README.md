# guardian-agent-windows

Decision logic of the Guardian agent's Windows service, verified with Verus.

- `src/` is the verified library:
  - `updater` — the self-update procedure as a state machine (`advance_update`);
  - `screenshots` — the screenshot scheduler and capture worker steps, the
    dispatch of capture reports and the process-wide screenshot handles;
  - `policy_sync`, `inventory` — the policy-sync and installed-apps schedulers;
  - `schedule` — the shutdown signal and loop actions they share;
  - `commands` — routing of server commands and the screenshot replies;
  - `launch` — the process role and crash-reporting setup;
  - `users`, `text` — the user table and verified text primitives.
- `app/` is the binary around it: tokio tasks and channels, HTTP downloads,
  file and process handling, crash reporting. It performs each action the
  library returns and hands the outcome back.
- `tests/` runs the library on concrete values.
