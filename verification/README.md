# screenpipe_engine: resource conservation

Decides how much recording may cost. Each report of CPU and memory usage is
turned into headroom, the gap to a budget, and handed to the
`conservation-checker` crate. From the phases and violations that the checker
shows, the library picks a quality tier, so that recording degrades before the
machine suffers.

- `src/` is the library, verified with Verus.
  - `quality`, `code`: the tiers, and what each of them asks of the capture
    pipeline.
  - `budgets`: the budgets and the headroom that a usage leaves.
  - `tracking`: the checker's quantities as integers, and what is taken on trust
    of `ConservationChecker`.
  - `decision`: the rule that picks a tier.
  - `token`, `state`: the token that holds the checker, and the state around it.
  - `usage`: what a process and its children use.
  - `laws`: what holds of all reports, and of series of reports.
- `app/` shares the state between threads, reads the environment, samples the
  process tree and writes the log.

CPU is counted in millionths of a percent of one core, memory in bytes, and time in
milliseconds since the state was made. Budgets and tolerances fit 32 bits, so the
checker's numbers hold every headroom exactly.
