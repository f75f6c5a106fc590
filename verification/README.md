# epitelesis

*ἐπιτέλεσις — the process of executing to completion.*

A typed subprocess lifecycle boundary, verified with Verus. Execution policy is explicit
before a command can run, and structured evidence is what is left after its supervisor has
finished cleanup.

## Layout

- `src/` is the library. All of it is verified except the trusted items listed below.
  - `command`, `policy`, `environment`, `path`: what is run, and under which policies.
  - `description`: what builder calls make of a command.
  - `debug`: what logs show of a command.
  - `launch`: the reaper and the deadline that have to stand before a child is spawned.
  - `supervisor`, `managed`: the state machines that own a child from then on, for captured
    runs and for managed streaming.
  - `capture`, `schedule`, `process`, `outcome`: bounded capture, waits and budgets, ownership
    of the leader, and the outcome that wins.
  - `output`, `error`, `io`, `time`, `text`, `bytes`: evidence and plain values.
  - `sync`: what the runners make of a supervised run.
  - `lifecycle`, `managed_lifecycle`: laws of whole invocations.
- `tests/` drives the library against scripted children.
- `app/` spawns the processes, reads the pipes, sends the signals, and hands what happened
  back to the state machines.

## What is proved

- Nothing runs without a deadline or a stated reason to have none; a program that would have
  to be searched for needs a search path; what to spawn is handed out only together with an
  invocation whose fallback reaper stands and whose deadline lies on the clock.
- The child's environment is what its policy takes over from the parent, overlaid by the
  explicit operations, of which the last on each key wins. A command's debug text shows none
  of the values that they set.
- A builder call and the lifecycle declaration commute: whichever comes first, the command
  says the same.
- Every byte that is read from a stream is retained or counted. No more is retained than the
  limit allows, and a fail-closed stream that lost a byte never ends in success.
- Once there is a reason to stop, be it a crossed limit, a failure, cancellation, the deadline
  or the leader's exit, the process group is signaled after a bounded number of operations; it
  is signaled once, always before the leader is reaped, and the outcome is on record. Once the cleanup
  budget is spent, supervision ends after a bounded number of operations.
- A timeout is never reported before the deadline. Where no operation takes longer than a
  given slack, an invocation ends within its deadline, the cleanup budget and a fixed
  multiple of the slack.
- Every terminal result owns its evidence, and success means that every obligation was
  settled.

What the operating system and the clock do is not proved: the machines are verified for
every answer that they could give.

## What is trusted

The contracts of these items are believed, not proved. Each says above it what it claims of
the function that it calls.

- Wrappers: `no_such_process_code` (rustix), `monotonic_now` and `clock_can_reach` (the
  monotonic clock of `std`), `from_utf8`, `from_utf8_lossy`, `debug_str_text` and
  `debug_parts_text` (texts of `std`).
- The declared type `ExInstant`, for `std::time::Instant`.
- The names `lossy_text`, `utf8_error_len`, `str_debug_text` and `duration_debug_text`, for
  results of those wrappers that the contracts do not spell out.
