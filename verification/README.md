# anyqueue

The verified core of a Redis-backed job queue with retries, exponential
backoff and a dead letter queue.

- `src/` is the library, verified with Verus: configuration and its builder
  (`config`), time spans (`duration`), errors (`error`), job records and the
  decision where a job goes after an attempt (`job`), attempt times and
  backoff (`schedule`), the worker's reaction to claims from the store
  (`worker`), opening a client (`queue`), and the properties that hold across
  calls (`laws`).
- `app/` is the program around it: the Redis commands, the async worker loop,
  the `Job` and `JobProcessor` traits, the JSON form of jobs, and a demo.
- `tests/` runs the library on concrete values.
