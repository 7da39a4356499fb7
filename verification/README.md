# zero_pool

A thread pool with one global, unbounded queue of task batches. Workers
claim tasks from the oldest batch, run them on caller-owned parameter
structs, and free the batches they unlink once no worker can still read
them (epoch-based reclamation).

`src/` is the verified core, checked by Verus:

- `count` — the decisions taken on values read from shared counters and
  from the end of a timed wait, each exact for every value read;
- `epoch` — wrap-around epoch arithmetic, the oldest epoch in use, and the
  rule that decides when a retired batch may be freed, with its safety proof;
- `wake` — which idle or parked workers to wake for new tasks;
- `queue` — the epoch, wake-up and shutdown state shared by the workers, and
  one round of a worker's search for work;
- `garbage` — a worker's list of retired batches and its cleaning;
- `task_batch`, `work_batch`, `work_item` — batches and the claiming of
  their tasks;
- `future`, `atomic_latch`, `startup_latch`, `wait`, `wait_gate` — completion
  counters, and the steps of blocking waits;
- `padded_type`, `padded_atomic` — cache-line padding;
- `outside` — the std items the library calls without a vstd specification;
  every lock is taken inside these wrappers, on a mutex paired with its
  condition variable, and no caller code runs while it is held.

`app/` is the pool itself around that core: the worker threads, the list of
batches linked through raw pointers, the calls of the task functions through
raw parameter pointers, the loops of the waits that check a caller's
condition, and the task-definition macros.
