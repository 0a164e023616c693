# coreutils support library

Allocation helpers and descriptor-polling decisions, verified with Verus.

- `src/xalloc.rs`: zeroed, resized and duplicated buffers, checked array
  sizes, and the rule for when a failed reallocation is fatal.
- `src/growth.rs`: how far an array grows (`xpalloc`, `x2nrealloc`), with the
  laws that bound the growth.
- `src/iopoll.rs`: the setup of a wait on two descriptors, the decision after
  each `poll`, the input-readiness test on a file mode, and the bookkeeping of
  a retried write.
- `app/`: the raw-pointer allocation wrappers and the system-call loops, which
  call into the library for every decision.
