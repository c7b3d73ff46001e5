# zio_testkit

Conformance vocabulary, reference models, and decision logic for the zio
readiness library, verified with Verus.

- `src/` is the verified library: readiness observations and their
  declared contracts; the peer qualification matrix (scenarios, delivery
  profiles, capabilities, receipts, and coverage policy); the mutation,
  readiness, and wake scenarios with every checkpoint that judges an
  observation; the plans that decide which request each scenario makes
  next (`mutation_driver`, `readiness_plan`) and the step function of
  one qualification case (`qualify_driver`); and the deterministic
  model-sequence generator, the reference model it is replayed against,
  and the step of each generated action (`model_sequence_step`).
  Contracts state each result exactly; `law_*` proof functions state the
  properties that span several functions.
- `app/` drives native pollers (zio, Mio, `polling`) and zio's scripted
  poller: it performs the requests the library plans and hands every
  answer back to the library's judgments.
- `tests/` runs the library on concrete values, and drives the mutation
  scenarios and generated model sequences on zio's own scripted poller.
