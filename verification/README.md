# lambdust

Runtime support for the Lambdust Scheme implementation, written in Verus:
the library under `src/` is verified by Verus, and its functions state in
contracts what they return and change. Some say less: the constructors of
field-less types, whose only value needs no statement; the functions that
read the clock, which state what holds of every reading (most have a variant
that takes the reading and is exact); and the chain signature builder, whose
hash values std's hasher does not fix.

- `src/value.rs`, `src/error.rs`, `src/time.rs`, `src/continuations.rs`:
  values, errors, time spans and continuation identifiers shared by the rest.
- `src/host.rs`: host function signatures, argument and return checks, and
  the registry of host functions with the built-ins `host-string-append` and
  `host-length`.
- `src/formal_verification/`: proof obligations, their manager, the
  verification engine that sets up the standard obligations and scores and
  caches verification results from the evidence found, and the interface to
  external proof assistants (sessions and generated sources).
- `src/text.rs`: decimal rendering of numbers for messages; `src/value.rs`
  also renders values as text.
- `src/jit/`: compilation tiers, execution trends and the tier manager
  (tier selection, tier-up, speculation, deoptimization), the bounded execution
  history and profiling statistics of hot continuation detection, time, space
  and control-flow complexity of expressions, code generation helpers
  (register pool, instruction buffer, frame layout), the registry of the 42
  JIT-aware core primitives and their interpreted implementations, the code
  cache (entries, storing under memory pressure, LRU eviction, invalidation),
  configuration presets, security checks and runtime monitoring, continuation
  state optimization (with its memory access and cache analyses), the application of chain optimizations, and runtime
  statistics.
- `tests/`: tests run against the compiled library.
- `app/`: host-side glue that the library does not verify: CPU feature
  detection, printing for `host-print`, the top-level JIT configuration with
  its fractional hotspot thresholds, and floating-point scores and reports
  (autocorrelation, cache priorities, verification report confidence).
