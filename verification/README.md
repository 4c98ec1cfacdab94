# raw-ipa

Pieces of a three-helper multi-party computation, written in Verus.

- `src/` is the verified library:
  - `ff`: the prime fields `Fp2`, `Fp31` and `Fp32BitPrime`, whose operations are proved to be
    arithmetic modulo the prime, and the laws of that arithmetic (`ff::modular`).
  - `helpers`: roles and identities of the helpers, channels, the commands of the transport
    between helpers and their errors, and the permit the HTTP handlers share.
  - `pipeline`: the decisions that the `Zip3` and `Unzip3` stream combinators take on each poll
    (which streams to poll, what a poll answers, when a buffered part may leave, when the unzip
    finishes), their size hint, and laws over whole runs of them.
  - `protocol`, `secret_sharing`: steps, queries, and the semi-honest and malicious contexts.
- `app/` holds the asynchronous plumbing around it: the `Transport` and `Network` traits, the
  sink wrapper, and the `Stream`/`Future` implementations of `Zip3` and `Unzip3`.
- `tests/` runs the library on concrete values.
