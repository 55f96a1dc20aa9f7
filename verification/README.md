# lib

A verified hardware-runtime library: device detection from devicetree nodes and PCI
configuration snapshots, NFC, sensor and storage drivers' register logic, NDEF, partition-table
and command-queue handling, power and thermal policy, security bookkeeping (isolation domains,
speculation mitigations, enclaves), timers, system-call registration, resource accounting and
the monitoring runtime with its throttling workers.

- `src/` is the library. Every function in it is verified with Verus against its contract;
  state that the hardware or the platform provides (register values, sensor readings, clocks,
  fork results) is passed in, and the results say what to write back.
- `tests/` exercises the library on concrete values.
- `app/` is the unverified edge: volatile register access, the drivers' register sequences
  (whose send and receive loops ask the library what to do at each status word), host services,
  the runtime's start and worker loop, and system-call dispatch.
