# native_ipc

The decisions of a same-user supervisor for macOS, verified with Verus. A parent spawns a helper
over a private Mach bootstrap channel; a service authenticates each message it receives by a
disposable worker, admits spawn requests by an installed policy, and hands an admitted launch to a
broker, which traces the launcher it spawns until the planned target runs.

## Layout

- `src/supervisor`: the wire contract. Deadlines, records, spawn payloads and results, connections,
  installed policies, and the plans that a service gives its broker.
- `src/auth`: authentication. Mach requests, worker frames, the pool of one-job workers, what an
  authenticated message may be used for, and what a worker process decides.
- `src/bootstrap`: the helper channel. Records and port transfers, the channel's two ends, the order
  of a spawn, the child's lifecycle, kernel identities, and the handshake with a traced launcher.
- `src/broker`: the broker process. Its start pipe, the staging of its plan, the installed launcher,
  the exact authority over it, and what the service is told of it.
- `src/bytes.rs`, `src/order.rs`, `src/mach.rs`, `src/wait_status.rs`, `src/digest.rs`: byte strings,
  their order, Mach headers and audit tokens, wait statuses, and SHA-256.
- `app`: system calls. Each loop there performs the action that the library names, and hands back
  what came of it.

## How it is stated

Every decision is a function of plain values: ports, processes and descriptors are numbers, and the
clocks are read by the caller. A protocol that alternates system calls and decisions is a machine
with an action and an event type; its spec function says which state follows from which event, and
an event that does not belong to the action changes nothing. Functions whose names start with `law_`
state what holds across calls: that frames read back and have one form only, that a deadline never
grows on its way, that nothing happens before a hello, that a record is minted only for the exact
answer to its own job, that the loss of the service comes before anything a launcher did.

The one trusted function is SHA-256, from the `sha2` crate. Its result is named, and nothing is
claimed of its value.
