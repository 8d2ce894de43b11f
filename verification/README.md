# monarch_ofi

A libfabric (OFI) transport for RDMA buffers. It lets actors move data over
AWS EFA network cards, also between two actors on the same machine.

## How it works

Each process has one manager. It owns a libfabric domain, an endpoint and a
completion queue. To run a transfer it registers the local memory, resolves the
address of the remote manager, moves the data and waits for the completion.
Where the provider has remote memory access, `fi_write` and `fi_read` move the
data; elsewhere `fi_send` and `fi_recv` do.

The library in `src/` makes every decision and performs nothing itself. Its
state machines name one effect at a time (`effect`), and are handed the answer
(`resume`). `app/` performs the effects with libfabric, a background thread and
the actor runtime of the process.

| Module | What it holds |
|--------|---------------|
| `effect` | the calls a machine asks for, their answers, and the account of resources |
| `machine` | what all machines have in common, and the laws of every run |
| `probe`, `primitives` | availability probes, configuration, endpoint addresses |
| `domain`, `endpoint` | setting up domains and endpoints, the data calls |
| `registration`, `peers` | registering local memory, resolving peers |
| `completion`, `progress` | posting, polling, the background thread |
| `manager_actor`, `task`, `teardown` | the manager, its requests and its end |
| `backend` | submissions of clients |
| `error`, `text` | errors and their messages |
| `laws`, `memory` | laws of the transport as a whole, and of what transfers do to memory |

## Decisions

**Try again.** A provider may answer the first transfers to a new peer with
`EAGAIN`. They are tried again until the deadline, with a look at the
completion queue in between.

**Loopback.** A manager handles one message at a time. Where the peer is the
manager itself, the address comes from its own endpoint: a message to itself
would never be answered.

**Completions.** An entry of the queue can be read once, so the background
thread is paused while a transfer waits for one. A read by messages has it
paused from before its receive is posted; while the peer is at work it reads the
queue itself, which keeps libfabric moving.

**Device memory.** The domain asks for device memory support and falls back to
host memory only. With it, every registration goes through `fi_mr_regattr`.

**No `FI_LOCAL_MR`.** The deprecated mode flag is never set.

`extras/wrapper.c` gives linkage to the libfabric functions that are inline in
its headers.
