# ruxfuse

The FUSE client of a small kernel: the wire format of FUSE messages, the
requests that a file system node sends to the daemon and what it makes of
the replies, the `/dev/fuse` channel between node and daemon, the
connection bookkeeping, and the block arithmetic of the devices beside it.

- `src/` is the library, proved with Verus. Each node operation is a pair:
  a function that builds the request bytes from the node's state, and one
  that takes the daemon's reply and gives the operation's outcome.
  - `le`: little-endian encoding and its round-trip lemmas.
  - `fuse_st`, `fuse_dev`: the message structures, their encodings and
    decodings.
  - `node`: the node operations, path splitting, error mapping.
  - `devfuse`: the flag-and-buffer channel between node and daemon.
  - `conn`: request taking, numbering and queueing, background requests,
    asynchronous I/O completion, opening files.
  - `fusedev`, `sda`, `vda`: the memory-backed device, the exFAT device and
    the cutting of block transfers into pieces.
  - `prctl`: the decisions of the `arch_prctl` and `prctl` calls.
- `app/` holds what the library leaves to its caller: the virtual file
  system traits, locks and statics, waiting on the channel, logging, block
  I/O and the system calls' pointers.
- `tests/` runs the library on concrete values.
