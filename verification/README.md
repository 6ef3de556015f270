# lib

The verified core of a small kernel's user interface, written in Verus.

- `src/ring.rs`: the request and response rings a process shares with the
  kernel, and the queue that lays them out in a shared region. Each ring is
  modelled by its two free-running 32-bit indices and its entries, oldest
  first; enqueue and dequeue are proved to push and pop that sequence, with
  the indices wrapping around at 2^32 and a slot mask of a power of two. The
  addresses of the rings and their slots inside the region are proved to stay
  in bounds and apart. Waiting on the kernel is a verified step function.
- `src/request.rs`: the request encodings, responses, jobs and object info.
- `src/seek.rs`: the raw (tag, offset) encoding of seeks, proved to round-trip.
- `src/text.rs`: the VGA text-mode cursor and number formatting; printing
  yields the buffer cells to set, proved to stay inside the buffer.
- `src/endian.rs`: integers stored big- or little-endian, with their
  conversions and bitwise operators.
- `app/`: the unverified side: volatile writes to the VGA buffer, the C layout
  of the rings, and the loops that wait on the kernel.
