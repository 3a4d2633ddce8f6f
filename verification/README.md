# nextgen2

Plumbing for talking to a peer process over Unix named pipes, with the
decisions proved correct.

- `src/` is the verified library:
  - `write.rs`: writing a whole buffer through a writer that accepts it in
    pieces (retry on interrupt, fail on a write of zero bytes);
  - `read.rs`: reading one newline-terminated line, spinning while the
    reader would block;
  - `open.rs`: when opening a pipe for writing is to be retried;
  - `token_heap.rs`: a max-priority queue of poll tokens;
  - `runloop.rs`: the event stream that queues the tokens of readable
    `mio` events and serves the greatest first; poll into
    `stream.events_mut()` before each `stream.next()`;
  - `mio_chan.rs`: a `crossbeam` channel whose receiver a `mio` poll can
    wait on: register `receiver.registration()` with the poll;
  - `rpc.rs`: the sender and receiver traits of a peer connection.
- `app/` holds the file-system and poll calls: the pipe endpoints
  (`ReadPipe`, `WritePipe`, `LazyWritePipe`), the loops that drive the
  library's decisions, and a JSON-lines sender.
- `tests/` runs the library on concrete values, with real `mio` polls.
