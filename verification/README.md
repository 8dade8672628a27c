# rust_cast

A client library for the Cast v2 protocol spoken by Chromecast devices, with
its core verified by Verus.

## Layout

- `src/` — the verified library:
  - `message.rs`: Cast messages (namespace, source, destination, text or binary payload).
  - `codec.rs`: the wire framing — a 4-byte big-endian length, then the
    protocol-buffers encoding of the message. Decoding a buffer that starts
    with the frame of a message gives that message back.
  - `payload/`: payload types of the connection, heartbeat, media and receiver
    namespaces, request ids and their generator, the wire names of the
    protocol's enums, the media-commands and get-status bitfields, track ids.
  - `task.rs`: the bookkeeping of the task that owns a connection — which RPC a
    message answers, timeouts, and how the connection closes (every pending RPC
    gets exactly one reply).
  - `mdns.rs`: the Cast devices an mDNS answer announces, and picking one.
  - `args.rs`: choosing the device to connect to from command-line style arguments.
  - `types.rs`: app and media sessions.
  - `text.rs`: integers written in decimal, and read back.
- `app/` — the async client around the library: TLS connection, tokio task and
  timers, JSON (de)serialisation, mDNS discovery, clap arguments.
- `tests/` — tests of the library.
