# gotatun

The core of a WireGuard tunnel in Verus: owned packets and their decoders, the timers of a tunnel,
and the noise state of one point-to-point connection. What the code does is stated in contracts and
proved; what holds of a tunnel as a whole is stated and proved in `src/noise/laws.rs`.

A tunnel decides and never acts. It takes the time that has passed, packets and messages, and says
what is to be done next: seal this packet with the session of that slot, write an initiation, open
this message. Whoever owns the tunnel does it and hands the outcome back. `app/` holds such an owner;
the cryptography of handshakes and sessions is behind its traits.

- `src/time.rs`: spans of time.
- `src/packet/`: packets in `bytes` buffers, kinds of packets, decoders, WireGuard messages.
- `src/noise/timers.rs`, `src/noise/random.rs`: when things are due.
- `src/noise/model.rs`: the tunnel in mathematical values, which the contracts speak of.
- `src/noise/tunn.rs`: the tunnel.
- `src/noise/laws.rs`: what can be relied on, whatever happens.
- `src/device.rs`: traffic between two devices.
- `tests/`: two tunnels that talk to each other, and everything on its own.
- `app/`: a tunnel with a clock, a log, a pool of buffers, and an estimate of packet loss.

Calls into other crates are believed rather than proved: the buffer of `bytes`
(`src/packet/buffer.rs`), random numbers of `rand` (`src/noise/random.rs`, `src/packet/buffer.rs`),
public keys of `x25519-dalek` (`src/noise/x25519.rs`), and the bounds of a range of `std`
(`src/noise/timers.rs`). Each says what it claims.
