# tunnels

The state machine and the peer-to-peer logic of the Tunnels protocol, as a
Verus library whose behaviour is stated in contracts and proved.

## Layout

- `src/` — the verified library.
  - `u256`, `assoc_map`, `vec_set`, `text`: 256-bit amounts, small maps and
    sets kept as vectors, and the rendering of numbers and bytes as text.
  - `core_types`, `protocol_state`, `state_error`: the protocol's data, the
    state it is kept in, and the errors a transaction can meet.
  - `accumulator`, `bond`, `waterfall`: pro-rata revenue accounting, bonds,
    and the deterministic revenue waterfall.
  - `conservation`: every deposit routed by the waterfall is a sequence of
    credits (claimable balances, reserves, unallocated revenue, labor pools)
    that add up to exactly the amount deposited.
  - `execute`: validation and execution of every transaction kind.
  - `properties`: laws that span several operations (revenue once credited
    stays credited, project parameters never change, attestations keep the
    work they record and never change once finalized or rejected, a claim
    exhausts what is claimable, shares never exceed their pro-rata part).
  - `p2p`: framing, the version handshake, peers and connection slots,
    headers-first sync and block downloads, gossip with duplicate filtering
    and orphan blocks, peer discovery and exchange, and the node's decisions
    on every event (`p2p::node`).
- `tests/` — tests of the library on concrete values.
- `app/` — what touches the outside world: the byte-buffer codec, the peer
  file, DNS seeds, clocks, the event loop that carries out the node's
  actions against the chain, the TCP transport (listener, outbound
  connections, per-peer readers, handshake, timers), and user-facing error
  types.
