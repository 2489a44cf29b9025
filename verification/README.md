# btmesh

A Bluetooth mesh node stack whose logic is written in Verus and proved
against its specifications.

- `src/models`: the foundation configuration models (AppKey, Model App,
  Model Publication, Model Subscription, Beacon, Composition Data, Default
  TTL, Relay, Network Transmit, Node Reset) and the generic models (OnOff,
  Level, Battery): opcodes, parameter parsing and encoding, each with its
  exact contract; where a message's encoding reads back as it was written,
  a round-trip law says so.
- `src/driver`: the node itself.
  - `provisionee`, `provisioner`, `provisioning_pdu`: both sides of
    provisioning — the device's and the provisioner's state machines, their
    confirmations, and the encryption and decryption of the provisioning
    data.
  - `advertising`: the provisioning link over the advertising bearer.
  - `stack`, `upper`, `lower`, `inbound`, `outbound`, `transmit_queue`:
    the transport layers — access message encryption, label UUIDs, segment
    parsing, segmentation and reassembly, acknowledgement, retransmission
    and relaying — and the node's state with its beacon and retransmission
    deadlines (`deadline`).
  - `replay`, `lru`: replay protection and the relay cache, on `uluru`'s
    LRU caches.
  - `secrets`, `tables`, `storage`: keys, subscriptions, publications,
    bindings, and when to persist the configuration.
- `src/crypto.rs`: the calls into `aes`/`cmac`, `ccm`, `p256` and
  `rand_core`, each with the contract the library relies on.
- `app/`: the bearer, the random draws of provisioning and the persisted
  configuration — the parts that talk to the world.
- `tests/`: tests of the library, including a full provisioning of a device
  by the provisioner, and one against an independent computation of the
  provisioner's side.
