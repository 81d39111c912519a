# pqxdh_protocol

A verified library for a fully post-quantum PQXDH handshake: ML-DSA-87
identity keys sign Bob's prekeys and Alice's handshake transcript, and the
shared secret comes from KEM encapsulations (ML-KEM-1024 or HQC-256) to
Bob's signed and optional one-time KEM prekeys. X25519 keys only start the Double Ratchet.

The library in `src/` is written in Verus. Every function carries a contract
over mathematical models (byte sequences, the views of keys, bundles and
session records), and Verus proves the code against it. The cryptographic
primitives come from `libcrux-ml-dsa`, `libcrux-ml-kem`, `hqc-kem`, `x25519-dalek`, `hkdf`,
`sha2`, `subtle` and `hex`; each call goes through a small function whose
contract states what the crate promises, and results that take pages to
define (a signature, a ciphertext) are given names.

- `dsa`, `identity_key`, `proto`: ML-DSA-87 keys, identities and the
  protobuf encoding of an identity key pair.
- `kem`, `curve`: ML-KEM-1024 and HQC-256 KEM keys, and X25519 keys.
- `ratchet`: the handshake itself: transcript, key derivation, Alice's and
  Bob's halves, and the laws that tie them together.
- `state`: prekey bundles and session records.
- `session`: processing a prekey bundle (Alice) and a PreKey message (Bob),
  with the stores' reads handed in as values.

Randomness is an argument everywhere: the caller draws it. `app/` holds the
code around the library that draws it from a CSPRNG, reads the clock and
drives asynchronous identity, prekey and session stores.
