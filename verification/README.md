# crypto

Threshold secret sharing, verified with Verus:

- Shamir secret sharing over a prime field (`shamir`, `shamir_law`);
- Pedersen verifiable secret sharing over the Ristretto255 group (`vss`, `vss_law`);
- Gennaro distributed key generation with Feldman commitments (`dkg`, `dkg_law`,
  `keygen`, `output`).

The library (`src/`) states each operation's result exactly and proves the
schemes' laws: enough shares reconstruct the secret, fewer say nothing of it,
honestly dealt shares pass verification, and key shares derived by the
participants are shares of the joint secret.

Supporting modules:

- `arith`, `nt`, `poly`: little-endian numbers, elementary number theory and
  polynomial interpolation modulo `m`;
- `primality`: Pocklington's criterion, and the certificate that the order
  of the Ristretto group is prime;
- `bignum`, `group`: big unsigned integers (`num-bigint`) and the Ristretto
  group (`curve25519-dalek`), each operation behind a wrapper whose contract
  is trusted;
- `convert`, `text`, `strmap`: conversions between numbers, scalars and group
  elements, reading and writing numbers and shares as text, and small maps
  keyed by strings.

`app/` holds the command line (`shamir`, `vss` and `dkg` subcommands) and
the JSON record files of the key generation.
