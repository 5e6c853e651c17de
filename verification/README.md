# aes

Fully fixsliced AES-128, AES-192 and AES-256 over 128-bit bit-planes,
verified with Verus. Eight blocks are encrypted or decrypted at a time: each
block contributes one bit to every byte cell of eight planes, so SubBytes is
a Boolean circuit on the planes and ShiftRows and MixColumns are byte
permutations and XORs. Encryption leaves out ShiftRows; the rows drift by
one position per round, MixColumns follows them, and the key schedules store
the round keys pre-shifted to match.

## Layout

- `src/lane.rs`: a 128-bit plane and its byte rotations and shifts.
- `src/gf.rs`, `src/standard.rs`: GF(2^8), the S-box, and AES as FIPS-197
  defines it on 16-byte blocks (rounds, cipher, key expansion).
- `src/sbox.rs`, `src/shift_rows.rs`, `src/mixing.rs`: the bitsliced
  SubBytes circuits, ShiftRows and MixColumns, with their inverse laws.
- `src/bitslice.rs`, `src/layout.rs`: packing blocks into planes and back,
  and what each cell of a plane means as a byte of a block.
- `src/keys.rs`: the fixsliced key schedules.
- `src/block_cipher.rs`: encryption and decryption of eight blocks.
- `src/hazmat.rs`: single AES rounds and MixColumns on one block or eight.
- `src/equivalence.rs`, `src/expansion.rs`, `src/expansion192.rs`: the
  proofs that the fixsliced cipher computes the FIPS-197 cipher, and that
  the three key schedules compute the FIPS-197 key expansion.
- `app/lib.rs`: the same functions over the `cipher` crate's array types.
