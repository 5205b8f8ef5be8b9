# aes128

AES-128 block encryption and decryption, written in Verus.

- `src/gf.rs`: the field GF(2^8) (`xtime`, `gf_mul`, `gf_pow`) and its laws:
  commutativity, associativity, distributivity, Fermat's little theorem and inversion.
- `src/spec.rs`: the S-box and its inverse, byte rotation, round constants and the
  MixColumns matrices, with the proofs that the inverse S-box and InvMixColumns undo them.
- `src/cipher_spec.rs`: the cipher on 16-byte states, the key schedule, and the proofs that
  decryption undoes encryption and encryption undoes decryption for any round keys.
- `src/crypto.rs`: the executable cipher, each function proved against the model.
- `src/key_gen.rs`: a key generator that draws a random first key and expands it with a
  SubWord that substitutes only three bytes.
- `app/main.rs`: the demo program (printing and the fixed example key).
