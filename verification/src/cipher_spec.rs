//! Mathematical model of the AES-128 cipher on 16-byte states, and its laws.
//!
//! A state holds its bytes column by column: byte `4 * c + r` is row `r` of column `c`.
use vstd::prelude::*;
use crate::spec::{
    lemma_rcon_matches_table, lemma_sbox_matches_table, rcon_table, sbox_table, inv_mix_column, inv_sbox, lemma_mix_column_inverse, lemma_sbox_inverse, mix_column, rcon, sbox,
};

verus! {

/// The word that the key schedule mixes into round key `round`: the last four bytes of the
/// previous round key rotated by one byte (RotWord), passed through the S-box (SubWord), with
/// the round constant added to the first byte.
pub open spec fn schedule_word(prev: Seq<u8>, round: nat) -> Seq<u8> {
    seq![sbox(prev[13]) ^ rcon(round), sbox(prev[14]), sbox(prev[15]), sbox(prev[12])]
}

/// Byte `j` of the round key that follows `prev`, given the scheduled word `t`: each four-byte
/// word is the word before it (or `t`, for the first) XOR the same word of `prev`.
pub open spec fn next_key_byte(prev: Seq<u8>, t: Seq<u8>, j: int) -> u8
    decreases j,
{
    if j < 4 {
        t[j] ^ prev[j]
    } else {
        next_key_byte(prev, t, j - 4) ^ prev[j]
    }
}

/// The round key that follows `prev`, given the scheduled word `t`.
pub open spec fn expand_round_key(prev: Seq<u8>, t: Seq<u8>) -> Seq<u8> {
    Seq::new(16, |j: int| next_key_byte(prev, t, j))
}

/// Round key `round >= 1` computed from round key `round - 1`.
pub open spec fn next_round_key(prev: Seq<u8>, round: nat) -> Seq<u8> {
    expand_round_key(prev, schedule_word(prev, round))
}

/// Round key `r` of the AES-128 key schedule for the cipher key `key`.
pub open spec fn round_key(key: Seq<u8>, r: nat) -> Seq<u8>
    decreases r,
{
    if r == 0 {
        key
    } else {
        next_round_key(round_key(key, (r - 1) as nat), r)
    }
}

/// The eleven round keys are exactly the AES-128 key schedule of `key`.
pub open spec fn is_key_schedule(keys: [[u8; 16]; 11], key: Seq<u8>) -> bool {
    forall|r: int| 0 <= r < 11 ==> #[trigger] keys@[r]@ == round_key(key, r as nat)
}

proof fn lemma_next_round_key_bytes(prev: Seq<u8>, r: nat)
    requires
        1 <= r <= 10,
    ensures
        forall|j: int| 0 <= j < 4 ==> #[trigger] next_round_key(prev, r)[j] ==
            (if j == 0 {
                sbox_table(prev[12 + (j + 1) % 4]) ^ rcon_table(r)
            } else {
                sbox_table(prev[12 + (j + 1) % 4])
            }) ^ prev[j],
        forall|j: int| 4 <= j < 16 ==> #[trigger] next_round_key(prev, r)[j] ==
            next_round_key(prev, r)[j - 4] ^ prev[j],
{
    let n = next_round_key(prev, r);
    lemma_rcon_matches_table(r);
    lemma_sbox_matches_table(prev[12]);
    lemma_sbox_matches_table(prev[13]);
    lemma_sbox_matches_table(prev[14]);
    lemma_sbox_matches_table(prev[15]);
    assert(n[0] == (sbox_table(prev[13]) ^ rcon_table(r)) ^ prev[0]);
    assert(n[1] == sbox_table(prev[14]) ^ prev[1]);
    assert(n[2] == sbox_table(prev[15]) ^ prev[2]);
    assert(n[3] == sbox_table(prev[12]) ^ prev[3]);
}

/// Every round key after the first is built from the one before it as AES-128 prescribes:
/// its first four bytes are the previous key's last four bytes rotated by one position and
/// passed through the S-box table, with the round constant on the first byte, XOR the
/// previous key's first four bytes; each later byte is the byte four places before it XOR
/// the previous key's byte at the same place. Round key 0 is the cipher key.
pub proof fn lemma_key_schedule_bytes(keys: [[u8; 16]; 11], key: Seq<u8>)
    requires
        is_key_schedule(keys, key),
    ensures
        keys@[0]@ == key,
        forall|r: int, j: int| 1 <= r < 11 && 0 <= j < 4 ==> #[trigger] keys@[r]@[j] ==
            (if j == 0 {
                sbox_table(keys@[r - 1]@[12 + (j + 1) % 4]) ^ rcon_table(r as nat)
            } else {
                sbox_table(keys@[r - 1]@[12 + (j + 1) % 4])
            }) ^ keys@[r - 1]@[j],
        forall|r: int, j: int| 1 <= r < 11 && 4 <= j < 16 ==> #[trigger] keys@[r]@[j] ==
            keys@[r]@[j - 4] ^ keys@[r - 1]@[j],
{
    assert(keys@[0]@ == round_key(key, 0));
    assert forall|r: int| 1 <= r < 11 implies #[trigger] keys@[r]@ == next_round_key(keys@[r - 1]@, r as nat) by {
        assert(keys@[r - 1]@ == round_key(key, (r - 1) as nat));
        assert(keys@[r]@ == round_key(key, r as nat));
        lemma_next_round_key_bytes(keys@[r - 1]@, r as nat);
    }
    assert forall|r: int, j: int| 1 <= r < 11 && 0 <= j < 4 implies #[trigger] keys@[r]@[j] ==
        (if j == 0 {
            sbox_table(keys@[r - 1]@[12 + (j + 1) % 4]) ^ rcon_table(r as nat)
        } else {
            sbox_table(keys@[r - 1]@[12 + (j + 1) % 4])
        }) ^ keys@[r - 1]@[j] by {
        assert(keys@[r]@ == next_round_key(keys@[r - 1]@, r as nat));
        lemma_next_round_key_bytes(keys@[r - 1]@, r as nat);
    }
    assert forall|r: int, j: int| 1 <= r < 11 && 4 <= j < 16 implies #[trigger] keys@[r]@[j] ==
        keys@[r]@[j - 4] ^ keys@[r - 1]@[j] by {
        assert(keys@[r]@ == next_round_key(keys@[r - 1]@, r as nat));
        lemma_next_round_key_bytes(keys@[r - 1]@, r as nat);
    }
}

/// SubBytes: the S-box on every byte.
pub open spec fn sub_bytes(s: Seq<u8>) -> Seq<u8> {
    Seq::new(16, |j: int| sbox(s[j]))
}

/// InvSubBytes: the inverse S-box on every byte.
pub open spec fn inv_sub_bytes(s: Seq<u8>) -> Seq<u8> {
    Seq::new(16, |j: int| inv_sbox(s[j]))
}

/// ShiftRows: row `r` is rotated left by `r` positions.
pub open spec fn shift_rows_state(s: Seq<u8>) -> Seq<u8> {
    Seq::new(16, |j: int| s[j % 4 + 4 * ((j / 4 + j % 4) % 4)])
}

/// InvShiftRows: row `r` is rotated left by `4 - r` positions.
pub open spec fn inv_shift_rows_state(s: Seq<u8>) -> Seq<u8> {
    Seq::new(16, |j: int| s[j % 4 + 4 * ((j / 4 + 4 - j % 4) % 4)])
}

/// Column `c` of the state.
pub open spec fn state_column(s: Seq<u8>, c: int) -> Seq<u8> {
    s.subrange(4 * c, 4 * c + 4)
}

/// MixColumns on every column of the state.
pub open spec fn mix_columns_state(s: Seq<u8>) -> Seq<u8> {
    Seq::new(16, |j: int| mix_column(state_column(s, j / 4))[j % 4])
}

/// InvMixColumns on every column of the state.
pub open spec fn inv_mix_columns_state(s: Seq<u8>) -> Seq<u8> {
    Seq::new(16, |j: int| inv_mix_column(state_column(s, j / 4))[j % 4])
}

/// AddRoundKey: the state XOR the round key.
pub open spec fn add_round_key(s: Seq<u8>, k: Seq<u8>) -> Seq<u8> {
    Seq::new(16, |j: int| s[j] ^ k[j])
}

/// The state after the initial key addition (`r == 0`) and after rounds `1..=r` of AES-128
/// encryption; the last round (`r == 10`) has no MixColumns.
pub open spec fn encrypt_rounds(p: Seq<u8>, keys: [[u8; 16]; 11], r: nat) -> Seq<u8>
    decreases r,
{
    if r == 0 {
        add_round_key(p, keys@[0]@)
    } else {
        let t = shift_rows_state(sub_bytes(encrypt_rounds(p, keys, (r - 1) as nat)));
        let u = if r == 10 { t } else { mix_columns_state(t) };
        add_round_key(u, keys@[r as int]@)
    }
}

/// AES-128 encryption of the block `p` under the round keys `keys`.
pub open spec fn aes_encrypt(p: Seq<u8>, keys: [[u8; 16]; 11]) -> Seq<u8> {
    encrypt_rounds(p, keys, 10)
}

/// Inverse rounds `i, i-1, ..., 0` applied to `d`: InvShiftRows, InvSubBytes, AddRoundKey
/// with round key `i`, then InvMixColumns except in round 0.
pub open spec fn decrypt_rounds(d: Seq<u8>, keys: [[u8; 16]; 11], i: nat) -> Seq<u8>
    decreases i,
{
    let t = add_round_key(inv_sub_bytes(inv_shift_rows_state(d)), keys@[i as int]@);
    if i == 0 {
        t
    } else {
        decrypt_rounds(inv_mix_columns_state(t), keys, (i - 1) as nat)
    }
}

/// AES-128 decryption of the block `c` under the round keys `keys`.
pub open spec fn aes_decrypt(c: Seq<u8>, keys: [[u8; 16]; 11]) -> Seq<u8> {
    decrypt_rounds(add_round_key(c, keys@[10]@), keys, 9)
}

proof fn lemma_xor_cancel()
    by (bit_vector)
    ensures
        forall|x: u8, k: u8| #[trigger] ((x ^ k) ^ k) == x,
{
}

/// An index into a state is one of the sixteen positions.
pub proof fn lemma_small_index(j: int)
    requires
        0 <= j < 16,
    ensures
        j == 0 || j == 1 || j == 2 || j == 3 || j == 4 || j == 5 || j == 6 || j == 7 || j == 8 || j == 9 || j == 10 || j == 11 || j == 12 || j == 13 || j == 14 || j == 15,
{
}

/// Adding the same round key twice gives back the state.
pub proof fn lemma_add_round_key_twice(s: Seq<u8>, k: Seq<u8>)
    requires
        s.len() == 16,
    ensures
        add_round_key(add_round_key(s, k), k) == s,
{
    lemma_xor_cancel();
    assert(add_round_key(add_round_key(s, k), k) =~= s);
}

/// InvSubBytes undoes SubBytes and the other way round.
pub proof fn lemma_sub_bytes_inverse(s: Seq<u8>)
    requires
        s.len() == 16,
    ensures
        inv_sub_bytes(sub_bytes(s)) == s,
        sub_bytes(inv_sub_bytes(s)) == s,
{
    assert forall|j: int| 0 <= j < 16 implies #[trigger] inv_sbox(sbox(s[j])) == s[j] && sbox(inv_sbox(s[j])) == s[j] by {
        lemma_sbox_inverse(s[j]);
    }
    assert(inv_sub_bytes(sub_bytes(s)) =~= s);
    assert(sub_bytes(inv_sub_bytes(s)) =~= s);
}

/// InvShiftRows undoes ShiftRows and the other way round.
#[verifier::rlimit(40)]
pub proof fn lemma_shift_rows_inverse(s: Seq<u8>)
    requires
        s.len() == 16,
    ensures
        inv_shift_rows_state(shift_rows_state(s)) == s,
        shift_rows_state(inv_shift_rows_state(s)) == s,
{
    assert forall|j: int| 0 <= j < 16 implies #[trigger] inv_shift_rows_state(shift_rows_state(s))[j] == s[j]
        && shift_rows_state(inv_shift_rows_state(s))[j] == s[j] by {
        lemma_small_index(j);
    }
    assert(inv_shift_rows_state(shift_rows_state(s)) =~= s);
    assert(shift_rows_state(inv_shift_rows_state(s)) =~= s);
}

/// InvMixColumns undoes MixColumns and the other way round.
#[verifier::spinoff_prover]
#[verifier::rlimit(30)]
pub proof fn lemma_mix_columns_inverse(s: Seq<u8>)
    requires
        s.len() == 16,
    ensures
        inv_mix_columns_state(mix_columns_state(s)) == s,
        mix_columns_state(inv_mix_columns_state(s)) == s,
{
    let m = mix_columns_state(s);
    let n = inv_mix_columns_state(s);
    assert forall|c: int| 0 <= c < 4 implies #[trigger] state_column(m, c) == mix_column(state_column(s, c))
        && state_column(n, c) == inv_mix_column(state_column(s, c)) by {
        assert(c == 0 || c == 1 || c == 2 || c == 3);
        assert(state_column(m, c) =~= mix_column(state_column(s, c)));
        assert(state_column(n, c) =~= inv_mix_column(state_column(s, c)));
        lemma_mix_column_inverse(state_column(s, c));
    }
    assert forall|j: int| 0 <= j < 16 implies #[trigger] inv_mix_columns_state(m)[j] == s[j]
        && mix_columns_state(n)[j] == s[j] by {
        let c = j / 4;
        lemma_small_index(j);
        lemma_mix_column_inverse(state_column(s, c));
        assert(state_column(s, c)[j % 4] == s[j]);
    }
    assert(inv_mix_columns_state(m) =~= s);
    assert(mix_columns_state(n) =~= s);
}

#[verifier::rlimit(40)]
proof fn lemma_decrypt_rounds(p: Seq<u8>, keys: [[u8; 16]; 11], i: nat)
    requires
        p.len() == 16,
        i <= 9,
    ensures
        decrypt_rounds(shift_rows_state(sub_bytes(encrypt_rounds(p, keys, i))), keys, i) == p,
    decreases i,
{
    let e = encrypt_rounds(p, keys, i);
    lemma_shift_rows_inverse(sub_bytes(e));
    lemma_sub_bytes_inverse(e);
    if i == 0 {
        lemma_add_round_key_twice(p, keys@[0]@);
    } else {
        let prev = encrypt_rounds(p, keys, (i - 1) as nat);
        let t = shift_rows_state(sub_bytes(prev));
        lemma_add_round_key_twice(mix_columns_state(t), keys@[i as int]@);
        lemma_mix_columns_inverse(t);
        lemma_decrypt_rounds(p, keys, (i - 1) as nat);
    }
}

/// Decryption undoes encryption: for every block and every set of round keys,
/// decrypting the ciphertext gives back the plaintext.
pub proof fn lemma_decrypt_encrypt(p: Seq<u8>, keys: [[u8; 16]; 11])
    requires
        p.len() == 16,
    ensures
        aes_decrypt(aes_encrypt(p, keys), keys) == p,
{
    let t = shift_rows_state(sub_bytes(encrypt_rounds(p, keys, 9)));
    lemma_add_round_key_twice(t, keys@[10]@);
    lemma_decrypt_rounds(p, keys, 9);
}

#[verifier::rlimit(40)]
proof fn lemma_encrypt_rounds_after_decrypt(d: Seq<u8>, keys: [[u8; 16]; 11], i: nat)
    requires
        d.len() == 16,
        i <= 9,
    ensures
        shift_rows_state(sub_bytes(encrypt_rounds(decrypt_rounds(d, keys, i), keys, i))) == d,
    decreases i,
{
    let v = inv_sub_bytes(inv_shift_rows_state(d));
    let t = add_round_key(v, keys@[i as int]@);
    lemma_shift_rows_inverse(d);
    lemma_sub_bytes_inverse(inv_shift_rows_state(d));
    lemma_add_round_key_twice(v, keys@[i as int]@);
    if i > 0 {
        let u = inv_mix_columns_state(t);
        lemma_encrypt_rounds_after_decrypt(u, keys, (i - 1) as nat);
        lemma_mix_columns_inverse(t);
    }
}

/// Encryption undoes decryption: AES-128 with fixed round keys is a permutation of blocks.
pub proof fn lemma_encrypt_decrypt(c: Seq<u8>, keys: [[u8; 16]; 11])
    requires
        c.len() == 16,
    ensures
        aes_encrypt(aes_decrypt(c, keys), keys) == c,
{
    let d = add_round_key(c, keys@[10]@);
    lemma_encrypt_rounds_after_decrypt(d, keys, 9);
    lemma_add_round_key_twice(c, keys@[10]@);
}

} // verus!
