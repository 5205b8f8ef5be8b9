//! A key generator that draws a random first key and expands it with a SubWord that only
//! substitutes the first three bytes of the scheduled word.
use vstd::prelude::*;
use crate::cipher_spec::{expand_round_key, next_key_byte};
use crate::crypto::{affine_transform, get_128b_key, rc, rot_word};
use crate::spec::{lemma_rcon_matches_table, lemma_sbox_matches_table, rcon, rcon_table, sbox, sbox_table};

verus! {

/// The scheduled word of this generator: RotWord, the S-box on the first three bytes only
/// (the last byte becomes 0), and the round constant on the first byte.
pub open spec fn partial_schedule_word(prev: Seq<u8>, round: nat) -> Seq<u8> {
    seq![sbox(prev[13]) ^ rcon(round), sbox(prev[14]), sbox(prev[15]), 0u8]
}

/// Round key `r` of this generator's schedule from the first key `key`.
pub open spec fn partial_round_key(key: Seq<u8>, r: nat) -> Seq<u8>
    decreases r,
{
    if r == 0 {
        key
    } else {
        let prev = partial_round_key(key, (r - 1) as nat);
        expand_round_key(prev, partial_schedule_word(prev, r))
    }
}

proof fn lemma_partial_next_key_bytes(prev: Seq<u8>, r: nat)
    requires
        1 <= r <= 10,
    ensures
        forall|j: int| 0 <= j < 3 ==> #[trigger] expand_round_key(prev, partial_schedule_word(prev, r))[j] ==
            (if j == 0 {
                sbox_table(prev[12 + (j + 1) % 4]) ^ rcon_table(r)
            } else {
                sbox_table(prev[12 + (j + 1) % 4])
            }) ^ prev[j],
        expand_round_key(prev, partial_schedule_word(prev, r))[3] == 0u8 ^ prev[3],
        forall|j: int| 4 <= j < 16 ==> #[trigger] expand_round_key(prev, partial_schedule_word(prev, r))[j] ==
            expand_round_key(prev, partial_schedule_word(prev, r))[j - 4] ^ prev[j],
{
    let n = expand_round_key(prev, partial_schedule_word(prev, r));
    lemma_rcon_matches_table(r);
    lemma_sbox_matches_table(prev[13]);
    lemma_sbox_matches_table(prev[14]);
    lemma_sbox_matches_table(prev[15]);
    assert(n[0] == (sbox_table(prev[13]) ^ rcon_table(r)) ^ prev[0]);
    assert(n[1] == sbox_table(prev[14]) ^ prev[1]);
    assert(n[2] == sbox_table(prev[15]) ^ prev[2]);
    assert(n[3] == 0u8 ^ prev[3]);
}

/// In this generator's schedule, every round key after the first is built from the one
/// before it: bytes 0 to 2 are the previous key's bytes 13, 14, 15 passed through the S-box
/// table (with the round constant on byte 0) XOR the previous key's bytes 0 to 2; byte 3 is
/// 0 XOR the previous key's byte 3; each later byte is the byte four places before it XOR the
/// previous key's byte at the same place.
pub proof fn lemma_partial_schedule_bytes(keys: [[u8; 16]; 11])
    requires
        forall|r: int| 0 <= r < 11 ==> #[trigger] keys@[r]@ == partial_round_key(keys@[0]@, r as nat),
    ensures
        forall|r: int, j: int| 1 <= r < 11 && 0 <= j < 3 ==> #[trigger] keys@[r]@[j] ==
            (if j == 0 {
                sbox_table(keys@[r - 1]@[12 + (j + 1) % 4]) ^ rcon_table(r as nat)
            } else {
                sbox_table(keys@[r - 1]@[12 + (j + 1) % 4])
            }) ^ keys@[r - 1]@[j],
        forall|r: int| 1 <= r < 11 ==> #[trigger] keys@[r]@[3] == 0u8 ^ keys@[r - 1]@[3],
        forall|r: int, j: int| 1 <= r < 11 && 4 <= j < 16 ==> #[trigger] keys@[r]@[j] ==
            keys@[r]@[j - 4] ^ keys@[r - 1]@[j],
{
    assert forall|r: int| 1 <= r < 11 implies #[trigger] keys@[r]@ == expand_round_key(keys@[r - 1]@,
        partial_schedule_word(keys@[r - 1]@, r as nat)) by {
        assert(keys@[r - 1]@ == partial_round_key(keys@[0]@, (r - 1) as nat));
        assert(keys@[r]@ == partial_round_key(keys@[0]@, r as nat));
    }
    assert forall|r: int, j: int| 1 <= r < 11 && 0 <= j < 3 implies #[trigger] keys@[r]@[j] ==
        (if j == 0 {
            sbox_table(keys@[r - 1]@[12 + (j + 1) % 4]) ^ rcon_table(r as nat)
        } else {
            sbox_table(keys@[r - 1]@[12 + (j + 1) % 4])
        }) ^ keys@[r - 1]@[j] by {
        assert(keys@[r]@ == expand_round_key(keys@[r - 1]@, partial_schedule_word(keys@[r - 1]@, r as nat)));
        lemma_partial_next_key_bytes(keys@[r - 1]@, r as nat);
    }
    assert forall|r: int| 1 <= r < 11 implies #[trigger] keys@[r]@[3] == 0u8 ^ keys@[r - 1]@[3] by {
        assert(keys@[r]@ == expand_round_key(keys@[r - 1]@, partial_schedule_word(keys@[r - 1]@, r as nat)));
        lemma_partial_next_key_bytes(keys@[r - 1]@, r as nat);
    }
    assert forall|r: int, j: int| 1 <= r < 11 && 4 <= j < 16 implies #[trigger] keys@[r]@[j] ==
        keys@[r]@[j - 4] ^ keys@[r - 1]@[j] by {
        assert(keys@[r]@ == expand_round_key(keys@[r - 1]@, partial_schedule_word(keys@[r - 1]@, r as nat)));
        lemma_partial_next_key_bytes(keys@[r - 1]@, r as nat);
    }
}

/// Applies the S-box to the first three bytes of a word; the last byte of the result is 0.
pub fn sub_word(a: [u8; 4]) -> (r: [u8; 4])
    ensures
        forall|i: int| 0 <= i < 3 ==> r@[i] == sbox(a@[i]),
        forall|i: int| 0 <= i < 3 ==> r@[i] == sbox_table(a@[i]),
        r@[3] == 0,
{
    let mut words: [u8; 4] = [0, 0, 0, 0];
    for i in 0..3
        invariant
            forall|j: int| 0 <= j < i ==> words@[j] == sbox(a@[j]),
            forall|j: int| 0 <= j < i ==> words@[j] == sbox_table(a@[j]),
            words@[3] == 0,
    {
        words[i] = affine_transform(a[i]);
    }
    return words;
}

/// Draws a random first key and expands it into eleven round keys with this generator's
/// schedule.
#[verifier::spinoff_prover]
#[verifier::rlimit(60)]
pub fn make_keys() -> (keys: [[u8; 16]; 11])
    ensures
        forall|r: int| 0 <= r < 11 ==> #[trigger] keys@[r]@ == partial_round_key(keys@[0]@, r as nat),
        forall|r: int, j: int| 1 <= r < 11 && 0 <= j < 3 ==> #[trigger] keys@[r]@[j] ==
            (if j == 0 {
                sbox_table(keys@[r - 1]@[12 + (j + 1) % 4]) ^ rcon_table(r as nat)
            } else {
                sbox_table(keys@[r - 1]@[12 + (j + 1) % 4])
            }) ^ keys@[r - 1]@[j],
        forall|r: int| 1 <= r < 11 ==> #[trigger] keys@[r]@[3] == 0u8 ^ keys@[r - 1]@[3],
        forall|r: int, j: int| 1 <= r < 11 && 4 <= j < 16 ==> #[trigger] keys@[r]@[j] ==
            keys@[r]@[j - 4] ^ keys@[r - 1]@[j],
{
    let mut keys = [[0u8; 16]; 11];
    let first_key = get_128b_key();
    keys[0] = first_key;

    for i in 1..11
        invariant
            keys@[0] == first_key,
            forall|r: int| 0 <= r < i ==> #[trigger] keys@[r]@ == partial_round_key(first_key@, r as nat),
    {
        let ghost round = i as nat;
        let key = keys[i - 1];
        assert(key@ == partial_round_key(first_key@, (round - 1) as nat));
        let mut last_word: [u8; 4] = [0u8; 4];
        for i in 12..16
            invariant
                forall|k: int| 12 <= k < i ==> last_word@[k - 12] == key@[k],
        {
            last_word[i - 12] = key[i];
        }
        assert(last_word@ =~= key@.subrange(12, 16));
        last_word = rot_word(&last_word);
        assert(last_word@ == seq![key@[13], key@[14], key@[15], key@[12]]);
        last_word = sub_word(last_word);
        let rc_i = rc(i as u8);
        last_word[0] = last_word[0] ^ rc_i;
        assert(last_word@ =~= partial_schedule_word(key@, round));

        let mut next_key: [u8; 16] = [0u8; 16];
        for i in 0..4
            invariant
                forall|k: int| 0 <= k < i ==> next_key@[k] == next_key_byte(key@, last_word@, k),
        {
            next_key[i] = last_word[i] ^ key[i];
        }
        for i in 4..16
            invariant
                forall|k: int| 0 <= k < i ==> next_key@[k] == next_key_byte(key@, last_word@, k),
        {
            next_key[i] = next_key[i - 4] ^ key[i];
        }
        assert(next_key@ =~= expand_round_key(key@, partial_schedule_word(key@, round)));
        keys[i] = next_key;
        assert(keys@[i as int]@ == partial_round_key(first_key@, round));
    }
    proof {
        lemma_partial_schedule_bytes(keys);
    }
    return keys;
}

} // verus!
