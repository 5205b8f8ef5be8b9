//! The AES-128 cipher: key schedule, round functions, encryption and decryption.
use vstd::prelude::*;
use vstd::string::StringSliceAdditionalSpecFns;
use crate::cipher_spec::{
    add_round_key, aes_decrypt, aes_encrypt, decrypt_rounds, encrypt_rounds, inv_mix_columns_state,
    inv_shift_rows_state, inv_sub_bytes, is_key_schedule, lemma_key_schedule_bytes, lemma_small_index, mix_columns_state,
    next_key_byte, next_round_key, round_key, schedule_word, shift_rows_state, state_column,
    sub_bytes,
};
use crate::gf::{gf_mul, gf_pow, lemma_gf_inverse, lemma_gf_mul_zero_one, xtime};
use crate::spec::{
    gf_mul_prefix, inv_affine, inv_mix_column, lemma_inv_sbox_matches_table, lemma_rcon_matches_table,
    lemma_sbox_is_affine_of_inverse, lemma_sbox_matches_table, rcon_table, sbox_table, inv_mix_m, inv_mix_matrix, inv_sbox, lemma_byte_bits,
    lemma_gf_mul_prefix_full, lemma_mix_column_bytes, lemma_xor4_reassoc, matrix_row_times, mix_column, mix_m, mix_matrix,
    rcon, rotate_word, rotl, sbox, xtime_pow,
};

verus! {

/// Rotates the first four bytes of `word` one position to the left.
pub fn rot_word(word: &[u8]) -> (r: [u8; 4])
    requires
        word@.len() >= 4,
    ensures
        r@ == seq![word@[1], word@[2], word@[3], word@[0]],
{
    let mut rot_word: [u8; 4] = [0, 0, 0, 0];
    let mut i: usize = 0;
    while i != 4
        invariant
            i <= 4,
            word@.len() >= 4,
            forall|j: int| 0 <= j < i ==> rot_word@[j] == word@[(j + 1) % 4],
        decreases 4 - i,
    {
        rot_word[i] = word[(i + 1) % 4];
        i += 1;
    }
    assert(rot_word@ == seq![word@[1], word@[2], word@[3], word@[0]]);
    rot_word
}

/// Multiplies `a` and `b` in GF(2^8).
#[allow(non_snake_case)]
pub fn multiply_GF(a: u8, b: u8) -> (p: u8)
    ensures
        p == gf_mul(a, b),
{
    let ghost a0 = a;
    let ghost b0 = b;
    let mut a = a;
    let mut b = b;
    let mut p: u8 = 0x00;
    proof {
        lemma_byte_bits();
        assert(b0 >> 0u8 == b0);
    }
    for i in 0..8
        invariant
            a == xtime_pow(a0, i as nat),
            b == b0 >> (i as u8),
            p == gf_mul_prefix(a0, b0, i as nat),
    {
        if 0x01 & b != 0 {
            p = p ^ a;
        }
        proof {
            lemma_byte_bits();
            assert((b0 >> (i as u8)) >> 1u8 == b0 >> ((i as u8 + 1) as u8));
            assert((0x80u8 & a) == (a & 0x80u8));
        }
        b = b >> 0x01;
        let carry = 0x80 & a;
        a = a << 1;
        if carry != 0 {
            a = a ^ 0x1b;
        }
    }
    proof {
        lemma_gf_mul_prefix_full(a0, b0);
    }
    p
}

/// Fills `dest` with bytes from the thread-local random number generator of `rand`
/// (`rand::thread_rng` and `Rng::try_fill`). Nothing is promised of the bytes: they are random.
/// For this generator `try_fill` always returns `Ok` (its `try_fill_bytes` forwards to
/// `fill_bytes`), so the `expect` never fires.
#[verifier::external_body]
fn fill_from_thread_rng(dest: &mut [u8; 16]) {
    rand::Rng::try_fill(&mut rand::thread_rng(), &mut dest[..]).expect("Ooops!");
}

/// A fresh random 128-bit key.
pub fn get_128b_key() -> [u8; 16] {
    let mut arr = [0u8; 16];
    fill_from_thread_rng(&mut arr);
    return arr;
}

/// Expands `encryption_key` into the eleven AES-128 round keys. `plaintext` must be a
/// 16-byte string; it takes no part in the result.
#[verifier::spinoff_prover]
#[verifier::rlimit(60)]
pub fn make_keys(encryption_key: [u8; 16], plaintext: &str) -> (keys: [[u8; 16]; 11])
    requires
        plaintext.spec_bytes().len() == 16,
    ensures
        is_key_schedule(keys, encryption_key@),
        keys@[0]@ == encryption_key@,
        forall|r: int, j: int| 1 <= r < 11 && 0 <= j < 4 ==> #[trigger] keys@[r]@[j] ==
            (if j == 0 {
                sbox_table(keys@[r - 1]@[12 + (j + 1) % 4]) ^ rcon_table(r as nat)
            } else {
                sbox_table(keys@[r - 1]@[12 + (j + 1) % 4])
            }) ^ keys@[r - 1]@[j],
        forall|r: int, j: int| 1 <= r < 11 && 4 <= j < 16 ==> #[trigger] keys@[r]@[j] ==
            keys@[r]@[j - 4] ^ keys@[r - 1]@[j],
{
    let mut first_key = [0u8; 16];
    let plaintext_b = plaintext.as_bytes();
    for i in 0..16
        invariant
            plaintext_b@.len() == 16,
    {
        first_key[i] = encryption_key[i] ^ plaintext_b[i];
    }
    first_key = encryption_key;

    let mut keys = [[0u8; 16]; 11];
    keys[0] = first_key;

    for i in 1..11
        invariant
            forall|r: int| 0 <= r < i ==> #[trigger] keys@[r]@ == round_key(encryption_key@, r as nat),
    {
        let ghost round = i as nat;
        let key = keys[i - 1];
        assert(key@ == round_key(encryption_key@, (round - 1) as nat));
        let mut last_word: [u8; 4] = [0u8; 4];
        for i in 12..16
            invariant
                forall|k: int| 12 <= k < i ==> last_word@[k - 12] == key@[k],
        {
            last_word[i - 12] = key[i];
        }
        assert(last_word@ =~= key@.subrange(12, 16));
        last_word = rot_word(&last_word);
        assert(last_word@ == seq![key@[13], key@[14], key@[15], key@[12]]);
        last_word = sub_word(last_word);
        let rc_i = rc(i as u8);
        last_word[0] = last_word[0] ^ rc_i;
        assert(last_word@ =~= schedule_word(key@, round));

        let mut next_key: [u8; 16] = [0u8; 16];
        for i in 0..4
            invariant
                last_word@ == schedule_word(key@, round),
                forall|k: int| 0 <= k < i ==> next_key@[k] == next_key_byte(key@, last_word@, k),
        {
            next_key[i] = last_word[i] ^ key[i];
        }
        for i in 4..16
            invariant
                forall|k: int| 0 <= k < i ==> next_key@[k] == next_key_byte(key@, last_word@, k),
        {
            next_key[i] = next_key[i - 4] ^ key[i];
        }
        assert(next_key@ =~= next_round_key(key@, round));
        keys[i] = next_key;
        assert(keys@[i as int]@ == round_key(encryption_key@, round));
    }
    proof {
        lemma_key_schedule_bytes(keys, encryption_key@);
    }
    return keys;
}

/// Rotates the bits of `b` left by `shift` positions.
pub fn left_circular_shift(b: u8, shift: i32) -> (r: u8)
    requires
        1 <= shift <= 7,
    ensures
        r == rotl(b, shift as u8),
{
    return (b << shift) | (b >> (8 - shift));
}

/// Applies the S-box to each of the four bytes of a word.
pub fn sub_word(a: [u8; 4]) -> (r: [u8; 4])
    ensures
        forall|i: int| 0 <= i < 4 ==> r@[i] == sbox(a@[i]),
        forall|i: int| 0 <= i < 4 ==> r@[i] == sbox_table(a@[i]),
{
    let mut words: [u8; 4] = [0, 0, 0, 0];
    for i in 0..4
        invariant
            forall|j: int| 0 <= j < i ==> words@[j] == sbox(a@[j]),
            forall|j: int| 0 <= j < i ==> words@[j] == sbox_table(a@[j]),
    {
        words[i] = affine_transform(a[i]);
    }
    return words;
}

/// The AES S-box.
pub fn affine_transform(c: u8) -> (r: u8)
    ensures
        r == sbox(c),
        r == sbox_table(c),
        c != 0 ==> gf_mul(c, inv_affine(r)) == 1,
        c == 0 ==> r == 0x63,
{
    proof {
        lemma_sbox_matches_table(c);
        lemma_sbox_is_affine_of_inverse(c);
    }
    let mut x = find_inverse(c);
    let s = x;
    x = x ^ left_circular_shift(s, 1);
    x = x ^ left_circular_shift(s, 2);
    x = x ^ left_circular_shift(s, 3);
    x = x ^ left_circular_shift(s, 4);
    x = x ^ 0x63;
    return x;
}

/// The inverse AES S-box.
pub fn inverse_affine_transform(c: u8) -> (r: u8)
    ensures
        r == inv_sbox(c),
        sbox_table(r) == c,
{
    proof {
        lemma_inv_sbox_matches_table(c);
    }
    let mut x = c;
    let s = x;
    x = left_circular_shift(s, 1);
    x = x ^ left_circular_shift(s, 3);
    x = x ^ left_circular_shift(s, 6);
    x = x ^ 0x05;
    x = find_inverse(x);
    return x;
}

/// Raises `arr` to the power 254 in GF(2^8): its multiplicative inverse when it is nonzero.
pub fn find_inverse(arr: u8) -> (result: u8)
    ensures
        result == gf_pow(arr, 254),
        arr != 0 ==> gf_mul(arr, result) == 1,
        arr == 0 ==> result == 0,
{
    let mut result = arr;
    proof {
        lemma_gf_mul_zero_one(arr);
        assert(gf_pow(arr, 0) == 1u8);
    }
    for i in 1..254
        invariant
            result == gf_pow(arr, i as nat),
    {
        result = multiply_GF(result, arr);
    }
    proof {
        lemma_gf_inverse(arr);
    }
    return result;
}

/// The round constant of round `i`.
pub fn rc(i: u8) -> (r: u8)
    requires
        i >= 1,
    ensures
        r == rcon(i as nat),
        i <= 10 ==> r == rcon_table(i as nat),
    decreases i,
{
    proof {
        if i <= 10 {
            lemma_rcon_matches_table(i as nat);
        }
    }
    if i == 0x01 {
        return i;
    }
    let rc_p = rc(i - 1);
    proof {
        lemma_byte_bits();
        assert(rcon(i as nat) == xtime(rcon((i - 1) as nat)));
    }
    if rc_p < 0x80 {
        return rc_p * 2;
    } else if rc_p >= 0x80 {
        let c: u16 = rc_p as u16;
        return (c * 2 ^ 0x11B) as u8;
    }
    return 0x00;
}

/// Rotates the four bytes of `word` left by `shift` positions.
pub fn shift_rows(word: [u8; 4], shift: usize) -> (r: [u8; 4])
    requires
        shift <= usize::MAX - 3,
    ensures
        r@ == rotate_word(word@, shift as int),
{
    let mut word_copy = word.clone();
    for i in 0..4
        invariant
            shift <= usize::MAX - 3,
            forall|j: int| 0 <= j < i ==> word_copy@[j] == word@[(j + shift) % 4],
    {
        word_copy[i] = word[(i + shift) % 4];
    }
    assert(word_copy@ =~= rotate_word(word@, shift as int));
    return word_copy;
}

/// MixColumns on one column.
pub fn mix_columns(word: [u8; 4]) -> (r: [u8; 4])
    ensures
        r@ == mix_column(word@),
        forall|i: int| 0 <= i < 4 ==> #[trigger] r@[i] == xtime(word@[i]) ^ (xtime(word@[(i + 1) % 4])
            ^ word@[(i + 1) % 4]) ^ word@[(i + 2) % 4] ^ word@[(i + 3) % 4],
{
    proof {
        lemma_mix_column_bytes(word@);
    }
    #[allow(non_snake_case)]
    let MDS: [[u8; 4]; 4] = [[2, 3, 1, 1], [1, 2, 3, 1], [1, 1, 2, 3], [3, 1, 1, 2]];
    let mut new_word: [u8; 4] = [0, 0, 0, 0];
    for i in 0..4
        invariant
            MDS@ == seq![[2u8, 3, 1, 1], [1u8, 2, 3, 1], [1u8, 1, 2, 3], [3u8, 1, 1, 2]],
            forall|j: int| 0 <= j < i ==> new_word@[j] == mix_column(word@)[j],
    {
        #[allow(non_snake_case)]
        let MDS_row = MDS[i];
        proof {
            assert(forall|c: int| 0 <= c < 4 ==> MDS_row@[c] == mix_matrix(i as int, c));
        }
        let mut result: u8 = multiply_GF(MDS_row[0], word[0]);
        for c in 1..4
            invariant
                forall|k: int| 0 <= k < 4 ==> MDS_row@[k] == mix_matrix(i as int, k),
                c == 2 ==> result == gf_mul(mix_matrix(i as int, 1), word@[1]) ^ gf_mul(mix_matrix(i as int, 0), word@[0]),
                c == 3 ==> result == gf_mul(mix_matrix(i as int, 2), word@[2]) ^ (gf_mul(mix_matrix(i as int, 1), word@[1]) ^ gf_mul(mix_matrix(i as int, 0), word@[0])),
                c == 4 ==> result == gf_mul(mix_matrix(i as int, 3), word@[3]) ^ (gf_mul(mix_matrix(i as int, 2), word@[2]) ^ (gf_mul(mix_matrix(i as int, 1), word@[1]) ^ gf_mul(mix_matrix(i as int, 0), word@[0]))),
                c == 1 ==> result == gf_mul(mix_matrix(i as int, 0), word@[0]),
        {
            let multiple = multiply_GF(MDS_row[c], word[c]);
            result = multiple ^ result;
        }
        proof {
            let ii = i as int;
            lemma_xor4_reassoc(gf_mul(mix_matrix(ii, 0), word@[0]), gf_mul(mix_matrix(ii, 1), word@[1]),
                gf_mul(mix_matrix(ii, 2), word@[2]), gf_mul(mix_matrix(ii, 3), word@[3]));
            assert(result == matrix_row_times(mix_m(), ii, word@));
        }
        new_word[i] = result;
    }
    assert(new_word@ == mix_column(word@));
    return new_word;
}

/// InvMixColumns on one column.
pub fn inverse_mix_columns(word: [u8; 4]) -> (r: [u8; 4])
    ensures
        r@ == inv_mix_column(word@),
{
    #[allow(non_snake_case)]
    let MDS: [[u8; 4]; 4] = [[14, 11, 13, 9], [9, 14, 11, 13], [13, 9, 14, 11], [11, 13, 9, 14]];
    let mut new_word: [u8; 4] = [0, 0, 0, 0];
    for i in 0..4
        invariant
            MDS@ == seq![[14u8, 11, 13, 9], [9u8, 14, 11, 13], [13u8, 9, 14, 11], [11u8, 13, 9, 14]],
            forall|j: int| 0 <= j < i ==> new_word@[j] == inv_mix_column(word@)[j],
    {
        #[allow(non_snake_case)]
        let MDS_row = MDS[i];
        proof {
            assert(forall|c: int| 0 <= c < 4 ==> MDS_row@[c] == inv_mix_matrix(i as int, c));
        }
        let mut result: u8 = multiply_GF(MDS_row[0], word[0]);
        for c in 1..4
            invariant
                forall|k: int| 0 <= k < 4 ==> MDS_row@[k] == inv_mix_matrix(i as int, k),
                c == 2 ==> result == gf_mul(inv_mix_matrix(i as int, 1), word@[1]) ^ gf_mul(inv_mix_matrix(i as int, 0), word@[0]),
                c == 3 ==> result == gf_mul(inv_mix_matrix(i as int, 2), word@[2]) ^ (gf_mul(inv_mix_matrix(i as int, 1), word@[1]) ^ gf_mul(inv_mix_matrix(i as int, 0), word@[0])),
                c == 4 ==> result == gf_mul(inv_mix_matrix(i as int, 3), word@[3]) ^ (gf_mul(inv_mix_matrix(i as int, 2), word@[2]) ^ (gf_mul(inv_mix_matrix(i as int, 1), word@[1]) ^ gf_mul(inv_mix_matrix(i as int, 0), word@[0]))),
                c == 1 ==> result == gf_mul(inv_mix_matrix(i as int, 0), word@[0]),
        {
            let multiple = multiply_GF(MDS_row[c], word[c]);
            result = multiple ^ result;
        }
        proof {
            let ii = i as int;
            lemma_xor4_reassoc(gf_mul(inv_mix_matrix(ii, 0), word@[0]), gf_mul(inv_mix_matrix(ii, 1), word@[1]),
                gf_mul(inv_mix_matrix(ii, 2), word@[2]), gf_mul(inv_mix_matrix(ii, 3), word@[3]));
            assert(result == matrix_row_times(inv_mix_m(), ii, word@));
        }
        new_word[i] = result;
    }
    assert(new_word@ == inv_mix_column(word@));
    return new_word;
}

/// Encrypts one 16-byte block with AES-128 under the eleven round keys `keys`.
pub fn encrypt_data(plaintext: [u8; 16], keys: [[u8; 16]; 11]) -> (ciphertext: [u8; 16])
    ensures
        ciphertext@ == aes_encrypt(plaintext@, keys),
{
    let mut ciphertext: [u8; 16] = plaintext.clone();
    let encryption_key = keys[0];

    // The initial key addition.
    for i in 0..16
        invariant
            encryption_key == keys@[0],
            forall|j: int| 0 <= j < i ==> ciphertext@[j] == plaintext@[j] ^ encryption_key@[j],
            forall|j: int| i <= j < 16 ==> ciphertext@[j] == plaintext@[j],
    {
        ciphertext[i] = ciphertext[i] ^ encryption_key[i];
    }
    assert(ciphertext@ =~= encrypt_rounds(plaintext@, keys, 0));

    for i in 1..11
        invariant
            ciphertext@ == encrypt_rounds(plaintext@, keys, (i - 1) as nat),
    {
        let ghost s0 = ciphertext@;
        // SubBytes.
        for c in 0..16
            invariant
                s0.len() == 16,
                forall|j: int| 0 <= j < c ==> ciphertext@[j] == sbox(s0[j]),
                forall|j: int| c <= j < 16 ==> ciphertext@[j] == s0[j],
        {
            ciphertext[c] = affine_transform(ciphertext[c]);
        }
        assert(ciphertext@ =~= sub_bytes(s0));
        let ghost s1 = ciphertext@;

        // ShiftRows: row `c` holds the bytes `c, c + 4, c + 8, c + 12`.
        for c in 0..4
            invariant
                s1.len() == 16,
                forall|j: int| 0 <= j < 16 && j % 4 < c ==> ciphertext@[j] == shift_rows_state(s1)[j],
                forall|j: int| 0 <= j < 16 && j % 4 >= c ==> ciphertext@[j] == s1[j],
        {
            let mut word: [u8; 4] = [0, 0, 0, 0];
            for y in 0..4
                invariant
                    0 <= c < 4,
                    s1.len() == 16,
                    forall|j: int| 0 <= j < 16 && j % 4 >= c ==> ciphertext@[j] == s1[j],
                    forall|k: int| 0 <= k < y ==> word@[k] == s1[c as int + k * 4],
            {
                word[y] = ciphertext[c + (y * 4)];
            }
            let shift_word = shift_rows(word, c);
            let ghost before = ciphertext@;
            for y in 0..4
                invariant
                    0 <= c < 4,
                    forall|k: int| 0 <= k < 4 ==> shift_word@[k] == s1[c + 4 * ((k + c) % 4)],
                    forall|j: int| 0 <= j < 16 && !(j % 4 == c && j / 4 < y) ==> ciphertext@[j] == before[j],
                    forall|k: int| 0 <= k < y ==> ciphertext@[c as int + k * 4] == shift_word@[k],
            {
                ciphertext[c + (y * 4)] = shift_word[y];
            }
            assert forall|j: int| 0 <= j < 16 && j % 4 < c + 1 implies ciphertext@[j] == shift_rows_state(s1)[j] by {
                lemma_small_index(j);
                if j % 4 == c {
                    assert(ciphertext@[c as int + (j / 4) * 4] == shift_word@[j / 4]);
                }
            }
            assert forall|j: int| 0 <= j < 16 && j % 4 >= c + 1 implies ciphertext@[j] == s1[j] by {
                lemma_small_index(j);
            }
        }
        assert(ciphertext@ =~= shift_rows_state(s1));
        let ghost s2 = ciphertext@;

        // MixColumns, skipped in the last round.
        if i != 10 {
            for c in 0..4
                invariant
                    s2.len() == 16,
                    forall|j: int| 0 <= j < 16 && j / 4 < c ==> ciphertext@[j] == mix_columns_state(s2)[j],
                    forall|j: int| 0 <= j < 16 && j / 4 >= c ==> ciphertext@[j] == s2[j],
            {
                let mut column: [u8; 4] = [0, 0, 0, 0];
                for y in 0..4
                    invariant
                        0 <= c < 4,
                        s2.len() == 16,
                        forall|j: int| 0 <= j < 16 && j / 4 >= c ==> ciphertext@[j] == s2[j],
                        forall|k: int| 0 <= k < y ==> column@[k] == s2[(c * 4) as int + k],
                {
                    column[y] = ciphertext[(c * 4) + y];
                }
                assert(column@ =~= state_column(s2, c as int));
                let mixed_column = mix_columns(column);
                let ghost before = ciphertext@;
                for y in 0..4
                    invariant
                        0 <= c < 4,
                        mixed_column@ == mix_column(state_column(s2, c as int)),
                        forall|j: int| 0 <= j < 16 && !(j / 4 == c && j % 4 < y) ==> ciphertext@[j] == before[j],
                        forall|k: int| 0 <= k < y ==> ciphertext@[(c * 4) as int + k] == mixed_column@[k],
                {
                    ciphertext[(c * 4) + y] = mixed_column[y];
                }
                assert forall|j: int| 0 <= j < 16 && j / 4 < c + 1 implies ciphertext@[j] == mix_columns_state(s2)[j] by {
                    lemma_small_index(j);
                    if j / 4 == c {
                        assert(ciphertext@[(c * 4) as int + j % 4] == mixed_column@[j % 4]);
                    }
                }
                assert forall|j: int| 0 <= j < 16 && j / 4 >= c + 1 implies ciphertext@[j] == s2[j] by {
                    lemma_small_index(j);
                }
            }
            assert(ciphertext@ =~= mix_columns_state(s2));
        }
        let ghost s3 = ciphertext@;

        // AddRoundKey.
        for c in 0..16
            invariant
                1 <= i < 11,
                s3.len() == 16,
                forall|j: int| 0 <= j < c ==> ciphertext@[j] == s3[j] ^ keys@[i as int]@[j],
                forall|j: int| c <= j < 16 ==> ciphertext@[j] == s3[j],
        {
            ciphertext[c] = ciphertext[c] ^ keys[i][c];
        }
        assert(ciphertext@ =~= encrypt_rounds(plaintext@, keys, i as nat));
    }
    return ciphertext;
}

/// Decrypts one 16-byte block with AES-128 under the eleven round keys `keys`.
pub fn decrypt_data(ciphertext: [u8; 16], keys: [[u8; 16]; 11]) -> (plaintext: [u8; 16])
    ensures
        plaintext@ == aes_decrypt(ciphertext@, keys),
{
    let mut plaintext: [u8; 16] = ciphertext.clone();
    let encryption_key = keys[10];

    // The initial key addition, with the last round key.
    for i in 0..16
        invariant
            encryption_key == keys@[10],
            forall|j: int| 0 <= j < i ==> plaintext@[j] == ciphertext@[j] ^ encryption_key@[j],
            forall|j: int| i <= j < 16 ==> plaintext@[j] == ciphertext@[j],
    {
        plaintext[i] = plaintext[i] ^ encryption_key[i];
    }
    assert(plaintext@ =~= add_round_key(ciphertext@, keys@[10]@));

    // Rounds 9, 8, ..., 0.
    let mut i: usize = 10;
    while i > 0
        invariant
            i <= 10,
            i > 0 ==> decrypt_rounds(plaintext@, keys, (i - 1) as nat) == aes_decrypt(ciphertext@, keys),
            i == 0 ==> plaintext@ == aes_decrypt(ciphertext@, keys),
        decreases i,
    {
        i = i - 1;
        let ghost s0 = plaintext@;

        // InvShiftRows: row `c` is rotated by `4 - c`.
        for c in 0..4
            invariant
                s0.len() == 16,
                forall|j: int| 0 <= j < 16 && j % 4 < c ==> plaintext@[j] == inv_shift_rows_state(s0)[j],
                forall|j: int| 0 <= j < 16 && j % 4 >= c ==> plaintext@[j] == s0[j],
        {
            let mut word: [u8; 4] = [0, 0, 0, 0];
            for y in 0..4
                invariant
                    0 <= c < 4,
                    s0.len() == 16,
                    forall|j: int| 0 <= j < 16 && j % 4 >= c ==> plaintext@[j] == s0[j],
                    forall|k: int| 0 <= k < y ==> word@[k] == s0[c as int + k * 4],
            {
                word[y] = plaintext[c + (y * 4)];
            }
            let shift_word = shift_rows(word, 4 - c);
            let ghost before = plaintext@;
            for y in 0..4
                invariant
                    0 <= c < 4,
                    forall|k: int| 0 <= k < 4 ==> shift_word@[k] == s0[c + 4 * ((k + 4 - c) % 4)],
                    forall|j: int| 0 <= j < 16 && !(j % 4 == c && j / 4 < y) ==> plaintext@[j] == before[j],
                    forall|k: int| 0 <= k < y ==> plaintext@[c as int + k * 4] == shift_word@[k],
            {
                plaintext[c + (y * 4)] = shift_word[y];
            }
            assert forall|j: int| 0 <= j < 16 && j % 4 < c + 1 implies plaintext@[j] == inv_shift_rows_state(s0)[j] by {
                lemma_small_index(j);
                if j % 4 == c {
                    assert(plaintext@[c as int + (j / 4) * 4] == shift_word@[j / 4]);
                }
            }
            assert forall|j: int| 0 <= j < 16 && j % 4 >= c + 1 implies plaintext@[j] == s0[j] by {
                lemma_small_index(j);
            }
        }
        assert(plaintext@ =~= inv_shift_rows_state(s0));
        let ghost s1 = plaintext@;

        // InvSubBytes.
        for c in 0..16
            invariant
                s1.len() == 16,
                forall|j: int| 0 <= j < c ==> plaintext@[j] == inv_sbox(s1[j]),
                forall|j: int| c <= j < 16 ==> plaintext@[j] == s1[j],
        {
            plaintext[c] = inverse_affine_transform(plaintext[c]);
        }
        assert(plaintext@ =~= inv_sub_bytes(s1));
        let ghost s2 = plaintext@;

        // AddRoundKey, before InvMixColumns.
        for c in 0..16
            invariant
                i < 10,
                s2.len() == 16,
                forall|j: int| 0 <= j < c ==> plaintext@[j] == s2[j] ^ keys@[i as int]@[j],
                forall|j: int| c <= j < 16 ==> plaintext@[j] == s2[j],
        {
            plaintext[c] = plaintext[c] ^ keys[i][c];
        }
        assert(plaintext@ =~= add_round_key(s2, keys@[i as int]@));
        let ghost s3 = plaintext@;

        // InvMixColumns, skipped in the last round.
        if i != 0 {
            for c in 0..4
                invariant
                    s3.len() == 16,
                    forall|j: int| 0 <= j < 16 && j / 4 < c ==> plaintext@[j] == inv_mix_columns_state(s3)[j],
                    forall|j: int| 0 <= j < 16 && j / 4 >= c ==> plaintext@[j] == s3[j],
            {
                let mut column: [u8; 4] = [0, 0, 0, 0];
                for y in 0..4
                    invariant
                        0 <= c < 4,
                        s3.len() == 16,
                        forall|j: int| 0 <= j < 16 && j / 4 >= c ==> plaintext@[j] == s3[j],
                        forall|k: int| 0 <= k < y ==> column@[k] == s3[(c * 4) as int + k],
                {
                    column[y] = plaintext[(c * 4) + y];
                }
                assert(column@ =~= state_column(s3, c as int));
                let mixed_column = inverse_mix_columns(column);
                let ghost before = plaintext@;
                for y in 0..4
                    invariant
                        0 <= c < 4,
                        mixed_column@ == inv_mix_column(state_column(s3, c as int)),
                        forall|j: int| 0 <= j < 16 && !(j / 4 == c && j % 4 < y) ==> plaintext@[j] == before[j],
                        forall|k: int| 0 <= k < y ==> plaintext@[(c * 4) as int + k] == mixed_column@[k],
                {
                    plaintext[(c * 4) + y] = mixed_column[y];
                }
                assert forall|j: int| 0 <= j < 16 && j / 4 < c + 1 implies plaintext@[j] == inv_mix_columns_state(s3)[j] by {
                    lemma_small_index(j);
                    if j / 4 == c {
                        assert(plaintext@[(c * 4) as int + j % 4] == mixed_column@[j % 4]);
                    }
                }
                assert forall|j: int| 0 <= j < 16 && j / 4 >= c + 1 implies plaintext@[j] == s3[j] by {
                    lemma_small_index(j);
                }
            }
            assert(plaintext@ =~= inv_mix_columns_state(s3));
        }
    }
    return plaintext;
}

} // verus!
