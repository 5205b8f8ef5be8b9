use aes128::crypto::{
    affine_transform, decrypt_data, encrypt_data, find_inverse, get_128b_key, inverse_affine_transform,
    inverse_mix_columns, left_circular_shift, make_keys, mix_columns, multiply_GF, rc, rot_word,
    shift_rows, sub_word,
};

fn hex16(s: &str) -> [u8; 16] {
    let mut out = [0u8; 16];
    for i in 0..16 {
        out[i] = u8::from_str_radix(&s[2 * i..2 * i + 2], 16).unwrap();
    }
    out
}

fn bytes16(s: &str) -> [u8; 16] {
    let mut out = [0u8; 16];
    out.copy_from_slice(s.as_bytes());
    out
}

#[test]
fn multiply_gf_known_products() {
    assert_eq!(multiply_GF(0x57, 0x83), 0xc1);
    assert_eq!(multiply_GF(0x57, 0x13), 0xfe);
    assert_eq!(multiply_GF(0x57, 0x02), 0xae);
    assert_eq!(multiply_GF(0x80, 0x02), 0x1b);
    assert_eq!(multiply_GF(0x00, 0x9a), 0x00);
    assert_eq!(multiply_GF(0x01, 0x9a), 0x9a);
}

#[test]
fn multiply_gf_is_commutative_and_associative_on_samples() {
    for a in [0x00u8, 0x01, 0x02, 0x53, 0x8f, 0xff] {
        for b in [0x00u8, 0x03, 0x1b, 0xca, 0xfe] {
            assert_eq!(multiply_GF(a, b), multiply_GF(b, a));
            for c in [0x07u8, 0x80, 0xd1] {
                assert_eq!(multiply_GF(multiply_GF(a, b), c), multiply_GF(a, multiply_GF(b, c)));
                assert_eq!(multiply_GF(a, b ^ c), multiply_GF(a, b) ^ multiply_GF(a, c));
            }
        }
    }
}

#[test]
fn find_inverse_gives_multiplicative_inverse() {
    assert_eq!(find_inverse(0x53), 0xca);
    assert_eq!(find_inverse(0x00), 0x00);
    assert_eq!(find_inverse(0x01), 0x01);
    for a in 1..=255u8 {
        assert_eq!(multiply_GF(a, find_inverse(a)), 1);
        assert_eq!(find_inverse(find_inverse(a)), a);
    }
}

#[test]
fn left_circular_shift_rotates() {
    assert_eq!(left_circular_shift(0b1000_0001, 1), 0b0000_0011);
    assert_eq!(left_circular_shift(0b1011_0000, 4), 0b0000_1011);
    assert_eq!(left_circular_shift(0x12, 7), 0x09);
}

#[test]
fn sbox_known_values() {
    assert_eq!(affine_transform(0x00), 0x63);
    assert_eq!(affine_transform(0x01), 0x7c);
    assert_eq!(affine_transform(0x53), 0xed);
    assert_eq!(affine_transform(0xff), 0x16);
    assert_eq!(inverse_affine_transform(0x63), 0x00);
    assert_eq!(inverse_affine_transform(0xed), 0x53);
    assert_eq!(inverse_affine_transform(0x00), 0x52);
}

#[test]
fn inverse_sbox_undoes_sbox() {
    for c in 0..=255u8 {
        assert_eq!(inverse_affine_transform(affine_transform(c)), c);
        assert_eq!(affine_transform(inverse_affine_transform(c)), c);
    }
}

#[test]
fn rc_round_constants() {
    let expected = [0x01u8, 0x02, 0x04, 0x08, 0x10, 0x20, 0x40, 0x80, 0x1b, 0x36];
    for i in 1..=10u8 {
        assert_eq!(rc(i), expected[(i - 1) as usize]);
    }
    assert_eq!(rc(11), 0x6c);
}

#[test]
fn rot_word_rotates_first_four_bytes() {
    assert_eq!(rot_word(&[1, 2, 3, 4]), [2, 3, 4, 1]);
    assert_eq!(rot_word(&[9, 8, 7, 6, 5]), [8, 7, 6, 9]);
}

#[test]
fn sub_word_substitutes_all_four_bytes() {
    assert_eq!(sub_word([0x00, 0x01, 0x53, 0xff]), [0x63, 0x7c, 0xed, 0x16]);
}

#[test]
fn shift_rows_rotates_word() {
    assert_eq!(shift_rows([1, 2, 3, 4], 0), [1, 2, 3, 4]);
    assert_eq!(shift_rows([1, 2, 3, 4], 1), [2, 3, 4, 1]);
    assert_eq!(shift_rows([1, 2, 3, 4], 3), [4, 1, 2, 3]);
    assert_eq!(shift_rows([1, 2, 3, 4], 4), [1, 2, 3, 4]);
    assert_eq!(shift_rows(shift_rows([5, 6, 7, 8], 2), 4 - 2), [5, 6, 7, 8]);
}

#[test]
fn mix_columns_known_column() {
    assert_eq!(mix_columns([0xdb, 0x13, 0x53, 0x45]), [0x8e, 0x4d, 0xa1, 0xbc]);
    assert_eq!(mix_columns([0xf2, 0x0a, 0x22, 0x5c]), [0x9f, 0xdc, 0x58, 0x9d]);
    assert_eq!(inverse_mix_columns([0x8e, 0x4d, 0xa1, 0xbc]), [0xdb, 0x13, 0x53, 0x45]);
    assert_eq!(mix_columns([0x01, 0x01, 0x01, 0x01]), [0x01, 0x01, 0x01, 0x01]);
}

#[test]
fn inverse_mix_columns_undoes_mix_columns() {
    let cols = [[0u8, 0, 0, 0], [1, 2, 3, 4], [0xff, 0x80, 0x7f, 0x01], [0xd4, 0xbf, 0x5d, 0x30]];
    for w in cols {
        assert_eq!(inverse_mix_columns(mix_columns(w)), w);
        assert_eq!(mix_columns(inverse_mix_columns(w)), w);
    }
}

#[test]
fn make_keys_standard_schedule() {
    let key = hex16("2b7e151628aed2a6abf7158809cf4f3c");
    let keys = make_keys(key, "Two One Nine Two");
    assert_eq!(keys[0], key);
    assert_eq!(keys[1], hex16("a0fafe1788542cb123a339392a6c7605"));
    assert_eq!(keys[10], hex16("d014f9a8c9ee2589e13f0cc8b6630ca6"));
}

#[test]
fn make_keys_kung_fu_schedule() {
    let keys = make_keys(bytes16("Thats my Kung Fu"), "Two One Nine Two");
    assert_eq!(keys[1], hex16("e232fcf191129188b159e4e6d679a293"));
    assert_eq!(keys[10], hex16("28fddef86da4244accc0a4fe3b316f26"));
}

#[test]
fn make_keys_ignores_plaintext() {
    let key = hex16("000102030405060708090a0b0c0d0e0f");
    assert_eq!(make_keys(key, "Two One Nine Two"), make_keys(key, "0123456789abcdef"));
}

#[test]
fn encrypt_fips_197_vector() {
    let keys = make_keys(hex16("000102030405060708090a0b0c0d0e0f"), "Two One Nine Two");
    let ct = encrypt_data(hex16("00112233445566778899aabbccddeeff"), keys);
    assert_eq!(ct, hex16("69c4e0d86a7b0430d8cdb78070b4c55a"));
    assert_eq!(decrypt_data(ct, keys), hex16("00112233445566778899aabbccddeeff"));
}

#[test]
fn encrypt_appendix_b_vector() {
    let keys = make_keys(hex16("2b7e151628aed2a6abf7158809cf4f3c"), "Two One Nine Two");
    let ct = encrypt_data(hex16("3243f6a8885a308d313198a2e0370734"), keys);
    assert_eq!(ct, hex16("3925841d02dc09fbdc118597196a0b32"));
}

#[test]
fn encrypt_kung_fu_example() {
    let keys = make_keys(bytes16("Thats my Kung Fu"), "Two One Nine Two");
    let ct = encrypt_data(bytes16("Two One Nine Two"), keys);
    assert_eq!(ct, hex16("29c3505f571420f6402299b31a02d73a"));
    assert_eq!(decrypt_data(ct, keys), bytes16("Two One Nine Two"));
}

#[test]
fn decrypt_undoes_encrypt_for_arbitrary_round_keys() {
    let mut keys = [[0u8; 16]; 11];
    for r in 0..11 {
        for j in 0..16 {
            keys[r][j] = (r as u8).wrapping_mul(37).wrapping_add((j as u8).wrapping_mul(11)) ^ 0x5a;
        }
    }
    let blocks = [[0u8; 16], [0xffu8; 16], bytes16("Two One Nine Two"), hex16("00112233445566778899aabbccddeeff")];
    for p in blocks {
        assert_eq!(decrypt_data(encrypt_data(p, keys), keys), p);
        assert_eq!(encrypt_data(decrypt_data(p, keys), keys), p);
    }
}

#[test]
fn random_key_round_trip() {
    let key = get_128b_key();
    let other = get_128b_key();
    assert_ne!(key, other);
    let keys = make_keys(key, "Two One Nine Two");
    assert_eq!(keys[0], key);
    let p = bytes16("Two One Nine Two");
    assert_eq!(decrypt_data(encrypt_data(p, keys), keys), p);
}
