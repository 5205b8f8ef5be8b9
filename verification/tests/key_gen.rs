use aes128::crypto::{affine_transform, rc};
use aes128::key_gen::{make_keys, sub_word};

#[test]
fn key_gen_sub_word_leaves_last_byte_zero() {
    assert_eq!(sub_word([0x00, 0x01, 0x53, 0xff]), [0x63, 0x7c, 0xed, 0x00]);
    assert_eq!(sub_word([0x10, 0x20, 0x30, 0x40])[3], 0);
}

#[test]
fn key_gen_make_keys_follows_its_schedule() {
    let keys = make_keys();
    for r in 1..11 {
        let prev = keys[r - 1];
        let t = [
            affine_transform(prev[13]) ^ rc(r as u8),
            affine_transform(prev[14]),
            affine_transform(prev[15]),
            0u8,
        ];
        for j in 0..4 {
            assert_eq!(keys[r][j], t[j] ^ prev[j]);
        }
        for j in 4..16 {
            assert_eq!(keys[r][j], keys[r][j - 4] ^ prev[j]);
        }
        assert_eq!(keys[r][3], prev[3]);
    }
}

#[test]
fn key_gen_first_keys_differ() {
    assert_ne!(make_keys()[0], make_keys()[0]);
}
