//! Mathematical model of the AES-128 building blocks.
use vstd::prelude::*;
use crate::gf::{
    gf_mul, gf_pow, lemma_gf_inverse, lemma_gf_inverse_involution, lemma_gf_inverse_unique, lemma_gf_mul_associative, lemma_gf_mul_commutative,
    lemma_gf_mul_distributive, lemma_gf_mul_zero_one, xtime,
};

verus! {

/// Circular left rotation of a byte by `s` bit positions, for `1 <= s <= 7`.
pub open spec fn rotl(b: u8, s: u8) -> u8 {
    ((b << s) | (b >> ((8 - s) as u8))) as u8
}

/// The four bytes of `w` rotated left by `shift` positions.
pub open spec fn rotate_word(w: Seq<u8>, shift: int) -> Seq<u8> {
    Seq::new(4, |i: int| w[(i + shift) % 4])
}

/// Rotating a word left by `c` and then by `4 - c` positions gives it back.
pub proof fn lemma_rotate_word_inverse(w: Seq<u8>, c: int)
    requires
        w.len() == 4,
        0 <= c <= 4,
    ensures
        rotate_word(rotate_word(w, c), 4 - c) == w,
{
    assert forall|i: int| 0 <= i < 4 implies #[trigger] rotate_word(rotate_word(w, c), 4 - c)[i] == w[i] by {
        assert(i == 0 || i == 1 || i == 2 || i == 3);
        assert(c == 0 || c == 1 || c == 2 || c == 3 || c == 4);
    }
    assert(rotate_word(rotate_word(w, c), 4 - c) =~= w);
}

/// `x^i` multiplied into `a`, i.e. `xtime` applied `i` times.
pub open spec fn xtime_pow(a: u8, i: nat) -> u8
    decreases i,
{
    if i == 0 {
        a
    } else {
        xtime(xtime_pow(a, (i - 1) as nat))
    }
}

/// The sum of the first `n` partial products of `a * b`, taking the bits of `b` from the lowest.
pub open spec fn gf_mul_prefix(a: u8, b: u8, n: nat) -> u8
    decreases n,
{
    if n == 0 {
        0u8
    } else {
        let k = (n - 1) as nat;
        if 0x01u8 & (b >> (k as u8)) != 0 {
            gf_mul_prefix(a, b, k) ^ xtime_pow(a, k)
        } else {
            gf_mul_prefix(a, b, k)
        }
    }
}

#[verifier::rlimit(40)]
pub proof fn lemma_gf_mul_prefix_full(a: u8, b: u8)
    ensures
        gf_mul_prefix(a, b, 8) == gf_mul(a, b),
{
    assert(gf_mul_prefix(a, b, 8) == gf_mul(a, b)) by (bit_vector);
}

/// Facts about shifts and masks of bytes.
pub proof fn lemma_byte_bits()
    by (bit_vector)
    ensures
        forall|x: u8, k: u8| k < 8 ==> #[trigger] ((x >> k) >> 1u8) == x >> ((k + 1) as u8),
        forall|x: u8| #[trigger] (x >> 0u8) == x,
        forall|x: u8| #[trigger] (0x80u8 & x) == (x & 0x80u8),
        forall|x: u8| x < 0x80u8 ==> #[trigger] xtime(x) == (x * 2) as u8,
        forall|x: u8| x >= 0x80u8 ==> #[trigger] xtime(x) == ((((x as u16) * 2) as u16) ^ 0x11bu16) as u8,
{
}

pub proof fn lemma_xor4_reassoc(p0: u8, p1: u8, p2: u8, p3: u8)
    by (bit_vector)
    ensures
        p3 ^ (p2 ^ (p1 ^ p0)) == p0 ^ p1 ^ p2 ^ p3,
{
}

/// The affine map of the AES S-box, applied after inversion.
pub open spec fn affine(x: u8) -> u8 {
    x ^ rotl(x, 1) ^ rotl(x, 2) ^ rotl(x, 3) ^ rotl(x, 4) ^ 0x63u8
}

/// The inverse of `affine`.
pub open spec fn inv_affine(x: u8) -> u8 {
    rotl(x, 1) ^ rotl(x, 3) ^ rotl(x, 6) ^ 0x05u8
}

/// The AES S-box: inversion in GF(2^8) (with 0 mapped to 0), then the affine map.
pub open spec fn sbox(c: u8) -> u8 {
    affine(gf_pow(c, 254))
}

/// The inverse AES S-box.
pub open spec fn inv_sbox(c: u8) -> u8 {
    gf_pow(inv_affine(c), 254)
}

/// The AES S-box as the table of FIPS-197, Figure 7.
pub closed spec fn sbox_table(c: u8) -> u8 {
    match c {
        0u8 => 0x63u8, 1u8 => 0x7cu8, 2u8 => 0x77u8, 3u8 => 0x7bu8, 4u8 => 0xf2u8, 5u8 => 0x6bu8, 6u8 => 0x6fu8, 7u8 => 0xc5u8,
        8u8 => 0x30u8, 9u8 => 0x01u8, 10u8 => 0x67u8, 11u8 => 0x2bu8, 12u8 => 0xfeu8, 13u8 => 0xd7u8, 14u8 => 0xabu8, 15u8 => 0x76u8,
        16u8 => 0xcau8, 17u8 => 0x82u8, 18u8 => 0xc9u8, 19u8 => 0x7du8, 20u8 => 0xfau8, 21u8 => 0x59u8, 22u8 => 0x47u8, 23u8 => 0xf0u8,
        24u8 => 0xadu8, 25u8 => 0xd4u8, 26u8 => 0xa2u8, 27u8 => 0xafu8, 28u8 => 0x9cu8, 29u8 => 0xa4u8, 30u8 => 0x72u8, 31u8 => 0xc0u8,
        32u8 => 0xb7u8, 33u8 => 0xfdu8, 34u8 => 0x93u8, 35u8 => 0x26u8, 36u8 => 0x36u8, 37u8 => 0x3fu8, 38u8 => 0xf7u8, 39u8 => 0xccu8,
        40u8 => 0x34u8, 41u8 => 0xa5u8, 42u8 => 0xe5u8, 43u8 => 0xf1u8, 44u8 => 0x71u8, 45u8 => 0xd8u8, 46u8 => 0x31u8, 47u8 => 0x15u8,
        48u8 => 0x04u8, 49u8 => 0xc7u8, 50u8 => 0x23u8, 51u8 => 0xc3u8, 52u8 => 0x18u8, 53u8 => 0x96u8, 54u8 => 0x05u8, 55u8 => 0x9au8,
        56u8 => 0x07u8, 57u8 => 0x12u8, 58u8 => 0x80u8, 59u8 => 0xe2u8, 60u8 => 0xebu8, 61u8 => 0x27u8, 62u8 => 0xb2u8, 63u8 => 0x75u8,
        64u8 => 0x09u8, 65u8 => 0x83u8, 66u8 => 0x2cu8, 67u8 => 0x1au8, 68u8 => 0x1bu8, 69u8 => 0x6eu8, 70u8 => 0x5au8, 71u8 => 0xa0u8,
        72u8 => 0x52u8, 73u8 => 0x3bu8, 74u8 => 0xd6u8, 75u8 => 0xb3u8, 76u8 => 0x29u8, 77u8 => 0xe3u8, 78u8 => 0x2fu8, 79u8 => 0x84u8,
        80u8 => 0x53u8, 81u8 => 0xd1u8, 82u8 => 0x00u8, 83u8 => 0xedu8, 84u8 => 0x20u8, 85u8 => 0xfcu8, 86u8 => 0xb1u8, 87u8 => 0x5bu8,
        88u8 => 0x6au8, 89u8 => 0xcbu8, 90u8 => 0xbeu8, 91u8 => 0x39u8, 92u8 => 0x4au8, 93u8 => 0x4cu8, 94u8 => 0x58u8, 95u8 => 0xcfu8,
        96u8 => 0xd0u8, 97u8 => 0xefu8, 98u8 => 0xaau8, 99u8 => 0xfbu8, 100u8 => 0x43u8, 101u8 => 0x4du8, 102u8 => 0x33u8, 103u8 => 0x85u8,
        104u8 => 0x45u8, 105u8 => 0xf9u8, 106u8 => 0x02u8, 107u8 => 0x7fu8, 108u8 => 0x50u8, 109u8 => 0x3cu8, 110u8 => 0x9fu8, 111u8 => 0xa8u8,
        112u8 => 0x51u8, 113u8 => 0xa3u8, 114u8 => 0x40u8, 115u8 => 0x8fu8, 116u8 => 0x92u8, 117u8 => 0x9du8, 118u8 => 0x38u8, 119u8 => 0xf5u8,
        120u8 => 0xbcu8, 121u8 => 0xb6u8, 122u8 => 0xdau8, 123u8 => 0x21u8, 124u8 => 0x10u8, 125u8 => 0xffu8, 126u8 => 0xf3u8, 127u8 => 0xd2u8,
        128u8 => 0xcdu8, 129u8 => 0x0cu8, 130u8 => 0x13u8, 131u8 => 0xecu8, 132u8 => 0x5fu8, 133u8 => 0x97u8, 134u8 => 0x44u8, 135u8 => 0x17u8,
        136u8 => 0xc4u8, 137u8 => 0xa7u8, 138u8 => 0x7eu8, 139u8 => 0x3du8, 140u8 => 0x64u8, 141u8 => 0x5du8, 142u8 => 0x19u8, 143u8 => 0x73u8,
        144u8 => 0x60u8, 145u8 => 0x81u8, 146u8 => 0x4fu8, 147u8 => 0xdcu8, 148u8 => 0x22u8, 149u8 => 0x2au8, 150u8 => 0x90u8, 151u8 => 0x88u8,
        152u8 => 0x46u8, 153u8 => 0xeeu8, 154u8 => 0xb8u8, 155u8 => 0x14u8, 156u8 => 0xdeu8, 157u8 => 0x5eu8, 158u8 => 0x0bu8, 159u8 => 0xdbu8,
        160u8 => 0xe0u8, 161u8 => 0x32u8, 162u8 => 0x3au8, 163u8 => 0x0au8, 164u8 => 0x49u8, 165u8 => 0x06u8, 166u8 => 0x24u8, 167u8 => 0x5cu8,
        168u8 => 0xc2u8, 169u8 => 0xd3u8, 170u8 => 0xacu8, 171u8 => 0x62u8, 172u8 => 0x91u8, 173u8 => 0x95u8, 174u8 => 0xe4u8, 175u8 => 0x79u8,
        176u8 => 0xe7u8, 177u8 => 0xc8u8, 178u8 => 0x37u8, 179u8 => 0x6du8, 180u8 => 0x8du8, 181u8 => 0xd5u8, 182u8 => 0x4eu8, 183u8 => 0xa9u8,
        184u8 => 0x6cu8, 185u8 => 0x56u8, 186u8 => 0xf4u8, 187u8 => 0xeau8, 188u8 => 0x65u8, 189u8 => 0x7au8, 190u8 => 0xaeu8, 191u8 => 0x08u8,
        192u8 => 0xbau8, 193u8 => 0x78u8, 194u8 => 0x25u8, 195u8 => 0x2eu8, 196u8 => 0x1cu8, 197u8 => 0xa6u8, 198u8 => 0xb4u8, 199u8 => 0xc6u8,
        200u8 => 0xe8u8, 201u8 => 0xddu8, 202u8 => 0x74u8, 203u8 => 0x1fu8, 204u8 => 0x4bu8, 205u8 => 0xbdu8, 206u8 => 0x8bu8, 207u8 => 0x8au8,
        208u8 => 0x70u8, 209u8 => 0x3eu8, 210u8 => 0xb5u8, 211u8 => 0x66u8, 212u8 => 0x48u8, 213u8 => 0x03u8, 214u8 => 0xf6u8, 215u8 => 0x0eu8,
        216u8 => 0x61u8, 217u8 => 0x35u8, 218u8 => 0x57u8, 219u8 => 0xb9u8, 220u8 => 0x86u8, 221u8 => 0xc1u8, 222u8 => 0x1du8, 223u8 => 0x9eu8,
        224u8 => 0xe1u8, 225u8 => 0xf8u8, 226u8 => 0x98u8, 227u8 => 0x11u8, 228u8 => 0x69u8, 229u8 => 0xd9u8, 230u8 => 0x8eu8, 231u8 => 0x94u8,
        232u8 => 0x9bu8, 233u8 => 0x1eu8, 234u8 => 0x87u8, 235u8 => 0xe9u8, 236u8 => 0xceu8, 237u8 => 0x55u8, 238u8 => 0x28u8, 239u8 => 0xdfu8,
        240u8 => 0x8cu8, 241u8 => 0xa1u8, 242u8 => 0x89u8, 243u8 => 0x0du8, 244u8 => 0xbfu8, 245u8 => 0xe6u8, 246u8 => 0x42u8, 247u8 => 0x68u8,
        248u8 => 0x41u8, 249u8 => 0x99u8, 250u8 => 0x2du8, 251u8 => 0x0fu8, 252u8 => 0xb0u8, 253u8 => 0x54u8, 254u8 => 0xbbu8, _ => 0x16u8,
    }
}

spec fn table_entry_inverts(k: u8) -> bool {
    k == 0 || gf_mul(k, inv_affine(sbox_table(k))) == 1u8
}

proof fn lemma_all_table_entries_invert()
    ensures
        table_entry_inverts(0u8) && table_entry_inverts(1u8) && table_entry_inverts(2u8) && table_entry_inverts(3u8) && table_entry_inverts(4u8) && table_entry_inverts(5u8) && table_entry_inverts(6u8) && table_entry_inverts(7u8) &&
        table_entry_inverts(8u8) && table_entry_inverts(9u8) && table_entry_inverts(10u8) && table_entry_inverts(11u8) && table_entry_inverts(12u8) && table_entry_inverts(13u8) && table_entry_inverts(14u8) && table_entry_inverts(15u8) &&
        table_entry_inverts(16u8) && table_entry_inverts(17u8) && table_entry_inverts(18u8) && table_entry_inverts(19u8) && table_entry_inverts(20u8) && table_entry_inverts(21u8) && table_entry_inverts(22u8) && table_entry_inverts(23u8) &&
        table_entry_inverts(24u8) && table_entry_inverts(25u8) && table_entry_inverts(26u8) && table_entry_inverts(27u8) && table_entry_inverts(28u8) && table_entry_inverts(29u8) && table_entry_inverts(30u8) && table_entry_inverts(31u8) &&
        table_entry_inverts(32u8) && table_entry_inverts(33u8) && table_entry_inverts(34u8) && table_entry_inverts(35u8) && table_entry_inverts(36u8) && table_entry_inverts(37u8) && table_entry_inverts(38u8) && table_entry_inverts(39u8) &&
        table_entry_inverts(40u8) && table_entry_inverts(41u8) && table_entry_inverts(42u8) && table_entry_inverts(43u8) && table_entry_inverts(44u8) && table_entry_inverts(45u8) && table_entry_inverts(46u8) && table_entry_inverts(47u8) &&
        table_entry_inverts(48u8) && table_entry_inverts(49u8) && table_entry_inverts(50u8) && table_entry_inverts(51u8) && table_entry_inverts(52u8) && table_entry_inverts(53u8) && table_entry_inverts(54u8) && table_entry_inverts(55u8) &&
        table_entry_inverts(56u8) && table_entry_inverts(57u8) && table_entry_inverts(58u8) && table_entry_inverts(59u8) && table_entry_inverts(60u8) && table_entry_inverts(61u8) && table_entry_inverts(62u8) && table_entry_inverts(63u8) &&
        table_entry_inverts(64u8) && table_entry_inverts(65u8) && table_entry_inverts(66u8) && table_entry_inverts(67u8) && table_entry_inverts(68u8) && table_entry_inverts(69u8) && table_entry_inverts(70u8) && table_entry_inverts(71u8) &&
        table_entry_inverts(72u8) && table_entry_inverts(73u8) && table_entry_inverts(74u8) && table_entry_inverts(75u8) && table_entry_inverts(76u8) && table_entry_inverts(77u8) && table_entry_inverts(78u8) && table_entry_inverts(79u8) &&
        table_entry_inverts(80u8) && table_entry_inverts(81u8) && table_entry_inverts(82u8) && table_entry_inverts(83u8) && table_entry_inverts(84u8) && table_entry_inverts(85u8) && table_entry_inverts(86u8) && table_entry_inverts(87u8) &&
        table_entry_inverts(88u8) && table_entry_inverts(89u8) && table_entry_inverts(90u8) && table_entry_inverts(91u8) && table_entry_inverts(92u8) && table_entry_inverts(93u8) && table_entry_inverts(94u8) && table_entry_inverts(95u8) &&
        table_entry_inverts(96u8) && table_entry_inverts(97u8) && table_entry_inverts(98u8) && table_entry_inverts(99u8) && table_entry_inverts(100u8) && table_entry_inverts(101u8) && table_entry_inverts(102u8) && table_entry_inverts(103u8) &&
        table_entry_inverts(104u8) && table_entry_inverts(105u8) && table_entry_inverts(106u8) && table_entry_inverts(107u8) && table_entry_inverts(108u8) && table_entry_inverts(109u8) && table_entry_inverts(110u8) && table_entry_inverts(111u8) &&
        table_entry_inverts(112u8) && table_entry_inverts(113u8) && table_entry_inverts(114u8) && table_entry_inverts(115u8) && table_entry_inverts(116u8) && table_entry_inverts(117u8) && table_entry_inverts(118u8) && table_entry_inverts(119u8) &&
        table_entry_inverts(120u8) && table_entry_inverts(121u8) && table_entry_inverts(122u8) && table_entry_inverts(123u8) && table_entry_inverts(124u8) && table_entry_inverts(125u8) && table_entry_inverts(126u8) && table_entry_inverts(127u8) &&
        table_entry_inverts(128u8) && table_entry_inverts(129u8) && table_entry_inverts(130u8) && table_entry_inverts(131u8) && table_entry_inverts(132u8) && table_entry_inverts(133u8) && table_entry_inverts(134u8) && table_entry_inverts(135u8) &&
        table_entry_inverts(136u8) && table_entry_inverts(137u8) && table_entry_inverts(138u8) && table_entry_inverts(139u8) && table_entry_inverts(140u8) && table_entry_inverts(141u8) && table_entry_inverts(142u8) && table_entry_inverts(143u8) &&
        table_entry_inverts(144u8) && table_entry_inverts(145u8) && table_entry_inverts(146u8) && table_entry_inverts(147u8) && table_entry_inverts(148u8) && table_entry_inverts(149u8) && table_entry_inverts(150u8) && table_entry_inverts(151u8) &&
        table_entry_inverts(152u8) && table_entry_inverts(153u8) && table_entry_inverts(154u8) && table_entry_inverts(155u8) && table_entry_inverts(156u8) && table_entry_inverts(157u8) && table_entry_inverts(158u8) && table_entry_inverts(159u8) &&
        table_entry_inverts(160u8) && table_entry_inverts(161u8) && table_entry_inverts(162u8) && table_entry_inverts(163u8) && table_entry_inverts(164u8) && table_entry_inverts(165u8) && table_entry_inverts(166u8) && table_entry_inverts(167u8) &&
        table_entry_inverts(168u8) && table_entry_inverts(169u8) && table_entry_inverts(170u8) && table_entry_inverts(171u8) && table_entry_inverts(172u8) && table_entry_inverts(173u8) && table_entry_inverts(174u8) && table_entry_inverts(175u8) &&
        table_entry_inverts(176u8) && table_entry_inverts(177u8) && table_entry_inverts(178u8) && table_entry_inverts(179u8) && table_entry_inverts(180u8) && table_entry_inverts(181u8) && table_entry_inverts(182u8) && table_entry_inverts(183u8) &&
        table_entry_inverts(184u8) && table_entry_inverts(185u8) && table_entry_inverts(186u8) && table_entry_inverts(187u8) && table_entry_inverts(188u8) && table_entry_inverts(189u8) && table_entry_inverts(190u8) && table_entry_inverts(191u8) &&
        table_entry_inverts(192u8) && table_entry_inverts(193u8) && table_entry_inverts(194u8) && table_entry_inverts(195u8) && table_entry_inverts(196u8) && table_entry_inverts(197u8) && table_entry_inverts(198u8) && table_entry_inverts(199u8) &&
        table_entry_inverts(200u8) && table_entry_inverts(201u8) && table_entry_inverts(202u8) && table_entry_inverts(203u8) && table_entry_inverts(204u8) && table_entry_inverts(205u8) && table_entry_inverts(206u8) && table_entry_inverts(207u8) &&
        table_entry_inverts(208u8) && table_entry_inverts(209u8) && table_entry_inverts(210u8) && table_entry_inverts(211u8) && table_entry_inverts(212u8) && table_entry_inverts(213u8) && table_entry_inverts(214u8) && table_entry_inverts(215u8) &&
        table_entry_inverts(216u8) && table_entry_inverts(217u8) && table_entry_inverts(218u8) && table_entry_inverts(219u8) && table_entry_inverts(220u8) && table_entry_inverts(221u8) && table_entry_inverts(222u8) && table_entry_inverts(223u8) &&
        table_entry_inverts(224u8) && table_entry_inverts(225u8) && table_entry_inverts(226u8) && table_entry_inverts(227u8) && table_entry_inverts(228u8) && table_entry_inverts(229u8) && table_entry_inverts(230u8) && table_entry_inverts(231u8) &&
        table_entry_inverts(232u8) && table_entry_inverts(233u8) && table_entry_inverts(234u8) && table_entry_inverts(235u8) && table_entry_inverts(236u8) && table_entry_inverts(237u8) && table_entry_inverts(238u8) && table_entry_inverts(239u8) &&
        table_entry_inverts(240u8) && table_entry_inverts(241u8) && table_entry_inverts(242u8) && table_entry_inverts(243u8) && table_entry_inverts(244u8) && table_entry_inverts(245u8) && table_entry_inverts(246u8) && table_entry_inverts(247u8) &&
        table_entry_inverts(248u8) && table_entry_inverts(249u8) && table_entry_inverts(250u8) && table_entry_inverts(251u8) && table_entry_inverts(252u8) && table_entry_inverts(253u8) && table_entry_inverts(254u8) && table_entry_inverts(255u8),
        sbox_table(0u8) == 0x63u8,
        affine(0u8) == 0x63u8,
{
    assert(
        table_entry_inverts(0u8) && table_entry_inverts(1u8) && table_entry_inverts(2u8) && table_entry_inverts(3u8) && table_entry_inverts(4u8) && table_entry_inverts(5u8) && table_entry_inverts(6u8) && table_entry_inverts(7u8) &&
        table_entry_inverts(8u8) && table_entry_inverts(9u8) && table_entry_inverts(10u8) && table_entry_inverts(11u8) && table_entry_inverts(12u8) && table_entry_inverts(13u8) && table_entry_inverts(14u8) && table_entry_inverts(15u8) &&
        table_entry_inverts(16u8) && table_entry_inverts(17u8) && table_entry_inverts(18u8) && table_entry_inverts(19u8) && table_entry_inverts(20u8) && table_entry_inverts(21u8) && table_entry_inverts(22u8) && table_entry_inverts(23u8) &&
        table_entry_inverts(24u8) && table_entry_inverts(25u8) && table_entry_inverts(26u8) && table_entry_inverts(27u8) && table_entry_inverts(28u8) && table_entry_inverts(29u8) && table_entry_inverts(30u8) && table_entry_inverts(31u8) &&
        table_entry_inverts(32u8) && table_entry_inverts(33u8) && table_entry_inverts(34u8) && table_entry_inverts(35u8) && table_entry_inverts(36u8) && table_entry_inverts(37u8) && table_entry_inverts(38u8) && table_entry_inverts(39u8) &&
        table_entry_inverts(40u8) && table_entry_inverts(41u8) && table_entry_inverts(42u8) && table_entry_inverts(43u8) && table_entry_inverts(44u8) && table_entry_inverts(45u8) && table_entry_inverts(46u8) && table_entry_inverts(47u8) &&
        table_entry_inverts(48u8) && table_entry_inverts(49u8) && table_entry_inverts(50u8) && table_entry_inverts(51u8) && table_entry_inverts(52u8) && table_entry_inverts(53u8) && table_entry_inverts(54u8) && table_entry_inverts(55u8) &&
        table_entry_inverts(56u8) && table_entry_inverts(57u8) && table_entry_inverts(58u8) && table_entry_inverts(59u8) && table_entry_inverts(60u8) && table_entry_inverts(61u8) && table_entry_inverts(62u8) && table_entry_inverts(63u8) &&
        table_entry_inverts(64u8) && table_entry_inverts(65u8) && table_entry_inverts(66u8) && table_entry_inverts(67u8) && table_entry_inverts(68u8) && table_entry_inverts(69u8) && table_entry_inverts(70u8) && table_entry_inverts(71u8) &&
        table_entry_inverts(72u8) && table_entry_inverts(73u8) && table_entry_inverts(74u8) && table_entry_inverts(75u8) && table_entry_inverts(76u8) && table_entry_inverts(77u8) && table_entry_inverts(78u8) && table_entry_inverts(79u8) &&
        table_entry_inverts(80u8) && table_entry_inverts(81u8) && table_entry_inverts(82u8) && table_entry_inverts(83u8) && table_entry_inverts(84u8) && table_entry_inverts(85u8) && table_entry_inverts(86u8) && table_entry_inverts(87u8) &&
        table_entry_inverts(88u8) && table_entry_inverts(89u8) && table_entry_inverts(90u8) && table_entry_inverts(91u8) && table_entry_inverts(92u8) && table_entry_inverts(93u8) && table_entry_inverts(94u8) && table_entry_inverts(95u8) &&
        table_entry_inverts(96u8) && table_entry_inverts(97u8) && table_entry_inverts(98u8) && table_entry_inverts(99u8) && table_entry_inverts(100u8) && table_entry_inverts(101u8) && table_entry_inverts(102u8) && table_entry_inverts(103u8) &&
        table_entry_inverts(104u8) && table_entry_inverts(105u8) && table_entry_inverts(106u8) && table_entry_inverts(107u8) && table_entry_inverts(108u8) && table_entry_inverts(109u8) && table_entry_inverts(110u8) && table_entry_inverts(111u8) &&
        table_entry_inverts(112u8) && table_entry_inverts(113u8) && table_entry_inverts(114u8) && table_entry_inverts(115u8) && table_entry_inverts(116u8) && table_entry_inverts(117u8) && table_entry_inverts(118u8) && table_entry_inverts(119u8) &&
        table_entry_inverts(120u8) && table_entry_inverts(121u8) && table_entry_inverts(122u8) && table_entry_inverts(123u8) && table_entry_inverts(124u8) && table_entry_inverts(125u8) && table_entry_inverts(126u8) && table_entry_inverts(127u8) &&
        table_entry_inverts(128u8) && table_entry_inverts(129u8) && table_entry_inverts(130u8) && table_entry_inverts(131u8) && table_entry_inverts(132u8) && table_entry_inverts(133u8) && table_entry_inverts(134u8) && table_entry_inverts(135u8) &&
        table_entry_inverts(136u8) && table_entry_inverts(137u8) && table_entry_inverts(138u8) && table_entry_inverts(139u8) && table_entry_inverts(140u8) && table_entry_inverts(141u8) && table_entry_inverts(142u8) && table_entry_inverts(143u8) &&
        table_entry_inverts(144u8) && table_entry_inverts(145u8) && table_entry_inverts(146u8) && table_entry_inverts(147u8) && table_entry_inverts(148u8) && table_entry_inverts(149u8) && table_entry_inverts(150u8) && table_entry_inverts(151u8) &&
        table_entry_inverts(152u8) && table_entry_inverts(153u8) && table_entry_inverts(154u8) && table_entry_inverts(155u8) && table_entry_inverts(156u8) && table_entry_inverts(157u8) && table_entry_inverts(158u8) && table_entry_inverts(159u8) &&
        table_entry_inverts(160u8) && table_entry_inverts(161u8) && table_entry_inverts(162u8) && table_entry_inverts(163u8) && table_entry_inverts(164u8) && table_entry_inverts(165u8) && table_entry_inverts(166u8) && table_entry_inverts(167u8) &&
        table_entry_inverts(168u8) && table_entry_inverts(169u8) && table_entry_inverts(170u8) && table_entry_inverts(171u8) && table_entry_inverts(172u8) && table_entry_inverts(173u8) && table_entry_inverts(174u8) && table_entry_inverts(175u8) &&
        table_entry_inverts(176u8) && table_entry_inverts(177u8) && table_entry_inverts(178u8) && table_entry_inverts(179u8) && table_entry_inverts(180u8) && table_entry_inverts(181u8) && table_entry_inverts(182u8) && table_entry_inverts(183u8) &&
        table_entry_inverts(184u8) && table_entry_inverts(185u8) && table_entry_inverts(186u8) && table_entry_inverts(187u8) && table_entry_inverts(188u8) && table_entry_inverts(189u8) && table_entry_inverts(190u8) && table_entry_inverts(191u8) &&
        table_entry_inverts(192u8) && table_entry_inverts(193u8) && table_entry_inverts(194u8) && table_entry_inverts(195u8) && table_entry_inverts(196u8) && table_entry_inverts(197u8) && table_entry_inverts(198u8) && table_entry_inverts(199u8) &&
        table_entry_inverts(200u8) && table_entry_inverts(201u8) && table_entry_inverts(202u8) && table_entry_inverts(203u8) && table_entry_inverts(204u8) && table_entry_inverts(205u8) && table_entry_inverts(206u8) && table_entry_inverts(207u8) &&
        table_entry_inverts(208u8) && table_entry_inverts(209u8) && table_entry_inverts(210u8) && table_entry_inverts(211u8) && table_entry_inverts(212u8) && table_entry_inverts(213u8) && table_entry_inverts(214u8) && table_entry_inverts(215u8) &&
        table_entry_inverts(216u8) && table_entry_inverts(217u8) && table_entry_inverts(218u8) && table_entry_inverts(219u8) && table_entry_inverts(220u8) && table_entry_inverts(221u8) && table_entry_inverts(222u8) && table_entry_inverts(223u8) &&
        table_entry_inverts(224u8) && table_entry_inverts(225u8) && table_entry_inverts(226u8) && table_entry_inverts(227u8) && table_entry_inverts(228u8) && table_entry_inverts(229u8) && table_entry_inverts(230u8) && table_entry_inverts(231u8) &&
        table_entry_inverts(232u8) && table_entry_inverts(233u8) && table_entry_inverts(234u8) && table_entry_inverts(235u8) && table_entry_inverts(236u8) && table_entry_inverts(237u8) && table_entry_inverts(238u8) && table_entry_inverts(239u8) &&
        table_entry_inverts(240u8) && table_entry_inverts(241u8) && table_entry_inverts(242u8) && table_entry_inverts(243u8) && table_entry_inverts(244u8) && table_entry_inverts(245u8) && table_entry_inverts(246u8) && table_entry_inverts(247u8) &&
        table_entry_inverts(248u8) && table_entry_inverts(249u8) && table_entry_inverts(250u8) && table_entry_inverts(251u8) && table_entry_inverts(252u8) && table_entry_inverts(253u8) && table_entry_inverts(254u8) && table_entry_inverts(255u8) &&
        sbox_table(0u8) == 0x63u8 &&
        affine(0u8) == 0x63u8
    ) by (bit_vector);
}

proof fn lemma_sbox_table_inverts(c: u8)
    ensures
        c != 0 ==> gf_mul(c, inv_affine(sbox_table(c))) == 1u8,
        sbox_table(0u8) == 0x63u8,
        affine(0u8) == 0x63u8,
{
    lemma_all_table_entries_invert();
    assert(
        c == 0u8 || c == 1u8 || c == 2u8 || c == 3u8 || c == 4u8 || c == 5u8 || c == 6u8 || c == 7u8 || c == 8u8 || c == 9u8 || c == 10u8 || c == 11u8 || c == 12u8 || c == 13u8 || c == 14u8 || c == 15u8 ||
        c == 16u8 || c == 17u8 || c == 18u8 || c == 19u8 || c == 20u8 || c == 21u8 || c == 22u8 || c == 23u8 || c == 24u8 || c == 25u8 || c == 26u8 || c == 27u8 || c == 28u8 || c == 29u8 || c == 30u8 || c == 31u8 ||
        c == 32u8 || c == 33u8 || c == 34u8 || c == 35u8 || c == 36u8 || c == 37u8 || c == 38u8 || c == 39u8 || c == 40u8 || c == 41u8 || c == 42u8 || c == 43u8 || c == 44u8 || c == 45u8 || c == 46u8 || c == 47u8 ||
        c == 48u8 || c == 49u8 || c == 50u8 || c == 51u8 || c == 52u8 || c == 53u8 || c == 54u8 || c == 55u8 || c == 56u8 || c == 57u8 || c == 58u8 || c == 59u8 || c == 60u8 || c == 61u8 || c == 62u8 || c == 63u8 ||
        c == 64u8 || c == 65u8 || c == 66u8 || c == 67u8 || c == 68u8 || c == 69u8 || c == 70u8 || c == 71u8 || c == 72u8 || c == 73u8 || c == 74u8 || c == 75u8 || c == 76u8 || c == 77u8 || c == 78u8 || c == 79u8 ||
        c == 80u8 || c == 81u8 || c == 82u8 || c == 83u8 || c == 84u8 || c == 85u8 || c == 86u8 || c == 87u8 || c == 88u8 || c == 89u8 || c == 90u8 || c == 91u8 || c == 92u8 || c == 93u8 || c == 94u8 || c == 95u8 ||
        c == 96u8 || c == 97u8 || c == 98u8 || c == 99u8 || c == 100u8 || c == 101u8 || c == 102u8 || c == 103u8 || c == 104u8 || c == 105u8 || c == 106u8 || c == 107u8 || c == 108u8 || c == 109u8 || c == 110u8 || c == 111u8 ||
        c == 112u8 || c == 113u8 || c == 114u8 || c == 115u8 || c == 116u8 || c == 117u8 || c == 118u8 || c == 119u8 || c == 120u8 || c == 121u8 || c == 122u8 || c == 123u8 || c == 124u8 || c == 125u8 || c == 126u8 || c == 127u8 ||
        c == 128u8 || c == 129u8 || c == 130u8 || c == 131u8 || c == 132u8 || c == 133u8 || c == 134u8 || c == 135u8 || c == 136u8 || c == 137u8 || c == 138u8 || c == 139u8 || c == 140u8 || c == 141u8 || c == 142u8 || c == 143u8 ||
        c == 144u8 || c == 145u8 || c == 146u8 || c == 147u8 || c == 148u8 || c == 149u8 || c == 150u8 || c == 151u8 || c == 152u8 || c == 153u8 || c == 154u8 || c == 155u8 || c == 156u8 || c == 157u8 || c == 158u8 || c == 159u8 ||
        c == 160u8 || c == 161u8 || c == 162u8 || c == 163u8 || c == 164u8 || c == 165u8 || c == 166u8 || c == 167u8 || c == 168u8 || c == 169u8 || c == 170u8 || c == 171u8 || c == 172u8 || c == 173u8 || c == 174u8 || c == 175u8 ||
        c == 176u8 || c == 177u8 || c == 178u8 || c == 179u8 || c == 180u8 || c == 181u8 || c == 182u8 || c == 183u8 || c == 184u8 || c == 185u8 || c == 186u8 || c == 187u8 || c == 188u8 || c == 189u8 || c == 190u8 || c == 191u8 ||
        c == 192u8 || c == 193u8 || c == 194u8 || c == 195u8 || c == 196u8 || c == 197u8 || c == 198u8 || c == 199u8 || c == 200u8 || c == 201u8 || c == 202u8 || c == 203u8 || c == 204u8 || c == 205u8 || c == 206u8 || c == 207u8 ||
        c == 208u8 || c == 209u8 || c == 210u8 || c == 211u8 || c == 212u8 || c == 213u8 || c == 214u8 || c == 215u8 || c == 216u8 || c == 217u8 || c == 218u8 || c == 219u8 || c == 220u8 || c == 221u8 || c == 222u8 || c == 223u8 ||
        c == 224u8 || c == 225u8 || c == 226u8 || c == 227u8 || c == 228u8 || c == 229u8 || c == 230u8 || c == 231u8 || c == 232u8 || c == 233u8 || c == 234u8 || c == 235u8 || c == 236u8 || c == 237u8 || c == 238u8 || c == 239u8 ||
        c == 240u8 || c == 241u8 || c == 242u8 || c == 243u8 || c == 244u8 || c == 245u8 || c == 246u8 || c == 247u8 || c == 248u8 || c == 249u8 || c == 250u8 || c == 251u8 || c == 252u8 || c == 253u8 || c == 254u8 || c == 255u8
    );
    assert(table_entry_inverts(c));
}

/// The S-box maps 0 to 0x63 and every other byte `c` to the image under the affine map of
/// the multiplicative inverse of `c`: applying the inverse affine map to `sbox(c)` gives a
/// byte whose product with `c` is 1.
pub proof fn lemma_sbox_is_affine_of_inverse(c: u8)
    ensures
        c != 0 ==> gf_mul(c, inv_affine(sbox(c))) == 1u8,
        c == 0 ==> sbox(c) == 0x63u8,
{
    lemma_affine_inverse();
    lemma_gf_inverse(c);
    lemma_sbox_table_inverts(c);
    assert(inv_affine(affine(gf_pow(c, 254))) == gf_pow(c, 254));
}

/// The S-box agrees with the table of FIPS-197 at every byte.
pub proof fn lemma_sbox_matches_table(c: u8)
    ensures
        sbox(c) == sbox_table(c),
{
    lemma_affine_inverse();
    lemma_sbox_table_inverts(c);
    lemma_sbox_is_affine_of_inverse(c);
    if c != 0 {
        let y1 = inv_affine(sbox(c));
        let y2 = inv_affine(sbox_table(c));
        lemma_gf_inverse_unique(c, y1, y2);
        assert(affine(inv_affine(sbox(c))) == sbox(c));
        assert(affine(inv_affine(sbox_table(c))) == sbox_table(c));
    }
}

/// The inverse S-box gives, for every byte `d`, the byte that the S-box table maps to `d`.
pub proof fn lemma_inv_sbox_matches_table(d: u8)
    ensures
        sbox_table(inv_sbox(d)) == d,
{
    lemma_sbox_inverse(d);
    lemma_sbox_matches_table(inv_sbox(d));
}

/// The round constant of round `i >= 1`: `x^(i-1)` in GF(2^8).
pub open spec fn rcon(i: nat) -> u8 {
    xtime_pow(1u8, (i - 1) as nat)
}

/// The round constants of rounds 1 to 10 as listed in FIPS-197.
pub open spec fn rcon_table(i: nat) -> u8 {
    if i == 1 { 0x01u8 }
    else if i == 2 { 0x02u8 }
    else if i == 3 { 0x04u8 }
    else if i == 4 { 0x08u8 }
    else if i == 5 { 0x10u8 }
    else if i == 6 { 0x20u8 }
    else if i == 7 { 0x40u8 }
    else if i == 8 { 0x80u8 }
    else if i == 9 { 0x1bu8 }
    else { 0x36u8 }
}

/// The round constants of rounds 1 to 10 are the powers of `x` listed in FIPS-197.
pub proof fn lemma_rcon_matches_table(i: nat)
    requires
        1 <= i <= 10,
    ensures
        rcon(i) == rcon_table(i),
{
    assert(
        xtime_pow(1u8, 0) == 0x01u8 && xtime_pow(1u8, 1) == 0x02u8 && xtime_pow(1u8, 2) == 0x04u8
        && xtime_pow(1u8, 3) == 0x08u8 && xtime_pow(1u8, 4) == 0x10u8 && xtime_pow(1u8, 5) == 0x20u8
        && xtime_pow(1u8, 6) == 0x40u8 && xtime_pow(1u8, 7) == 0x80u8 && xtime_pow(1u8, 8) == 0x1bu8
        && xtime_pow(1u8, 9) == 0x36u8
    ) by (bit_vector);
}

proof fn lemma_affine_inverse()
    by (bit_vector)
    ensures
        forall|x: u8| #[trigger] inv_affine(affine(x)) == x,
        forall|x: u8| #[trigger] affine(inv_affine(x)) == x,
{
}

/// The inverse S-box undoes the S-box, and the S-box undoes the inverse S-box.
pub proof fn lemma_sbox_inverse(c: u8)
    ensures
        inv_sbox(sbox(c)) == c,
        sbox(inv_sbox(c)) == c,
{
    lemma_affine_inverse();
    assert(inv_affine(affine(gf_pow(c, 254))) == gf_pow(c, 254));
    lemma_gf_inverse_involution(c);
    assert(affine(inv_affine(c)) == c);
    lemma_gf_inverse_involution(inv_affine(c));
}

/// Entry `(i, j)` of the circulant matrix whose first row is `(b0, b1, b2, b3)`.
pub open spec fn circulant(b0: u8, b1: u8, b2: u8, b3: u8, i: int, j: int) -> u8 {
    let d = (j - i) % 4;
    if d == 0 {
        b0
    } else if d == 1 {
        b1
    } else if d == 2 {
        b2
    } else {
        b3
    }
}

/// The MixColumns matrix.
pub open spec fn mix_matrix(i: int, j: int) -> u8 {
    circulant(2, 3, 1, 1, i, j)
}

/// The InvMixColumns matrix.
pub open spec fn inv_mix_matrix(i: int, j: int) -> u8 {
    circulant(14, 11, 13, 9, i, j)
}

/// Row `i` of the matrix `m` (given as a function) times the column `w`, over GF(2^8).
pub open spec fn matrix_row_times(m: spec_fn(int, int) -> u8, i: int, w: Seq<u8>) -> u8 {
    gf_mul(m(i, 0), w[0]) ^ gf_mul(m(i, 1), w[1]) ^ gf_mul(m(i, 2), w[2]) ^ gf_mul(m(i, 3), w[3])
}

/// The MixColumns matrix as a function of row and column.
pub open spec fn mix_m() -> spec_fn(int, int) -> u8 {
    |r: int, c: int| mix_matrix(r, c)
}

/// The InvMixColumns matrix as a function of row and column.
pub open spec fn inv_mix_m() -> spec_fn(int, int) -> u8 {
    |r: int, c: int| inv_mix_matrix(r, c)
}

/// MixColumns on one four-byte column.
pub open spec fn mix_column(w: Seq<u8>) -> Seq<u8> {
    matrix_times(mix_m(), w)
}

/// InvMixColumns on one four-byte column.
pub open spec fn inv_mix_column(w: Seq<u8>) -> Seq<u8> {
    matrix_times(inv_mix_m(), w)
}

/// Column `j` of the matrix `m`.
pub open spec fn matrix_column(m: spec_fn(int, int) -> u8, j: int) -> Seq<u8> {
    Seq::new(4, |c: int| m(c, j))
}

/// The matrix `m` times the column `w`, over GF(2^8).
pub open spec fn matrix_times(m: spec_fn(int, int) -> u8, w: Seq<u8>) -> Seq<u8> {
    Seq::new(4, |i: int| matrix_row_times(m, i, w))
}

proof fn lemma_xor_regroup(x00: u8, x01: u8, x02: u8, x03: u8, x10: u8, x11: u8, x12: u8, x13: u8,
    x20: u8, x21: u8, x22: u8, x23: u8, x30: u8, x31: u8, x32: u8, x33: u8)
    by (bit_vector)
    ensures
        (x00 ^ x01 ^ x02 ^ x03) ^ (x10 ^ x11 ^ x12 ^ x13) ^ (x20 ^ x21 ^ x22 ^ x23) ^ (x30 ^ x31 ^ x32 ^ x33)
            == (x00 ^ x10 ^ x20 ^ x30) ^ (x01 ^ x11 ^ x21 ^ x31) ^ (x02 ^ x12 ^ x22 ^ x32) ^ (x03 ^ x13 ^ x23 ^ x33),
{
}

proof fn lemma_xor_zeros(x: u8)
    by (bit_vector)
    ensures
        x ^ 0u8 ^ 0u8 ^ 0u8 == x,
        0u8 ^ x ^ 0u8 ^ 0u8 == x,
        0u8 ^ 0u8 ^ x ^ 0u8 == x,
        0u8 ^ 0u8 ^ 0u8 ^ x == x,
{
}

proof fn lemma_row_dot(a: spec_fn(int, int) -> u8, b: spec_fn(int, int) -> u8, w: Seq<u8>, i: int, c: int)
    requires
        w.len() == 4,
    ensures
        gf_mul(a(i, c), matrix_row_times(b, c, w)) ==
            gf_mul(gf_mul(a(i, c), b(c, 0)), w[0]) ^ gf_mul(gf_mul(a(i, c), b(c, 1)), w[1])
            ^ gf_mul(gf_mul(a(i, c), b(c, 2)), w[2]) ^ gf_mul(gf_mul(a(i, c), b(c, 3)), w[3]),
{
    let t0 = gf_mul(b(c, 0), w[0]);
    let t1 = gf_mul(b(c, 1), w[1]);
    let t2 = gf_mul(b(c, 2), w[2]);
    let t3 = gf_mul(b(c, 3), w[3]);
    lemma_gf_mul_distributive(a(i, c), t0 ^ t1 ^ t2, t3);
    lemma_gf_mul_distributive(a(i, c), t0 ^ t1, t2);
    lemma_gf_mul_distributive(a(i, c), t0, t1);
    lemma_gf_mul_associative(a(i, c), b(c, 0), w[0]);
    lemma_gf_mul_associative(a(i, c), b(c, 1), w[1]);
    lemma_gf_mul_associative(a(i, c), b(c, 2), w[2]);
    lemma_gf_mul_associative(a(i, c), b(c, 3), w[3]);
}

proof fn lemma_column_sum(a: spec_fn(int, int) -> u8, b: spec_fn(int, int) -> u8, w: Seq<u8>, i: int, j: int)
    requires
        w.len() == 4,
    ensures
        gf_mul(gf_mul(a(i, 0), b(0, j)), w[j]) ^ gf_mul(gf_mul(a(i, 1), b(1, j)), w[j])
            ^ gf_mul(gf_mul(a(i, 2), b(2, j)), w[j]) ^ gf_mul(gf_mul(a(i, 3), b(3, j)), w[j])
            == gf_mul(matrix_row_times(a, i, matrix_column(b, j)), w[j]),
{
    let k0 = gf_mul(a(i, 0), b(0, j));
    let k1 = gf_mul(a(i, 1), b(1, j));
    let k2 = gf_mul(a(i, 2), b(2, j));
    let k3 = gf_mul(a(i, 3), b(3, j));
    lemma_gf_mul_distributive(w[j], k0 ^ k1 ^ k2, k3);
    lemma_gf_mul_distributive(w[j], k0 ^ k1, k2);
    lemma_gf_mul_distributive(w[j], k0, k1);
    assert(matrix_row_times(a, i, matrix_column(b, j)) == k0 ^ k1 ^ k2 ^ k3);
}

proof fn lemma_matrix_row_inverse(a: spec_fn(int, int) -> u8, b: spec_fn(int, int) -> u8, w: Seq<u8>, i: int)
    requires
        w.len() == 4,
        0 <= i < 4,
        forall|j: int| 0 <= j < 4 ==>
            #[trigger] matrix_row_times(a, i, matrix_column(b, j)) == (if i == j { 1u8 } else { 0u8 }),
    ensures
        matrix_row_times(a, i, matrix_times(b, w)) == w[i],
{
    let v = matrix_times(b, w);
    lemma_row_dot(a, b, w, i, 0);
    lemma_row_dot(a, b, w, i, 1);
    lemma_row_dot(a, b, w, i, 2);
    lemma_row_dot(a, b, w, i, 3);
    let x = |c: int, j: int| gf_mul(gf_mul(a(i, c), b(c, j)), w[j]);
    assert(matrix_row_times(a, i, v) ==
        (x(0, 0) ^ x(0, 1) ^ x(0, 2) ^ x(0, 3)) ^ (x(1, 0) ^ x(1, 1) ^ x(1, 2) ^ x(1, 3))
        ^ (x(2, 0) ^ x(2, 1) ^ x(2, 2) ^ x(2, 3)) ^ (x(3, 0) ^ x(3, 1) ^ x(3, 2) ^ x(3, 3)));
    lemma_xor_regroup(x(0, 0), x(0, 1), x(0, 2), x(0, 3), x(1, 0), x(1, 1), x(1, 2), x(1, 3),
        x(2, 0), x(2, 1), x(2, 2), x(2, 3), x(3, 0), x(3, 1), x(3, 2), x(3, 3));
    lemma_column_sum(a, b, w, i, 0);
    lemma_column_sum(a, b, w, i, 1);
    lemma_column_sum(a, b, w, i, 2);
    lemma_column_sum(a, b, w, i, 3);
    let d0 = matrix_row_times(a, i, matrix_column(b, 0));
    let d1 = matrix_row_times(a, i, matrix_column(b, 1));
    let d2 = matrix_row_times(a, i, matrix_column(b, 2));
    let d3 = matrix_row_times(a, i, matrix_column(b, 3));
    assert(matrix_row_times(a, i, v) ==
        gf_mul(d0, w[0]) ^ gf_mul(d1, w[1]) ^ gf_mul(d2, w[2]) ^ gf_mul(d3, w[3]));
    lemma_gf_mul_zero_one(w[0]);
    lemma_gf_mul_zero_one(w[1]);
    lemma_gf_mul_zero_one(w[2]);
    lemma_gf_mul_zero_one(w[3]);
    lemma_xor_zeros(w[i]);
}

/// If `a * b` is the identity matrix, then multiplying by `b` and then by `a` gives back the column.
pub proof fn lemma_matrix_inverse(a: spec_fn(int, int) -> u8, b: spec_fn(int, int) -> u8, w: Seq<u8>)
    requires
        w.len() == 4,
        forall|i: int, j: int| 0 <= i < 4 && 0 <= j < 4 ==>
            #[trigger] matrix_row_times(a, i, matrix_column(b, j)) == (if i == j { 1u8 } else { 0u8 }),
    ensures
        matrix_times(a, matrix_times(b, w)) == w,
{
    lemma_matrix_row_inverse(a, b, w, 0);
    lemma_matrix_row_inverse(a, b, w, 1);
    lemma_matrix_row_inverse(a, b, w, 2);
    lemma_matrix_row_inverse(a, b, w, 3);
    assert(matrix_times(a, matrix_times(b, w)) =~= w);
}

proof fn lemma_mix_matrices_inverse()
    ensures
        forall|i: int, j: int| 0 <= i < 4 && 0 <= j < 4 ==>
            #[trigger] matrix_row_times(inv_mix_m(), i, matrix_column(mix_m(), j))
                == (if i == j { 1u8 } else { 0u8 }),
        forall|i: int, j: int| 0 <= i < 4 && 0 <= j < 4 ==>
            #[trigger] matrix_row_times(mix_m(), i, matrix_column(inv_mix_m(), j))
                == (if i == j { 1u8 } else { 0u8 }),
{
    assert(
        (gf_mul(14u8, 2u8) ^ gf_mul(11u8, 1u8) ^ gf_mul(13u8, 1u8) ^ gf_mul(9u8, 3u8)) == 1u8 &&
        (gf_mul(14u8, 3u8) ^ gf_mul(11u8, 2u8) ^ gf_mul(13u8, 1u8) ^ gf_mul(9u8, 1u8)) == 0u8 &&
        (gf_mul(14u8, 1u8) ^ gf_mul(11u8, 3u8) ^ gf_mul(13u8, 2u8) ^ gf_mul(9u8, 1u8)) == 0u8 &&
        (gf_mul(14u8, 1u8) ^ gf_mul(11u8, 1u8) ^ gf_mul(13u8, 3u8) ^ gf_mul(9u8, 2u8)) == 0u8 &&
        (gf_mul(9u8, 2u8) ^ gf_mul(14u8, 1u8) ^ gf_mul(11u8, 1u8) ^ gf_mul(13u8, 3u8)) == 0u8 &&
        (gf_mul(9u8, 3u8) ^ gf_mul(14u8, 2u8) ^ gf_mul(11u8, 1u8) ^ gf_mul(13u8, 1u8)) == 1u8 &&
        (gf_mul(9u8, 1u8) ^ gf_mul(14u8, 3u8) ^ gf_mul(11u8, 2u8) ^ gf_mul(13u8, 1u8)) == 0u8 &&
        (gf_mul(9u8, 1u8) ^ gf_mul(14u8, 1u8) ^ gf_mul(11u8, 3u8) ^ gf_mul(13u8, 2u8)) == 0u8 &&
        (gf_mul(13u8, 2u8) ^ gf_mul(9u8, 1u8) ^ gf_mul(14u8, 1u8) ^ gf_mul(11u8, 3u8)) == 0u8 &&
        (gf_mul(13u8, 3u8) ^ gf_mul(9u8, 2u8) ^ gf_mul(14u8, 1u8) ^ gf_mul(11u8, 1u8)) == 0u8 &&
        (gf_mul(13u8, 1u8) ^ gf_mul(9u8, 3u8) ^ gf_mul(14u8, 2u8) ^ gf_mul(11u8, 1u8)) == 1u8 &&
        (gf_mul(13u8, 1u8) ^ gf_mul(9u8, 1u8) ^ gf_mul(14u8, 3u8) ^ gf_mul(11u8, 2u8)) == 0u8 &&
        (gf_mul(11u8, 2u8) ^ gf_mul(13u8, 1u8) ^ gf_mul(9u8, 1u8) ^ gf_mul(14u8, 3u8)) == 0u8 &&
        (gf_mul(11u8, 3u8) ^ gf_mul(13u8, 2u8) ^ gf_mul(9u8, 1u8) ^ gf_mul(14u8, 1u8)) == 0u8 &&
        (gf_mul(11u8, 1u8) ^ gf_mul(13u8, 3u8) ^ gf_mul(9u8, 2u8) ^ gf_mul(14u8, 1u8)) == 0u8 &&
        (gf_mul(11u8, 1u8) ^ gf_mul(13u8, 1u8) ^ gf_mul(9u8, 3u8) ^ gf_mul(14u8, 2u8)) == 1u8 &&
        (gf_mul(2u8, 14u8) ^ gf_mul(3u8, 9u8) ^ gf_mul(1u8, 13u8) ^ gf_mul(1u8, 11u8)) == 1u8 &&
        (gf_mul(2u8, 11u8) ^ gf_mul(3u8, 14u8) ^ gf_mul(1u8, 9u8) ^ gf_mul(1u8, 13u8)) == 0u8 &&
        (gf_mul(2u8, 13u8) ^ gf_mul(3u8, 11u8) ^ gf_mul(1u8, 14u8) ^ gf_mul(1u8, 9u8)) == 0u8 &&
        (gf_mul(2u8, 9u8) ^ gf_mul(3u8, 13u8) ^ gf_mul(1u8, 11u8) ^ gf_mul(1u8, 14u8)) == 0u8 &&
        (gf_mul(1u8, 14u8) ^ gf_mul(2u8, 9u8) ^ gf_mul(3u8, 13u8) ^ gf_mul(1u8, 11u8)) == 0u8 &&
        (gf_mul(1u8, 11u8) ^ gf_mul(2u8, 14u8) ^ gf_mul(3u8, 9u8) ^ gf_mul(1u8, 13u8)) == 1u8 &&
        (gf_mul(1u8, 13u8) ^ gf_mul(2u8, 11u8) ^ gf_mul(3u8, 14u8) ^ gf_mul(1u8, 9u8)) == 0u8 &&
        (gf_mul(1u8, 9u8) ^ gf_mul(2u8, 13u8) ^ gf_mul(3u8, 11u8) ^ gf_mul(1u8, 14u8)) == 0u8 &&
        (gf_mul(1u8, 14u8) ^ gf_mul(1u8, 9u8) ^ gf_mul(2u8, 13u8) ^ gf_mul(3u8, 11u8)) == 0u8 &&
        (gf_mul(1u8, 11u8) ^ gf_mul(1u8, 14u8) ^ gf_mul(2u8, 9u8) ^ gf_mul(3u8, 13u8)) == 0u8 &&
        (gf_mul(1u8, 13u8) ^ gf_mul(1u8, 11u8) ^ gf_mul(2u8, 14u8) ^ gf_mul(3u8, 9u8)) == 1u8 &&
        (gf_mul(1u8, 9u8) ^ gf_mul(1u8, 13u8) ^ gf_mul(2u8, 11u8) ^ gf_mul(3u8, 14u8)) == 0u8 &&
        (gf_mul(3u8, 14u8) ^ gf_mul(1u8, 9u8) ^ gf_mul(1u8, 13u8) ^ gf_mul(2u8, 11u8)) == 0u8 &&
        (gf_mul(3u8, 11u8) ^ gf_mul(1u8, 14u8) ^ gf_mul(1u8, 9u8) ^ gf_mul(2u8, 13u8)) == 0u8 &&
        (gf_mul(3u8, 13u8) ^ gf_mul(1u8, 11u8) ^ gf_mul(1u8, 14u8) ^ gf_mul(2u8, 9u8)) == 0u8 &&
        (gf_mul(3u8, 9u8) ^ gf_mul(1u8, 13u8) ^ gf_mul(1u8, 11u8) ^ gf_mul(2u8, 14u8)) == 1u8
    ) by (bit_vector);
    assert(matrix_row_times(inv_mix_m(), 0, matrix_column(mix_m(), 0)) == 1u8);
    assert(matrix_row_times(inv_mix_m(), 0, matrix_column(mix_m(), 1)) == 0u8);
    assert(matrix_row_times(inv_mix_m(), 0, matrix_column(mix_m(), 2)) == 0u8);
    assert(matrix_row_times(inv_mix_m(), 0, matrix_column(mix_m(), 3)) == 0u8);
    assert(matrix_row_times(inv_mix_m(), 1, matrix_column(mix_m(), 0)) == 0u8);
    assert(matrix_row_times(inv_mix_m(), 1, matrix_column(mix_m(), 1)) == 1u8);
    assert(matrix_row_times(inv_mix_m(), 1, matrix_column(mix_m(), 2)) == 0u8);
    assert(matrix_row_times(inv_mix_m(), 1, matrix_column(mix_m(), 3)) == 0u8);
    assert(matrix_row_times(inv_mix_m(), 2, matrix_column(mix_m(), 0)) == 0u8);
    assert(matrix_row_times(inv_mix_m(), 2, matrix_column(mix_m(), 1)) == 0u8);
    assert(matrix_row_times(inv_mix_m(), 2, matrix_column(mix_m(), 2)) == 1u8);
    assert(matrix_row_times(inv_mix_m(), 2, matrix_column(mix_m(), 3)) == 0u8);
    assert(matrix_row_times(inv_mix_m(), 3, matrix_column(mix_m(), 0)) == 0u8);
    assert(matrix_row_times(inv_mix_m(), 3, matrix_column(mix_m(), 1)) == 0u8);
    assert(matrix_row_times(inv_mix_m(), 3, matrix_column(mix_m(), 2)) == 0u8);
    assert(matrix_row_times(inv_mix_m(), 3, matrix_column(mix_m(), 3)) == 1u8);
    assert(matrix_row_times(mix_m(), 0, matrix_column(inv_mix_m(), 0)) == 1u8);
    assert(matrix_row_times(mix_m(), 0, matrix_column(inv_mix_m(), 1)) == 0u8);
    assert(matrix_row_times(mix_m(), 0, matrix_column(inv_mix_m(), 2)) == 0u8);
    assert(matrix_row_times(mix_m(), 0, matrix_column(inv_mix_m(), 3)) == 0u8);
    assert(matrix_row_times(mix_m(), 1, matrix_column(inv_mix_m(), 0)) == 0u8);
    assert(matrix_row_times(mix_m(), 1, matrix_column(inv_mix_m(), 1)) == 1u8);
    assert(matrix_row_times(mix_m(), 1, matrix_column(inv_mix_m(), 2)) == 0u8);
    assert(matrix_row_times(mix_m(), 1, matrix_column(inv_mix_m(), 3)) == 0u8);
    assert(matrix_row_times(mix_m(), 2, matrix_column(inv_mix_m(), 0)) == 0u8);
    assert(matrix_row_times(mix_m(), 2, matrix_column(inv_mix_m(), 1)) == 0u8);
    assert(matrix_row_times(mix_m(), 2, matrix_column(inv_mix_m(), 2)) == 1u8);
    assert(matrix_row_times(mix_m(), 2, matrix_column(inv_mix_m(), 3)) == 0u8);
    assert(matrix_row_times(mix_m(), 3, matrix_column(inv_mix_m(), 0)) == 0u8);
    assert(matrix_row_times(mix_m(), 3, matrix_column(inv_mix_m(), 1)) == 0u8);
    assert(matrix_row_times(mix_m(), 3, matrix_column(inv_mix_m(), 2)) == 0u8);
    assert(matrix_row_times(mix_m(), 3, matrix_column(inv_mix_m(), 3)) == 1u8);
}

/// InvMixColumns undoes MixColumns on a column, and MixColumns undoes InvMixColumns.
pub proof fn lemma_mix_column_inverse(w: Seq<u8>)
    requires
        w.len() == 4,
    ensures
        inv_mix_column(mix_column(w)) == w,
        mix_column(inv_mix_column(w)) == w,
{
    lemma_mix_matrices_inverse();
    lemma_matrix_inverse(inv_mix_m(), mix_m(), w);
    lemma_matrix_inverse(mix_m(), inv_mix_m(), w);
}

proof fn lemma_small_products()
    by (bit_vector)
    ensures
        forall|a: u8| #[trigger] gf_mul(1u8, a) == a,
        forall|a: u8| #[trigger] gf_mul(2u8, a) == xtime(a),
        forall|a: u8| #[trigger] gf_mul(3u8, a) == xtime(a) ^ a,
{
}

/// MixColumns as FIPS-197 writes it: byte `i` of the new column is `{02}` times byte `i`,
/// plus `{03}` times byte `i + 1`, plus bytes `i + 2` and `i + 3` (indices modulo 4), where
/// `{02}` times a byte is `xtime` of it.
pub proof fn lemma_mix_column_bytes(w: Seq<u8>)
    requires
        w.len() == 4,
    ensures
        forall|i: int| 0 <= i < 4 ==> #[trigger] mix_column(w)[i] ==
            xtime(w[i]) ^ (xtime(w[(i + 1) % 4]) ^ w[(i + 1) % 4]) ^ w[(i + 2) % 4] ^ w[(i + 3) % 4],
{
    lemma_small_products();
    lemma_gf_mul_commutative(2u8, 3u8);
    assert forall|i: int| 0 <= i < 4 implies #[trigger] mix_column(w)[i] ==
        xtime(w[i]) ^ (xtime(w[(i + 1) % 4]) ^ w[(i + 1) % 4]) ^ w[(i + 2) % 4] ^ w[(i + 3) % 4] by {
        assert(i == 0 || i == 1 || i == 2 || i == 3);
        if i == 0 {
            assert(mix_column(w)[0] == gf_mul(2u8, w[0]) ^ gf_mul(3u8, w[1]) ^ gf_mul(1u8, w[2]) ^ gf_mul(1u8, w[3]));
        } else if i == 1 {
            assert(mix_column(w)[1] == gf_mul(1u8, w[0]) ^ gf_mul(2u8, w[1]) ^ gf_mul(3u8, w[2]) ^ gf_mul(1u8, w[3]));
            lemma_xor4_rotate(xtime(w[1]), xtime(w[2]) ^ w[2], w[3], w[0]);
        } else if i == 2 {
            assert(mix_column(w)[2] == gf_mul(1u8, w[0]) ^ gf_mul(1u8, w[1]) ^ gf_mul(2u8, w[2]) ^ gf_mul(3u8, w[3]));
            lemma_xor4_rotate(w[0], w[1], xtime(w[2]), xtime(w[3]) ^ w[3]);
        } else {
            assert(mix_column(w)[3] == gf_mul(3u8, w[0]) ^ gf_mul(1u8, w[1]) ^ gf_mul(1u8, w[2]) ^ gf_mul(2u8, w[3]));
            lemma_xor4_rotate(xtime(w[3]), xtime(w[0]) ^ w[0], w[1], w[2]);
        }
    }
}

proof fn lemma_xor4_rotate(a: u8, b: u8, c: u8, d: u8)
    by (bit_vector)
    ensures
        d ^ a ^ b ^ c == a ^ b ^ c ^ d,
        c ^ d ^ a ^ b == a ^ b ^ c ^ d,
        b ^ c ^ d ^ a == a ^ b ^ c ^ d,
{
}

} // verus!
