//! The modified DES block cipher used by encrypted lyric payloads.
//!
//! This is deliberately *not* standard DES: the S-boxes and a few
//! permutations differ, matching the cipher that the encrypted lyric
//! format uses. Every function is specified by a mathematical mirror
//! (`spec_*`) of its bit-level definition, so the executable code is
//! proved to compute exactly those bit permutations and table lookups.
use vstd::prelude::*;
use vstd::slice::slice_subrange;

verus! {

/// Selects whether a key schedule is generated for encryption or
/// decryption; decryption reverses the order of the round subkeys.
#[derive(Clone, Copy, PartialEq, Eq, Structural, Debug)]
pub enum DesMode {
    Encrypt,
    Decrypt,
}

pub open spec fn spec_sbox(b: int) -> Seq<u8> {
    if b == 0 {
        seq![
            14u8, 4, 13, 1, 2, 15, 11, 8, 3, 10, 6, 12, 5, 9, 0, 7, 0, 15, 7, 4, 14, 2, 13, 1, 10,
            6, 12, 11, 9, 5, 3, 8, 4, 1, 14, 8, 13, 6, 2, 11, 15, 12, 9, 7, 3, 10, 5, 0, 15, 12,
            8, 2, 4, 9, 1, 7, 5, 11, 3, 14, 10, 0, 6, 13,
        ]
    } else if b == 1 {
        seq![
            15u8, 1, 8, 14, 6, 11, 3, 4, 9, 7, 2, 13, 12, 0, 5, 10, 3, 13, 4, 7, 15, 2, 8, 15, 12,
            0, 1, 10, 6, 9, 11, 5, 0, 14, 7, 11, 10, 4, 13, 1, 5, 8, 12, 6, 9, 3, 2, 15, 13, 8,
            10, 1, 3, 15, 4, 2, 11, 6, 7, 12, 0, 5, 14, 9,
        ]
    } else if b == 2 {
        seq![
            10u8, 0, 9, 14, 6, 3, 15, 5, 1, 13, 12, 7, 11, 4, 2, 8, 13, 7, 0, 9, 3, 4, 6, 10, 2,
            8, 5, 14, 12, 11, 15, 1, 13, 6, 4, 9, 8, 15, 3, 0, 11, 1, 2, 12, 5, 10, 14, 7, 1, 10,
            13, 0, 6, 9, 8, 7, 4, 15, 14, 3, 11, 5, 2, 12,
        ]
    } else if b == 3 {
        seq![
            7u8, 13, 14, 3, 0, 6, 9, 10, 1, 2, 8, 5, 11, 12, 4, 15, 13, 8, 11, 5, 6, 15, 0, 3, 4,
            7, 2, 12, 1, 10, 14, 9, 10, 6, 9, 0, 12, 11, 7, 13, 15, 1, 3, 14, 5, 2, 8, 4, 3, 15,
            0, 6, 10, 10, 13, 8, 9, 4, 5, 11, 12, 7, 2, 14,
        ]
    } else if b == 4 {
        seq![
            2u8, 12, 4, 1, 7, 10, 11, 6, 8, 5, 3, 15, 13, 0, 14, 9, 14, 11, 2, 12, 4, 7, 13, 1, 5,
            0, 15, 10, 3, 9, 8, 6, 4, 2, 1, 11, 10, 13, 7, 8, 15, 9, 12, 5, 6, 3, 0, 14, 11, 8,
            12, 7, 1, 14, 2, 13, 6, 15, 0, 9, 10, 4, 5, 3,
        ]
    } else if b == 5 {
        seq![
            12u8, 1, 10, 15, 9, 2, 6, 8, 0, 13, 3, 4, 14, 7, 5, 11, 10, 15, 4, 2, 7, 12, 9, 5, 6,
            1, 13, 14, 0, 11, 3, 8, 9, 14, 15, 5, 2, 8, 12, 3, 7, 0, 4, 10, 1, 13, 11, 6, 4, 3, 2,
            12, 9, 5, 15, 10, 11, 14, 1, 7, 6, 0, 8, 13,
        ]
    } else if b == 6 {
        seq![
            4u8, 11, 2, 14, 15, 0, 8, 13, 3, 12, 9, 7, 5, 10, 6, 1, 13, 0, 11, 7, 4, 9, 1, 10, 14,
            3, 5, 12, 2, 15, 8, 6, 1, 4, 11, 13, 12, 3, 7, 14, 10, 15, 6, 8, 0, 5, 9, 2, 6, 11,
            13, 8, 1, 4, 10, 7, 9, 5, 0, 15, 14, 2, 3, 12,
        ]
    } else {
        seq![
            13u8, 2, 8, 4, 6, 15, 11, 1, 10, 9, 3, 14, 5, 0, 12, 7, 1, 15, 13, 8, 10, 3, 7, 4, 12,
            5, 6, 11, 0, 14, 9, 2, 7, 11, 4, 1, 9, 12, 14, 2, 0, 6, 10, 13, 15, 3, 5, 8, 2, 1, 14,
            7, 4, 10, 8, 13, 15, 12, 9, 0, 3, 5, 6, 11,
        ]
    }
}

/// One of the eight substitution boxes, as a table usable from
/// executable code.
pub fn sbox_table(b: usize) -> (t: [u8; 64])
    requires
        b < 8,
    ensures
        t@ == spec_sbox(b as int),
{
    let t: [u8; 64] = match b {
        0 => [
            14u8, 4, 13, 1, 2, 15, 11, 8, 3, 10, 6, 12, 5, 9, 0, 7, 0, 15, 7, 4, 14, 2, 13, 1, 10,
            6, 12, 11, 9, 5, 3, 8, 4, 1, 14, 8, 13, 6, 2, 11, 15, 12, 9, 7, 3, 10, 5, 0, 15, 12,
            8, 2, 4, 9, 1, 7, 5, 11, 3, 14, 10, 0, 6, 13,
        ],
        1 => [
            15u8, 1, 8, 14, 6, 11, 3, 4, 9, 7, 2, 13, 12, 0, 5, 10, 3, 13, 4, 7, 15, 2, 8, 15, 12,
            0, 1, 10, 6, 9, 11, 5, 0, 14, 7, 11, 10, 4, 13, 1, 5, 8, 12, 6, 9, 3, 2, 15, 13, 8,
            10, 1, 3, 15, 4, 2, 11, 6, 7, 12, 0, 5, 14, 9,
        ],
        2 => [
            10u8, 0, 9, 14, 6, 3, 15, 5, 1, 13, 12, 7, 11, 4, 2, 8, 13, 7, 0, 9, 3, 4, 6, 10, 2,
            8, 5, 14, 12, 11, 15, 1, 13, 6, 4, 9, 8, 15, 3, 0, 11, 1, 2, 12, 5, 10, 14, 7, 1, 10,
            13, 0, 6, 9, 8, 7, 4, 15, 14, 3, 11, 5, 2, 12,
        ],
        3 => [
            7u8, 13, 14, 3, 0, 6, 9, 10, 1, 2, 8, 5, 11, 12, 4, 15, 13, 8, 11, 5, 6, 15, 0, 3, 4,
            7, 2, 12, 1, 10, 14, 9, 10, 6, 9, 0, 12, 11, 7, 13, 15, 1, 3, 14, 5, 2, 8, 4, 3, 15,
            0, 6, 10, 10, 13, 8, 9, 4, 5, 11, 12, 7, 2, 14,
        ],
        4 => [
            2u8, 12, 4, 1, 7, 10, 11, 6, 8, 5, 3, 15, 13, 0, 14, 9, 14, 11, 2, 12, 4, 7, 13, 1, 5,
            0, 15, 10, 3, 9, 8, 6, 4, 2, 1, 11, 10, 13, 7, 8, 15, 9, 12, 5, 6, 3, 0, 14, 11, 8,
            12, 7, 1, 14, 2, 13, 6, 15, 0, 9, 10, 4, 5, 3,
        ],
        5 => [
            12u8, 1, 10, 15, 9, 2, 6, 8, 0, 13, 3, 4, 14, 7, 5, 11, 10, 15, 4, 2, 7, 12, 9, 5, 6,
            1, 13, 14, 0, 11, 3, 8, 9, 14, 15, 5, 2, 8, 12, 3, 7, 0, 4, 10, 1, 13, 11, 6, 4, 3, 2,
            12, 9, 5, 15, 10, 11, 14, 1, 7, 6, 0, 8, 13,
        ],
        6 => [
            4u8, 11, 2, 14, 15, 0, 8, 13, 3, 12, 9, 7, 5, 10, 6, 1, 13, 0, 11, 7, 4, 9, 1, 10, 14,
            3, 5, 12, 2, 15, 8, 6, 1, 4, 11, 13, 12, 3, 7, 14, 10, 15, 6, 8, 0, 5, 9, 2, 6, 11,
            13, 8, 1, 4, 10, 7, 9, 5, 0, 15, 14, 2, 3, 12,
        ],
        _ => [
            13u8, 2, 8, 4, 6, 15, 11, 1, 10, 9, 3, 14, 5, 0, 12, 7, 1, 15, 13, 8, 10, 3, 7, 4, 12,
            5, 6, 11, 0, 14, 9, 2, 7, 11, 4, 1, 9, 12, 14, 2, 0, 6, 10, 13, 15, 3, 5, 8, 2, 1, 14,
            7, 4, 10, 8, 13, 15, 12, 9, 0, 3, 5, 6, 11,
        ],
    };
    proof {
        assert(t@ =~= spec_sbox(b as int));
    }
    t
}

pub open spec fn spec_key_rnd_shift() -> Seq<u32> {
    seq![
        1u32, 1, 2, 2, 2, 2, 2, 2, 1, 2, 2, 2, 2, 2, 2, 1,
    ]
}

pub fn key_rnd_shift_at(i: usize) -> (r: u32)
    requires
        i < 16,
    ensures
        r == spec_key_rnd_shift()[i as int],
        1 <= r <= 2,
{
    let t: [u32; 16] = [
        1u32, 1, 2, 2, 2, 2, 2, 2, 1, 2, 2, 2, 2, 2, 2, 1,
    ];
    proof {
        assert(t@ =~= spec_key_rnd_shift());
    }
    t[i]
}

pub open spec fn spec_key_perm_c() -> Seq<usize> {
    seq![
        56usize, 48, 40, 32, 24, 16, 8, 0, 57, 49, 41, 33, 25, 17, 9, 1, 58, 50, 42, 34, 26, 18,
        10, 2, 59, 51, 43, 35,
    ]
}

pub fn key_perm_c_at(i: usize) -> (r: usize)
    requires
        i < 28,
    ensures
        r == spec_key_perm_c()[i as int],
        r < 64,
{
    let t: [usize; 28] = [
        56usize, 48, 40, 32, 24, 16, 8, 0, 57, 49, 41, 33, 25, 17, 9, 1, 58, 50, 42, 34, 26, 18,
        10, 2, 59, 51, 43, 35,
    ];
    proof {
        assert(t@ =~= spec_key_perm_c());
    }
    t[i]
}

pub open spec fn spec_key_perm_d() -> Seq<usize> {
    seq![
        62usize, 54, 46, 38, 30, 22, 14, 6, 61, 53, 45, 37, 29, 21, 13, 5, 60, 52, 44, 36, 28, 20,
        12, 4, 27, 19, 11, 3,
    ]
}

pub fn key_perm_d_at(i: usize) -> (r: usize)
    requires
        i < 28,
    ensures
        r == spec_key_perm_d()[i as int],
        r < 64,
{
    let t: [usize; 28] = [
        62usize, 54, 46, 38, 30, 22, 14, 6, 61, 53, 45, 37, 29, 21, 13, 5, 60, 52, 44, 36, 28, 20,
        12, 4, 27, 19, 11, 3,
    ];
    proof {
        assert(t@ =~= spec_key_perm_d());
    }
    t[i]
}

pub open spec fn spec_key_compression() -> Seq<usize> {
    seq![
        13usize, 16, 10, 23, 0, 4, 2, 27, 14, 5, 20, 9, 22, 18, 11, 3, 25, 7, 15, 6, 26, 19, 12,
        1, 40, 51, 30, 36, 46, 54, 29, 39, 50, 44, 32, 47, 43, 48, 38, 55, 33, 52, 45, 41, 49, 35,
        28, 31,
    ]
}

pub fn key_compression_at(i: usize) -> (r: usize)
    requires
        i < 48,
    ensures
        r == spec_key_compression()[i as int],
        r < 59,
        i < 24 ==> r < 28,
        24 <= i ==> 27 <= r,
{
    let t: [usize; 48] = [
        13usize, 16, 10, 23, 0, 4, 2, 27, 14, 5, 20, 9, 22, 18, 11, 3, 25, 7, 15, 6, 26, 19, 12,
        1, 40, 51, 30, 36, 46, 54, 29, 39, 50, 44, 32, 47, 43, 48, 38, 55, 33, 52, 45, 41, 49, 35,
        28, 31,
    ];
    proof {
        assert(t@ =~= spec_key_compression());
    }
    t[i]
}

pub open spec fn spec_pbox() -> Seq<u32> {
    seq![
        15u32, 6, 19, 20, 28, 11, 27, 16, 0, 14, 22, 25, 4, 17, 30, 9, 1, 7, 23, 13, 31, 26, 2, 8,
        18, 12, 29, 5, 21, 10, 3, 24,
    ]
}

pub fn pbox_at(i: usize) -> (r: u32)
    requires
        i < 32,
    ensures
        r == spec_pbox()[i as int],
        r < 32,
{
    let t: [u32; 32] = [
        15u32, 6, 19, 20, 28, 11, 27, 16, 0, 14, 22, 25, 4, 17, 30, 9, 1, 7, 23, 13, 31, 26, 2, 8,
        18, 12, 29, 5, 21, 10, 3, 24,
    ];
    proof {
        assert(t@ =~= spec_pbox());
    }
    t[i]
}

/// Extracts bit `b` (in the cipher's byte-swapped numbering) of an
/// 8-byte block and places it at bit position `c` of a 32-bit word.
pub open spec fn spec_bitnum(a: Seq<u8>, b: nat, c: nat) -> u32
    recommends
        a.len() >= 8,
        b < 64,
        c < 32,
{
    (((a[(b / 32 * 4 + 3 - b % 32 / 8) as int] >> ((7 - b % 8) as u32)) & 0x01) as u32) << (
    c as u32)
}

pub fn bitnum(a: &[u8], b: usize, c: usize) -> (r: u32)
    requires
        a@.len() >= 8,
        b < 64,
        c < 32,
    ensures
        r == spec_bitnum(a@, b as nat, c as nat),
{
    let byte_idx = b / 32 * 4 + 3 - b % 32 / 8;
    let bit_in_byte = 7 - b % 8;
    (((a[byte_idx] >> (bit_in_byte as u32)) & 0x01) as u32) << (c as u32)
}

/// Moves bit `b` (counting from the most significant bit) of `a` to
/// bit position `c`.
pub open spec fn spec_bitnumintr(a: u32, b: nat, c: nat) -> u32
    recommends
        b < 32,
        c < 32,
{
    ((a >> ((31 - b) as u32)) & 0x00000001) << (c as u32)
}

pub fn bitnumintr(a: u32, b: usize, c: usize) -> (r: u32)
    requires
        b < 32,
        c < 32,
    ensures
        r == spec_bitnumintr(a, b as nat, c as nat),
{
    ((a >> ((31 - b) as u32)) & 0x00000001) << (c as u32)
}

/// Moves bit `b` (counting from the most significant bit) of `a` to
/// bit position `31 - c`.
pub open spec fn spec_bitnumintl(a: u32, b: nat, c: nat) -> u32
    recommends
        b < 32,
        c < 32,
{
    ((a << (b as u32)) & 0x80000000) >> (c as u32)
}

pub fn bitnumintl(a: u32, b: usize, c: usize) -> (r: u32)
    requires
        b < 32,
        c < 32,
    ensures
        r == spec_bitnumintl(a, b as nat, c as nat),
{
    ((a << (b as u32)) & 0x80000000) >> (c as u32)
}

/// Rearranges the six input bits of an S-box lookup into the row/column
/// index that the flattened tables use.
pub open spec fn spec_sboxbit(a: u8) -> usize {
    ((a & 0x20) | ((a & 0x1f) >> 1) | ((a & 0x01) << 4)) as usize
}

pub fn sboxbit(a: u8) -> (r: usize)
    ensures
        r == spec_sboxbit(a),
        r < 64,
{
    proof {
        assert(((a & 0x20) | ((a & 0x1f) >> 1) | ((a & 0x01) << 4)) < 64) by (bit_vector);
    }
    ((a & 0x20) | ((a & 0x1f) >> 1) | ((a & 0x01) << 4)) as usize
}

/// The value fed to the P-box for S-box `s` on raw six-bit input `i`:
/// the S-box output placed in its 4-bit lane of a 32-bit word.
pub open spec fn spec_sp_pre(s: int, i: int) -> u32
    recommends
        0 <= s < 8,
        0 <= i < 64,
{
    (spec_sbox(s)[spec_sboxbit(i as u8) as int] as u32) << ((28 - s * 4) as u32)
}

/// The first `n` destination bits of the P-box permutation applied to
/// `pre`, accumulated from destination bit 0 upward.
pub open spec fn spec_pbox_fold(pre: u32, n: nat) -> u32
    decreases n,
{
    if n == 0 {
        0u32
    } else {
        let prev = spec_pbox_fold(pre, (n - 1) as nat);
        let dest = (n - 1) as nat;
        let source = spec_pbox()[dest as int];
        if pre & (1u32 << ((31 - source) as u32)) != 0 {
            prev | (1u32 << ((31 - dest) as u32))
        } else {
            prev
        }
    }
}

/// Entry `i` of the combined S-box plus P-box table for S-box `s`.
pub open spec fn spec_sp_entry(s: int, i: int) -> u32
    recommends
        0 <= s < 8,
        0 <= i < 64,
{
    spec_pbox_fold(spec_sp_pre(s, i), 32)
}

/// The combined lookup tables are well formed: eight rows of 64
/// entries, each equal to its specified S-box/P-box composition.
pub open spec fn sp_tables_wf(t: &Vec<Vec<u32>>) -> bool {
    &&& t@.len() == 8
    &&& forall|s: int| 0 <= s < 8 ==> (#[trigger] t@[s])@.len() == 64
    &&& forall|s: int, i: int|
        0 <= s < 8 && 0 <= i < 64 ==> #[trigger] t@[s]@[i] == spec_sp_entry(s, i)
}

/// Precomputes the combined S-box + P-box lookup tables that the round
/// function uses.
pub fn generate_sp_tables() -> (t: Vec<Vec<u32>>)
    ensures
        sp_tables_wf(&t),
{
    let mut tables: Vec<Vec<u32>> = Vec::new();
    let mut s: usize = 0;
    while s < 8
        invariant
            s <= 8,
            tables@.len() == s,
            forall|s2: int| 0 <= s2 < s ==> (#[trigger] tables@[s2])@.len() == 64,
            forall|s2: int, i: int|
                0 <= s2 < s && 0 <= i < 64 ==> #[trigger] tables@[s2]@[i] == spec_sp_entry(s2, i),
        decreases 8 - s,
    {
        let sb = sbox_table(s);
        let mut row: Vec<u32> = Vec::new();
        let mut i: usize = 0;
        while i < 64
            invariant
                s < 8,
                i <= 64,
                row@.len() == i,
                sb@ == spec_sbox(s as int),
                forall|k: int| 0 <= k < i ==> #[trigger] row@[k] == spec_sp_entry(s as int, k),
            decreases 64 - i,
        {
            let sbi = sboxbit(i as u8);
            let four_bit_output = sb[sbi];
            let pre: u32 = (four_bit_output as u32) << ((28 - s * 4) as u32);
            let mut post: u32 = 0;
            let mut dest: usize = 0;
            while dest < 32
                invariant
                    dest <= 32,
                    post == spec_pbox_fold(pre, dest as nat),
                decreases 32 - dest,
            {
                let source = pbox_at(dest);
                if pre & (1u32 << ((31 - source) as u32)) != 0 {
                    post = post | (1u32 << ((31 - dest) as u32));
                }
                dest += 1;
            }
            row.push(post);
            i += 1;
        }
        tables.push(row);
        s += 1;
    }
    tables
}

/// The first word of the initial permutation of an 8-byte block.
#[verifier::opaque]
pub open spec fn spec_ip0(a: Seq<u8>) -> u32
    recommends
        a.len() >= 8,
{
    spec_bitnum(a, 57, 31)
    | spec_bitnum(a, 49, 30)
    | spec_bitnum(a, 41, 29)
    | spec_bitnum(a, 33, 28)
    | spec_bitnum(a, 25, 27)
    | spec_bitnum(a, 17, 26)
    | spec_bitnum(a, 9, 25)
    | spec_bitnum(a, 1, 24)
    | spec_bitnum(a, 59, 23)
    | spec_bitnum(a, 51, 22)
    | spec_bitnum(a, 43, 21)
    | spec_bitnum(a, 35, 20)
    | spec_bitnum(a, 27, 19)
    | spec_bitnum(a, 19, 18)
    | spec_bitnum(a, 11, 17)
    | spec_bitnum(a, 3, 16)
    | spec_bitnum(a, 61, 15)
    | spec_bitnum(a, 53, 14)
    | spec_bitnum(a, 45, 13)
    | spec_bitnum(a, 37, 12)
    | spec_bitnum(a, 29, 11)
    | spec_bitnum(a, 21, 10)
    | spec_bitnum(a, 13, 9)
    | spec_bitnum(a, 5, 8)
    | spec_bitnum(a, 63, 7)
    | spec_bitnum(a, 55, 6)
    | spec_bitnum(a, 47, 5)
    | spec_bitnum(a, 39, 4)
    | spec_bitnum(a, 31, 3)
    | spec_bitnum(a, 23, 2)
    | spec_bitnum(a, 15, 1)
    | spec_bitnum(a, 7, 0)
}

/// The second word of the initial permutation of an 8-byte block.
#[verifier::opaque]
pub open spec fn spec_ip1(a: Seq<u8>) -> u32
    recommends
        a.len() >= 8,
{
    spec_bitnum(a, 56, 31)
    | spec_bitnum(a, 48, 30)
    | spec_bitnum(a, 40, 29)
    | spec_bitnum(a, 32, 28)
    | spec_bitnum(a, 24, 27)
    | spec_bitnum(a, 16, 26)
    | spec_bitnum(a, 8, 25)
    | spec_bitnum(a, 0, 24)
    | spec_bitnum(a, 58, 23)
    | spec_bitnum(a, 50, 22)
    | spec_bitnum(a, 42, 21)
    | spec_bitnum(a, 34, 20)
    | spec_bitnum(a, 26, 19)
    | spec_bitnum(a, 18, 18)
    | spec_bitnum(a, 10, 17)
    | spec_bitnum(a, 2, 16)
    | spec_bitnum(a, 60, 15)
    | spec_bitnum(a, 52, 14)
    | spec_bitnum(a, 44, 13)
    | spec_bitnum(a, 36, 12)
    | spec_bitnum(a, 28, 11)
    | spec_bitnum(a, 20, 10)
    | spec_bitnum(a, 12, 9)
    | spec_bitnum(a, 4, 8)
    | spec_bitnum(a, 62, 7)
    | spec_bitnum(a, 54, 6)
    | spec_bitnum(a, 46, 5)
    | spec_bitnum(a, 38, 4)
    | spec_bitnum(a, 30, 3)
    | spec_bitnum(a, 22, 2)
    | spec_bitnum(a, 14, 1)
    | spec_bitnum(a, 6, 0)
}

/// The initial permutation: scatters the 64 input bits into the two
/// 32-bit state words.
pub fn ip(input: &[u8]) -> (r: [u32; 2])
    requires
        input@.len() >= 8,
    ensures
        r@[0] == spec_ip0(input@),
        r@[1] == spec_ip1(input@),
{
    proof {
        reveal(spec_ip0);
        reveal(spec_ip1);
    }
    let state0 =
        bitnum(input, 57, 31)
        | bitnum(input, 49, 30)
        | bitnum(input, 41, 29)
        | bitnum(input, 33, 28)
        | bitnum(input, 25, 27)
        | bitnum(input, 17, 26)
        | bitnum(input, 9, 25)
        | bitnum(input, 1, 24)
        | bitnum(input, 59, 23)
        | bitnum(input, 51, 22)
        | bitnum(input, 43, 21)
        | bitnum(input, 35, 20)
        | bitnum(input, 27, 19)
        | bitnum(input, 19, 18)
        | bitnum(input, 11, 17)
        | bitnum(input, 3, 16)
        | bitnum(input, 61, 15)
        | bitnum(input, 53, 14)
        | bitnum(input, 45, 13)
        | bitnum(input, 37, 12)
        | bitnum(input, 29, 11)
        | bitnum(input, 21, 10)
        | bitnum(input, 13, 9)
        | bitnum(input, 5, 8)
        | bitnum(input, 63, 7)
        | bitnum(input, 55, 6)
        | bitnum(input, 47, 5)
        | bitnum(input, 39, 4)
        | bitnum(input, 31, 3)
        | bitnum(input, 23, 2)
        | bitnum(input, 15, 1)
        | bitnum(input, 7, 0);

    let state1 =
        bitnum(input, 56, 31)
        | bitnum(input, 48, 30)
        | bitnum(input, 40, 29)
        | bitnum(input, 32, 28)
        | bitnum(input, 24, 27)
        | bitnum(input, 16, 26)
        | bitnum(input, 8, 25)
        | bitnum(input, 0, 24)
        | bitnum(input, 58, 23)
        | bitnum(input, 50, 22)
        | bitnum(input, 42, 21)
        | bitnum(input, 34, 20)
        | bitnum(input, 26, 19)
        | bitnum(input, 18, 18)
        | bitnum(input, 10, 17)
        | bitnum(input, 2, 16)
        | bitnum(input, 60, 15)
        | bitnum(input, 52, 14)
        | bitnum(input, 44, 13)
        | bitnum(input, 36, 12)
        | bitnum(input, 28, 11)
        | bitnum(input, 20, 10)
        | bitnum(input, 12, 9)
        | bitnum(input, 4, 8)
        | bitnum(input, 62, 7)
        | bitnum(input, 54, 6)
        | bitnum(input, 46, 5)
        | bitnum(input, 38, 4)
        | bitnum(input, 30, 3)
        | bitnum(input, 22, 2)
        | bitnum(input, 14, 1)
        | bitnum(input, 6, 0);

    [state0, state1]
}

pub open spec fn spec_inv_ip_byte0(s0: u32, s1: u32) -> u8 {
    (
    spec_bitnumintr(s1, 4, 7)
    | spec_bitnumintr(s0, 4, 6)
    | spec_bitnumintr(s1, 12, 5)
    | spec_bitnumintr(s0, 12, 4)
    | spec_bitnumintr(s1, 20, 3)
    | spec_bitnumintr(s0, 20, 2)
    | spec_bitnumintr(s1, 28, 1)
    | spec_bitnumintr(s0, 28, 0)
    ) as u8
}

pub open spec fn spec_inv_ip_byte1(s0: u32, s1: u32) -> u8 {
    (
    spec_bitnumintr(s1, 5, 7)
    | spec_bitnumintr(s0, 5, 6)
    | spec_bitnumintr(s1, 13, 5)
    | spec_bitnumintr(s0, 13, 4)
    | spec_bitnumintr(s1, 21, 3)
    | spec_bitnumintr(s0, 21, 2)
    | spec_bitnumintr(s1, 29, 1)
    | spec_bitnumintr(s0, 29, 0)
    ) as u8
}

pub open spec fn spec_inv_ip_byte2(s0: u32, s1: u32) -> u8 {
    (
    spec_bitnumintr(s1, 6, 7)
    | spec_bitnumintr(s0, 6, 6)
    | spec_bitnumintr(s1, 14, 5)
    | spec_bitnumintr(s0, 14, 4)
    | spec_bitnumintr(s1, 22, 3)
    | spec_bitnumintr(s0, 22, 2)
    | spec_bitnumintr(s1, 30, 1)
    | spec_bitnumintr(s0, 30, 0)
    ) as u8
}

pub open spec fn spec_inv_ip_byte3(s0: u32, s1: u32) -> u8 {
    (
    spec_bitnumintr(s1, 7, 7)
    | spec_bitnumintr(s0, 7, 6)
    | spec_bitnumintr(s1, 15, 5)
    | spec_bitnumintr(s0, 15, 4)
    | spec_bitnumintr(s1, 23, 3)
    | spec_bitnumintr(s0, 23, 2)
    | spec_bitnumintr(s1, 31, 1)
    | spec_bitnumintr(s0, 31, 0)
    ) as u8
}

pub open spec fn spec_inv_ip_byte4(s0: u32, s1: u32) -> u8 {
    (
    spec_bitnumintr(s1, 0, 7)
    | spec_bitnumintr(s0, 0, 6)
    | spec_bitnumintr(s1, 8, 5)
    | spec_bitnumintr(s0, 8, 4)
    | spec_bitnumintr(s1, 16, 3)
    | spec_bitnumintr(s0, 16, 2)
    | spec_bitnumintr(s1, 24, 1)
    | spec_bitnumintr(s0, 24, 0)
    ) as u8
}

pub open spec fn spec_inv_ip_byte5(s0: u32, s1: u32) -> u8 {
    (
    spec_bitnumintr(s1, 1, 7)
    | spec_bitnumintr(s0, 1, 6)
    | spec_bitnumintr(s1, 9, 5)
    | spec_bitnumintr(s0, 9, 4)
    | spec_bitnumintr(s1, 17, 3)
    | spec_bitnumintr(s0, 17, 2)
    | spec_bitnumintr(s1, 25, 1)
    | spec_bitnumintr(s0, 25, 0)
    ) as u8
}

pub open spec fn spec_inv_ip_byte6(s0: u32, s1: u32) -> u8 {
    (
    spec_bitnumintr(s1, 2, 7)
    | spec_bitnumintr(s0, 2, 6)
    | spec_bitnumintr(s1, 10, 5)
    | spec_bitnumintr(s0, 10, 4)
    | spec_bitnumintr(s1, 18, 3)
    | spec_bitnumintr(s0, 18, 2)
    | spec_bitnumintr(s1, 26, 1)
    | spec_bitnumintr(s0, 26, 0)
    ) as u8
}

pub open spec fn spec_inv_ip_byte7(s0: u32, s1: u32) -> u8 {
    (
    spec_bitnumintr(s1, 3, 7)
    | spec_bitnumintr(s0, 3, 6)
    | spec_bitnumintr(s1, 11, 5)
    | spec_bitnumintr(s0, 11, 4)
    | spec_bitnumintr(s1, 19, 3)
    | spec_bitnumintr(s0, 19, 2)
    | spec_bitnumintr(s1, 27, 1)
    | spec_bitnumintr(s0, 27, 0)
    ) as u8
}

pub open spec fn spec_inv_ip(s0: u32, s1: u32) -> Seq<u8> {
    seq![
        spec_inv_ip_byte0(s0, s1),
        spec_inv_ip_byte1(s0, s1),
        spec_inv_ip_byte2(s0, s1),
        spec_inv_ip_byte3(s0, s1),
        spec_inv_ip_byte4(s0, s1),
        spec_inv_ip_byte5(s0, s1),
        spec_inv_ip_byte6(s0, s1),
        spec_inv_ip_byte7(s0, s1),
    ]
}

/// The inverse initial permutation: gathers the two 32-bit state
/// words back into an 8-byte block.
pub fn inv_ip(state: [u32; 2]) -> (r: [u8; 8])
    ensures
        r@ == spec_inv_ip(state[0], state[1]),
{
    let b0 = (
        bitnumintr(state[1], 4, 7)
        | bitnumintr(state[0], 4, 6)
        | bitnumintr(state[1], 12, 5)
        | bitnumintr(state[0], 12, 4)
        | bitnumintr(state[1], 20, 3)
        | bitnumintr(state[0], 20, 2)
        | bitnumintr(state[1], 28, 1)
        | bitnumintr(state[0], 28, 0)
    ) as u8;
    let b1 = (
        bitnumintr(state[1], 5, 7)
        | bitnumintr(state[0], 5, 6)
        | bitnumintr(state[1], 13, 5)
        | bitnumintr(state[0], 13, 4)
        | bitnumintr(state[1], 21, 3)
        | bitnumintr(state[0], 21, 2)
        | bitnumintr(state[1], 29, 1)
        | bitnumintr(state[0], 29, 0)
    ) as u8;
    let b2 = (
        bitnumintr(state[1], 6, 7)
        | bitnumintr(state[0], 6, 6)
        | bitnumintr(state[1], 14, 5)
        | bitnumintr(state[0], 14, 4)
        | bitnumintr(state[1], 22, 3)
        | bitnumintr(state[0], 22, 2)
        | bitnumintr(state[1], 30, 1)
        | bitnumintr(state[0], 30, 0)
    ) as u8;
    let b3 = (
        bitnumintr(state[1], 7, 7)
        | bitnumintr(state[0], 7, 6)
        | bitnumintr(state[1], 15, 5)
        | bitnumintr(state[0], 15, 4)
        | bitnumintr(state[1], 23, 3)
        | bitnumintr(state[0], 23, 2)
        | bitnumintr(state[1], 31, 1)
        | bitnumintr(state[0], 31, 0)
    ) as u8;
    let b4 = (
        bitnumintr(state[1], 0, 7)
        | bitnumintr(state[0], 0, 6)
        | bitnumintr(state[1], 8, 5)
        | bitnumintr(state[0], 8, 4)
        | bitnumintr(state[1], 16, 3)
        | bitnumintr(state[0], 16, 2)
        | bitnumintr(state[1], 24, 1)
        | bitnumintr(state[0], 24, 0)
    ) as u8;
    let b5 = (
        bitnumintr(state[1], 1, 7)
        | bitnumintr(state[0], 1, 6)
        | bitnumintr(state[1], 9, 5)
        | bitnumintr(state[0], 9, 4)
        | bitnumintr(state[1], 17, 3)
        | bitnumintr(state[0], 17, 2)
        | bitnumintr(state[1], 25, 1)
        | bitnumintr(state[0], 25, 0)
    ) as u8;
    let b6 = (
        bitnumintr(state[1], 2, 7)
        | bitnumintr(state[0], 2, 6)
        | bitnumintr(state[1], 10, 5)
        | bitnumintr(state[0], 10, 4)
        | bitnumintr(state[1], 18, 3)
        | bitnumintr(state[0], 18, 2)
        | bitnumintr(state[1], 26, 1)
        | bitnumintr(state[0], 26, 0)
    ) as u8;
    let b7 = (
        bitnumintr(state[1], 3, 7)
        | bitnumintr(state[0], 3, 6)
        | bitnumintr(state[1], 11, 5)
        | bitnumintr(state[0], 11, 4)
        | bitnumintr(state[1], 19, 3)
        | bitnumintr(state[0], 19, 2)
        | bitnumintr(state[1], 27, 1)
        | bitnumintr(state[0], 27, 0)
    ) as u8;
    let r = [b0, b1, b2, b3, b4, b5, b6, b7];
    proof {
        assert(r@ =~= spec_inv_ip(state[0], state[1]));
    }
    r
}
/// The first half of the expansion permutation of the round function.
#[verifier::opaque]
pub open spec fn spec_expand_t1(state: u32) -> u32 {
    spec_bitnumintl(state, 31, 0)
    | ((state & 0xf0000000) >> 1)
    | spec_bitnumintl(state, 4, 5)
    | spec_bitnumintl(state, 3, 6)
    | ((state & 0x0f000000) >> 3)
    | spec_bitnumintl(state, 8, 11)
    | spec_bitnumintl(state, 7, 12)
    | ((state & 0x00f00000) >> 5)
    | spec_bitnumintl(state, 12, 17)
    | spec_bitnumintl(state, 11, 18)
    | ((state & 0x000f0000) >> 7)
    | spec_bitnumintl(state, 16, 23)
}

/// The second half of the expansion permutation of the round function.
#[verifier::opaque]
pub open spec fn spec_expand_t2(state: u32) -> u32 {
    spec_bitnumintl(state, 15, 0)
    | ((state & 0x0000f000) << 15)
    | spec_bitnumintl(state, 20, 5)
    | spec_bitnumintl(state, 19, 6)
    | ((state & 0x00000f00) << 13)
    | spec_bitnumintl(state, 24, 11)
    | spec_bitnumintl(state, 23, 12)
    | ((state & 0x000000f0) << 11)
    | spec_bitnumintl(state, 28, 17)
    | spec_bitnumintl(state, 27, 18)
    | ((state & 0x0000000f) << 9)
    | spec_bitnumintl(state, 0, 23)
}

/// The round function: the expanded state XORed with the subkey,
/// pushed through the combined S-box/P-box tables.
#[verifier::opaque]
pub open spec fn spec_f(state: u32, key: Seq<u8>) -> u32
    recommends
        key.len() >= 6,
{
    let t1 = spec_expand_t1(state);
    let t2 = spec_expand_t2(state);
    let l0 = (((t1 >> 24) & 0x000000ff) as u8) ^ key[0];
    let l1 = (((t1 >> 16) & 0x000000ff) as u8) ^ key[1];
    let l2 = (((t1 >> 8) & 0x000000ff) as u8) ^ key[2];
    let l3 = (((t2 >> 24) & 0x000000ff) as u8) ^ key[3];
    let l4 = (((t2 >> 16) & 0x000000ff) as u8) ^ key[4];
    let l5 = (((t2 >> 8) & 0x000000ff) as u8) ^ key[5];
    spec_sp_entry(0, (l0 >> 2) as int)
    | spec_sp_entry(1, (((l0 & 0x03) << 4) | (l1 >> 4)) as int)
    | spec_sp_entry(2, (((l1 & 0x0f) << 2) | (l2 >> 6)) as int)
    | spec_sp_entry(3, (l2 & 0x3f) as int)
    | spec_sp_entry(4, (l3 >> 2) as int)
    | spec_sp_entry(5, (((l3 & 0x03) << 4) | (l4 >> 4)) as int)
    | spec_sp_entry(6, (((l4 & 0x0f) << 2) | (l5 >> 6)) as int)
    | spec_sp_entry(7, (l5 & 0x3f) as int)
}

proof fn lemma_sp_index_bounds(l0: u8, l1: u8, l2: u8, l3: u8, l4: u8, l5: u8)
    by (bit_vector)
    ensures
        (l0 >> 2) < 64,
        (((l0 & 0x03) << 4) | (l1 >> 4)) < 64,
        (((l1 & 0x0f) << 2) | (l2 >> 6)) < 64,
        (l2 & 0x3f) < 64,
        (l3 >> 2) < 64,
        (((l3 & 0x03) << 4) | (l4 >> 4)) < 64,
        (((l4 & 0x0f) << 2) | (l5 >> 6)) < 64,
        (l5 & 0x3f) < 64,
{
}

/// Computes the round function from the precomputed lookup tables.
pub fn f(state: u32, key: &[u8], sp_tables: &Vec<Vec<u32>>) -> (r: u32)
    requires
        key@.len() >= 6,
        sp_tables_wf(sp_tables),
    ensures
        r == spec_f(state, key@),
{
    proof {
        reveal(spec_f);
        reveal(spec_expand_t1);
        reveal(spec_expand_t2);
    }
    let t1 =
        bitnumintl(state, 31, 0)
        | ((state & 0xf0000000) >> 1)
        | bitnumintl(state, 4, 5)
        | bitnumintl(state, 3, 6)
        | ((state & 0x0f000000) >> 3)
        | bitnumintl(state, 8, 11)
        | bitnumintl(state, 7, 12)
        | ((state & 0x00f00000) >> 5)
        | bitnumintl(state, 12, 17)
        | bitnumintl(state, 11, 18)
        | ((state & 0x000f0000) >> 7)
        | bitnumintl(state, 16, 23);

    let t2 =
        bitnumintl(state, 15, 0)
        | ((state & 0x0000f000) << 15)
        | bitnumintl(state, 20, 5)
        | bitnumintl(state, 19, 6)
        | ((state & 0x00000f00) << 13)
        | bitnumintl(state, 24, 11)
        | bitnumintl(state, 23, 12)
        | ((state & 0x000000f0) << 11)
        | bitnumintl(state, 28, 17)
        | bitnumintl(state, 27, 18)
        | ((state & 0x0000000f) << 9)
        | bitnumintl(state, 0, 23);

    let l0 = (((t1 >> 24) & 0x000000ff) as u8) ^ key[0];
    let l1 = (((t1 >> 16) & 0x000000ff) as u8) ^ key[1];
    let l2 = (((t1 >> 8) & 0x000000ff) as u8) ^ key[2];
    let l3 = (((t2 >> 24) & 0x000000ff) as u8) ^ key[3];
    let l4 = (((t2 >> 16) & 0x000000ff) as u8) ^ key[4];
    let l5 = (((t2 >> 8) & 0x000000ff) as u8) ^ key[5];
    proof {
        lemma_sp_index_bounds(l0, l1, l2, l3, l4, l5);
    }
    sp_tables[0][(l0 >> 2) as usize]
    | sp_tables[1][(((l0 & 0x03) << 4) | (l1 >> 4)) as usize]
    | sp_tables[2][(((l1 & 0x0f) << 2) | (l2 >> 6)) as usize]
    | sp_tables[3][(l2 & 0x3f) as usize]
    | sp_tables[4][(l3 >> 2) as usize]
    | sp_tables[5][(((l3 & 0x03) << 4) | (l4 >> 4)) as usize]
    | sp_tables[6][(((l4 & 0x0f) << 2) | (l5 >> 6)) as usize]
    | sp_tables[7][(l5 & 0x3f) as usize]
}

/// The "permuted choice one" fold that initializes one 28-bit key
/// register from the first `n` entries of a permutation table.
pub open spec fn spec_pc1_fold(key: Seq<u8>, perm: Seq<usize>, n: nat) -> u32
    recommends
        key.len() >= 8,
        perm.len() == 28,
        n <= 28,
    decreases n,
{
    if n == 0 {
        0u32
    } else {
        spec_pc1_fold(key, perm, (n - 1) as nat) | spec_bitnum(
            key,
            perm[n - 1] as nat,
            (31 - (n - 1)) as nat,
        )
    }
}

/// One 28-bit left rotation of a key register, as the cipher performs
/// it on the upper 28 bits of a 32-bit word.
pub open spec fn spec_key_rot(x: u32, shift: u32) -> u32
    recommends
        1 <= shift <= 2,
{
    ((x << shift) | (x >> ((28 - shift) as u32))) & 0xfffffff0
}

/// The `c` register after round `n`'s rotation.
pub open spec fn spec_c_iter(key: Seq<u8>, n: nat) -> u32
    recommends
        key.len() >= 8,
        n < 16,
    decreases n,
{
    if n == 0 {
        spec_key_rot(spec_pc1_fold(key, spec_key_perm_c(), 28), spec_key_rnd_shift()[0])
    } else {
        spec_key_rot(spec_c_iter(key, (n - 1) as nat), spec_key_rnd_shift()[n as int])
    }
}

/// The `d` register after round `n`'s rotation.
pub open spec fn spec_d_iter(key: Seq<u8>, n: nat) -> u32
    recommends
        key.len() >= 8,
        n < 16,
    decreases n,
{
    if n == 0 {
        spec_key_rot(spec_pc1_fold(key, spec_key_perm_d(), 28), spec_key_rnd_shift()[0])
    } else {
        spec_key_rot(spec_d_iter(key, (n - 1) as nat), spec_key_rnd_shift()[n as int])
    }
}

/// The first `m` compressed bits of subkey byte `k` (of the three bytes
/// drawn from the `c` register).
pub open spec fn spec_subkey_byte_c_fold(c: u32, k: int, m: nat) -> u8
    recommends
        0 <= k < 3,
        m <= 8,
    decreases m,
{
    if m == 0 {
        0u8
    } else {
        spec_subkey_byte_c_fold(c, k, (m - 1) as nat) | (spec_bitnumintr(
            c,
            spec_key_compression()[8 * k + (m - 1)] as nat,
            (7 - (m - 1)) as nat,
        ) as u8)
    }
}

/// The first `m` compressed bits of subkey byte `3 + k` (of the three
/// bytes drawn from the `d` register).
pub open spec fn spec_subkey_byte_d_fold(d: u32, k: int, m: nat) -> u8
    recommends
        0 <= k < 3,
        m <= 8,
    decreases m,
{
    if m == 0 {
        0u8
    } else {
        spec_subkey_byte_d_fold(d, k, (m - 1) as nat) | (spec_bitnumintr(
            d,
            (spec_key_compression()[24 + 8 * k + (m - 1)] - 27) as nat,
            (7 - (m - 1)) as nat,
        ) as u8)
    }
}

/// The six bytes of the subkey produced at rotation round `i`.
pub open spec fn spec_subkey_row(key: Seq<u8>, i: nat) -> Seq<u8>
    recommends
        key.len() >= 8,
        i < 16,
{
    let c = spec_c_iter(key, i);
    let d = spec_d_iter(key, i);
    seq![
        spec_subkey_byte_c_fold(c, 0, 8),
        spec_subkey_byte_c_fold(c, 1, 8),
        spec_subkey_byte_c_fold(c, 2, 8),
        spec_subkey_byte_d_fold(d, 0, 8),
        spec_subkey_byte_d_fold(d, 1, 8),
        spec_subkey_byte_d_fold(d, 2, 8),
    ]
}

/// Which schedule slot rotation round `i` fills: encryption fills the
/// schedule forward, decryption backward.
pub open spec fn spec_togen(mode: DesMode, i: int) -> int {
    match mode {
        DesMode::Encrypt => i,
        DesMode::Decrypt => 15 - i,
    }
}

/// Subkey `j` of the finished schedule.
pub open spec fn spec_subkey(key: Seq<u8>, mode: DesMode, j: int) -> Seq<u8>
    recommends
        key.len() >= 8,
        0 <= j < 16,
{
    spec_subkey_row(key, spec_togen(mode, j) as nat)
}

/// The whole 16-round key schedule as a sequence of six-byte subkeys.
pub open spec fn spec_schedule(key: Seq<u8>, mode: DesMode) -> Seq<Seq<u8>>
    recommends
        key.len() >= 8,
{
    Seq::new(16, |j: int| spec_subkey(key, mode, j))
}

fn subkey_byte_c(c: u32, k: usize) -> (r: u8)
    requires
        k < 3,
    ensures
        r == spec_subkey_byte_c_fold(c, k as int, 8),
{
    let mut acc: u8 = 0;
    let mut m: usize = 0;
    while m < 8
        invariant
            k < 3,
            m <= 8,
            acc == spec_subkey_byte_c_fold(c, k as int, m as nat),
        decreases 8 - m,
    {
        let comp = key_compression_at(8 * k + m);
        acc = acc | (bitnumintr(c, comp, 7 - m) as u8);
        m += 1;
    }
    acc
}

fn subkey_byte_d(d: u32, k: usize) -> (r: u8)
    requires
        k < 3,
    ensures
        r == spec_subkey_byte_d_fold(d, k as int, 8),
{
    let mut acc: u8 = 0;
    let mut m: usize = 0;
    while m < 8
        invariant
            k < 3,
            m <= 8,
            acc == spec_subkey_byte_d_fold(d, k as int, m as nat),
        decreases 8 - m,
    {
        let comp = key_compression_at(24 + 8 * k + m);
        acc = acc | (bitnumintr(d, comp - 27, 7 - m) as u8);
        m += 1;
    }
    acc
}

/// Expands an 8-byte key into the 16 six-byte round subkeys, in
/// forward order for encryption and reversed for decryption.
pub fn des_key_setup(key: &[u8], mode: DesMode) -> (r: [[u8; 6]; 16])
    requires
        key@.len() >= 8,
    ensures
        forall|j: int| 0 <= j < 16 ==> #[trigger] r@[j]@ == spec_subkey(key@, mode, j),
{
    let mut c: u32 = 0;
    let mut i: usize = 0;
    while i < 28
        invariant
            key@.len() >= 8,
            i <= 28,
            c == spec_pc1_fold(key@, spec_key_perm_c(), i as nat),
        decreases 28 - i,
    {
        let perm = key_perm_c_at(i);
        c = c | bitnum(key, perm, 31 - i);
        i += 1;
    }
    let mut d: u32 = 0;
    let mut i2: usize = 0;
    while i2 < 28
        invariant
            key@.len() >= 8,
            i2 <= 28,
            d == spec_pc1_fold(key@, spec_key_perm_d(), i2 as nat),
        decreases 28 - i2,
    {
        let perm = key_perm_d_at(i2);
        d = d | bitnum(key, perm, 31 - i2);
        i2 += 1;
    }

    let mut schedule: [[u8; 6]; 16] = [[0u8; 6]; 16];
    let mut it: usize = 0;
    while it < 16
        invariant
            key@.len() >= 8,
            it <= 16,
            it == 0 ==> c == spec_pc1_fold(key@, spec_key_perm_c(), 28)
                && d == spec_pc1_fold(key@, spec_key_perm_d(), 28),
            it > 0 ==> c == spec_c_iter(key@, (it - 1) as nat)
                && d == spec_d_iter(key@, (it - 1) as nat),
            forall|i3: int|
                0 <= i3 < it ==> #[trigger] schedule@[spec_togen(mode, i3)]@ == spec_subkey_row(
                    key@,
                    i3 as nat,
                ),
        decreases 16 - it,
    {
        let shift = key_rnd_shift_at(it);
        c = ((c << shift) | (c >> (28 - shift))) & 0xfffffff0;
        d = ((d << shift) | (d >> (28 - shift))) & 0xfffffff0;
        proof {
            assert(c == spec_c_iter(key@, it as nat));
            assert(d == spec_d_iter(key@, it as nat));
        }
        let to_gen = match mode {
            DesMode::Decrypt => 15 - it,
            DesMode::Encrypt => it,
        };
        let b0 = subkey_byte_c(c, 0);
        let b1 = subkey_byte_c(c, 1);
        let b2 = subkey_byte_c(c, 2);
        let b3 = subkey_byte_d(d, 0);
        let b4 = subkey_byte_d(d, 1);
        let b5 = subkey_byte_d(d, 2);
        schedule[to_gen] = [b0, b1, b2, b3, b4, b5];
        proof {
            assert(schedule@[to_gen as int]@ =~= spec_subkey_row(key@, it as nat));
        }
        it += 1;
    }
    proof {
        assert forall|j: int| 0 <= j < 16 implies #[trigger] schedule@[j]@ == spec_subkey(
            key@,
            mode,
            j,
        ) by {
            let i3 = spec_togen(mode, j);
            assert(spec_togen(mode, i3) == j);
            assert(schedule@[spec_togen(mode, i3)]@ == spec_subkey_row(key@, i3 as nat));
        }
    }
    schedule
}
/// The view of a key schedule as a sequence of six-byte subkeys.
pub open spec fn sched_view(ks: [[u8; 6]; 16]) -> Seq<Seq<u8>> {
    ks@.map_values(|row: [u8; 6]| row@)
}

/// The schedule is a well-formed sequence of 16 six-byte subkeys.
pub open spec fn sched_wf(ks: Seq<Seq<u8>>) -> bool {
    ks.len() == 16 && forall|j: int| 0 <= j < 16 ==> (#[trigger] ks[j]).len() == 6
}

/// The pair of state words after the first `n` Feistel rounds (the
/// rounds that swap halves).
pub open spec fn spec_rounds(s0: u32, s1: u32, ks: Seq<Seq<u8>>, n: nat) -> (u32, u32)
    recommends
        sched_wf(ks),
        n <= 15,
    decreases n,
{
    if n == 0 {
        (s0, s1)
    } else {
        let prev = spec_rounds(s0, s1, ks, (n - 1) as nat);
        (prev.1, spec_f(prev.1, ks[n - 1]) ^ prev.0)
    }
}

/// One block-cipher application: initial permutation, 15 swapping
/// rounds, one final round without a swap, inverse permutation.
pub open spec fn spec_des_crypt(input: Seq<u8>, ks: Seq<Seq<u8>>) -> Seq<u8>
    recommends
        input.len() >= 8,
        sched_wf(ks),
{
    let st = spec_rounds(spec_ip0(input), spec_ip1(input), ks, 15);
    let fin0 = st.0 ^ spec_f(st.1, ks[15]);
    spec_inv_ip(fin0, st.1)
}

/// Encrypts or decrypts one 8-byte block under a prepared key
/// schedule (the schedule's order decides which of the two happens).
pub fn des_crypt(input: &[u8], key_schedule: &[[u8; 6]; 16]) -> (r: [u8; 8])
    requires
        input@.len() >= 8,
    ensures
        r@ == spec_des_crypt(input@, sched_view(*key_schedule)),
{
    let sp = generate_sp_tables();
    let state = ip(input);
    let mut s0 = state[0];
    let mut s1 = state[1];
    let ghost ks = sched_view(*key_schedule);

    let mut round: usize = 0;
    while round < 15
        invariant
            round <= 15,
            sp_tables_wf(&sp),
            ks == sched_view(*key_schedule),
            (s0, s1) == spec_rounds(spec_ip0(input@), spec_ip1(input@), ks, round as nat),
        decreases 15 - round,
    {
        let key_row = key_schedule[round];
        let temp = s1;
        s1 = f(s1, key_row.as_slice(), &sp) ^ s0;
        s0 = temp;
        round += 1;
    }

    let last_row = key_schedule[15];
    s0 = s0 ^ f(s1, last_row.as_slice(), &sp);

    inv_ip([s0, s1])
}

/// How the three sub-schedules of the triple cipher are derived: which
/// 8-byte third of the 24-byte key each uses, and in which mode.
pub open spec fn spec_triple_source(key: Seq<u8>, mode: DesMode, t: int) -> (Seq<u8>, DesMode)
    recommends
        key.len() >= 24,
        0 <= t < 3,
{
    match mode {
        DesMode::Encrypt => {
            if t == 0 {
                (key.subrange(0, 8), DesMode::Encrypt)
            } else if t == 1 {
                (key.subrange(8, 16), DesMode::Decrypt)
            } else {
                (key.subrange(16, 24), DesMode::Encrypt)
            }
        },
        DesMode::Decrypt => {
            if t == 0 {
                (key.subrange(16, 24), DesMode::Decrypt)
            } else if t == 1 {
                (key.subrange(8, 16), DesMode::Encrypt)
            } else {
                (key.subrange(0, 8), DesMode::Decrypt)
            }
        },
    }
}

/// The three key schedules of the triple cipher.
pub open spec fn spec_triple_schedules(key: Seq<u8>, mode: DesMode) -> Seq<Seq<Seq<u8>>>
    recommends
        key.len() >= 24,
{
    Seq::new(
        3,
        |t: int|
            spec_schedule(
                spec_triple_source(key, mode, t).0,
                spec_triple_source(key, mode, t).1,
            ),
    )
}

/// The view of three key schedules as nested sequences.
pub open spec fn sched3_view(ks: [[[u8; 6]; 16]; 3]) -> Seq<Seq<Seq<u8>>> {
    ks@.map_values(|s: [[u8; 6]; 16]| sched_view(s))
}

proof fn lemma_sched_view_eq(ks: [[u8; 6]; 16], key: Seq<u8>, mode: DesMode)
    requires
        forall|j: int| 0 <= j < 16 ==> #[trigger] ks@[j]@ == spec_subkey(key, mode, j),
    ensures
        sched_view(ks) == spec_schedule(key, mode),
{
    assert(sched_view(ks) =~= spec_schedule(key, mode));
}

/// Expands a 24-byte key into the three schedules of the triple
/// cipher: encrypt/decrypt/encrypt over the key thirds, with the
/// thirds and modes reversed for decryption.
pub fn three_des_key_setup(key: &[u8], mode: DesMode) -> (r: [[[u8; 6]; 16]; 3])
    requires
        key@.len() >= 24,
    ensures
        sched3_view(r) == spec_triple_schedules(key@, mode),
{
    let r = match mode {
        DesMode::Encrypt => [
            des_key_setup(slice_subrange(key, 0, 8), DesMode::Encrypt),
            des_key_setup(slice_subrange(key, 8, 16), DesMode::Decrypt),
            des_key_setup(slice_subrange(key, 16, 24), DesMode::Encrypt),
        ],
        DesMode::Decrypt => [
            des_key_setup(slice_subrange(key, 16, 24), DesMode::Decrypt),
            des_key_setup(slice_subrange(key, 8, 16), DesMode::Encrypt),
            des_key_setup(slice_subrange(key, 0, 8), DesMode::Decrypt),
        ],
    };
    proof {
        lemma_sched_view_eq(r[0], spec_triple_source(key@, mode, 0).0, spec_triple_source(key@, mode, 0).1);
        lemma_sched_view_eq(r[1], spec_triple_source(key@, mode, 1).0, spec_triple_source(key@, mode, 1).1);
        lemma_sched_view_eq(r[2], spec_triple_source(key@, mode, 2).0, spec_triple_source(key@, mode, 2).1);
        assert(sched3_view(r) =~= spec_triple_schedules(key@, mode));
    }
    r
}

/// Three chained block-cipher applications under the three schedules.
pub open spec fn spec_three_des_crypt(input: Seq<u8>, ks: Seq<Seq<Seq<u8>>>) -> Seq<u8>
    recommends
        input.len() >= 8,
        ks.len() == 3,
{
    spec_des_crypt(spec_des_crypt(spec_des_crypt(input, ks[0]), ks[1]), ks[2])
}

/// Applies the triple cipher to one 8-byte block in place.
pub fn three_des_crypt(input: &mut [u8; 8], key_schedule: &[[[u8; 6]; 16]; 3])
    ensures
        final(input)@ == spec_three_des_crypt(old(input)@, sched3_view(*key_schedule)),
{
    let s0 = key_schedule[0];
    let s1 = key_schedule[1];
    let s2 = key_schedule[2];
    *input = des_crypt(input.as_slice(), &s0);
    *input = des_crypt(input.as_slice(), &s1);
    *input = des_crypt(input.as_slice(), &s2);
}

/// The initial permutation undoes the inverse initial permutation:
/// scattering two state words into a block and gathering them again
/// gives the words back.
proof fn lemma_ip_of_inv_ip(s0: u32, s1: u32)
    ensures
        spec_ip0(spec_inv_ip(s0, s1)) == s0,
        spec_ip1(spec_inv_ip(s0, s1)) == s1,
{
    reveal(spec_ip0);
    reveal(spec_ip1);
    let a = spec_inv_ip(s0, s1);
    let b0 = spec_inv_ip_byte0(s0, s1);
    let b1 = spec_inv_ip_byte1(s0, s1);
    let b2 = spec_inv_ip_byte2(s0, s1);
    let b3 = spec_inv_ip_byte3(s0, s1);
    let b4 = spec_inv_ip_byte4(s0, s1);
    let b5 = spec_inv_ip_byte5(s0, s1);
    let b6 = spec_inv_ip_byte6(s0, s1);
    let b7 = spec_inv_ip_byte7(s0, s1);
    assert(a[0] == b0);
    assert(a[1] == b1);
    assert(a[2] == b2);
    assert(a[3] == b3);
    assert(a[4] == b4);
    assert(a[5] == b5);
    assert(a[6] == b6);
    assert(a[7] == b7);
    assert(spec_ip0(a) ==
        ((((b4 >> 6u32) & 0x01) as u32) << 31u32)
        | ((((b5 >> 6u32) & 0x01) as u32) << 30u32)
        | ((((b6 >> 6u32) & 0x01) as u32) << 29u32)
        | ((((b7 >> 6u32) & 0x01) as u32) << 28u32)
        | ((((b0 >> 6u32) & 0x01) as u32) << 27u32)
        | ((((b1 >> 6u32) & 0x01) as u32) << 26u32)
        | ((((b2 >> 6u32) & 0x01) as u32) << 25u32)
        | ((((b3 >> 6u32) & 0x01) as u32) << 24u32)
        | ((((b4 >> 4u32) & 0x01) as u32) << 23u32)
        | ((((b5 >> 4u32) & 0x01) as u32) << 22u32)
        | ((((b6 >> 4u32) & 0x01) as u32) << 21u32)
        | ((((b7 >> 4u32) & 0x01) as u32) << 20u32)
        | ((((b0 >> 4u32) & 0x01) as u32) << 19u32)
        | ((((b1 >> 4u32) & 0x01) as u32) << 18u32)
        | ((((b2 >> 4u32) & 0x01) as u32) << 17u32)
        | ((((b3 >> 4u32) & 0x01) as u32) << 16u32)
        | ((((b4 >> 2u32) & 0x01) as u32) << 15u32)
        | ((((b5 >> 2u32) & 0x01) as u32) << 14u32)
        | ((((b6 >> 2u32) & 0x01) as u32) << 13u32)
        | ((((b7 >> 2u32) & 0x01) as u32) << 12u32)
        | ((((b0 >> 2u32) & 0x01) as u32) << 11u32)
        | ((((b1 >> 2u32) & 0x01) as u32) << 10u32)
        | ((((b2 >> 2u32) & 0x01) as u32) << 9u32)
        | ((((b3 >> 2u32) & 0x01) as u32) << 8u32)
        | ((((b4 >> 0u32) & 0x01) as u32) << 7u32)
        | ((((b5 >> 0u32) & 0x01) as u32) << 6u32)
        | ((((b6 >> 0u32) & 0x01) as u32) << 5u32)
        | ((((b7 >> 0u32) & 0x01) as u32) << 4u32)
        | ((((b0 >> 0u32) & 0x01) as u32) << 3u32)
        | ((((b1 >> 0u32) & 0x01) as u32) << 2u32)
        | ((((b2 >> 0u32) & 0x01) as u32) << 1u32)
        | ((((b3 >> 0u32) & 0x01) as u32) << 0u32)
    );
    assert(
        ((((b4 >> 6u32) & 0x01) as u32) << 31u32)
        | ((((b5 >> 6u32) & 0x01) as u32) << 30u32)
        | ((((b6 >> 6u32) & 0x01) as u32) << 29u32)
        | ((((b7 >> 6u32) & 0x01) as u32) << 28u32)
        | ((((b0 >> 6u32) & 0x01) as u32) << 27u32)
        | ((((b1 >> 6u32) & 0x01) as u32) << 26u32)
        | ((((b2 >> 6u32) & 0x01) as u32) << 25u32)
        | ((((b3 >> 6u32) & 0x01) as u32) << 24u32)
        | ((((b4 >> 4u32) & 0x01) as u32) << 23u32)
        | ((((b5 >> 4u32) & 0x01) as u32) << 22u32)
        | ((((b6 >> 4u32) & 0x01) as u32) << 21u32)
        | ((((b7 >> 4u32) & 0x01) as u32) << 20u32)
        | ((((b0 >> 4u32) & 0x01) as u32) << 19u32)
        | ((((b1 >> 4u32) & 0x01) as u32) << 18u32)
        | ((((b2 >> 4u32) & 0x01) as u32) << 17u32)
        | ((((b3 >> 4u32) & 0x01) as u32) << 16u32)
        | ((((b4 >> 2u32) & 0x01) as u32) << 15u32)
        | ((((b5 >> 2u32) & 0x01) as u32) << 14u32)
        | ((((b6 >> 2u32) & 0x01) as u32) << 13u32)
        | ((((b7 >> 2u32) & 0x01) as u32) << 12u32)
        | ((((b0 >> 2u32) & 0x01) as u32) << 11u32)
        | ((((b1 >> 2u32) & 0x01) as u32) << 10u32)
        | ((((b2 >> 2u32) & 0x01) as u32) << 9u32)
        | ((((b3 >> 2u32) & 0x01) as u32) << 8u32)
        | ((((b4 >> 0u32) & 0x01) as u32) << 7u32)
        | ((((b5 >> 0u32) & 0x01) as u32) << 6u32)
        | ((((b6 >> 0u32) & 0x01) as u32) << 5u32)
        | ((((b7 >> 0u32) & 0x01) as u32) << 4u32)
        | ((((b0 >> 0u32) & 0x01) as u32) << 3u32)
        | ((((b1 >> 0u32) & 0x01) as u32) << 2u32)
        | ((((b2 >> 0u32) & 0x01) as u32) << 1u32)
        | ((((b3 >> 0u32) & 0x01) as u32) << 0u32)
    == s0) by (bit_vector)
        requires
            b0 == ((
                (((s1 >> 27u32) & 0x00000001) << 7u32)
                | (((s0 >> 27u32) & 0x00000001) << 6u32)
                | (((s1 >> 19u32) & 0x00000001) << 5u32)
                | (((s0 >> 19u32) & 0x00000001) << 4u32)
                | (((s1 >> 11u32) & 0x00000001) << 3u32)
                | (((s0 >> 11u32) & 0x00000001) << 2u32)
                | (((s1 >> 3u32) & 0x00000001) << 1u32)
                | (((s0 >> 3u32) & 0x00000001) << 0u32)
            ) as u8),
            b1 == ((
                (((s1 >> 26u32) & 0x00000001) << 7u32)
                | (((s0 >> 26u32) & 0x00000001) << 6u32)
                | (((s1 >> 18u32) & 0x00000001) << 5u32)
                | (((s0 >> 18u32) & 0x00000001) << 4u32)
                | (((s1 >> 10u32) & 0x00000001) << 3u32)
                | (((s0 >> 10u32) & 0x00000001) << 2u32)
                | (((s1 >> 2u32) & 0x00000001) << 1u32)
                | (((s0 >> 2u32) & 0x00000001) << 0u32)
            ) as u8),
            b2 == ((
                (((s1 >> 25u32) & 0x00000001) << 7u32)
                | (((s0 >> 25u32) & 0x00000001) << 6u32)
                | (((s1 >> 17u32) & 0x00000001) << 5u32)
                | (((s0 >> 17u32) & 0x00000001) << 4u32)
                | (((s1 >> 9u32) & 0x00000001) << 3u32)
                | (((s0 >> 9u32) & 0x00000001) << 2u32)
                | (((s1 >> 1u32) & 0x00000001) << 1u32)
                | (((s0 >> 1u32) & 0x00000001) << 0u32)
            ) as u8),
            b3 == ((
                (((s1 >> 24u32) & 0x00000001) << 7u32)
                | (((s0 >> 24u32) & 0x00000001) << 6u32)
                | (((s1 >> 16u32) & 0x00000001) << 5u32)
                | (((s0 >> 16u32) & 0x00000001) << 4u32)
                | (((s1 >> 8u32) & 0x00000001) << 3u32)
                | (((s0 >> 8u32) & 0x00000001) << 2u32)
                | (((s1 >> 0u32) & 0x00000001) << 1u32)
                | (((s0 >> 0u32) & 0x00000001) << 0u32)
            ) as u8),
            b4 == ((
                (((s1 >> 31u32) & 0x00000001) << 7u32)
                | (((s0 >> 31u32) & 0x00000001) << 6u32)
                | (((s1 >> 23u32) & 0x00000001) << 5u32)
                | (((s0 >> 23u32) & 0x00000001) << 4u32)
                | (((s1 >> 15u32) & 0x00000001) << 3u32)
                | (((s0 >> 15u32) & 0x00000001) << 2u32)
                | (((s1 >> 7u32) & 0x00000001) << 1u32)
                | (((s0 >> 7u32) & 0x00000001) << 0u32)
            ) as u8),
            b5 == ((
                (((s1 >> 30u32) & 0x00000001) << 7u32)
                | (((s0 >> 30u32) & 0x00000001) << 6u32)
                | (((s1 >> 22u32) & 0x00000001) << 5u32)
                | (((s0 >> 22u32) & 0x00000001) << 4u32)
                | (((s1 >> 14u32) & 0x00000001) << 3u32)
                | (((s0 >> 14u32) & 0x00000001) << 2u32)
                | (((s1 >> 6u32) & 0x00000001) << 1u32)
                | (((s0 >> 6u32) & 0x00000001) << 0u32)
            ) as u8),
            b6 == ((
                (((s1 >> 29u32) & 0x00000001) << 7u32)
                | (((s0 >> 29u32) & 0x00000001) << 6u32)
                | (((s1 >> 21u32) & 0x00000001) << 5u32)
                | (((s0 >> 21u32) & 0x00000001) << 4u32)
                | (((s1 >> 13u32) & 0x00000001) << 3u32)
                | (((s0 >> 13u32) & 0x00000001) << 2u32)
                | (((s1 >> 5u32) & 0x00000001) << 1u32)
                | (((s0 >> 5u32) & 0x00000001) << 0u32)
            ) as u8),
            b7 == ((
                (((s1 >> 28u32) & 0x00000001) << 7u32)
                | (((s0 >> 28u32) & 0x00000001) << 6u32)
                | (((s1 >> 20u32) & 0x00000001) << 5u32)
                | (((s0 >> 20u32) & 0x00000001) << 4u32)
                | (((s1 >> 12u32) & 0x00000001) << 3u32)
                | (((s0 >> 12u32) & 0x00000001) << 2u32)
                | (((s1 >> 4u32) & 0x00000001) << 1u32)
                | (((s0 >> 4u32) & 0x00000001) << 0u32)
            ) as u8),
    ;
    assert(spec_ip1(a) ==
        ((((b4 >> 7u32) & 0x01) as u32) << 31u32)
        | ((((b5 >> 7u32) & 0x01) as u32) << 30u32)
        | ((((b6 >> 7u32) & 0x01) as u32) << 29u32)
        | ((((b7 >> 7u32) & 0x01) as u32) << 28u32)
        | ((((b0 >> 7u32) & 0x01) as u32) << 27u32)
        | ((((b1 >> 7u32) & 0x01) as u32) << 26u32)
        | ((((b2 >> 7u32) & 0x01) as u32) << 25u32)
        | ((((b3 >> 7u32) & 0x01) as u32) << 24u32)
        | ((((b4 >> 5u32) & 0x01) as u32) << 23u32)
        | ((((b5 >> 5u32) & 0x01) as u32) << 22u32)
        | ((((b6 >> 5u32) & 0x01) as u32) << 21u32)
        | ((((b7 >> 5u32) & 0x01) as u32) << 20u32)
        | ((((b0 >> 5u32) & 0x01) as u32) << 19u32)
        | ((((b1 >> 5u32) & 0x01) as u32) << 18u32)
        | ((((b2 >> 5u32) & 0x01) as u32) << 17u32)
        | ((((b3 >> 5u32) & 0x01) as u32) << 16u32)
        | ((((b4 >> 3u32) & 0x01) as u32) << 15u32)
        | ((((b5 >> 3u32) & 0x01) as u32) << 14u32)
        | ((((b6 >> 3u32) & 0x01) as u32) << 13u32)
        | ((((b7 >> 3u32) & 0x01) as u32) << 12u32)
        | ((((b0 >> 3u32) & 0x01) as u32) << 11u32)
        | ((((b1 >> 3u32) & 0x01) as u32) << 10u32)
        | ((((b2 >> 3u32) & 0x01) as u32) << 9u32)
        | ((((b3 >> 3u32) & 0x01) as u32) << 8u32)
        | ((((b4 >> 1u32) & 0x01) as u32) << 7u32)
        | ((((b5 >> 1u32) & 0x01) as u32) << 6u32)
        | ((((b6 >> 1u32) & 0x01) as u32) << 5u32)
        | ((((b7 >> 1u32) & 0x01) as u32) << 4u32)
        | ((((b0 >> 1u32) & 0x01) as u32) << 3u32)
        | ((((b1 >> 1u32) & 0x01) as u32) << 2u32)
        | ((((b2 >> 1u32) & 0x01) as u32) << 1u32)
        | ((((b3 >> 1u32) & 0x01) as u32) << 0u32)
    );
    assert(
        ((((b4 >> 7u32) & 0x01) as u32) << 31u32)
        | ((((b5 >> 7u32) & 0x01) as u32) << 30u32)
        | ((((b6 >> 7u32) & 0x01) as u32) << 29u32)
        | ((((b7 >> 7u32) & 0x01) as u32) << 28u32)
        | ((((b0 >> 7u32) & 0x01) as u32) << 27u32)
        | ((((b1 >> 7u32) & 0x01) as u32) << 26u32)
        | ((((b2 >> 7u32) & 0x01) as u32) << 25u32)
        | ((((b3 >> 7u32) & 0x01) as u32) << 24u32)
        | ((((b4 >> 5u32) & 0x01) as u32) << 23u32)
        | ((((b5 >> 5u32) & 0x01) as u32) << 22u32)
        | ((((b6 >> 5u32) & 0x01) as u32) << 21u32)
        | ((((b7 >> 5u32) & 0x01) as u32) << 20u32)
        | ((((b0 >> 5u32) & 0x01) as u32) << 19u32)
        | ((((b1 >> 5u32) & 0x01) as u32) << 18u32)
        | ((((b2 >> 5u32) & 0x01) as u32) << 17u32)
        | ((((b3 >> 5u32) & 0x01) as u32) << 16u32)
        | ((((b4 >> 3u32) & 0x01) as u32) << 15u32)
        | ((((b5 >> 3u32) & 0x01) as u32) << 14u32)
        | ((((b6 >> 3u32) & 0x01) as u32) << 13u32)
        | ((((b7 >> 3u32) & 0x01) as u32) << 12u32)
        | ((((b0 >> 3u32) & 0x01) as u32) << 11u32)
        | ((((b1 >> 3u32) & 0x01) as u32) << 10u32)
        | ((((b2 >> 3u32) & 0x01) as u32) << 9u32)
        | ((((b3 >> 3u32) & 0x01) as u32) << 8u32)
        | ((((b4 >> 1u32) & 0x01) as u32) << 7u32)
        | ((((b5 >> 1u32) & 0x01) as u32) << 6u32)
        | ((((b6 >> 1u32) & 0x01) as u32) << 5u32)
        | ((((b7 >> 1u32) & 0x01) as u32) << 4u32)
        | ((((b0 >> 1u32) & 0x01) as u32) << 3u32)
        | ((((b1 >> 1u32) & 0x01) as u32) << 2u32)
        | ((((b2 >> 1u32) & 0x01) as u32) << 1u32)
        | ((((b3 >> 1u32) & 0x01) as u32) << 0u32)
    == s1) by (bit_vector)
        requires
            b0 == ((
                (((s1 >> 27u32) & 0x00000001) << 7u32)
                | (((s0 >> 27u32) & 0x00000001) << 6u32)
                | (((s1 >> 19u32) & 0x00000001) << 5u32)
                | (((s0 >> 19u32) & 0x00000001) << 4u32)
                | (((s1 >> 11u32) & 0x00000001) << 3u32)
                | (((s0 >> 11u32) & 0x00000001) << 2u32)
                | (((s1 >> 3u32) & 0x00000001) << 1u32)
                | (((s0 >> 3u32) & 0x00000001) << 0u32)
            ) as u8),
            b1 == ((
                (((s1 >> 26u32) & 0x00000001) << 7u32)
                | (((s0 >> 26u32) & 0x00000001) << 6u32)
                | (((s1 >> 18u32) & 0x00000001) << 5u32)
                | (((s0 >> 18u32) & 0x00000001) << 4u32)
                | (((s1 >> 10u32) & 0x00000001) << 3u32)
                | (((s0 >> 10u32) & 0x00000001) << 2u32)
                | (((s1 >> 2u32) & 0x00000001) << 1u32)
                | (((s0 >> 2u32) & 0x00000001) << 0u32)
            ) as u8),
            b2 == ((
                (((s1 >> 25u32) & 0x00000001) << 7u32)
                | (((s0 >> 25u32) & 0x00000001) << 6u32)
                | (((s1 >> 17u32) & 0x00000001) << 5u32)
                | (((s0 >> 17u32) & 0x00000001) << 4u32)
                | (((s1 >> 9u32) & 0x00000001) << 3u32)
                | (((s0 >> 9u32) & 0x00000001) << 2u32)
                | (((s1 >> 1u32) & 0x00000001) << 1u32)
                | (((s0 >> 1u32) & 0x00000001) << 0u32)
            ) as u8),
            b3 == ((
                (((s1 >> 24u32) & 0x00000001) << 7u32)
                | (((s0 >> 24u32) & 0x00000001) << 6u32)
                | (((s1 >> 16u32) & 0x00000001) << 5u32)
                | (((s0 >> 16u32) & 0x00000001) << 4u32)
                | (((s1 >> 8u32) & 0x00000001) << 3u32)
                | (((s0 >> 8u32) & 0x00000001) << 2u32)
                | (((s1 >> 0u32) & 0x00000001) << 1u32)
                | (((s0 >> 0u32) & 0x00000001) << 0u32)
            ) as u8),
            b4 == ((
                (((s1 >> 31u32) & 0x00000001) << 7u32)
                | (((s0 >> 31u32) & 0x00000001) << 6u32)
                | (((s1 >> 23u32) & 0x00000001) << 5u32)
                | (((s0 >> 23u32) & 0x00000001) << 4u32)
                | (((s1 >> 15u32) & 0x00000001) << 3u32)
                | (((s0 >> 15u32) & 0x00000001) << 2u32)
                | (((s1 >> 7u32) & 0x00000001) << 1u32)
                | (((s0 >> 7u32) & 0x00000001) << 0u32)
            ) as u8),
            b5 == ((
                (((s1 >> 30u32) & 0x00000001) << 7u32)
                | (((s0 >> 30u32) & 0x00000001) << 6u32)
                | (((s1 >> 22u32) & 0x00000001) << 5u32)
                | (((s0 >> 22u32) & 0x00000001) << 4u32)
                | (((s1 >> 14u32) & 0x00000001) << 3u32)
                | (((s0 >> 14u32) & 0x00000001) << 2u32)
                | (((s1 >> 6u32) & 0x00000001) << 1u32)
                | (((s0 >> 6u32) & 0x00000001) << 0u32)
            ) as u8),
            b6 == ((
                (((s1 >> 29u32) & 0x00000001) << 7u32)
                | (((s0 >> 29u32) & 0x00000001) << 6u32)
                | (((s1 >> 21u32) & 0x00000001) << 5u32)
                | (((s0 >> 21u32) & 0x00000001) << 4u32)
                | (((s1 >> 13u32) & 0x00000001) << 3u32)
                | (((s0 >> 13u32) & 0x00000001) << 2u32)
                | (((s1 >> 5u32) & 0x00000001) << 1u32)
                | (((s0 >> 5u32) & 0x00000001) << 0u32)
            ) as u8),
            b7 == ((
                (((s1 >> 28u32) & 0x00000001) << 7u32)
                | (((s0 >> 28u32) & 0x00000001) << 6u32)
                | (((s1 >> 20u32) & 0x00000001) << 5u32)
                | (((s0 >> 20u32) & 0x00000001) << 4u32)
                | (((s1 >> 12u32) & 0x00000001) << 3u32)
                | (((s0 >> 12u32) & 0x00000001) << 2u32)
                | (((s1 >> 4u32) & 0x00000001) << 1u32)
                | (((s0 >> 4u32) & 0x00000001) << 0u32)
            ) as u8),
    ;
}

/// The inverse initial permutation undoes the initial permutation:
/// gathering a block's bits into the state words and scattering them
/// again gives the first eight input bytes back.
#[verifier::rlimit(100)]
#[verifier::spinoff_prover]
proof fn lemma_inv_ip_of_ip(a: Seq<u8>)
    requires
        a.len() >= 8,
    ensures
        spec_inv_ip(spec_ip0(a), spec_ip1(a)) == a.take(8),
{
    reveal(spec_ip0);
    reveal(spec_ip1);
    let s0 = spec_ip0(a);
    let s1 = spec_ip1(a);
    let x0 = a[0];
    let x1 = a[1];
    let x2 = a[2];
    let x3 = a[3];
    let x4 = a[4];
    let x5 = a[5];
    let x6 = a[6];
    let x7 = a[7];
    assert(s0 ==
        ((((x4 >> 6u32) & 0x01) as u32) << 31u32)
        | ((((x5 >> 6u32) & 0x01) as u32) << 30u32)
        | ((((x6 >> 6u32) & 0x01) as u32) << 29u32)
        | ((((x7 >> 6u32) & 0x01) as u32) << 28u32)
        | ((((x0 >> 6u32) & 0x01) as u32) << 27u32)
        | ((((x1 >> 6u32) & 0x01) as u32) << 26u32)
        | ((((x2 >> 6u32) & 0x01) as u32) << 25u32)
        | ((((x3 >> 6u32) & 0x01) as u32) << 24u32)
        | ((((x4 >> 4u32) & 0x01) as u32) << 23u32)
        | ((((x5 >> 4u32) & 0x01) as u32) << 22u32)
        | ((((x6 >> 4u32) & 0x01) as u32) << 21u32)
        | ((((x7 >> 4u32) & 0x01) as u32) << 20u32)
        | ((((x0 >> 4u32) & 0x01) as u32) << 19u32)
        | ((((x1 >> 4u32) & 0x01) as u32) << 18u32)
        | ((((x2 >> 4u32) & 0x01) as u32) << 17u32)
        | ((((x3 >> 4u32) & 0x01) as u32) << 16u32)
        | ((((x4 >> 2u32) & 0x01) as u32) << 15u32)
        | ((((x5 >> 2u32) & 0x01) as u32) << 14u32)
        | ((((x6 >> 2u32) & 0x01) as u32) << 13u32)
        | ((((x7 >> 2u32) & 0x01) as u32) << 12u32)
        | ((((x0 >> 2u32) & 0x01) as u32) << 11u32)
        | ((((x1 >> 2u32) & 0x01) as u32) << 10u32)
        | ((((x2 >> 2u32) & 0x01) as u32) << 9u32)
        | ((((x3 >> 2u32) & 0x01) as u32) << 8u32)
        | ((((x4 >> 0u32) & 0x01) as u32) << 7u32)
        | ((((x5 >> 0u32) & 0x01) as u32) << 6u32)
        | ((((x6 >> 0u32) & 0x01) as u32) << 5u32)
        | ((((x7 >> 0u32) & 0x01) as u32) << 4u32)
        | ((((x0 >> 0u32) & 0x01) as u32) << 3u32)
        | ((((x1 >> 0u32) & 0x01) as u32) << 2u32)
        | ((((x2 >> 0u32) & 0x01) as u32) << 1u32)
        | ((((x3 >> 0u32) & 0x01) as u32) << 0u32)
    );
    assert(s1 ==
        ((((x4 >> 7u32) & 0x01) as u32) << 31u32)
        | ((((x5 >> 7u32) & 0x01) as u32) << 30u32)
        | ((((x6 >> 7u32) & 0x01) as u32) << 29u32)
        | ((((x7 >> 7u32) & 0x01) as u32) << 28u32)
        | ((((x0 >> 7u32) & 0x01) as u32) << 27u32)
        | ((((x1 >> 7u32) & 0x01) as u32) << 26u32)
        | ((((x2 >> 7u32) & 0x01) as u32) << 25u32)
        | ((((x3 >> 7u32) & 0x01) as u32) << 24u32)
        | ((((x4 >> 5u32) & 0x01) as u32) << 23u32)
        | ((((x5 >> 5u32) & 0x01) as u32) << 22u32)
        | ((((x6 >> 5u32) & 0x01) as u32) << 21u32)
        | ((((x7 >> 5u32) & 0x01) as u32) << 20u32)
        | ((((x0 >> 5u32) & 0x01) as u32) << 19u32)
        | ((((x1 >> 5u32) & 0x01) as u32) << 18u32)
        | ((((x2 >> 5u32) & 0x01) as u32) << 17u32)
        | ((((x3 >> 5u32) & 0x01) as u32) << 16u32)
        | ((((x4 >> 3u32) & 0x01) as u32) << 15u32)
        | ((((x5 >> 3u32) & 0x01) as u32) << 14u32)
        | ((((x6 >> 3u32) & 0x01) as u32) << 13u32)
        | ((((x7 >> 3u32) & 0x01) as u32) << 12u32)
        | ((((x0 >> 3u32) & 0x01) as u32) << 11u32)
        | ((((x1 >> 3u32) & 0x01) as u32) << 10u32)
        | ((((x2 >> 3u32) & 0x01) as u32) << 9u32)
        | ((((x3 >> 3u32) & 0x01) as u32) << 8u32)
        | ((((x4 >> 1u32) & 0x01) as u32) << 7u32)
        | ((((x5 >> 1u32) & 0x01) as u32) << 6u32)
        | ((((x6 >> 1u32) & 0x01) as u32) << 5u32)
        | ((((x7 >> 1u32) & 0x01) as u32) << 4u32)
        | ((((x0 >> 1u32) & 0x01) as u32) << 3u32)
        | ((((x1 >> 1u32) & 0x01) as u32) << 2u32)
        | ((((x2 >> 1u32) & 0x01) as u32) << 1u32)
        | ((((x3 >> 1u32) & 0x01) as u32) << 0u32)
    );
    assert(((
        (((s1 >> 27u32) & 0x00000001) << 7u32)
        | (((s0 >> 27u32) & 0x00000001) << 6u32)
        | (((s1 >> 19u32) & 0x00000001) << 5u32)
        | (((s0 >> 19u32) & 0x00000001) << 4u32)
        | (((s1 >> 11u32) & 0x00000001) << 3u32)
        | (((s0 >> 11u32) & 0x00000001) << 2u32)
        | (((s1 >> 3u32) & 0x00000001) << 1u32)
        | (((s0 >> 3u32) & 0x00000001) << 0u32)
    ) as u8)
    == x0) by (bit_vector)
        requires
            s0 ==
                ((((x4 >> 6u32) & 0x01) as u32) << 31u32)
                | ((((x5 >> 6u32) & 0x01) as u32) << 30u32)
                | ((((x6 >> 6u32) & 0x01) as u32) << 29u32)
                | ((((x7 >> 6u32) & 0x01) as u32) << 28u32)
                | ((((x0 >> 6u32) & 0x01) as u32) << 27u32)
                | ((((x1 >> 6u32) & 0x01) as u32) << 26u32)
                | ((((x2 >> 6u32) & 0x01) as u32) << 25u32)
                | ((((x3 >> 6u32) & 0x01) as u32) << 24u32)
                | ((((x4 >> 4u32) & 0x01) as u32) << 23u32)
                | ((((x5 >> 4u32) & 0x01) as u32) << 22u32)
                | ((((x6 >> 4u32) & 0x01) as u32) << 21u32)
                | ((((x7 >> 4u32) & 0x01) as u32) << 20u32)
                | ((((x0 >> 4u32) & 0x01) as u32) << 19u32)
                | ((((x1 >> 4u32) & 0x01) as u32) << 18u32)
                | ((((x2 >> 4u32) & 0x01) as u32) << 17u32)
                | ((((x3 >> 4u32) & 0x01) as u32) << 16u32)
                | ((((x4 >> 2u32) & 0x01) as u32) << 15u32)
                | ((((x5 >> 2u32) & 0x01) as u32) << 14u32)
                | ((((x6 >> 2u32) & 0x01) as u32) << 13u32)
                | ((((x7 >> 2u32) & 0x01) as u32) << 12u32)
                | ((((x0 >> 2u32) & 0x01) as u32) << 11u32)
                | ((((x1 >> 2u32) & 0x01) as u32) << 10u32)
                | ((((x2 >> 2u32) & 0x01) as u32) << 9u32)
                | ((((x3 >> 2u32) & 0x01) as u32) << 8u32)
                | ((((x4 >> 0u32) & 0x01) as u32) << 7u32)
                | ((((x5 >> 0u32) & 0x01) as u32) << 6u32)
                | ((((x6 >> 0u32) & 0x01) as u32) << 5u32)
                | ((((x7 >> 0u32) & 0x01) as u32) << 4u32)
                | ((((x0 >> 0u32) & 0x01) as u32) << 3u32)
                | ((((x1 >> 0u32) & 0x01) as u32) << 2u32)
                | ((((x2 >> 0u32) & 0x01) as u32) << 1u32)
                | ((((x3 >> 0u32) & 0x01) as u32) << 0u32)
            ,
            s1 ==
                ((((x4 >> 7u32) & 0x01) as u32) << 31u32)
                | ((((x5 >> 7u32) & 0x01) as u32) << 30u32)
                | ((((x6 >> 7u32) & 0x01) as u32) << 29u32)
                | ((((x7 >> 7u32) & 0x01) as u32) << 28u32)
                | ((((x0 >> 7u32) & 0x01) as u32) << 27u32)
                | ((((x1 >> 7u32) & 0x01) as u32) << 26u32)
                | ((((x2 >> 7u32) & 0x01) as u32) << 25u32)
                | ((((x3 >> 7u32) & 0x01) as u32) << 24u32)
                | ((((x4 >> 5u32) & 0x01) as u32) << 23u32)
                | ((((x5 >> 5u32) & 0x01) as u32) << 22u32)
                | ((((x6 >> 5u32) & 0x01) as u32) << 21u32)
                | ((((x7 >> 5u32) & 0x01) as u32) << 20u32)
                | ((((x0 >> 5u32) & 0x01) as u32) << 19u32)
                | ((((x1 >> 5u32) & 0x01) as u32) << 18u32)
                | ((((x2 >> 5u32) & 0x01) as u32) << 17u32)
                | ((((x3 >> 5u32) & 0x01) as u32) << 16u32)
                | ((((x4 >> 3u32) & 0x01) as u32) << 15u32)
                | ((((x5 >> 3u32) & 0x01) as u32) << 14u32)
                | ((((x6 >> 3u32) & 0x01) as u32) << 13u32)
                | ((((x7 >> 3u32) & 0x01) as u32) << 12u32)
                | ((((x0 >> 3u32) & 0x01) as u32) << 11u32)
                | ((((x1 >> 3u32) & 0x01) as u32) << 10u32)
                | ((((x2 >> 3u32) & 0x01) as u32) << 9u32)
                | ((((x3 >> 3u32) & 0x01) as u32) << 8u32)
                | ((((x4 >> 1u32) & 0x01) as u32) << 7u32)
                | ((((x5 >> 1u32) & 0x01) as u32) << 6u32)
                | ((((x6 >> 1u32) & 0x01) as u32) << 5u32)
                | ((((x7 >> 1u32) & 0x01) as u32) << 4u32)
                | ((((x0 >> 1u32) & 0x01) as u32) << 3u32)
                | ((((x1 >> 1u32) & 0x01) as u32) << 2u32)
                | ((((x2 >> 1u32) & 0x01) as u32) << 1u32)
                | ((((x3 >> 1u32) & 0x01) as u32) << 0u32)
            ,
    ;
    assert(spec_inv_ip_byte0(s0, s1) == x0);
    assert(((
        (((s1 >> 26u32) & 0x00000001) << 7u32)
        | (((s0 >> 26u32) & 0x00000001) << 6u32)
        | (((s1 >> 18u32) & 0x00000001) << 5u32)
        | (((s0 >> 18u32) & 0x00000001) << 4u32)
        | (((s1 >> 10u32) & 0x00000001) << 3u32)
        | (((s0 >> 10u32) & 0x00000001) << 2u32)
        | (((s1 >> 2u32) & 0x00000001) << 1u32)
        | (((s0 >> 2u32) & 0x00000001) << 0u32)
    ) as u8)
    == x1) by (bit_vector)
        requires
            s0 ==
                ((((x4 >> 6u32) & 0x01) as u32) << 31u32)
                | ((((x5 >> 6u32) & 0x01) as u32) << 30u32)
                | ((((x6 >> 6u32) & 0x01) as u32) << 29u32)
                | ((((x7 >> 6u32) & 0x01) as u32) << 28u32)
                | ((((x0 >> 6u32) & 0x01) as u32) << 27u32)
                | ((((x1 >> 6u32) & 0x01) as u32) << 26u32)
                | ((((x2 >> 6u32) & 0x01) as u32) << 25u32)
                | ((((x3 >> 6u32) & 0x01) as u32) << 24u32)
                | ((((x4 >> 4u32) & 0x01) as u32) << 23u32)
                | ((((x5 >> 4u32) & 0x01) as u32) << 22u32)
                | ((((x6 >> 4u32) & 0x01) as u32) << 21u32)
                | ((((x7 >> 4u32) & 0x01) as u32) << 20u32)
                | ((((x0 >> 4u32) & 0x01) as u32) << 19u32)
                | ((((x1 >> 4u32) & 0x01) as u32) << 18u32)
                | ((((x2 >> 4u32) & 0x01) as u32) << 17u32)
                | ((((x3 >> 4u32) & 0x01) as u32) << 16u32)
                | ((((x4 >> 2u32) & 0x01) as u32) << 15u32)
                | ((((x5 >> 2u32) & 0x01) as u32) << 14u32)
                | ((((x6 >> 2u32) & 0x01) as u32) << 13u32)
                | ((((x7 >> 2u32) & 0x01) as u32) << 12u32)
                | ((((x0 >> 2u32) & 0x01) as u32) << 11u32)
                | ((((x1 >> 2u32) & 0x01) as u32) << 10u32)
                | ((((x2 >> 2u32) & 0x01) as u32) << 9u32)
                | ((((x3 >> 2u32) & 0x01) as u32) << 8u32)
                | ((((x4 >> 0u32) & 0x01) as u32) << 7u32)
                | ((((x5 >> 0u32) & 0x01) as u32) << 6u32)
                | ((((x6 >> 0u32) & 0x01) as u32) << 5u32)
                | ((((x7 >> 0u32) & 0x01) as u32) << 4u32)
                | ((((x0 >> 0u32) & 0x01) as u32) << 3u32)
                | ((((x1 >> 0u32) & 0x01) as u32) << 2u32)
                | ((((x2 >> 0u32) & 0x01) as u32) << 1u32)
                | ((((x3 >> 0u32) & 0x01) as u32) << 0u32)
            ,
            s1 ==
                ((((x4 >> 7u32) & 0x01) as u32) << 31u32)
                | ((((x5 >> 7u32) & 0x01) as u32) << 30u32)
                | ((((x6 >> 7u32) & 0x01) as u32) << 29u32)
                | ((((x7 >> 7u32) & 0x01) as u32) << 28u32)
                | ((((x0 >> 7u32) & 0x01) as u32) << 27u32)
                | ((((x1 >> 7u32) & 0x01) as u32) << 26u32)
                | ((((x2 >> 7u32) & 0x01) as u32) << 25u32)
                | ((((x3 >> 7u32) & 0x01) as u32) << 24u32)
                | ((((x4 >> 5u32) & 0x01) as u32) << 23u32)
                | ((((x5 >> 5u32) & 0x01) as u32) << 22u32)
                | ((((x6 >> 5u32) & 0x01) as u32) << 21u32)
                | ((((x7 >> 5u32) & 0x01) as u32) << 20u32)
                | ((((x0 >> 5u32) & 0x01) as u32) << 19u32)
                | ((((x1 >> 5u32) & 0x01) as u32) << 18u32)
                | ((((x2 >> 5u32) & 0x01) as u32) << 17u32)
                | ((((x3 >> 5u32) & 0x01) as u32) << 16u32)
                | ((((x4 >> 3u32) & 0x01) as u32) << 15u32)
                | ((((x5 >> 3u32) & 0x01) as u32) << 14u32)
                | ((((x6 >> 3u32) & 0x01) as u32) << 13u32)
                | ((((x7 >> 3u32) & 0x01) as u32) << 12u32)
                | ((((x0 >> 3u32) & 0x01) as u32) << 11u32)
                | ((((x1 >> 3u32) & 0x01) as u32) << 10u32)
                | ((((x2 >> 3u32) & 0x01) as u32) << 9u32)
                | ((((x3 >> 3u32) & 0x01) as u32) << 8u32)
                | ((((x4 >> 1u32) & 0x01) as u32) << 7u32)
                | ((((x5 >> 1u32) & 0x01) as u32) << 6u32)
                | ((((x6 >> 1u32) & 0x01) as u32) << 5u32)
                | ((((x7 >> 1u32) & 0x01) as u32) << 4u32)
                | ((((x0 >> 1u32) & 0x01) as u32) << 3u32)
                | ((((x1 >> 1u32) & 0x01) as u32) << 2u32)
                | ((((x2 >> 1u32) & 0x01) as u32) << 1u32)
                | ((((x3 >> 1u32) & 0x01) as u32) << 0u32)
            ,
    ;
    assert(spec_inv_ip_byte1(s0, s1) == x1);
    assert(((
        (((s1 >> 25u32) & 0x00000001) << 7u32)
        | (((s0 >> 25u32) & 0x00000001) << 6u32)
        | (((s1 >> 17u32) & 0x00000001) << 5u32)
        | (((s0 >> 17u32) & 0x00000001) << 4u32)
        | (((s1 >> 9u32) & 0x00000001) << 3u32)
        | (((s0 >> 9u32) & 0x00000001) << 2u32)
        | (((s1 >> 1u32) & 0x00000001) << 1u32)
        | (((s0 >> 1u32) & 0x00000001) << 0u32)
    ) as u8)
    == x2) by (bit_vector)
        requires
            s0 ==
                ((((x4 >> 6u32) & 0x01) as u32) << 31u32)
                | ((((x5 >> 6u32) & 0x01) as u32) << 30u32)
                | ((((x6 >> 6u32) & 0x01) as u32) << 29u32)
                | ((((x7 >> 6u32) & 0x01) as u32) << 28u32)
                | ((((x0 >> 6u32) & 0x01) as u32) << 27u32)
                | ((((x1 >> 6u32) & 0x01) as u32) << 26u32)
                | ((((x2 >> 6u32) & 0x01) as u32) << 25u32)
                | ((((x3 >> 6u32) & 0x01) as u32) << 24u32)
                | ((((x4 >> 4u32) & 0x01) as u32) << 23u32)
                | ((((x5 >> 4u32) & 0x01) as u32) << 22u32)
                | ((((x6 >> 4u32) & 0x01) as u32) << 21u32)
                | ((((x7 >> 4u32) & 0x01) as u32) << 20u32)
                | ((((x0 >> 4u32) & 0x01) as u32) << 19u32)
                | ((((x1 >> 4u32) & 0x01) as u32) << 18u32)
                | ((((x2 >> 4u32) & 0x01) as u32) << 17u32)
                | ((((x3 >> 4u32) & 0x01) as u32) << 16u32)
                | ((((x4 >> 2u32) & 0x01) as u32) << 15u32)
                | ((((x5 >> 2u32) & 0x01) as u32) << 14u32)
                | ((((x6 >> 2u32) & 0x01) as u32) << 13u32)
                | ((((x7 >> 2u32) & 0x01) as u32) << 12u32)
                | ((((x0 >> 2u32) & 0x01) as u32) << 11u32)
                | ((((x1 >> 2u32) & 0x01) as u32) << 10u32)
                | ((((x2 >> 2u32) & 0x01) as u32) << 9u32)
                | ((((x3 >> 2u32) & 0x01) as u32) << 8u32)
                | ((((x4 >> 0u32) & 0x01) as u32) << 7u32)
                | ((((x5 >> 0u32) & 0x01) as u32) << 6u32)
                | ((((x6 >> 0u32) & 0x01) as u32) << 5u32)
                | ((((x7 >> 0u32) & 0x01) as u32) << 4u32)
                | ((((x0 >> 0u32) & 0x01) as u32) << 3u32)
                | ((((x1 >> 0u32) & 0x01) as u32) << 2u32)
                | ((((x2 >> 0u32) & 0x01) as u32) << 1u32)
                | ((((x3 >> 0u32) & 0x01) as u32) << 0u32)
            ,
            s1 ==
                ((((x4 >> 7u32) & 0x01) as u32) << 31u32)
                | ((((x5 >> 7u32) & 0x01) as u32) << 30u32)
                | ((((x6 >> 7u32) & 0x01) as u32) << 29u32)
                | ((((x7 >> 7u32) & 0x01) as u32) << 28u32)
                | ((((x0 >> 7u32) & 0x01) as u32) << 27u32)
                | ((((x1 >> 7u32) & 0x01) as u32) << 26u32)
                | ((((x2 >> 7u32) & 0x01) as u32) << 25u32)
                | ((((x3 >> 7u32) & 0x01) as u32) << 24u32)
                | ((((x4 >> 5u32) & 0x01) as u32) << 23u32)
                | ((((x5 >> 5u32) & 0x01) as u32) << 22u32)
                | ((((x6 >> 5u32) & 0x01) as u32) << 21u32)
                | ((((x7 >> 5u32) & 0x01) as u32) << 20u32)
                | ((((x0 >> 5u32) & 0x01) as u32) << 19u32)
                | ((((x1 >> 5u32) & 0x01) as u32) << 18u32)
                | ((((x2 >> 5u32) & 0x01) as u32) << 17u32)
                | ((((x3 >> 5u32) & 0x01) as u32) << 16u32)
                | ((((x4 >> 3u32) & 0x01) as u32) << 15u32)
                | ((((x5 >> 3u32) & 0x01) as u32) << 14u32)
                | ((((x6 >> 3u32) & 0x01) as u32) << 13u32)
                | ((((x7 >> 3u32) & 0x01) as u32) << 12u32)
                | ((((x0 >> 3u32) & 0x01) as u32) << 11u32)
                | ((((x1 >> 3u32) & 0x01) as u32) << 10u32)
                | ((((x2 >> 3u32) & 0x01) as u32) << 9u32)
                | ((((x3 >> 3u32) & 0x01) as u32) << 8u32)
                | ((((x4 >> 1u32) & 0x01) as u32) << 7u32)
                | ((((x5 >> 1u32) & 0x01) as u32) << 6u32)
                | ((((x6 >> 1u32) & 0x01) as u32) << 5u32)
                | ((((x7 >> 1u32) & 0x01) as u32) << 4u32)
                | ((((x0 >> 1u32) & 0x01) as u32) << 3u32)
                | ((((x1 >> 1u32) & 0x01) as u32) << 2u32)
                | ((((x2 >> 1u32) & 0x01) as u32) << 1u32)
                | ((((x3 >> 1u32) & 0x01) as u32) << 0u32)
            ,
    ;
    assert(spec_inv_ip_byte2(s0, s1) == x2);
    assert(((
        (((s1 >> 24u32) & 0x00000001) << 7u32)
        | (((s0 >> 24u32) & 0x00000001) << 6u32)
        | (((s1 >> 16u32) & 0x00000001) << 5u32)
        | (((s0 >> 16u32) & 0x00000001) << 4u32)
        | (((s1 >> 8u32) & 0x00000001) << 3u32)
        | (((s0 >> 8u32) & 0x00000001) << 2u32)
        | (((s1 >> 0u32) & 0x00000001) << 1u32)
        | (((s0 >> 0u32) & 0x00000001) << 0u32)
    ) as u8)
    == x3) by (bit_vector)
        requires
            s0 ==
                ((((x4 >> 6u32) & 0x01) as u32) << 31u32)
                | ((((x5 >> 6u32) & 0x01) as u32) << 30u32)
                | ((((x6 >> 6u32) & 0x01) as u32) << 29u32)
                | ((((x7 >> 6u32) & 0x01) as u32) << 28u32)
                | ((((x0 >> 6u32) & 0x01) as u32) << 27u32)
                | ((((x1 >> 6u32) & 0x01) as u32) << 26u32)
                | ((((x2 >> 6u32) & 0x01) as u32) << 25u32)
                | ((((x3 >> 6u32) & 0x01) as u32) << 24u32)
                | ((((x4 >> 4u32) & 0x01) as u32) << 23u32)
                | ((((x5 >> 4u32) & 0x01) as u32) << 22u32)
                | ((((x6 >> 4u32) & 0x01) as u32) << 21u32)
                | ((((x7 >> 4u32) & 0x01) as u32) << 20u32)
                | ((((x0 >> 4u32) & 0x01) as u32) << 19u32)
                | ((((x1 >> 4u32) & 0x01) as u32) << 18u32)
                | ((((x2 >> 4u32) & 0x01) as u32) << 17u32)
                | ((((x3 >> 4u32) & 0x01) as u32) << 16u32)
                | ((((x4 >> 2u32) & 0x01) as u32) << 15u32)
                | ((((x5 >> 2u32) & 0x01) as u32) << 14u32)
                | ((((x6 >> 2u32) & 0x01) as u32) << 13u32)
                | ((((x7 >> 2u32) & 0x01) as u32) << 12u32)
                | ((((x0 >> 2u32) & 0x01) as u32) << 11u32)
                | ((((x1 >> 2u32) & 0x01) as u32) << 10u32)
                | ((((x2 >> 2u32) & 0x01) as u32) << 9u32)
                | ((((x3 >> 2u32) & 0x01) as u32) << 8u32)
                | ((((x4 >> 0u32) & 0x01) as u32) << 7u32)
                | ((((x5 >> 0u32) & 0x01) as u32) << 6u32)
                | ((((x6 >> 0u32) & 0x01) as u32) << 5u32)
                | ((((x7 >> 0u32) & 0x01) as u32) << 4u32)
                | ((((x0 >> 0u32) & 0x01) as u32) << 3u32)
                | ((((x1 >> 0u32) & 0x01) as u32) << 2u32)
                | ((((x2 >> 0u32) & 0x01) as u32) << 1u32)
                | ((((x3 >> 0u32) & 0x01) as u32) << 0u32)
            ,
            s1 ==
                ((((x4 >> 7u32) & 0x01) as u32) << 31u32)
                | ((((x5 >> 7u32) & 0x01) as u32) << 30u32)
                | ((((x6 >> 7u32) & 0x01) as u32) << 29u32)
                | ((((x7 >> 7u32) & 0x01) as u32) << 28u32)
                | ((((x0 >> 7u32) & 0x01) as u32) << 27u32)
                | ((((x1 >> 7u32) & 0x01) as u32) << 26u32)
                | ((((x2 >> 7u32) & 0x01) as u32) << 25u32)
                | ((((x3 >> 7u32) & 0x01) as u32) << 24u32)
                | ((((x4 >> 5u32) & 0x01) as u32) << 23u32)
                | ((((x5 >> 5u32) & 0x01) as u32) << 22u32)
                | ((((x6 >> 5u32) & 0x01) as u32) << 21u32)
                | ((((x7 >> 5u32) & 0x01) as u32) << 20u32)
                | ((((x0 >> 5u32) & 0x01) as u32) << 19u32)
                | ((((x1 >> 5u32) & 0x01) as u32) << 18u32)
                | ((((x2 >> 5u32) & 0x01) as u32) << 17u32)
                | ((((x3 >> 5u32) & 0x01) as u32) << 16u32)
                | ((((x4 >> 3u32) & 0x01) as u32) << 15u32)
                | ((((x5 >> 3u32) & 0x01) as u32) << 14u32)
                | ((((x6 >> 3u32) & 0x01) as u32) << 13u32)
                | ((((x7 >> 3u32) & 0x01) as u32) << 12u32)
                | ((((x0 >> 3u32) & 0x01) as u32) << 11u32)
                | ((((x1 >> 3u32) & 0x01) as u32) << 10u32)
                | ((((x2 >> 3u32) & 0x01) as u32) << 9u32)
                | ((((x3 >> 3u32) & 0x01) as u32) << 8u32)
                | ((((x4 >> 1u32) & 0x01) as u32) << 7u32)
                | ((((x5 >> 1u32) & 0x01) as u32) << 6u32)
                | ((((x6 >> 1u32) & 0x01) as u32) << 5u32)
                | ((((x7 >> 1u32) & 0x01) as u32) << 4u32)
                | ((((x0 >> 1u32) & 0x01) as u32) << 3u32)
                | ((((x1 >> 1u32) & 0x01) as u32) << 2u32)
                | ((((x2 >> 1u32) & 0x01) as u32) << 1u32)
                | ((((x3 >> 1u32) & 0x01) as u32) << 0u32)
            ,
    ;
    assert(spec_inv_ip_byte3(s0, s1) == x3);
    assert(((
        (((s1 >> 31u32) & 0x00000001) << 7u32)
        | (((s0 >> 31u32) & 0x00000001) << 6u32)
        | (((s1 >> 23u32) & 0x00000001) << 5u32)
        | (((s0 >> 23u32) & 0x00000001) << 4u32)
        | (((s1 >> 15u32) & 0x00000001) << 3u32)
        | (((s0 >> 15u32) & 0x00000001) << 2u32)
        | (((s1 >> 7u32) & 0x00000001) << 1u32)
        | (((s0 >> 7u32) & 0x00000001) << 0u32)
    ) as u8)
    == x4) by (bit_vector)
        requires
            s0 ==
                ((((x4 >> 6u32) & 0x01) as u32) << 31u32)
                | ((((x5 >> 6u32) & 0x01) as u32) << 30u32)
                | ((((x6 >> 6u32) & 0x01) as u32) << 29u32)
                | ((((x7 >> 6u32) & 0x01) as u32) << 28u32)
                | ((((x0 >> 6u32) & 0x01) as u32) << 27u32)
                | ((((x1 >> 6u32) & 0x01) as u32) << 26u32)
                | ((((x2 >> 6u32) & 0x01) as u32) << 25u32)
                | ((((x3 >> 6u32) & 0x01) as u32) << 24u32)
                | ((((x4 >> 4u32) & 0x01) as u32) << 23u32)
                | ((((x5 >> 4u32) & 0x01) as u32) << 22u32)
                | ((((x6 >> 4u32) & 0x01) as u32) << 21u32)
                | ((((x7 >> 4u32) & 0x01) as u32) << 20u32)
                | ((((x0 >> 4u32) & 0x01) as u32) << 19u32)
                | ((((x1 >> 4u32) & 0x01) as u32) << 18u32)
                | ((((x2 >> 4u32) & 0x01) as u32) << 17u32)
                | ((((x3 >> 4u32) & 0x01) as u32) << 16u32)
                | ((((x4 >> 2u32) & 0x01) as u32) << 15u32)
                | ((((x5 >> 2u32) & 0x01) as u32) << 14u32)
                | ((((x6 >> 2u32) & 0x01) as u32) << 13u32)
                | ((((x7 >> 2u32) & 0x01) as u32) << 12u32)
                | ((((x0 >> 2u32) & 0x01) as u32) << 11u32)
                | ((((x1 >> 2u32) & 0x01) as u32) << 10u32)
                | ((((x2 >> 2u32) & 0x01) as u32) << 9u32)
                | ((((x3 >> 2u32) & 0x01) as u32) << 8u32)
                | ((((x4 >> 0u32) & 0x01) as u32) << 7u32)
                | ((((x5 >> 0u32) & 0x01) as u32) << 6u32)
                | ((((x6 >> 0u32) & 0x01) as u32) << 5u32)
                | ((((x7 >> 0u32) & 0x01) as u32) << 4u32)
                | ((((x0 >> 0u32) & 0x01) as u32) << 3u32)
                | ((((x1 >> 0u32) & 0x01) as u32) << 2u32)
                | ((((x2 >> 0u32) & 0x01) as u32) << 1u32)
                | ((((x3 >> 0u32) & 0x01) as u32) << 0u32)
            ,
            s1 ==
                ((((x4 >> 7u32) & 0x01) as u32) << 31u32)
                | ((((x5 >> 7u32) & 0x01) as u32) << 30u32)
                | ((((x6 >> 7u32) & 0x01) as u32) << 29u32)
                | ((((x7 >> 7u32) & 0x01) as u32) << 28u32)
                | ((((x0 >> 7u32) & 0x01) as u32) << 27u32)
                | ((((x1 >> 7u32) & 0x01) as u32) << 26u32)
                | ((((x2 >> 7u32) & 0x01) as u32) << 25u32)
                | ((((x3 >> 7u32) & 0x01) as u32) << 24u32)
                | ((((x4 >> 5u32) & 0x01) as u32) << 23u32)
                | ((((x5 >> 5u32) & 0x01) as u32) << 22u32)
                | ((((x6 >> 5u32) & 0x01) as u32) << 21u32)
                | ((((x7 >> 5u32) & 0x01) as u32) << 20u32)
                | ((((x0 >> 5u32) & 0x01) as u32) << 19u32)
                | ((((x1 >> 5u32) & 0x01) as u32) << 18u32)
                | ((((x2 >> 5u32) & 0x01) as u32) << 17u32)
                | ((((x3 >> 5u32) & 0x01) as u32) << 16u32)
                | ((((x4 >> 3u32) & 0x01) as u32) << 15u32)
                | ((((x5 >> 3u32) & 0x01) as u32) << 14u32)
                | ((((x6 >> 3u32) & 0x01) as u32) << 13u32)
                | ((((x7 >> 3u32) & 0x01) as u32) << 12u32)
                | ((((x0 >> 3u32) & 0x01) as u32) << 11u32)
                | ((((x1 >> 3u32) & 0x01) as u32) << 10u32)
                | ((((x2 >> 3u32) & 0x01) as u32) << 9u32)
                | ((((x3 >> 3u32) & 0x01) as u32) << 8u32)
                | ((((x4 >> 1u32) & 0x01) as u32) << 7u32)
                | ((((x5 >> 1u32) & 0x01) as u32) << 6u32)
                | ((((x6 >> 1u32) & 0x01) as u32) << 5u32)
                | ((((x7 >> 1u32) & 0x01) as u32) << 4u32)
                | ((((x0 >> 1u32) & 0x01) as u32) << 3u32)
                | ((((x1 >> 1u32) & 0x01) as u32) << 2u32)
                | ((((x2 >> 1u32) & 0x01) as u32) << 1u32)
                | ((((x3 >> 1u32) & 0x01) as u32) << 0u32)
            ,
    ;
    assert(spec_inv_ip_byte4(s0, s1) == x4);
    assert(((
        (((s1 >> 30u32) & 0x00000001) << 7u32)
        | (((s0 >> 30u32) & 0x00000001) << 6u32)
        | (((s1 >> 22u32) & 0x00000001) << 5u32)
        | (((s0 >> 22u32) & 0x00000001) << 4u32)
        | (((s1 >> 14u32) & 0x00000001) << 3u32)
        | (((s0 >> 14u32) & 0x00000001) << 2u32)
        | (((s1 >> 6u32) & 0x00000001) << 1u32)
        | (((s0 >> 6u32) & 0x00000001) << 0u32)
    ) as u8)
    == x5) by (bit_vector)
        requires
            s0 ==
                ((((x4 >> 6u32) & 0x01) as u32) << 31u32)
                | ((((x5 >> 6u32) & 0x01) as u32) << 30u32)
                | ((((x6 >> 6u32) & 0x01) as u32) << 29u32)
                | ((((x7 >> 6u32) & 0x01) as u32) << 28u32)
                | ((((x0 >> 6u32) & 0x01) as u32) << 27u32)
                | ((((x1 >> 6u32) & 0x01) as u32) << 26u32)
                | ((((x2 >> 6u32) & 0x01) as u32) << 25u32)
                | ((((x3 >> 6u32) & 0x01) as u32) << 24u32)
                | ((((x4 >> 4u32) & 0x01) as u32) << 23u32)
                | ((((x5 >> 4u32) & 0x01) as u32) << 22u32)
                | ((((x6 >> 4u32) & 0x01) as u32) << 21u32)
                | ((((x7 >> 4u32) & 0x01) as u32) << 20u32)
                | ((((x0 >> 4u32) & 0x01) as u32) << 19u32)
                | ((((x1 >> 4u32) & 0x01) as u32) << 18u32)
                | ((((x2 >> 4u32) & 0x01) as u32) << 17u32)
                | ((((x3 >> 4u32) & 0x01) as u32) << 16u32)
                | ((((x4 >> 2u32) & 0x01) as u32) << 15u32)
                | ((((x5 >> 2u32) & 0x01) as u32) << 14u32)
                | ((((x6 >> 2u32) & 0x01) as u32) << 13u32)
                | ((((x7 >> 2u32) & 0x01) as u32) << 12u32)
                | ((((x0 >> 2u32) & 0x01) as u32) << 11u32)
                | ((((x1 >> 2u32) & 0x01) as u32) << 10u32)
                | ((((x2 >> 2u32) & 0x01) as u32) << 9u32)
                | ((((x3 >> 2u32) & 0x01) as u32) << 8u32)
                | ((((x4 >> 0u32) & 0x01) as u32) << 7u32)
                | ((((x5 >> 0u32) & 0x01) as u32) << 6u32)
                | ((((x6 >> 0u32) & 0x01) as u32) << 5u32)
                | ((((x7 >> 0u32) & 0x01) as u32) << 4u32)
                | ((((x0 >> 0u32) & 0x01) as u32) << 3u32)
                | ((((x1 >> 0u32) & 0x01) as u32) << 2u32)
                | ((((x2 >> 0u32) & 0x01) as u32) << 1u32)
                | ((((x3 >> 0u32) & 0x01) as u32) << 0u32)
            ,
            s1 ==
                ((((x4 >> 7u32) & 0x01) as u32) << 31u32)
                | ((((x5 >> 7u32) & 0x01) as u32) << 30u32)
                | ((((x6 >> 7u32) & 0x01) as u32) << 29u32)
                | ((((x7 >> 7u32) & 0x01) as u32) << 28u32)
                | ((((x0 >> 7u32) & 0x01) as u32) << 27u32)
                | ((((x1 >> 7u32) & 0x01) as u32) << 26u32)
                | ((((x2 >> 7u32) & 0x01) as u32) << 25u32)
                | ((((x3 >> 7u32) & 0x01) as u32) << 24u32)
                | ((((x4 >> 5u32) & 0x01) as u32) << 23u32)
                | ((((x5 >> 5u32) & 0x01) as u32) << 22u32)
                | ((((x6 >> 5u32) & 0x01) as u32) << 21u32)
                | ((((x7 >> 5u32) & 0x01) as u32) << 20u32)
                | ((((x0 >> 5u32) & 0x01) as u32) << 19u32)
                | ((((x1 >> 5u32) & 0x01) as u32) << 18u32)
                | ((((x2 >> 5u32) & 0x01) as u32) << 17u32)
                | ((((x3 >> 5u32) & 0x01) as u32) << 16u32)
                | ((((x4 >> 3u32) & 0x01) as u32) << 15u32)
                | ((((x5 >> 3u32) & 0x01) as u32) << 14u32)
                | ((((x6 >> 3u32) & 0x01) as u32) << 13u32)
                | ((((x7 >> 3u32) & 0x01) as u32) << 12u32)
                | ((((x0 >> 3u32) & 0x01) as u32) << 11u32)
                | ((((x1 >> 3u32) & 0x01) as u32) << 10u32)
                | ((((x2 >> 3u32) & 0x01) as u32) << 9u32)
                | ((((x3 >> 3u32) & 0x01) as u32) << 8u32)
                | ((((x4 >> 1u32) & 0x01) as u32) << 7u32)
                | ((((x5 >> 1u32) & 0x01) as u32) << 6u32)
                | ((((x6 >> 1u32) & 0x01) as u32) << 5u32)
                | ((((x7 >> 1u32) & 0x01) as u32) << 4u32)
                | ((((x0 >> 1u32) & 0x01) as u32) << 3u32)
                | ((((x1 >> 1u32) & 0x01) as u32) << 2u32)
                | ((((x2 >> 1u32) & 0x01) as u32) << 1u32)
                | ((((x3 >> 1u32) & 0x01) as u32) << 0u32)
            ,
    ;
    assert(spec_inv_ip_byte5(s0, s1) == x5);
    assert(((
        (((s1 >> 29u32) & 0x00000001) << 7u32)
        | (((s0 >> 29u32) & 0x00000001) << 6u32)
        | (((s1 >> 21u32) & 0x00000001) << 5u32)
        | (((s0 >> 21u32) & 0x00000001) << 4u32)
        | (((s1 >> 13u32) & 0x00000001) << 3u32)
        | (((s0 >> 13u32) & 0x00000001) << 2u32)
        | (((s1 >> 5u32) & 0x00000001) << 1u32)
        | (((s0 >> 5u32) & 0x00000001) << 0u32)
    ) as u8)
    == x6) by (bit_vector)
        requires
            s0 ==
                ((((x4 >> 6u32) & 0x01) as u32) << 31u32)
                | ((((x5 >> 6u32) & 0x01) as u32) << 30u32)
                | ((((x6 >> 6u32) & 0x01) as u32) << 29u32)
                | ((((x7 >> 6u32) & 0x01) as u32) << 28u32)
                | ((((x0 >> 6u32) & 0x01) as u32) << 27u32)
                | ((((x1 >> 6u32) & 0x01) as u32) << 26u32)
                | ((((x2 >> 6u32) & 0x01) as u32) << 25u32)
                | ((((x3 >> 6u32) & 0x01) as u32) << 24u32)
                | ((((x4 >> 4u32) & 0x01) as u32) << 23u32)
                | ((((x5 >> 4u32) & 0x01) as u32) << 22u32)
                | ((((x6 >> 4u32) & 0x01) as u32) << 21u32)
                | ((((x7 >> 4u32) & 0x01) as u32) << 20u32)
                | ((((x0 >> 4u32) & 0x01) as u32) << 19u32)
                | ((((x1 >> 4u32) & 0x01) as u32) << 18u32)
                | ((((x2 >> 4u32) & 0x01) as u32) << 17u32)
                | ((((x3 >> 4u32) & 0x01) as u32) << 16u32)
                | ((((x4 >> 2u32) & 0x01) as u32) << 15u32)
                | ((((x5 >> 2u32) & 0x01) as u32) << 14u32)
                | ((((x6 >> 2u32) & 0x01) as u32) << 13u32)
                | ((((x7 >> 2u32) & 0x01) as u32) << 12u32)
                | ((((x0 >> 2u32) & 0x01) as u32) << 11u32)
                | ((((x1 >> 2u32) & 0x01) as u32) << 10u32)
                | ((((x2 >> 2u32) & 0x01) as u32) << 9u32)
                | ((((x3 >> 2u32) & 0x01) as u32) << 8u32)
                | ((((x4 >> 0u32) & 0x01) as u32) << 7u32)
                | ((((x5 >> 0u32) & 0x01) as u32) << 6u32)
                | ((((x6 >> 0u32) & 0x01) as u32) << 5u32)
                | ((((x7 >> 0u32) & 0x01) as u32) << 4u32)
                | ((((x0 >> 0u32) & 0x01) as u32) << 3u32)
                | ((((x1 >> 0u32) & 0x01) as u32) << 2u32)
                | ((((x2 >> 0u32) & 0x01) as u32) << 1u32)
                | ((((x3 >> 0u32) & 0x01) as u32) << 0u32)
            ,
            s1 ==
                ((((x4 >> 7u32) & 0x01) as u32) << 31u32)
                | ((((x5 >> 7u32) & 0x01) as u32) << 30u32)
                | ((((x6 >> 7u32) & 0x01) as u32) << 29u32)
                | ((((x7 >> 7u32) & 0x01) as u32) << 28u32)
                | ((((x0 >> 7u32) & 0x01) as u32) << 27u32)
                | ((((x1 >> 7u32) & 0x01) as u32) << 26u32)
                | ((((x2 >> 7u32) & 0x01) as u32) << 25u32)
                | ((((x3 >> 7u32) & 0x01) as u32) << 24u32)
                | ((((x4 >> 5u32) & 0x01) as u32) << 23u32)
                | ((((x5 >> 5u32) & 0x01) as u32) << 22u32)
                | ((((x6 >> 5u32) & 0x01) as u32) << 21u32)
                | ((((x7 >> 5u32) & 0x01) as u32) << 20u32)
                | ((((x0 >> 5u32) & 0x01) as u32) << 19u32)
                | ((((x1 >> 5u32) & 0x01) as u32) << 18u32)
                | ((((x2 >> 5u32) & 0x01) as u32) << 17u32)
                | ((((x3 >> 5u32) & 0x01) as u32) << 16u32)
                | ((((x4 >> 3u32) & 0x01) as u32) << 15u32)
                | ((((x5 >> 3u32) & 0x01) as u32) << 14u32)
                | ((((x6 >> 3u32) & 0x01) as u32) << 13u32)
                | ((((x7 >> 3u32) & 0x01) as u32) << 12u32)
                | ((((x0 >> 3u32) & 0x01) as u32) << 11u32)
                | ((((x1 >> 3u32) & 0x01) as u32) << 10u32)
                | ((((x2 >> 3u32) & 0x01) as u32) << 9u32)
                | ((((x3 >> 3u32) & 0x01) as u32) << 8u32)
                | ((((x4 >> 1u32) & 0x01) as u32) << 7u32)
                | ((((x5 >> 1u32) & 0x01) as u32) << 6u32)
                | ((((x6 >> 1u32) & 0x01) as u32) << 5u32)
                | ((((x7 >> 1u32) & 0x01) as u32) << 4u32)
                | ((((x0 >> 1u32) & 0x01) as u32) << 3u32)
                | ((((x1 >> 1u32) & 0x01) as u32) << 2u32)
                | ((((x2 >> 1u32) & 0x01) as u32) << 1u32)
                | ((((x3 >> 1u32) & 0x01) as u32) << 0u32)
            ,
    ;
    assert(spec_inv_ip_byte6(s0, s1) == x6);
    assert(((
        (((s1 >> 28u32) & 0x00000001) << 7u32)
        | (((s0 >> 28u32) & 0x00000001) << 6u32)
        | (((s1 >> 20u32) & 0x00000001) << 5u32)
        | (((s0 >> 20u32) & 0x00000001) << 4u32)
        | (((s1 >> 12u32) & 0x00000001) << 3u32)
        | (((s0 >> 12u32) & 0x00000001) << 2u32)
        | (((s1 >> 4u32) & 0x00000001) << 1u32)
        | (((s0 >> 4u32) & 0x00000001) << 0u32)
    ) as u8)
    == x7) by (bit_vector)
        requires
            s0 ==
                ((((x4 >> 6u32) & 0x01) as u32) << 31u32)
                | ((((x5 >> 6u32) & 0x01) as u32) << 30u32)
                | ((((x6 >> 6u32) & 0x01) as u32) << 29u32)
                | ((((x7 >> 6u32) & 0x01) as u32) << 28u32)
                | ((((x0 >> 6u32) & 0x01) as u32) << 27u32)
                | ((((x1 >> 6u32) & 0x01) as u32) << 26u32)
                | ((((x2 >> 6u32) & 0x01) as u32) << 25u32)
                | ((((x3 >> 6u32) & 0x01) as u32) << 24u32)
                | ((((x4 >> 4u32) & 0x01) as u32) << 23u32)
                | ((((x5 >> 4u32) & 0x01) as u32) << 22u32)
                | ((((x6 >> 4u32) & 0x01) as u32) << 21u32)
                | ((((x7 >> 4u32) & 0x01) as u32) << 20u32)
                | ((((x0 >> 4u32) & 0x01) as u32) << 19u32)
                | ((((x1 >> 4u32) & 0x01) as u32) << 18u32)
                | ((((x2 >> 4u32) & 0x01) as u32) << 17u32)
                | ((((x3 >> 4u32) & 0x01) as u32) << 16u32)
                | ((((x4 >> 2u32) & 0x01) as u32) << 15u32)
                | ((((x5 >> 2u32) & 0x01) as u32) << 14u32)
                | ((((x6 >> 2u32) & 0x01) as u32) << 13u32)
                | ((((x7 >> 2u32) & 0x01) as u32) << 12u32)
                | ((((x0 >> 2u32) & 0x01) as u32) << 11u32)
                | ((((x1 >> 2u32) & 0x01) as u32) << 10u32)
                | ((((x2 >> 2u32) & 0x01) as u32) << 9u32)
                | ((((x3 >> 2u32) & 0x01) as u32) << 8u32)
                | ((((x4 >> 0u32) & 0x01) as u32) << 7u32)
                | ((((x5 >> 0u32) & 0x01) as u32) << 6u32)
                | ((((x6 >> 0u32) & 0x01) as u32) << 5u32)
                | ((((x7 >> 0u32) & 0x01) as u32) << 4u32)
                | ((((x0 >> 0u32) & 0x01) as u32) << 3u32)
                | ((((x1 >> 0u32) & 0x01) as u32) << 2u32)
                | ((((x2 >> 0u32) & 0x01) as u32) << 1u32)
                | ((((x3 >> 0u32) & 0x01) as u32) << 0u32)
            ,
            s1 ==
                ((((x4 >> 7u32) & 0x01) as u32) << 31u32)
                | ((((x5 >> 7u32) & 0x01) as u32) << 30u32)
                | ((((x6 >> 7u32) & 0x01) as u32) << 29u32)
                | ((((x7 >> 7u32) & 0x01) as u32) << 28u32)
                | ((((x0 >> 7u32) & 0x01) as u32) << 27u32)
                | ((((x1 >> 7u32) & 0x01) as u32) << 26u32)
                | ((((x2 >> 7u32) & 0x01) as u32) << 25u32)
                | ((((x3 >> 7u32) & 0x01) as u32) << 24u32)
                | ((((x4 >> 5u32) & 0x01) as u32) << 23u32)
                | ((((x5 >> 5u32) & 0x01) as u32) << 22u32)
                | ((((x6 >> 5u32) & 0x01) as u32) << 21u32)
                | ((((x7 >> 5u32) & 0x01) as u32) << 20u32)
                | ((((x0 >> 5u32) & 0x01) as u32) << 19u32)
                | ((((x1 >> 5u32) & 0x01) as u32) << 18u32)
                | ((((x2 >> 5u32) & 0x01) as u32) << 17u32)
                | ((((x3 >> 5u32) & 0x01) as u32) << 16u32)
                | ((((x4 >> 3u32) & 0x01) as u32) << 15u32)
                | ((((x5 >> 3u32) & 0x01) as u32) << 14u32)
                | ((((x6 >> 3u32) & 0x01) as u32) << 13u32)
                | ((((x7 >> 3u32) & 0x01) as u32) << 12u32)
                | ((((x0 >> 3u32) & 0x01) as u32) << 11u32)
                | ((((x1 >> 3u32) & 0x01) as u32) << 10u32)
                | ((((x2 >> 3u32) & 0x01) as u32) << 9u32)
                | ((((x3 >> 3u32) & 0x01) as u32) << 8u32)
                | ((((x4 >> 1u32) & 0x01) as u32) << 7u32)
                | ((((x5 >> 1u32) & 0x01) as u32) << 6u32)
                | ((((x6 >> 1u32) & 0x01) as u32) << 5u32)
                | ((((x7 >> 1u32) & 0x01) as u32) << 4u32)
                | ((((x0 >> 1u32) & 0x01) as u32) << 3u32)
                | ((((x1 >> 1u32) & 0x01) as u32) << 2u32)
                | ((((x2 >> 1u32) & 0x01) as u32) << 1u32)
                | ((((x3 >> 1u32) & 0x01) as u32) << 0u32)
            ,
    ;
    assert(spec_inv_ip_byte7(s0, s1) == x7);
    assert(spec_inv_ip(s0, s1) =~= a.take(8));
}


/// XOR cancellation, in the two shapes the Feistel rounds use.
proof fn lemma_xor_cancel(a: u32, b: u32)
    by (bit_vector)
    ensures
        a ^ (a ^ b) == b,
        a ^ (b ^ a) == b,
        (a ^ b) ^ a == b,
        (b ^ a) ^ a == b,
{
}

/// Running the swapping rounds backward under the reversed schedule
/// unwinds them: after `r` backward rounds, the state is the forward
/// state after `16 - r` rounds, with its halves swapped.
proof fn lemma_feistel_unwind(e0: u32, e1: u32, kse: Seq<Seq<u8>>, ksd: Seq<Seq<u8>>, r: nat)
    requires
        kse.len() == 16,
        ksd.len() == 16,
        forall|j: int| 0 <= j < 16 ==> ksd[j] == kse[15 - j],
        1 <= r <= 15,
    ensures
        spec_rounds(
            spec_rounds(e0, e1, kse, 15).0 ^ spec_f(spec_rounds(e0, e1, kse, 15).1, kse[15]),
            spec_rounds(e0, e1, kse, 15).1,
            ksd,
            r,
        ) == (
            spec_rounds(e0, e1, kse, (16 - r) as nat).1,
            spec_rounds(e0, e1, kse, (16 - r) as nat).0,
        ),
    decreases r,
{
    let st = spec_rounds(e0, e1, kse, 15);
    let a0 = st.0 ^ spec_f(st.1, kse[15]);
    let a1 = st.1;
    if r == 1 {
        let fv = spec_f(a1, ksd[0]);
        assert(ksd[0] == kse[15]);
        assert(spec_rounds(a0, a1, ksd, 0) == (a0, a1));
        assert(spec_rounds(a0, a1, ksd, 1) == (a1, fv ^ a0));
        lemma_xor_cancel(fv, st.0);
    } else {
        lemma_feistel_unwind(e0, e1, kse, ksd, (r - 1) as nat);
        let n = (16 - (r - 1)) as nat;
        let prev = spec_rounds(a0, a1, ksd, (r - 1) as nat);
        let en = spec_rounds(e0, e1, kse, n);
        let enm1 = spec_rounds(e0, e1, kse, (n - 1) as nat);
        assert(en == (enm1.1, spec_f(enm1.1, kse[n - 1]) ^ enm1.0));
        assert(prev == (en.1, en.0));
        let fv = spec_f(prev.1, ksd[r - 1]);
        assert(ksd[r - 1] == kse[16 - r]);
        assert(prev.1 == enm1.1);
        assert(spec_rounds(a0, a1, ksd, r) == (prev.1, fv ^ prev.0));
        lemma_xor_cancel(fv, enm1.0);
    }
}

/// One full application of the cipher under `ks1` is undone by one
/// application under `ks2` whenever `ks2` holds the same subkeys in
/// reverse order — the heart of why decryption inverts encryption.
proof fn lemma_des_inverse(input: Seq<u8>, ks1: Seq<Seq<u8>>, ks2: Seq<Seq<u8>>)
    requires
        input.len() >= 8,
        ks1.len() == 16,
        ks2.len() == 16,
        forall|j: int| 0 <= j < 16 ==> ks2[j] == ks1[15 - j],
    ensures
        spec_des_crypt(spec_des_crypt(input, ks1), ks2) == input.take(8),
{
    let e0 = spec_ip0(input);
    let e1 = spec_ip1(input);
    let st = spec_rounds(e0, e1, ks1, 15);
    let fin0 = st.0 ^ spec_f(st.1, ks1[15]);
    let enc = spec_des_crypt(input, ks1);
    assert(enc == spec_inv_ip(fin0, st.1));
    lemma_ip_of_inv_ip(fin0, st.1);
    assert(enc.len() >= 8);

    lemma_feistel_unwind(e0, e1, ks1, ks2, 15);
    let dst = spec_rounds(fin0, st.1, ks2, 15);
    let e1st = spec_rounds(e0, e1, ks1, 1);
    assert(spec_rounds(e0, e1, ks1, 0) == (e0, e1));
    assert(e1st == (e1, spec_f(e1, ks1[0]) ^ e0));
    assert(dst == (e1st.1, e1st.0));

    let dfv = spec_f(dst.1, ks2[15]);
    assert(ks2[15] == ks1[0]);
    assert(dst.1 == e1);
    lemma_xor_cancel(dfv, e0);
    assert(dst.0 ^ dfv == e0);

    assert(spec_des_crypt(enc, ks2) == spec_inv_ip(dst.0 ^ spec_f(dst.1, ks2[15]), dst.1));
    assert(spec_ip0(enc) == fin0 && spec_ip1(enc) == st.1);
    lemma_inv_ip_of_ip(input);
    assert(spec_inv_ip(e0, e1) == input.take(8));
}

/// A decryption schedule holds the encryption schedule's subkeys in
/// reverse order, and the other way around.
proof fn lemma_schedule_reversal(key: Seq<u8>, j: int)
    requires
        0 <= j < 16,
    ensures
        spec_schedule(key, DesMode::Decrypt)[j] == spec_schedule(key, DesMode::Encrypt)[15 - j],
        spec_schedule(key, DesMode::Encrypt)[j] == spec_schedule(key, DesMode::Decrypt)[15 - j],
{
}

/// Round-trip law of the single cipher: decrypting an encrypted
/// block under the same 8-byte key returns the block.
pub proof fn lemma_des_round_trip(input: Seq<u8>, key: Seq<u8>)
    requires
        input.len() >= 8,
        key.len() >= 8,
    ensures
        spec_des_crypt(
            spec_des_crypt(input, spec_schedule(key, DesMode::Encrypt)),
            spec_schedule(key, DesMode::Decrypt),
        ) == input.take(8),
{
    let kse = spec_schedule(key, DesMode::Encrypt);
    let ksd = spec_schedule(key, DesMode::Decrypt);
    assert forall|j: int| 0 <= j < 16 implies ksd[j] == kse[15 - j] by {
        lemma_schedule_reversal(key, j);
    }
    lemma_des_inverse(input, kse, ksd);
}

/// Round-trip law of the cipher with swapped schedules: a block
/// pushed through the decryption schedule first comes back after the
/// encryption schedule — the middle stage of the triple cipher works
/// this way.
pub proof fn lemma_des_round_trip_reversed(input: Seq<u8>, key: Seq<u8>)
    requires
        input.len() >= 8,
        key.len() >= 8,
    ensures
        spec_des_crypt(
            spec_des_crypt(input, spec_schedule(key, DesMode::Decrypt)),
            spec_schedule(key, DesMode::Encrypt),
        ) == input.take(8),
{
    let kse = spec_schedule(key, DesMode::Encrypt);
    let ksd = spec_schedule(key, DesMode::Decrypt);
    assert forall|j: int| 0 <= j < 16 implies kse[j] == ksd[15 - j] by {
        lemma_schedule_reversal(key, 15 - j);
    }
    lemma_des_inverse(input, ksd, kse);
}

/// Round-trip law of the triple cipher: decrypting under the same
/// 24-byte key undoes encryption, stage by stage.
pub proof fn lemma_three_des_round_trip(input: Seq<u8>, key: Seq<u8>)
    requires
        input.len() >= 8,
        key.len() >= 24,
    ensures
        spec_three_des_crypt(
            spec_three_des_crypt(input, spec_triple_schedules(key, DesMode::Encrypt)),
            spec_triple_schedules(key, DesMode::Decrypt),
        ) == input.take(8),
{
    let k0 = key.subrange(0, 8);
    let k1 = key.subrange(8, 16);
    let k2 = key.subrange(16, 24);
    let enc = spec_triple_schedules(key, DesMode::Encrypt);
    let dec = spec_triple_schedules(key, DesMode::Decrypt);
    assert(enc[0] == spec_schedule(k0, DesMode::Encrypt));
    assert(enc[1] == spec_schedule(k1, DesMode::Decrypt));
    assert(enc[2] == spec_schedule(k2, DesMode::Encrypt));
    assert(dec[0] == spec_schedule(k2, DesMode::Decrypt));
    assert(dec[1] == spec_schedule(k1, DesMode::Encrypt));
    assert(dec[2] == spec_schedule(k0, DesMode::Decrypt));

    let c1 = spec_des_crypt(input, enc[0]);
    let c2 = spec_des_crypt(c1, enc[1]);
    let c3 = spec_des_crypt(c2, enc[2]);
    assert(c1.len() == 8 && c2.len() == 8 && c3.len() == 8);

    lemma_des_round_trip(c2, k2);
    assert(spec_des_crypt(spec_des_crypt(c2, enc[2]), dec[0]) == c2.take(8));
    assert(c2.take(8) =~= c2);
    lemma_des_round_trip_reversed(c1, k1);
    assert(spec_des_crypt(spec_des_crypt(c1, enc[1]), dec[1]) == c1.take(8));
    assert(c1.take(8) =~= c1);
    lemma_des_round_trip(input, k0);
}

} // verus!
