//! What holds of the key map as a whole: every key it lists can fire, no
//! key means two things in one mode, every row is documented, and `q`
//! quits everywhere.

use vstd::prelude::*;

use crate::event::AppEvent;
use crate::keymap::{
    binding_row, first_firing_from, mask_has, normalize_spec, row_count, row_fires, Key, KeyCode,
    KeyEvent, KeyModifiers,
};
use crate::mode::Mode;

verus! {

/// Which modes each mask of the table is live in.
proof fn lemma_table_masks(mode: Mode)
    ensures
        mask_has(1, mode) == (mode == Mode::Day),
        mask_has(2, mode) == (mode == Mode::Week),
        mask_has(3, mode) == (mode == Mode::Day || mode == Mode::Week),
        mask_has(8, mode) == (mode == Mode::RawFile),
        mask_has(9, mode) == (mode == Mode::Day || mode == Mode::RawFile),
        mask_has(15, mode),
{
    assert(1u8 & 1u8 != 0 && 1u8 & 2u8 == 0 && 1u8 & 4u8 == 0 && 1u8 & 8u8 == 0) by (bit_vector);
    assert(2u8 & 1u8 == 0 && 2u8 & 2u8 != 0 && 2u8 & 4u8 == 0 && 2u8 & 8u8 == 0) by (bit_vector);
    assert(3u8 & 1u8 != 0 && 3u8 & 2u8 != 0 && 3u8 & 4u8 == 0 && 3u8 & 8u8 == 0) by (bit_vector);
    assert(8u8 & 1u8 == 0 && 8u8 & 2u8 == 0 && 8u8 & 4u8 == 0 && 8u8 & 8u8 != 0) by (bit_vector);
    assert(9u8 & 1u8 != 0 && 9u8 & 2u8 == 0 && 9u8 & 4u8 == 0 && 9u8 & 8u8 != 0) by (bit_vector);
    assert(15u8 & 1u8 != 0 && 15u8 & 2u8 != 0 && 15u8 & 4u8 != 0 && 15u8 & 8u8 != 0) by (bit_vector);
}

/// Every key of the table is spelled with no modifier held.
#[verifier::spinoff_prover]
proof fn lemma_table_keys_unmodified(i: int, j: int)
    requires
        0 <= i < row_count(),
        0 <= j < binding_row(i).0.len(),
    ensures
        binding_row(i).0[j].1.bits == 0,
{
}

/// Every key the table lists can fire: normalising it leaves it as the
/// table spells it, so no row is unreachable.
#[verifier::spinoff_prover]
pub proof fn law_every_table_key_survives_normalisation(i: int, j: int)
    requires
        0 <= i < row_count(),
        0 <= j < binding_row(i).0.len(),
    ensures
        normalize_spec(KeyEvent { code: binding_row(i).0[j].0, modifiers: binding_row(i).0[j].1 }) == binding_row(i).0[j],
{
    lemma_table_keys_unmodified(i, j);
    assert(0u8 & 254u8 == 0u8) by (bit_vector);
}

/// No later row live in the same mode as row 0 shares a key with it.
#[verifier::spinoff_prover]
proof fn lemma_row_0_keys_are_its_own(j: int, mode: Mode, k: Key)
    requires
        0 < j < 29,
        mask_has(binding_row(0).2, mode),
        mask_has(binding_row(j).2, mode),
    ensures
        !(binding_row(0).0.contains(k) && binding_row(j).0.contains(k)),
{
    lemma_table_masks(mode);
    if binding_row(0).0.contains(k) && binding_row(j).0.contains(k) {
        let a = choose|a: int| 0 <= a < binding_row(0).0.len() && binding_row(0).0[a] == k;
        let b = choose|b: int| 0 <= b < binding_row(j).0.len() && binding_row(j).0[b] == k;
        assert(binding_row(0).0[a] == binding_row(j).0[b]);
    }
}

/// No later row live in the same mode as row 1 shares a key with it.
#[verifier::spinoff_prover]
proof fn lemma_row_1_keys_are_its_own(j: int, mode: Mode, k: Key)
    requires
        1 < j < 29,
        mask_has(binding_row(1).2, mode),
        mask_has(binding_row(j).2, mode),
    ensures
        !(binding_row(1).0.contains(k) && binding_row(j).0.contains(k)),
{
    lemma_table_masks(mode);
    if binding_row(1).0.contains(k) && binding_row(j).0.contains(k) {
        let a = choose|a: int| 0 <= a < binding_row(1).0.len() && binding_row(1).0[a] == k;
        let b = choose|b: int| 0 <= b < binding_row(j).0.len() && binding_row(j).0[b] == k;
        assert(binding_row(1).0[a] == binding_row(j).0[b]);
    }
}

/// No later row live in the same mode as row 2 shares a key with it.
#[verifier::spinoff_prover]
proof fn lemma_row_2_keys_are_its_own(j: int, mode: Mode, k: Key)
    requires
        2 < j < 29,
        mask_has(binding_row(2).2, mode),
        mask_has(binding_row(j).2, mode),
    ensures
        !(binding_row(2).0.contains(k) && binding_row(j).0.contains(k)),
{
    lemma_table_masks(mode);
    if binding_row(2).0.contains(k) && binding_row(j).0.contains(k) {
        let a = choose|a: int| 0 <= a < binding_row(2).0.len() && binding_row(2).0[a] == k;
        let b = choose|b: int| 0 <= b < binding_row(j).0.len() && binding_row(j).0[b] == k;
        assert(binding_row(2).0[a] == binding_row(j).0[b]);
    }
}

/// No later row live in the same mode as row 3 shares a key with it.
#[verifier::spinoff_prover]
proof fn lemma_row_3_keys_are_its_own(j: int, mode: Mode, k: Key)
    requires
        3 < j < 29,
        mask_has(binding_row(3).2, mode),
        mask_has(binding_row(j).2, mode),
    ensures
        !(binding_row(3).0.contains(k) && binding_row(j).0.contains(k)),
{
    lemma_table_masks(mode);
    if binding_row(3).0.contains(k) && binding_row(j).0.contains(k) {
        let a = choose|a: int| 0 <= a < binding_row(3).0.len() && binding_row(3).0[a] == k;
        let b = choose|b: int| 0 <= b < binding_row(j).0.len() && binding_row(j).0[b] == k;
        assert(binding_row(3).0[a] == binding_row(j).0[b]);
    }
}

/// No later row live in the same mode as row 4 shares a key with it.
#[verifier::spinoff_prover]
proof fn lemma_row_4_keys_are_its_own(j: int, mode: Mode, k: Key)
    requires
        4 < j < 29,
        mask_has(binding_row(4).2, mode),
        mask_has(binding_row(j).2, mode),
    ensures
        !(binding_row(4).0.contains(k) && binding_row(j).0.contains(k)),
{
    lemma_table_masks(mode);
    if binding_row(4).0.contains(k) && binding_row(j).0.contains(k) {
        let a = choose|a: int| 0 <= a < binding_row(4).0.len() && binding_row(4).0[a] == k;
        let b = choose|b: int| 0 <= b < binding_row(j).0.len() && binding_row(j).0[b] == k;
        assert(binding_row(4).0[a] == binding_row(j).0[b]);
    }
}

/// No later row live in the same mode as row 5 shares a key with it.
#[verifier::spinoff_prover]
proof fn lemma_row_5_keys_are_its_own(j: int, mode: Mode, k: Key)
    requires
        5 < j < 29,
        mask_has(binding_row(5).2, mode),
        mask_has(binding_row(j).2, mode),
    ensures
        !(binding_row(5).0.contains(k) && binding_row(j).0.contains(k)),
{
    lemma_table_masks(mode);
    if binding_row(5).0.contains(k) && binding_row(j).0.contains(k) {
        let a = choose|a: int| 0 <= a < binding_row(5).0.len() && binding_row(5).0[a] == k;
        let b = choose|b: int| 0 <= b < binding_row(j).0.len() && binding_row(j).0[b] == k;
        assert(binding_row(5).0[a] == binding_row(j).0[b]);
    }
}

/// No later row live in the same mode as row 6 shares a key with it.
#[verifier::spinoff_prover]
proof fn lemma_row_6_keys_are_its_own(j: int, mode: Mode, k: Key)
    requires
        6 < j < 29,
        mask_has(binding_row(6).2, mode),
        mask_has(binding_row(j).2, mode),
    ensures
        !(binding_row(6).0.contains(k) && binding_row(j).0.contains(k)),
{
    lemma_table_masks(mode);
    if binding_row(6).0.contains(k) && binding_row(j).0.contains(k) {
        let a = choose|a: int| 0 <= a < binding_row(6).0.len() && binding_row(6).0[a] == k;
        let b = choose|b: int| 0 <= b < binding_row(j).0.len() && binding_row(j).0[b] == k;
        assert(binding_row(6).0[a] == binding_row(j).0[b]);
    }
}

/// No later row live in the same mode as row 7 shares a key with it.
#[verifier::spinoff_prover]
proof fn lemma_row_7_keys_are_its_own(j: int, mode: Mode, k: Key)
    requires
        7 < j < 29,
        mask_has(binding_row(7).2, mode),
        mask_has(binding_row(j).2, mode),
    ensures
        !(binding_row(7).0.contains(k) && binding_row(j).0.contains(k)),
{
    lemma_table_masks(mode);
    if binding_row(7).0.contains(k) && binding_row(j).0.contains(k) {
        let a = choose|a: int| 0 <= a < binding_row(7).0.len() && binding_row(7).0[a] == k;
        let b = choose|b: int| 0 <= b < binding_row(j).0.len() && binding_row(j).0[b] == k;
        assert(binding_row(7).0[a] == binding_row(j).0[b]);
    }
}

/// No later row live in the same mode as row 8 shares a key with it.
#[verifier::spinoff_prover]
proof fn lemma_row_8_keys_are_its_own(j: int, mode: Mode, k: Key)
    requires
        8 < j < 29,
        mask_has(binding_row(8).2, mode),
        mask_has(binding_row(j).2, mode),
    ensures
        !(binding_row(8).0.contains(k) && binding_row(j).0.contains(k)),
{
    lemma_table_masks(mode);
    if binding_row(8).0.contains(k) && binding_row(j).0.contains(k) {
        let a = choose|a: int| 0 <= a < binding_row(8).0.len() && binding_row(8).0[a] == k;
        let b = choose|b: int| 0 <= b < binding_row(j).0.len() && binding_row(j).0[b] == k;
        assert(binding_row(8).0[a] == binding_row(j).0[b]);
    }
}

/// No later row live in the same mode as row 9 shares a key with it.
#[verifier::spinoff_prover]
proof fn lemma_row_9_keys_are_its_own(j: int, mode: Mode, k: Key)
    requires
        9 < j < 29,
        mask_has(binding_row(9).2, mode),
        mask_has(binding_row(j).2, mode),
    ensures
        !(binding_row(9).0.contains(k) && binding_row(j).0.contains(k)),
{
    lemma_table_masks(mode);
    if binding_row(9).0.contains(k) && binding_row(j).0.contains(k) {
        let a = choose|a: int| 0 <= a < binding_row(9).0.len() && binding_row(9).0[a] == k;
        let b = choose|b: int| 0 <= b < binding_row(j).0.len() && binding_row(j).0[b] == k;
        assert(binding_row(9).0[a] == binding_row(j).0[b]);
    }
}

/// No later row live in the same mode as row 10 shares a key with it.
#[verifier::spinoff_prover]
proof fn lemma_row_10_keys_are_its_own(j: int, mode: Mode, k: Key)
    requires
        10 < j < 29,
        mask_has(binding_row(10).2, mode),
        mask_has(binding_row(j).2, mode),
    ensures
        !(binding_row(10).0.contains(k) && binding_row(j).0.contains(k)),
{
    lemma_table_masks(mode);
    if binding_row(10).0.contains(k) && binding_row(j).0.contains(k) {
        let a = choose|a: int| 0 <= a < binding_row(10).0.len() && binding_row(10).0[a] == k;
        let b = choose|b: int| 0 <= b < binding_row(j).0.len() && binding_row(j).0[b] == k;
        assert(binding_row(10).0[a] == binding_row(j).0[b]);
    }
}

/// No later row live in the same mode as row 11 shares a key with it.
#[verifier::spinoff_prover]
proof fn lemma_row_11_keys_are_its_own(j: int, mode: Mode, k: Key)
    requires
        11 < j < 29,
        mask_has(binding_row(11).2, mode),
        mask_has(binding_row(j).2, mode),
    ensures
        !(binding_row(11).0.contains(k) && binding_row(j).0.contains(k)),
{
    lemma_table_masks(mode);
    if binding_row(11).0.contains(k) && binding_row(j).0.contains(k) {
        let a = choose|a: int| 0 <= a < binding_row(11).0.len() && binding_row(11).0[a] == k;
        let b = choose|b: int| 0 <= b < binding_row(j).0.len() && binding_row(j).0[b] == k;
        assert(binding_row(11).0[a] == binding_row(j).0[b]);
    }
}

/// No later row live in the same mode as row 12 shares a key with it.
#[verifier::spinoff_prover]
proof fn lemma_row_12_keys_are_its_own(j: int, mode: Mode, k: Key)
    requires
        12 < j < 29,
        mask_has(binding_row(12).2, mode),
        mask_has(binding_row(j).2, mode),
    ensures
        !(binding_row(12).0.contains(k) && binding_row(j).0.contains(k)),
{
    lemma_table_masks(mode);
    if binding_row(12).0.contains(k) && binding_row(j).0.contains(k) {
        let a = choose|a: int| 0 <= a < binding_row(12).0.len() && binding_row(12).0[a] == k;
        let b = choose|b: int| 0 <= b < binding_row(j).0.len() && binding_row(j).0[b] == k;
        assert(binding_row(12).0[a] == binding_row(j).0[b]);
    }
}

/// No later row live in the same mode as row 13 shares a key with it.
#[verifier::spinoff_prover]
proof fn lemma_row_13_keys_are_its_own(j: int, mode: Mode, k: Key)
    requires
        13 < j < 29,
        mask_has(binding_row(13).2, mode),
        mask_has(binding_row(j).2, mode),
    ensures
        !(binding_row(13).0.contains(k) && binding_row(j).0.contains(k)),
{
    lemma_table_masks(mode);
    if binding_row(13).0.contains(k) && binding_row(j).0.contains(k) {
        let a = choose|a: int| 0 <= a < binding_row(13).0.len() && binding_row(13).0[a] == k;
        let b = choose|b: int| 0 <= b < binding_row(j).0.len() && binding_row(j).0[b] == k;
        assert(binding_row(13).0[a] == binding_row(j).0[b]);
    }
}

/// No later row live in the same mode as row 14 shares a key with it.
#[verifier::spinoff_prover]
proof fn lemma_row_14_keys_are_its_own(j: int, mode: Mode, k: Key)
    requires
        14 < j < 29,
        mask_has(binding_row(14).2, mode),
        mask_has(binding_row(j).2, mode),
    ensures
        !(binding_row(14).0.contains(k) && binding_row(j).0.contains(k)),
{
    lemma_table_masks(mode);
    if binding_row(14).0.contains(k) && binding_row(j).0.contains(k) {
        let a = choose|a: int| 0 <= a < binding_row(14).0.len() && binding_row(14).0[a] == k;
        let b = choose|b: int| 0 <= b < binding_row(j).0.len() && binding_row(j).0[b] == k;
        assert(binding_row(14).0[a] == binding_row(j).0[b]);
    }
}

/// No later row live in the same mode as row 15 shares a key with it.
#[verifier::spinoff_prover]
proof fn lemma_row_15_keys_are_its_own(j: int, mode: Mode, k: Key)
    requires
        15 < j < 29,
        mask_has(binding_row(15).2, mode),
        mask_has(binding_row(j).2, mode),
    ensures
        !(binding_row(15).0.contains(k) && binding_row(j).0.contains(k)),
{
    lemma_table_masks(mode);
    if binding_row(15).0.contains(k) && binding_row(j).0.contains(k) {
        let a = choose|a: int| 0 <= a < binding_row(15).0.len() && binding_row(15).0[a] == k;
        let b = choose|b: int| 0 <= b < binding_row(j).0.len() && binding_row(j).0[b] == k;
        assert(binding_row(15).0[a] == binding_row(j).0[b]);
    }
}

/// No later row live in the same mode as row 16 shares a key with it.
#[verifier::spinoff_prover]
proof fn lemma_row_16_keys_are_its_own(j: int, mode: Mode, k: Key)
    requires
        16 < j < 29,
        mask_has(binding_row(16).2, mode),
        mask_has(binding_row(j).2, mode),
    ensures
        !(binding_row(16).0.contains(k) && binding_row(j).0.contains(k)),
{
    lemma_table_masks(mode);
    if binding_row(16).0.contains(k) && binding_row(j).0.contains(k) {
        let a = choose|a: int| 0 <= a < binding_row(16).0.len() && binding_row(16).0[a] == k;
        let b = choose|b: int| 0 <= b < binding_row(j).0.len() && binding_row(j).0[b] == k;
        assert(binding_row(16).0[a] == binding_row(j).0[b]);
    }
}

/// No later row live in the same mode as row 17 shares a key with it.
#[verifier::spinoff_prover]
proof fn lemma_row_17_keys_are_its_own(j: int, mode: Mode, k: Key)
    requires
        17 < j < 29,
        mask_has(binding_row(17).2, mode),
        mask_has(binding_row(j).2, mode),
    ensures
        !(binding_row(17).0.contains(k) && binding_row(j).0.contains(k)),
{
    lemma_table_masks(mode);
    if binding_row(17).0.contains(k) && binding_row(j).0.contains(k) {
        let a = choose|a: int| 0 <= a < binding_row(17).0.len() && binding_row(17).0[a] == k;
        let b = choose|b: int| 0 <= b < binding_row(j).0.len() && binding_row(j).0[b] == k;
        assert(binding_row(17).0[a] == binding_row(j).0[b]);
    }
}

/// No later row live in the same mode as row 18 shares a key with it.
#[verifier::spinoff_prover]
proof fn lemma_row_18_keys_are_its_own(j: int, mode: Mode, k: Key)
    requires
        18 < j < 29,
        mask_has(binding_row(18).2, mode),
        mask_has(binding_row(j).2, mode),
    ensures
        !(binding_row(18).0.contains(k) && binding_row(j).0.contains(k)),
{
    lemma_table_masks(mode);
    if binding_row(18).0.contains(k) && binding_row(j).0.contains(k) {
        let a = choose|a: int| 0 <= a < binding_row(18).0.len() && binding_row(18).0[a] == k;
        let b = choose|b: int| 0 <= b < binding_row(j).0.len() && binding_row(j).0[b] == k;
        assert(binding_row(18).0[a] == binding_row(j).0[b]);
    }
}

/// No later row live in the same mode as row 19 shares a key with it.
#[verifier::spinoff_prover]
proof fn lemma_row_19_keys_are_its_own(j: int, mode: Mode, k: Key)
    requires
        19 < j < 29,
        mask_has(binding_row(19).2, mode),
        mask_has(binding_row(j).2, mode),
    ensures
        !(binding_row(19).0.contains(k) && binding_row(j).0.contains(k)),
{
    lemma_table_masks(mode);
    if binding_row(19).0.contains(k) && binding_row(j).0.contains(k) {
        let a = choose|a: int| 0 <= a < binding_row(19).0.len() && binding_row(19).0[a] == k;
        let b = choose|b: int| 0 <= b < binding_row(j).0.len() && binding_row(j).0[b] == k;
        assert(binding_row(19).0[a] == binding_row(j).0[b]);
    }
}

/// No later row live in the same mode as row 20 shares a key with it.
#[verifier::spinoff_prover]
proof fn lemma_row_20_keys_are_its_own(j: int, mode: Mode, k: Key)
    requires
        20 < j < 29,
        mask_has(binding_row(20).2, mode),
        mask_has(binding_row(j).2, mode),
    ensures
        !(binding_row(20).0.contains(k) && binding_row(j).0.contains(k)),
{
    lemma_table_masks(mode);
    if binding_row(20).0.contains(k) && binding_row(j).0.contains(k) {
        let a = choose|a: int| 0 <= a < binding_row(20).0.len() && binding_row(20).0[a] == k;
        let b = choose|b: int| 0 <= b < binding_row(j).0.len() && binding_row(j).0[b] == k;
        assert(binding_row(20).0[a] == binding_row(j).0[b]);
    }
}

/// No later row live in the same mode as row 21 shares a key with it.
#[verifier::spinoff_prover]
proof fn lemma_row_21_keys_are_its_own(j: int, mode: Mode, k: Key)
    requires
        21 < j < 29,
        mask_has(binding_row(21).2, mode),
        mask_has(binding_row(j).2, mode),
    ensures
        !(binding_row(21).0.contains(k) && binding_row(j).0.contains(k)),
{
    lemma_table_masks(mode);
    if binding_row(21).0.contains(k) && binding_row(j).0.contains(k) {
        let a = choose|a: int| 0 <= a < binding_row(21).0.len() && binding_row(21).0[a] == k;
        let b = choose|b: int| 0 <= b < binding_row(j).0.len() && binding_row(j).0[b] == k;
        assert(binding_row(21).0[a] == binding_row(j).0[b]);
    }
}

/// No later row live in the same mode as row 22 shares a key with it.
#[verifier::spinoff_prover]
proof fn lemma_row_22_keys_are_its_own(j: int, mode: Mode, k: Key)
    requires
        22 < j < 29,
        mask_has(binding_row(22).2, mode),
        mask_has(binding_row(j).2, mode),
    ensures
        !(binding_row(22).0.contains(k) && binding_row(j).0.contains(k)),
{
    lemma_table_masks(mode);
    if binding_row(22).0.contains(k) && binding_row(j).0.contains(k) {
        let a = choose|a: int| 0 <= a < binding_row(22).0.len() && binding_row(22).0[a] == k;
        let b = choose|b: int| 0 <= b < binding_row(j).0.len() && binding_row(j).0[b] == k;
        assert(binding_row(22).0[a] == binding_row(j).0[b]);
    }
}

/// No later row live in the same mode as row 23 shares a key with it.
#[verifier::spinoff_prover]
proof fn lemma_row_23_keys_are_its_own(j: int, mode: Mode, k: Key)
    requires
        23 < j < 29,
        mask_has(binding_row(23).2, mode),
        mask_has(binding_row(j).2, mode),
    ensures
        !(binding_row(23).0.contains(k) && binding_row(j).0.contains(k)),
{
    lemma_table_masks(mode);
    if binding_row(23).0.contains(k) && binding_row(j).0.contains(k) {
        let a = choose|a: int| 0 <= a < binding_row(23).0.len() && binding_row(23).0[a] == k;
        let b = choose|b: int| 0 <= b < binding_row(j).0.len() && binding_row(j).0[b] == k;
        assert(binding_row(23).0[a] == binding_row(j).0[b]);
    }
}

/// No later row live in the same mode as row 24 shares a key with it.
#[verifier::spinoff_prover]
proof fn lemma_row_24_keys_are_its_own(j: int, mode: Mode, k: Key)
    requires
        24 < j < 29,
        mask_has(binding_row(24).2, mode),
        mask_has(binding_row(j).2, mode),
    ensures
        !(binding_row(24).0.contains(k) && binding_row(j).0.contains(k)),
{
    lemma_table_masks(mode);
    if binding_row(24).0.contains(k) && binding_row(j).0.contains(k) {
        let a = choose|a: int| 0 <= a < binding_row(24).0.len() && binding_row(24).0[a] == k;
        let b = choose|b: int| 0 <= b < binding_row(j).0.len() && binding_row(j).0[b] == k;
        assert(binding_row(24).0[a] == binding_row(j).0[b]);
    }
}

/// No later row live in the same mode as row 25 shares a key with it.
#[verifier::spinoff_prover]
proof fn lemma_row_25_keys_are_its_own(j: int, mode: Mode, k: Key)
    requires
        25 < j < 29,
        mask_has(binding_row(25).2, mode),
        mask_has(binding_row(j).2, mode),
    ensures
        !(binding_row(25).0.contains(k) && binding_row(j).0.contains(k)),
{
    lemma_table_masks(mode);
    if binding_row(25).0.contains(k) && binding_row(j).0.contains(k) {
        let a = choose|a: int| 0 <= a < binding_row(25).0.len() && binding_row(25).0[a] == k;
        let b = choose|b: int| 0 <= b < binding_row(j).0.len() && binding_row(j).0[b] == k;
        assert(binding_row(25).0[a] == binding_row(j).0[b]);
    }
}

/// No later row live in the same mode as row 26 shares a key with it.
#[verifier::spinoff_prover]
proof fn lemma_row_26_keys_are_its_own(j: int, mode: Mode, k: Key)
    requires
        26 < j < 29,
        mask_has(binding_row(26).2, mode),
        mask_has(binding_row(j).2, mode),
    ensures
        !(binding_row(26).0.contains(k) && binding_row(j).0.contains(k)),
{
    lemma_table_masks(mode);
    if binding_row(26).0.contains(k) && binding_row(j).0.contains(k) {
        let a = choose|a: int| 0 <= a < binding_row(26).0.len() && binding_row(26).0[a] == k;
        let b = choose|b: int| 0 <= b < binding_row(j).0.len() && binding_row(j).0[b] == k;
        assert(binding_row(26).0[a] == binding_row(j).0[b]);
    }
}

/// No later row live in the same mode as row 27 shares a key with it.
#[verifier::spinoff_prover]
proof fn lemma_row_27_keys_are_its_own(j: int, mode: Mode, k: Key)
    requires
        27 < j < 29,
        mask_has(binding_row(27).2, mode),
        mask_has(binding_row(j).2, mode),
    ensures
        !(binding_row(27).0.contains(k) && binding_row(j).0.contains(k)),
{
    lemma_table_masks(mode);
    if binding_row(27).0.contains(k) && binding_row(j).0.contains(k) {
        let a = choose|a: int| 0 <= a < binding_row(27).0.len() && binding_row(27).0[a] == k;
        let b = choose|b: int| 0 <= b < binding_row(j).0.len() && binding_row(j).0[b] == k;
        assert(binding_row(27).0[a] == binding_row(j).0[b]);
    }
}

/// No key is bound twice within a mode: two different rows live in the
/// same mode never share a key.
pub proof fn law_no_duplicate_key_within_a_mode(i: int, j: int, mode: Mode, k: Key)
    requires
        0 <= i < j < 29,
        mask_has(binding_row(i).2, mode),
        mask_has(binding_row(j).2, mode),
    ensures
        !(binding_row(i).0.contains(k) && binding_row(j).0.contains(k)),
{
    if i == 0 {
        lemma_row_0_keys_are_its_own(j, mode, k);
    } else if i == 1 {
        lemma_row_1_keys_are_its_own(j, mode, k);
    } else if i == 2 {
        lemma_row_2_keys_are_its_own(j, mode, k);
    } else if i == 3 {
        lemma_row_3_keys_are_its_own(j, mode, k);
    } else if i == 4 {
        lemma_row_4_keys_are_its_own(j, mode, k);
    } else if i == 5 {
        lemma_row_5_keys_are_its_own(j, mode, k);
    } else if i == 6 {
        lemma_row_6_keys_are_its_own(j, mode, k);
    } else if i == 7 {
        lemma_row_7_keys_are_its_own(j, mode, k);
    } else if i == 8 {
        lemma_row_8_keys_are_its_own(j, mode, k);
    } else if i == 9 {
        lemma_row_9_keys_are_its_own(j, mode, k);
    } else if i == 10 {
        lemma_row_10_keys_are_its_own(j, mode, k);
    } else if i == 11 {
        lemma_row_11_keys_are_its_own(j, mode, k);
    } else if i == 12 {
        lemma_row_12_keys_are_its_own(j, mode, k);
    } else if i == 13 {
        lemma_row_13_keys_are_its_own(j, mode, k);
    } else if i == 14 {
        lemma_row_14_keys_are_its_own(j, mode, k);
    } else if i == 15 {
        lemma_row_15_keys_are_its_own(j, mode, k);
    } else if i == 16 {
        lemma_row_16_keys_are_its_own(j, mode, k);
    } else if i == 17 {
        lemma_row_17_keys_are_its_own(j, mode, k);
    } else if i == 18 {
        lemma_row_18_keys_are_its_own(j, mode, k);
    } else if i == 19 {
        lemma_row_19_keys_are_its_own(j, mode, k);
    } else if i == 20 {
        lemma_row_20_keys_are_its_own(j, mode, k);
    } else if i == 21 {
        lemma_row_21_keys_are_its_own(j, mode, k);
    } else if i == 22 {
        lemma_row_22_keys_are_its_own(j, mode, k);
    } else if i == 23 {
        lemma_row_23_keys_are_its_own(j, mode, k);
    } else if i == 24 {
        lemma_row_24_keys_are_its_own(j, mode, k);
    } else if i == 25 {
        lemma_row_25_keys_are_its_own(j, mode, k);
    } else if i == 26 {
        lemma_row_26_keys_are_its_own(j, mode, k);
    } else if i == 27 {
        lemma_row_27_keys_are_its_own(j, mode, k);
    }
}

/// Every row of the table says in words what it does, so the help popup
/// and the README never list a key without its meaning.
#[verifier::spinoff_prover]
pub proof fn law_every_binding_is_documented(i: int)
    requires
        0 <= i < row_count(),
    ensures
        binding_row(i).4.len() > 0,
{
    reveal_strlit("close the help popup");
    reveal_strlit("copy the day's summary (with hours) to the clipboard");
    reveal_strlit("copy the selected project's notes to the clipboard");
    reveal_strlit("copy the selected project's week (with hours) to the clipboard");
    reveal_strlit("copy the week's summary (with hours) to the clipboard");
    reveal_strlit("edit the current date's notes in $EDITOR");
    reveal_strlit("go back a month");
    reveal_strlit("go back a week");
    reveal_strlit("go forward a month");
    reveal_strlit("go forward a week");
    reveal_strlit("go to the next day");
    reveal_strlit("go to the previous day");
    reveal_strlit("go to today");
    reveal_strlit("jump to a date");
    reveal_strlit("jump to the first project");
    reveal_strlit("jump to the first project in the weekly rollup");
    reveal_strlit("jump to the last project");
    reveal_strlit("jump to the last project in the weekly rollup");
    reveal_strlit("quit");
    reveal_strlit("reload the current date from disk");
    reveal_strlit("scroll the raw file down");
    reveal_strlit("scroll the raw file up");
    reveal_strlit("select the next project");
    reveal_strlit("select the next project in the weekly rollup");
    reveal_strlit("select the previous project");
    reveal_strlit("select the previous project in the weekly rollup");
    reveal_strlit("show the help popup");
    reveal_strlit("toggle the week's per-project rollup");
    reveal_strlit("toggle zooming into the weekly bar chart");
    reveal_strlit("view the active date's file as it sits on disk");
}

/// From row `i` on, the first row `q` fires in is the quit row.
#[verifier::spinoff_prover]
proof fn lemma_q_reaches_the_quit_row(mode: Mode, i: int)
    requires
        0 <= i <= 28,
    ensures
        first_firing_from(i, KeyEvent { code: KeyCode::Char('q'), modifiers: KeyModifiers { bits: 0 } }, mode) == Some(28int),
    decreases 28 - i,
{
    let q = KeyEvent { code: KeyCode::Char('q'), modifiers: KeyModifiers { bits: 0 } };
    assert(0u8 & 254u8 == 0u8) by (bit_vector);
    assert(normalize_spec(q) == (KeyCode::Char('q'), KeyModifiers { bits: 0 }));
    lemma_table_masks(mode);
    if i == 28 {
        assert(binding_row(28).0[1] == normalize_spec(q));
        assert(row_fires(28, q, mode));
    } else {
        lemma_q_reaches_the_quit_row(mode, i + 1);
        assert(!binding_row(i).0.contains(normalize_spec(q)));
        assert(!row_fires(i, q, mode));
    }
}

/// `q` quits in every mode: the first row it fires in any mode is the
/// quit row.
pub proof fn law_q_quits_in_every_mode(mode: Mode)
    ensures
        first_firing_from(0, KeyEvent { code: KeyCode::Char('q'), modifiers: KeyModifiers { bits: 0 } }, mode) == Some(28int),
        binding_row(28).1 == AppEvent::Quit,
{
    lemma_q_reaches_the_quit_row(mode, 0);
}

} // verus!
