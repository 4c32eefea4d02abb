//! Key-event pipeline of a split mechanical keyboard: matrix scanning with
//! per-key debounce, cross-half merging of key positions, layer and modifier
//! resolution, and composition of the outgoing report.
//!
//! Times are `u64` counts of milliseconds. The library never reads a clock:
//! every operation that needs the time takes it as `now`.

use vstd::prelude::*;

pub mod battery;
pub mod ble;
pub mod bounded;
pub mod config;
pub mod key_provision;
pub mod keycodes;
pub mod matrix;
pub mod search;
pub mod storage;

verus! {

/// The pins of the two GPIO ports.
#[allow(non_camel_case_types)]
#[derive(PartialEq, Eq, Structural, Debug, Clone, Copy)]
pub enum Pins {
    P0_00,
    P0_01,
    P0_02,
    P0_03,
    P0_04,
    P0_05,
    P0_06,
    P0_07,
    P0_08,
    P0_09,
    P0_10,
    P0_11,
    P0_12,
    P0_13,
    P0_14,
    P0_15,
    P0_16,
    P0_17,
    P0_18,
    P0_19,
    P0_20,
    P0_21,
    P0_22,
    P0_23,
    P0_24,
    P0_25,
    P0_26,
    P0_27,
    P0_28,
    P0_29,
    P0_30,
    P0_31,
    P1_00,
    P1_01,
    P1_02,
    P1_03,
    P1_04,
    P1_05,
    P1_06,
    P1_07,
    P1_08,
    P1_09,
    P1_10,
    P1_11,
    P1_12,
    P1_13,
    P1_14,
    P1_15,
}

} // verus!
