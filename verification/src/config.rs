//! Static configuration of the keyboard.

use crate::Pins;
use vstd::prelude::*;

verus! {

/// Rows per half.
pub const ROWS: usize = 4;

/// Columns per half.
pub const COLS: usize = 6;

/// Whether the keyboard is split into two halves.
pub const SPLIT_PERIPHERAL: bool = true;

/// Columns of the keymap: those of both halves, as the keyboard is split.
pub const KEYMAP_COLS: usize = COLS + COLS;

/// Layers of the keymap.
pub const LAYERS: usize = 2;

/// Number of key positions tracked at once on one half.
pub const MATRIX_KEYS_BUFFER: usize = 6;

/// Number of keys tracked at once on both halves together.
pub const MATRIX_KEYS_COMB_BUFFER: usize = MATRIX_KEYS_BUFFER * 2;

/// Idle time in milliseconds after which the scanner may ask for sleep.
pub const ENTER_SLEEP_DEBOUNCE: u64 = 600000;

/// Debounce window in milliseconds.
pub const KEY_DEBOUNCE: u64 = 10;

/// Time in milliseconds that the bootloader key has to be held.
pub const BOOTLOADER_HOLD: u64 = 5000;

/// Row of the position that enters the bootloader when held.
pub const BOOTLOADER_ROW: u8 = 0;

/// Column of the position that enters the bootloader when held.
pub const BOOTLOADER_COL: u8 = 0;

/// Debounce window in milliseconds of a configuration that names none.
pub const DEFAULT_KEY_DEBOUNCE: u64 = 10;

/// The wireless link as the configuration describes it.
#[derive(Debug)]
pub struct BleConfig {
    /// The name under which the keyboard advertises itself.
    pub name: String,
    /// Whether the keyboard is split into two halves.
    pub split: bool,
}

/// The pins of the key matrix.
#[derive(Debug)]
pub struct MatrixConfig {
    pub row_pins: Vec<Pins>,
    pub col_pins: Vec<Pins>,
}

/// The debounce window.
#[derive(Debug)]
pub struct DebounceConfig {
    /// Debounce window in milliseconds.
    pub key_debounce: u64,
}

/// The size of the keymap.
#[derive(Debug)]
pub struct KeymapConfig {
    pub layers: usize,
}

/// The configuration of a keyboard.
#[derive(Debug)]
pub struct Config {
    pub ble: BleConfig,
    pub matrix: MatrixConfig,
    pub debounce: Option<DebounceConfig>,
    pub keymap: KeymapConfig,
}

impl Config {
    /// The debounce window in milliseconds: the configured one, or the
    /// default where none is configured.
    pub open spec fn debounce_window(self) -> u64 {
        match self.debounce {
            Some(debounce) => debounce.key_debounce,
            None => DEFAULT_KEY_DEBOUNCE,
        }
    }

    /// The columns of the keymap: those of one half, twice as many where the
    /// keyboard is split.
    pub open spec fn keymap_width(self) -> nat {
        if self.ble.split {
            self.matrix.col_pins@.len() * 2
        } else {
            self.matrix.col_pins@.len()
        }
    }

    /// Returns the number of rows of one half.
    pub fn rows(&self) -> (n: usize)
        ensures
            n == self.matrix.row_pins@.len(),
    {
        self.matrix.row_pins.len()
    }

    /// Returns the number of columns of one half.
    pub fn cols(&self) -> (n: usize)
        ensures
            n == self.matrix.col_pins@.len(),
    {
        self.matrix.col_pins.len()
    }

    /// Returns the number of columns of the keymap, or `None` where that
    /// number does not fit the machine's word.
    pub fn keymap_cols(&self) -> (n: Option<usize>)
        ensures
            match n {
                Some(width) => width == self.keymap_width(),
                None => self.keymap_width() > usize::MAX,
            },
    {
        if self.ble.split {
            self.matrix.col_pins.len().checked_mul(2)
        } else {
            Some(self.matrix.col_pins.len())
        }
    }

    /// Returns the debounce window in milliseconds.
    pub fn key_debounce(&self) -> (window: u64)
        ensures
            window == self.debounce_window(),
    {
        match &self.debounce {
            Some(debounce) => debounce.key_debounce,
            None => DEFAULT_KEY_DEBOUNCE,
        }
    }

    /// Returns the number of layers of the keymap.
    pub fn layers(&self) -> (n: usize)
        ensures
            n == self.keymap.layers,
    {
        self.keymap.layers
    }
}

} // verus!
