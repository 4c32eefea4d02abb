//! Battery level from the sampled battery voltage.

use vstd::prelude::*;

verus! {

/// The voltage in millivolts below which the battery counts as empty.
pub const EMPTY_MILLI_VOLTS: u32 = 3500;

/// The voltage in millivolts above which the battery counts as full.
pub const FULL_MILLI_VOLTS: u32 = 4160;

/// The voltage in millivolts that a sample of the converter stands for.
pub open spec fn milli_volts_of(sample: i16) -> int {
    sample * (68 * 600) / 4092
}

/// The battery level in percent at a voltage.
///
/// Below the empty voltage the level is 0, above the full voltage it is 100.
/// Between them it rises in steps of ten from 20 to 90. At the full voltage
/// itself the level stays what it was.
pub open spec fn percent_at(milli_volts: u32, before: u8) -> u8 {
    if milli_volts < 3500 {
        0
    } else if milli_volts > 4160 {
        100
    } else if milli_volts < 3570 {
        20
    } else if milli_volts < 3640 {
        30
    } else if milli_volts < 3710 {
        40
    } else if milli_volts < 3780 {
        50
    } else if milli_volts < 3850 {
        60
    } else if milli_volts < 3920 {
        70
    } else if milli_volts < 3990 {
        80
    } else if milli_volts < 4160 {
        90
    } else {
        before
    }
}

/// The battery gauge as contracts see it.
pub struct BatteryView {
    /// The battery level in percent.
    pub percent: u8,
    /// The battery voltage in millivolts.
    pub milli_volts: u32,
}

/// The battery gauge: the last voltage and the level that it stands for.
pub struct Battery {
    b_percent: u8,
    milli_volts: u32,
}

impl View for Battery {
    type V = BatteryView;

    closed spec fn view(&self) -> BatteryView {
        BatteryView { percent: self.b_percent, milli_volts: self.milli_volts }
    }
}

impl Battery {
    /// Makes a gauge that has seen no voltage yet: level 0 at 0 millivolts.
    pub fn new() -> (b: Self)
        ensures
            b@ == (BatteryView { percent: 0, milli_volts: 0 }),
    {
        Self { b_percent: 0, milli_volts: 0 }
    }

    /// Returns the battery level in percent.
    pub fn percent(&self) -> (p: u8)
        ensures
            p == self@.percent,
    {
        self.b_percent
    }

    /// Returns the battery voltage in millivolts.
    pub fn milli_volts(&self) -> (v: u32)
        ensures
            v == self@.milli_volts,
    {
        self.milli_volts
    }

    /// Sets the level to the one that the voltage stands for.
    pub fn volts_to_percent(&mut self)
        ensures
            final(self)@.milli_volts == old(self)@.milli_volts,
            final(self)@.percent == percent_at(old(self)@.milli_volts, old(self)@.percent),
    {
        let table: [(u32, u8); 9] = [
            (3500, 10),
            (3570, 20),
            (3640, 30),
            (3710, 40),
            (3780, 50),
            (3850, 60),
            (3920, 70),
            (3990, 80),
            (4160, 90),
        ];
        if self.milli_volts < EMPTY_MILLI_VOLTS {
            self.b_percent = 0;
        } else if self.milli_volts > FULL_MILLI_VOLTS {
            self.b_percent = 100;
        } else {
            let mut i: usize = 0;
            while i < 9
                invariant
                    i <= 9,
                    EMPTY_MILLI_VOLTS <= self.milli_volts <= FULL_MILLI_VOLTS,
                    self.milli_volts == old(self).milli_volts,
                    self.b_percent == old(self).b_percent,
                    table@.len() == 9,
                    table@[0] == (3500u32, 10u8),
                    table@[1] == (3570u32, 20u8),
                    table@[2] == (3640u32, 30u8),
                    table@[3] == (3710u32, 40u8),
                    table@[4] == (3780u32, 50u8),
                    table@[5] == (3850u32, 60u8),
                    table@[6] == (3920u32, 70u8),
                    table@[7] == (3990u32, 80u8),
                    table@[8] == (4160u32, 90u8),
                    forall|j: int| 0 <= j < i ==> self.milli_volts >= table@[j].0,
                decreases 9 - i,
            {
                if self.milli_volts < table[i].0 {
                    self.b_percent = table[i].1;
                    return ;
                }
                i += 1;
            }
        }
    }

    /// Takes a sample of the converter: sets the voltage that it stands for
    /// and the level of that voltage, and returns the level.
    pub fn approximate(&mut self, sample: i16) -> (percent: u8)
        requires
            sample >= 0,
        ensures
            final(self)@.milli_volts == milli_volts_of(sample),
            final(self)@.percent == percent_at(final(self)@.milli_volts, old(self)@.percent),
            percent == final(self)@.percent,
    {
        let raw: u32 = sample as u32;
        assert(raw == sample && raw <= 32767);
        let scaled: u32 = raw * 40800;
        self.milli_volts = scaled / 4092;
        self.volts_to_percent();
        self.b_percent
    }
}

} // verus!
