//! The keyboard report and the relay message.

use vstd::prelude::*;

verus! {

/// Number of key codes that one report carries.
pub const REPORT_KEYCODES: usize = 6;

/// The byte that marks a free key code slot of a report.
pub const REPORT_EMPTY: u8 = 0;

/// Number of positions that one relay message carries.
pub const MESSAGE_SLOTS: usize = 6;

/// The byte that marks a free slot of a relay message.
pub const MESSAGE_EMPTY: u8 = 255;

/// The report that tells the host which keys are down.
#[derive(Debug, Clone, Copy, PartialEq, Eq)]
pub struct KeyboardReport {
    /// One bit for each modifier key that is down.
    pub modifier: u8,
    pub reserved: u8,
    /// The state of the keyboard's indicators, as the host set it.
    pub leds: u8,
    /// The usage codes of the keys that are down, 0 in a free slot.
    pub keycodes: [u8; REPORT_KEYCODES],
}

/// A report as contracts see it.
pub struct ReportView {
    pub modifier: u8,
    pub reserved: u8,
    pub leds: u8,
    pub keycodes: Seq<u8>,
}

impl ReportView {
    /// The report of a keyboard on which no key is down.
    pub open spec fn idle() -> ReportView {
        ReportView {
            modifier: 0,
            reserved: 0,
            leds: 0,
            keycodes: Seq::new(REPORT_KEYCODES as nat, |i: int| REPORT_EMPTY),
        }
    }
}

impl View for KeyboardReport {
    type V = ReportView;

    open spec fn view(&self) -> ReportView {
        ReportView {
            modifier: self.modifier,
            reserved: self.reserved,
            leds: self.leds,
            keycodes: self.keycodes@,
        }
    }
}

impl Default for KeyboardReport {
    /// The report of a keyboard on which no key is down.
    fn default() -> (r: KeyboardReport)
        ensures
            r@ == ReportView::idle(),
    {
        let r = KeyboardReport {
            modifier: 0,
            reserved: 0,
            leds: 0,
            keycodes: [REPORT_EMPTY; REPORT_KEYCODES],
        };
        assert(r@.keycodes =~= ReportView::idle().keycodes);
        r
    }
}

} // verus!
