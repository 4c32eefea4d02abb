//! Matrix scanner and debounce ledger.
//!
//! The scanner is given the levels that were sampled in one sweep of the key
//! matrix. It registers every asserted position in the debounce ledger, clears
//! the entries whose debounce window has run out, and hands out the positions
//! that are still live whenever they differ from those it handed out last.

use crate::config::{COLS, KEY_DEBOUNCE, MATRIX_KEYS_BUFFER, ROWS};
use crate::keycodes::KC;
use crate::search::{lemma_first_index, lemma_index_of_first, lemma_no_index};
use vstd::prelude::*;

verus! {

/// A position in the key matrix.
#[derive(Debug, Clone, Copy, PartialEq, Eq, Structural)]
pub struct KeyPos {
    pub row: u8,
    pub col: u8,
}

impl KeyPos {
    /// The position that stands for "no key": row 255, column 255.
    pub open spec fn sentinel() -> KeyPos {
        KeyPos { row: 255, col: 255 }
    }

    /// Returns the position that stands for "no key".
    pub fn default() -> (p: Self)
        ensures
            p == Self::sentinel(),
    {
        Self { row: 255, col: 255 }
    }
}

/// Whether a key is held down.
#[derive(PartialEq, Eq, Structural, Debug, Clone, Copy)]
pub enum KeyState {
    Released,
    Pressed,
}

impl Default for KeyState {
    fn default() -> (s: KeyState)
        ensures
            s == KeyState::Released,
    {
        KeyState::Released
    }
}

/// A key of the logical key buffer.
#[derive(Debug, Clone, Copy, PartialEq, Eq, Structural)]
pub struct Key {
    /// What the key means.
    pub code: KC,
    /// Where the key sits, the sentinel in a free slot.
    pub position: KeyPos,
    pub state: KeyState,
    /// When the key went down, in milliseconds.
    pub time: u64,
}

impl Key {
    /// The content of a free slot: no code, no position, released, time 0.
    pub open spec fn free() -> Key {
        Key { code: KC::none(), position: KeyPos::sentinel(), state: KeyState::Released, time: 0 }
    }
}

impl Default for Key {
    fn default() -> (k: Key)
        ensures
            k == Key::free(),
    {
        Key { code: KC::EU, position: KeyPos::default(), state: KeyState::Released, time: 0 }
    }
}

/// An entry of the debounce ledger: a position and the time at which it was
/// last seen asserted, in milliseconds. An entry with the sentinel position is
/// free.
#[derive(Debug, Clone, Copy, PartialEq, Eq, Structural)]
pub struct MatrixKey {
    pub keypos: KeyPos,
    pub time: u64,
}

impl MatrixKey {
    /// A free entry with time 0.
    pub open spec fn free() -> MatrixKey {
        MatrixKey { keypos: KeyPos::sentinel(), time: 0 }
    }
}

impl Default for MatrixKey {
    fn default() -> (k: MatrixKey)
        ensures
            k == MatrixKey::free(),
    {
        MatrixKey { keypos: KeyPos::default(), time: 0 }
    }
}

/// The positions of a ledger's entries, slot by slot.
pub open spec fn positions(ledger: Seq<MatrixKey>) -> Seq<KeyPos> {
    Seq::new(ledger.len(), |i: int| ledger[i].keypos)
}

/// No position but the sentinel stands in two slots of the ledger.
pub open spec fn ledger_wf(ledger: Seq<MatrixKey>) -> bool {
    forall|i: int, j: int|
        0 <= i < j < ledger.len() && ledger[i].keypos != KeyPos::sentinel()
            ==> ledger[i].keypos != ledger[j].keypos
}

/// The slot that an observation of `position` writes: the first slot that
/// holds the position, else the first free slot, else none.
pub open spec fn observe_slot(ledger: Seq<MatrixKey>, position: KeyPos) -> Option<int> {
    match positions(ledger).index_of_first(position) {
        Some(i) => Some(i),
        None => positions(ledger).index_of_first(KeyPos::sentinel()),
    }
}

/// The ledger after `position` was seen asserted at `now`: its slot holds the
/// position with the time `now`. A full ledger that does not hold the position
/// drops the observation.
pub open spec fn observed(ledger: Seq<MatrixKey>, position: KeyPos, now: u64) -> Seq<MatrixKey> {
    match observe_slot(ledger, position) {
        Some(i) => ledger.update(i, MatrixKey { keypos: position, time: now }),
        None => ledger,
    }
}

/// An entry has expired at `now` when it is in use and the debounce window has
/// passed since it was last seen.
pub open spec fn is_expired(entry: MatrixKey, now: u64) -> bool {
    entry.keypos != KeyPos::sentinel() && now >= entry.time + KEY_DEBOUNCE
}

/// The ledger after the entries that have expired at `now` were freed. A freed
/// entry keeps its time.
pub open spec fn expired(ledger: Seq<MatrixKey>, now: u64) -> Seq<MatrixKey> {
    Seq::new(
        ledger.len(),
        |i: int|
            if is_expired(ledger[i], now) {
                MatrixKey { keypos: KeyPos::sentinel(), time: ledger[i].time }
            } else {
                ledger[i]
            },
    )
}

/// What the scanner does between two sweeps.
#[derive(PartialEq, Eq, Structural, Debug, Clone, Copy)]
pub enum ScanState {
    /// No key is down: the scanner waits for an edge on a sensing line.
    Idle,
    /// A key is being tracked: the scanner sweeps the matrix again.
    Strobing,
}

/// The scanner as contracts see it.
pub struct MatrixView {
    /// The debounce ledger.
    pub ledger: Seq<MatrixKey>,
    /// The positions that were handed out last.
    pub published: Seq<KeyPos>,
}

impl MatrixView {
    /// Both buffers have their fixed length and the ledger holds no position
    /// twice.
    pub open spec fn wf(self) -> bool {
        &&& self.ledger.len() == MATRIX_KEYS_BUFFER
        &&& self.published.len() == MATRIX_KEYS_BUFFER
        &&& ledger_wf(self.ledger)
    }

    /// The positions that are live now.
    pub open spec fn live(self) -> Seq<KeyPos> {
        positions(self.ledger)
    }

    pub open spec fn observe(self, position: KeyPos, now: u64) -> MatrixView {
        MatrixView { ledger: observed(self.ledger, position, now), published: self.published }
    }

    pub open spec fn expire(self, now: u64) -> MatrixView {
        MatrixView { ledger: expired(self.ledger, now), published: self.published }
    }

    /// The scanner after the first `n` columns of row `r` were registered, in
    /// the order of the columns.
    pub open spec fn sweep_row(self, levels: [bool; COLS], r: int, n: int, now: u64) -> MatrixView
        decreases n,
    {
        if n <= 0 {
            self
        } else {
            let before = self.sweep_row(levels, r, n - 1, now);
            if levels[n - 1] {
                before.observe(KeyPos { row: r as u8, col: (n - 1) as u8 }, now)
            } else {
                before
            }
        }
    }

    /// The scanner after the first `n` rows were registered, in the order of
    /// the rows.
    pub open spec fn sweep(self, levels: [[bool; COLS]; ROWS], n: int, now: u64) -> MatrixView
        decreases n,
    {
        if n <= 0 {
            self
        } else {
            self.sweep(levels, n - 1, now).sweep_row(levels[n - 1], n - 1, COLS as int, now)
        }
    }

    /// Publication is edge-triggered: the live positions are handed out only
    /// when they differ from those handed out last, and are remembered then.
    pub open spec fn publish(self) -> (MatrixView, Option<Seq<KeyPos>>) {
        if self.live() == self.published {
            (self, None)
        } else {
            (MatrixView { ledger: self.ledger, published: self.live() }, Some(self.live()))
        }
    }

    /// One scan cycle: every asserted position of the sweep is registered at
    /// `now`, the expired entries are freed, and the live positions are
    /// published if they changed.
    pub open spec fn scan(self, levels: [[bool; COLS]; ROWS], now: u64) -> (
        MatrixView,
        Option<Seq<KeyPos>>,
    ) {
        self.sweep(levels, ROWS as int, now).expire(now).publish()
    }
}

/// The matrix scanner: the debounce ledger and the positions published last.
pub struct Matrix {
    reg_keys: [MatrixKey; MATRIX_KEYS_BUFFER],
    keys_to_send_old: [KeyPos; MATRIX_KEYS_BUFFER],
}

impl View for Matrix {
    type V = MatrixView;

    closed spec fn view(&self) -> MatrixView {
        MatrixView { ledger: self.reg_keys@, published: self.keys_to_send_old@ }
    }
}

/// Finds the first entry of the ledger that holds `position`.
fn find_entry(entries: &[MatrixKey; MATRIX_KEYS_BUFFER], position: KeyPos) -> (found: Option<usize>)
    ensures
        match found {
            Some(i) => i < MATRIX_KEYS_BUFFER && positions(entries@).index_of_first(position)
                == Some(i as int),
            None => positions(entries@).index_of_first(position) == None::<int>,
        },
{
    let mut i: usize = 0;
    while i < MATRIX_KEYS_BUFFER
        invariant
            i <= MATRIX_KEYS_BUFFER,
            forall|j: int| 0 <= j < i ==> positions(entries@)[j] != position,
        decreases MATRIX_KEYS_BUFFER - i,
    {
        if entries[i].keypos == position {
            proof {
                lemma_first_index(positions(entries@), position, i as int);
            }
            return Some(i);
        }
        i += 1;
    }
    proof {
        lemma_no_index(positions(entries@), position);
    }
    None
}

impl Matrix {
    /// The scanner's invariant.
    pub open spec fn wf(&self) -> bool {
        self@.wf()
    }

    /// Makes a scanner that tracks no key and has published the empty
    /// snapshot.
    pub fn init() -> (m: Self)
        ensures
            m.wf(),
            forall|i: int| 0 <= i < MATRIX_KEYS_BUFFER ==> m@.ledger[i] == MatrixKey::free(),
            forall|i: int| 0 <= i < MATRIX_KEYS_BUFFER ==> m@.published[i] == KeyPos::sentinel(),
    {
        Self {
            reg_keys: [MatrixKey::default(); MATRIX_KEYS_BUFFER],
            keys_to_send_old: [KeyPos::default(); MATRIX_KEYS_BUFFER],
        }
    }

    /// Tells whether the scanner may wait for an edge: it is idle exactly
    /// when the ledger tracks no position.
    pub fn state(&self) -> (s: ScanState)
        ensures
            s == ScanState::Idle <==> forall|i: int|
                0 <= i < MATRIX_KEYS_BUFFER ==> self@.live()[i] == KeyPos::sentinel(),
    {
        let mut i: usize = 0;
        while i < MATRIX_KEYS_BUFFER
            invariant
                i <= MATRIX_KEYS_BUFFER,
                forall|j: int| 0 <= j < i ==> self@.live()[j] == KeyPos::sentinel(),
            decreases MATRIX_KEYS_BUFFER - i,
        {
            if !(self.reg_keys[i].keypos == KeyPos::default()) {
                assert(self@.live()[i as int] != KeyPos::sentinel());
                return ScanState::Strobing;
            }
            i += 1;
        }
        ScanState::Idle
    }

    /// Returns the ledger's entries, slot by slot.
    pub fn entries(&self) -> (e: [MatrixKey; MATRIX_KEYS_BUFFER])
        ensures
            e@ == self@.ledger,
    {
        self.reg_keys
    }

    /// Returns the positions that were handed out last.
    pub fn published(&self) -> (p: [KeyPos; MATRIX_KEYS_BUFFER])
        ensures
            p@ == self@.published,
    {
        self.keys_to_send_old
    }

    /// Returns the live positions, slot by slot: the sentinel for a free
    /// slot.
    pub fn snapshot(&self) -> (p: [KeyPos; MATRIX_KEYS_BUFFER])
        ensures
            p@ == self@.live(),
    {
        let mut snap = [KeyPos::default(); MATRIX_KEYS_BUFFER];
        let mut i: usize = 0;
        while i < MATRIX_KEYS_BUFFER
            invariant
                i <= MATRIX_KEYS_BUFFER,
                forall|j: int| 0 <= j < i ==> snap@[j] == self.reg_keys@[j].keypos,
            decreases MATRIX_KEYS_BUFFER - i,
        {
            snap[i] = self.reg_keys[i].keypos;
            i += 1;
        }
        assert(snap@ =~= self@.live());
        snap
    }

    /// Registers that `position` was seen asserted at `now`.
    ///
    /// An entry that holds the position gets the time `now`. Otherwise the
    /// first free entry takes the position. Where the ledger is full and
    /// does not hold the position, the observation is dropped.
    pub fn observe(&mut self, position: KeyPos, now: u64)
        requires
            old(self).wf(),
        ensures
            final(self).wf(),
            final(self)@ == old(self)@.observe(position, now),
    {
        let ghost before = self.reg_keys@;
        let slot = match find_entry(&self.reg_keys, position) {
            Some(i) => Some(i),
            None => find_entry(&self.reg_keys, KeyPos::default()),
        };
        if let Some(i) = slot {
            self.reg_keys[i] = MatrixKey { keypos: position, time: now };
        }
        proof {
            lemma_observed_wf(before, position, now);
        }
    }

    /// Frees every entry whose debounce window has run out at `now`, and
    /// returns the positions that stay live.
    pub fn debouncer(&mut self, now: u64) -> (live: [KeyPos; MATRIX_KEYS_BUFFER])
        requires
            old(self).wf(),
        ensures
            final(self).wf(),
            final(self)@ == old(self)@.expire(now),
            live@ == final(self)@.live(),
    {
        let ghost before = self.reg_keys@;
        let mut i: usize = 0;
        while i < MATRIX_KEYS_BUFFER
            invariant
                i <= MATRIX_KEYS_BUFFER,
                before.len() == MATRIX_KEYS_BUFFER,
                self.keys_to_send_old == old(self).keys_to_send_old,
                forall|j: int| 0 <= j < i ==> self.reg_keys@[j] == expired(before, now)[j],
                forall|j: int| i <= j < MATRIX_KEYS_BUFFER ==> self.reg_keys@[j] == before[j],
            decreases MATRIX_KEYS_BUFFER - i,
        {
            let entry = self.reg_keys[i];
            if !(entry.keypos == KeyPos::default()) && now >= entry.time && now - entry.time
                >= KEY_DEBOUNCE {
                self.reg_keys[i] = MatrixKey { keypos: KeyPos::default(), time: entry.time };
            }
            i += 1;
        }
        proof {
            assert(self.reg_keys@ =~= expired(before, now));
            lemma_expired_wf(before, now);
        }
        self.snapshot()
    }

    /// Hands out the live positions if they differ from those handed out
    /// last, and remembers them.
    pub fn publish(&mut self) -> (out: Option<[KeyPos; MATRIX_KEYS_BUFFER]>)
        requires
            old(self).wf(),
        ensures
            final(self).wf(),
            final(self)@ == old(self)@.publish().0,
            match out {
                Some(snap) => old(self)@.publish().1 == Some(snap@),
                None => old(self)@.publish().1 == None::<Seq<KeyPos>>,
            },
    {
        let snap = self.snapshot();
        if same_positions(&snap, &self.keys_to_send_old) {
            None
        } else {
            self.keys_to_send_old = snap;
            Some(snap)
        }
    }

    /// Runs one scan cycle on the levels that a sweep has sampled:
    /// `levels[r][c]` tells whether column `c` was high while row `r` was
    /// driven. Returns the live positions if they are to be published.
    pub fn scan(&mut self, levels: &[[bool; COLS]; ROWS], now: u64) -> (out: Option<
        [KeyPos; MATRIX_KEYS_BUFFER],
    >)
        requires
            old(self).wf(),
        ensures
            final(self).wf(),
            final(self)@ == old(self)@.scan(*levels, now).0,
            match out {
                Some(snap) => old(self)@.scan(*levels, now).1 == Some(snap@),
                None => old(self)@.scan(*levels, now).1 == None::<Seq<KeyPos>>,
            },
    {
        let mut r: usize = 0;
        while r < ROWS
            invariant
                r <= ROWS,
                self.wf(),
                self@ == old(self)@.sweep(*levels, r as int, now),
            decreases ROWS - r,
        {
            let ghost row_start = self@;
            let mut c: usize = 0;
            while c < COLS
                invariant
                    r < ROWS,
                    c <= COLS,
                    self.wf(),
                    self@ == row_start.sweep_row(levels[r as int], r as int, c as int, now),
                decreases COLS - c,
            {
                if levels[r][c] {
                    self.observe(KeyPos { row: r as u8, col: c as u8 }, now);
                }
                c += 1;
            }
            r += 1;
        }
        let _ = self.debouncer(now);
        self.publish()
    }
}

/// Tells whether two snapshots hold the same positions slot by slot.
fn same_positions(a: &[KeyPos; MATRIX_KEYS_BUFFER], b: &[KeyPos; MATRIX_KEYS_BUFFER]) -> (same:
    bool)
    ensures
        same == (a@ == b@),
{
    let mut i: usize = 0;
    while i < MATRIX_KEYS_BUFFER
        invariant
            i <= MATRIX_KEYS_BUFFER,
            forall|j: int| 0 <= j < i ==> a@[j] == b@[j],
        decreases MATRIX_KEYS_BUFFER - i,
    {
        if !(a[i] == b[i]) {
            assert(a@[i as int] != b@[i as int]);
            return false;
        }
        i += 1;
    }
    assert(a@ =~= b@);
    true
}

/// The time that one row of the sweep may take, in microseconds: the sweep of
/// all rows fits in one millisecond.
pub fn row_delay_us() -> (d: u64)
    ensures
        d == 1000int / (ROWS as int),
        d * ROWS <= 1000,
{
    1000 / (ROWS as u64)
}

/// Debounce is idempotent: seeing a position again makes no second entry.
/// After an observation at most one slot holds the position, that slot carries
/// the time of the observation, and a second observation leaves the ledger as
/// if only the later one had been made.
pub proof fn lemma_observe_idempotent(
    ledger: Seq<MatrixKey>,
    position: KeyPos,
    first: u64,
    again: u64,
)
    requires
        ledger_wf(ledger),
        position != KeyPos::sentinel(),
    ensures
        forall|i: int, j: int|
            #![trigger observed(ledger, position, first)[i], observed(ledger, position, first)[j]]
            0 <= i < ledger.len() && 0 <= j < ledger.len() && observed(
                ledger,
                position,
                first,
            )[i].keypos == position && observed(ledger, position, first)[j].keypos == position
                ==> i == j,
        forall|i: int|
            #![trigger observed(ledger, position, first)[i]]
            0 <= i < ledger.len() && observed(ledger, position, first)[i].keypos == position
                ==> observed(ledger, position, first)[i].time == first,
        observed(observed(ledger, position, first), position, again) == observed(
            ledger,
            position,
            again,
        ),
{
    lemma_index_of_first(positions(ledger), position);
    lemma_index_of_first(positions(ledger), KeyPos::sentinel());
    let once = observed(ledger, position, first);
    lemma_observed_wf(ledger, position, first);
    assert forall|i: int| 0 <= i < ledger.len() implies positions(ledger)[i]
        == ledger[i].keypos by {}
    assert forall|i: int| 0 <= i < once.len() implies positions(once)[i] == once[i].keypos by {}
    assert forall|i: int| 0 <= i < ledger.len() && once[i].keypos == position implies once[i].time
        == first by {
        assert(positions(ledger)[i] == ledger[i].keypos);
        match observe_slot(ledger, position) {
            Some(slot) => {
                assert(once[slot].keypos == position);
                if i < slot {
                    assert(once[i].keypos != once[slot].keypos);
                } else if slot < i {
                    assert(once[slot].keypos != once[i].keypos);
                }
            },
            None => {},
        }
    }
    match observe_slot(ledger, position) {
        Some(slot) => {
            assert(positions(once)[slot] == position);
            assert forall|j: int| 0 <= j < slot implies positions(once)[j] != position by {
                assert(positions(ledger)[j] == ledger[j].keypos);
            }
            lemma_first_index(positions(once), position, slot);
            assert(observed(once, position, again) =~= observed(ledger, position, again));
        },
        None => {},
    }
}

/// Within the debounce window a repeated observation refreshes the one entry
/// of the position: where the position was taken up at `first`, is not yet
/// expired at `between` and is seen again at `again`, exactly the slot that
/// took it up holds it afterwards, with the time `again`.
pub proof fn lemma_refresh_within_window(
    ledger: Seq<MatrixKey>,
    position: KeyPos,
    first: u64,
    between: u64,
    again: u64,
)
    requires
        ledger_wf(ledger),
        position != KeyPos::sentinel(),
        observe_slot(ledger, position) is Some,
        between < first + KEY_DEBOUNCE,
    ensures
        ({
            let slot = observe_slot(ledger, position).unwrap();
            let once = observed(ledger, position, first);
            let after = observed(expired(once, between), position, again);
            &&& 0 <= slot < ledger.len()
            &&& after.len() == ledger.len()
            &&& after[slot] == MatrixKey { keypos: position, time: again }
            &&& forall|i: int|
                0 <= i < after.len() && i != slot ==> #[trigger] after[i].keypos != position
        }),
{
    lemma_index_of_first(positions(ledger), position);
    lemma_index_of_first(positions(ledger), KeyPos::sentinel());
    let slot = observe_slot(ledger, position).unwrap();
    let once = observed(ledger, position, first);
    lemma_observed_wf(ledger, position, first);
    let aged = expired(once, between);
    lemma_expired_wf(once, between);
    assert(aged[slot] == MatrixKey { keypos: position, time: first });
    assert forall|j: int| 0 <= j < aged.len() && j != slot implies positions(aged)[j]
        != position by {
        assert(positions(ledger)[j] == ledger[j].keypos);
        assert(once[slot].keypos == position);
        if j < slot {
            assert(once[j].keypos != once[slot].keypos || once[j].keypos == KeyPos::sentinel());
        } else {
            assert(once[slot].keypos != once[j].keypos);
        }
    }
    assert(positions(aged)[slot] == position);
    lemma_first_index(positions(aged), position, slot);
}

/// Debounce expiry: a position that was seen at `seen` and not again is no
/// longer live once the debounce window has passed.
pub proof fn lemma_expiry(ledger: Seq<MatrixKey>, position: KeyPos, seen: u64, now: u64)
    requires
        ledger_wf(ledger),
        position != KeyPos::sentinel(),
        now >= seen + KEY_DEBOUNCE,
    ensures
        !positions(expired(observed(ledger, position, seen), now)).contains(position),
{
    let once = observed(ledger, position, seen);
    lemma_observe_idempotent(ledger, position, seen, seen);
    lemma_observed_wf(ledger, position, seen);
    let aged = expired(once, now);
    assert forall|i: int| 0 <= i < aged.len() implies positions(aged)[i] != position by {
        assert(once[i].keypos == position ==> once[i].time == seen);
    }
    lemma_no_index(positions(aged), position);
}

/// Until its window has passed an entry stays as it is: expiry at `now` frees
/// no entry that was seen less than the debounce window ago, and frees every
/// entry in use that was seen earlier.
pub proof fn lemma_expiry_is_exact(ledger: Seq<MatrixKey>, now: u64, i: int)
    requires
        0 <= i < ledger.len(),
    ensures
        now < ledger[i].time + KEY_DEBOUNCE ==> expired(ledger, now)[i] == ledger[i],
        now >= ledger[i].time + KEY_DEBOUNCE ==> expired(ledger, now)[i].keypos
            == KeyPos::sentinel(),
{
}

/// Seeing one position leaves the entries of every other position as they
/// were, so that only time can end them.
pub proof fn lemma_observe_keeps_others(
    ledger: Seq<MatrixKey>,
    position: KeyPos,
    other: KeyPos,
    now: u64,
    i: int,
)
    requires
        0 <= i < ledger.len(),
        other != position,
        other != KeyPos::sentinel(),
        ledger[i].keypos == other,
    ensures
        observed(ledger, position, now)[i] == ledger[i],
{
    lemma_index_of_first(positions(ledger), position);
    lemma_index_of_first(positions(ledger), KeyPos::sentinel());
    assert(positions(ledger)[i] == ledger[i].keypos);
}

/// The sweep of a row changes the ledger only by observations: the published
/// positions stay and the ledger stays free of duplicates.
pub proof fn lemma_sweep_row(m: MatrixView, levels: [bool; COLS], r: int, n: int, now: u64)
    requires
        m.wf(),
    ensures
        m.sweep_row(levels, r, n, now).wf(),
        m.sweep_row(levels, r, n, now).published == m.published,
    decreases n,
{
    if n > 0 {
        lemma_sweep_row(m, levels, r, n - 1, now);
        let before = m.sweep_row(levels, r, n - 1, now);
        lemma_observed_wf(before.ledger, KeyPos { row: r as u8, col: (n - 1) as u8 }, now);
    }
}

/// The sweep of the matrix changes the ledger only by observations.
pub proof fn lemma_sweep(m: MatrixView, levels: [[bool; COLS]; ROWS], n: int, now: u64)
    requires
        m.wf(),
    ensures
        m.sweep(levels, n, now).wf(),
        m.sweep(levels, n, now).published == m.published,
    decreases n,
{
    if n > 0 {
        lemma_sweep(m, levels, n - 1, now);
        lemma_sweep_row(m.sweep(levels, n - 1, now), levels[n - 1], n - 1, COLS as int, now);
    }
}

/// A position of the key matrix: its row and column lie within the matrix.
pub open spec fn in_matrix(position: KeyPos) -> bool {
    position.row < ROWS && position.col < COLS
}

/// Every entry of the ledger is free or holds a position of the key matrix.
pub open spec fn ledger_in_matrix(ledger: Seq<MatrixKey>) -> bool {
    forall|i: int|
        0 <= i < ledger.len() ==> ledger[i].keypos == KeyPos::sentinel() || in_matrix(
            #[trigger] ledger[i].keypos,
        )
}

/// A sweep registers positions of the key matrix only, and the sentinel is
/// none of them.
pub proof fn lemma_sweep_in_matrix(m: MatrixView, levels: [[bool; COLS]; ROWS], n: int, now: u64)
    requires
        m.wf(),
        ledger_in_matrix(m.ledger),
        n <= ROWS,
    ensures
        ledger_in_matrix(m.sweep(levels, n, now).ledger),
        !in_matrix(KeyPos::sentinel()),
    decreases n,
{
    if n > 0 {
        lemma_sweep_in_matrix(m, levels, n - 1, now);
        lemma_sweep(m, levels, n - 1, now);
        lemma_sweep_row_in_matrix(
            m.sweep(levels, n - 1, now),
            levels[n - 1],
            n - 1,
            COLS as int,
            now,
        );
    }
}

/// The sweep of a row of the key matrix registers positions of the matrix
/// only.
pub proof fn lemma_sweep_row_in_matrix(
    m: MatrixView,
    levels: [bool; COLS],
    r: int,
    n: int,
    now: u64,
)
    requires
        m.wf(),
        ledger_in_matrix(m.ledger),
        0 <= r < ROWS,
        n <= COLS,
    ensures
        ledger_in_matrix(m.sweep_row(levels, r, n, now).ledger),
    decreases n,
{
    if n > 0 {
        lemma_sweep_row_in_matrix(m, levels, r, n - 1, now);
        lemma_sweep_row(m, levels, r, n - 1, now);
        let before = m.sweep_row(levels, r, n - 1, now);
        let position = KeyPos { row: r as u8, col: (n - 1) as u8 };
        lemma_index_of_first(positions(before.ledger), position);
        lemma_index_of_first(positions(before.ledger), KeyPos::sentinel());
    }
}

/// A scan cycle publishes exactly when the live positions at its end differ
/// from those published last, and leaves them as the published ones.
pub proof fn lemma_scan_publishes_on_change(m: MatrixView, levels: [[bool; COLS]; ROWS], now: u64)
    requires
        m.wf(),
    ensures
        m.scan(levels, now).0.wf(),
        m.scan(levels, now).0.published == m.scan(levels, now).0.live(),
        m.scan(levels, now).1 is Some <==> m.scan(levels, now).0.live() != m.published,
        m.scan(levels, now).1 is Some ==> m.scan(levels, now).1 == Some(
            m.scan(levels, now).0.live(),
        ),
{
    lemma_sweep(m, levels, ROWS as int, now);
    lemma_expired_wf(m.sweep(levels, ROWS as int, now).ledger, now);
}

/// Publication is edge-triggered: of two scan cycles in a row that end with
/// the same live positions, the second publishes nothing.
pub proof fn lemma_publish_once(
    m: MatrixView,
    levels: [[bool; COLS]; ROWS],
    now: u64,
    next_levels: [[bool; COLS]; ROWS],
    later: u64,
)
    requires
        m.wf(),
        m.scan(levels, now).0.scan(next_levels, later).0.live() == m.scan(levels, now).0.live(),
    ensures
        m.scan(levels, now).0.scan(next_levels, later).1 == None::<Seq<KeyPos>>,
{
    lemma_scan_publishes_on_change(m, levels, now);
    lemma_scan_publishes_on_change(m.scan(levels, now).0, next_levels, later);
}

/// An observation keeps the ledger free of duplicates.
pub proof fn lemma_observed_wf(ledger: Seq<MatrixKey>, position: KeyPos, now: u64)
    requires
        ledger_wf(ledger),
    ensures
        ledger_wf(observed(ledger, position, now)),
        observed(ledger, position, now).len() == ledger.len(),
{
    lemma_index_of_first(positions(ledger), position);
    lemma_index_of_first(positions(ledger), KeyPos::sentinel());
    let after = observed(ledger, position, now);
    assert forall|i: int, j: int|
        0 <= i < j < after.len() && after[i].keypos != KeyPos::sentinel() implies after[i].keypos
        != after[j].keypos by {
        assert(positions(ledger)[i] == ledger[i].keypos);
        assert(positions(ledger)[j] == ledger[j].keypos);
    }
}

/// Expiry keeps the ledger free of duplicates.
pub proof fn lemma_expired_wf(ledger: Seq<MatrixKey>, now: u64)
    requires
        ledger_wf(ledger),
    ensures
        ledger_wf(expired(ledger, now)),
        expired(ledger, now).len() == ledger.len(),
{
}

} // verus!
