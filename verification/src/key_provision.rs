//! Key resolver and report composer.
//!
//! The resolver keeps a buffer of logical keys, one range of slots for each
//! half of the keyboard. A snapshot of key positions from one half inserts
//! the keys that appeared and marks as released the keys that went away.
//! Every pass then walks the buffer in slot order: a pressed key takes effect
//! on the active layer, the modifier field or a key code slot of the report,
//! a released key takes that effect back and leaves the buffer.
//!
//! A half that has no link to the host composes no report. It packs the
//! positions of its pressed keys into a message of six bytes for the other
//! half.

use crate::ble::services::{
    KeyboardReport, ReportView, MESSAGE_EMPTY, MESSAGE_SLOTS, REPORT_EMPTY, REPORT_KEYCODES,
};
use crate::bounded::{
    combo_codes, combo_from_pair, combo_get, combo_len, released_keys, released_new, released_pop,
    released_push,
};
use crate::config::{
    BOOTLOADER_COL, BOOTLOADER_HOLD, BOOTLOADER_ROW, KEYMAP_COLS, LAYERS, MATRIX_KEYS_BUFFER,
    MATRIX_KEYS_COMB_BUFFER, ROWS,
};
use crate::keycodes::{KeyType, KC};
use crate::matrix::{Key, KeyPos, KeyState};
use crate::search::{lemma_first_index, lemma_index_of_first, lemma_no_index};
use vstd::prelude::*;

verus! {

/// The keymap: for each layer, row and column the code of the key there.
pub type Keymap = [[[KC; KEYMAP_COLS]; ROWS]; LAYERS];

/// What a half of the keyboard composes from its keys.
#[derive(PartialEq, Eq, Structural, Debug, Clone, Copy)]
pub enum Role {
    /// The half that talks to the host: it resolves key codes and composes
    /// the report.
    ComposeReport,
    /// The other half: it packs the positions of its keys into the message
    /// for the half that talks to the host.
    ComposeRelayMessage,
}

/// The slots after `value` was put in: it takes the first free slot, unless it
/// stands in a slot already or no slot is free.
pub open spec fn slot_filled(slots: Seq<u8>, value: u8, empty: u8) -> Seq<u8> {
    if slots.contains(value) {
        slots
    } else {
        match slots.index_of_first(empty) {
            Some(i) => slots.update(i, value),
            None => slots,
        }
    }
}

/// The slots after `value` was taken out: the first slot that holds it is
/// free.
pub open spec fn slot_cleared(slots: Seq<u8>, value: u8, empty: u8) -> Seq<u8> {
    match slots.index_of_first(value) {
        Some(i) => slots.update(i, empty),
        None => slots,
    }
}

/// The byte that stands for a position in a relay message: the row in the
/// high four bits, the column in the low four bits.
pub open spec fn packed_position(position: KeyPos) -> u8 {
    (position.row << 4) | position.col
}

/// The positions of the keys of a buffer, slot by slot.
pub open spec fn key_positions(keys: Seq<Key>) -> Seq<KeyPos> {
    Seq::new(keys.len(), |i: int| keys[i].position)
}

/// The codes of the keys of a buffer, slot by slot.
pub open spec fn key_codes(keys: Seq<Key>) -> Seq<KC> {
    Seq::new(keys.len(), |i: int| keys[i].code)
}

/// The buffer is in order: no position but the sentinel stands in two slots,
/// and a slot without a position is free.
pub open spec fn keys_wf(keys: Seq<Key>) -> bool {
    &&& forall|i: int, j: int|
        0 <= i < j < keys.len() && keys[i].position != KeyPos::sentinel() ==> keys[i].position
            != keys[j].position
    &&& forall|i: int|
        0 <= i < keys.len() && (#[trigger] keys[i]).position == KeyPos::sentinel() ==> keys[i]
            == Key::free()
}

/// A released key enters the bootloader when it was held for the hold time
/// and either sits at the bootloader position or carries the bootloader code.
pub open spec fn enters_bootloader(key: Key, now: u64) -> bool {
    &&& now >= key.time + BOOTLOADER_HOLD
    &&& (key.position == KeyPos { row: BOOTLOADER_ROW, col: BOOTLOADER_COL } || key.code
        == KC::BTL)
}

/// The resolver as contracts see it.
pub struct ProvisionView {
    pub role: Role,
    /// The active layer, 0 for the base layer.
    pub layer: u8,
    pub keymap: Keymap,
    /// The report as composed so far.
    pub report: ReportView,
    /// The relay message as packed so far.
    pub message: Seq<u8>,
    /// The relay message that was handed out last.
    pub sent: Seq<u8>,
}

impl ProvisionView {
    /// The active layer is a layer of the keymap, and the buffers have their
    /// fixed lengths.
    pub open spec fn wf(self) -> bool {
        &&& self.layer < LAYERS
        &&& self.report.keycodes.len() == REPORT_KEYCODES
        &&& self.message.len() == MESSAGE_SLOTS
        &&& self.sent.len() == MESSAGE_SLOTS
    }

    /// The code of the key at `position` on the active layer. A position
    /// outside the keymap has no key.
    pub open spec fn lookup(self, position: KeyPos) -> KC {
        if self.layer < LAYERS && position.row < ROWS && position.col < KEYMAP_COLS {
            self.keymap[self.layer as int][position.row as int][position.col as int]
        } else {
            KC::none()
        }
    }

    /// The code that a key gets when it appears at `position`: the half that
    /// composes the report looks it up, the other half does not resolve codes
    /// and marks the key as `Reserved`.
    pub open spec fn code_at(self, position: KeyPos) -> KC {
        match self.role {
            Role::ComposeReport => self.lookup(position),
            Role::ComposeRelayMessage => KC::Reserved,
        }
    }

    /// The effect of a pressed key code on layer and report.
    ///
    /// A layer key makes its layer the active one, unless the keymap has no
    /// such layer. A modifier key sets its bit. An ordinary key takes the
    /// first free key code slot; it is dropped where no slot is free.
    pub open spec fn pressed(self, kc: KC) -> ProvisionView {
        match KeyType::of(kc) {
            KeyType::Layer => if kc.layer_number() < LAYERS {
                ProvisionView { layer: kc.layer_number(), ..self }
            } else {
                self
            },
            KeyType::Modifier => ProvisionView {
                report: ReportView {
                    modifier: self.report.modifier | kc.modifier_mask(),
                    ..self.report
                },
                ..self
            },
            KeyType::Key => ProvisionView {
                report: ReportView {
                    keycodes: slot_filled(self.report.keycodes, kc.usage(), REPORT_EMPTY),
                    ..self.report
                },
                ..self
            },
            _ => self,
        }
    }

    /// The effect of a released key code on layer and report.
    ///
    /// A layer key steps one layer down and stops at the base layer. A
    /// modifier key clears its bit. An ordinary key frees its slot.
    pub open spec fn released(self, kc: KC) -> ProvisionView {
        match KeyType::of(kc) {
            KeyType::Layer => ProvisionView {
                layer: if self.layer > 0 {
                    (self.layer - 1) as u8
                } else {
                    0
                },
                ..self
            },
            KeyType::Modifier => ProvisionView {
                report: ReportView {
                    modifier: self.report.modifier & !kc.modifier_mask(),
                    ..self.report
                },
                ..self
            },
            KeyType::Key => ProvisionView {
                report: ReportView {
                    keycodes: slot_cleared(self.report.keycodes, kc.usage(), REPORT_EMPTY),
                    ..self.report
                },
                ..self
            },
            _ => self,
        }
    }

    /// The effect of a pressed key on the relay message: its position takes
    /// the first free slot.
    pub open spec fn packed(self, position: KeyPos) -> ProvisionView {
        ProvisionView {
            message: slot_filled(self.message, packed_position(position), MESSAGE_EMPTY),
            ..self
        }
    }

    /// The effect of a released key on the relay message: its slot is free.
    pub open spec fn unpacked(self, position: KeyPos) -> ProvisionView {
        ProvisionView {
            message: slot_cleared(self.message, packed_position(position), MESSAGE_EMPTY),
            ..self
        }
    }

    /// The effect of one key of the buffer. A slot without a code has none.
    pub open spec fn key_step(self, key: Key) -> ProvisionView {
        if key.code == KC::none() {
            self
        } else {
            match (self.role, key.state) {
                (Role::ComposeReport, KeyState::Pressed) => self.pressed(key.code),
                (Role::ComposeReport, KeyState::Released) => self.released(key.code),
                (Role::ComposeRelayMessage, KeyState::Pressed) => self.packed(key.position),
                (Role::ComposeRelayMessage, KeyState::Released) => self.unpacked(key.position),
            }
        }
    }

    /// The key that enters the buffer when `position` appears at `now`.
    pub open spec fn new_key(self, position: KeyPos, now: u64) -> Key {
        Key { code: self.code_at(position), position, state: KeyState::Pressed, time: now }
    }

    /// The buffer after one entry of a snapshot was merged into `slot`.
    ///
    /// A position that no key of the buffer has enters the slot as a pressed
    /// key. The sentinel marks the key of the slot, if there is one, as
    /// released.
    pub open spec fn merge_step(self, keys: Seq<Key>, slot: int, position: KeyPos, now: u64) -> Seq<
        Key,
    > {
        if position != KeyPos::sentinel() {
            if key_positions(keys).contains(position) {
                keys
            } else {
                keys.update(slot, self.new_key(position, now))
            }
        } else if keys[slot].position != KeyPos::sentinel() {
            keys.update(slot, Key { state: KeyState::Released, ..keys[slot] })
        } else {
            keys
        }
    }

    /// The buffer after the first `n` entries of a snapshot were merged, entry
    /// `i` into slot `offset + i`.
    pub open spec fn merged(
        self,
        keys: Seq<Key>,
        received: Seq<KeyPos>,
        offset: int,
        n: int,
        now: u64,
    ) -> Seq<Key>
        decreases n,
    {
        if n <= 0 {
            keys
        } else {
            self.merge_step(
                self.merged(keys, received, offset, n - 1, now),
                offset + n - 1,
                received[n - 1],
                now,
            )
        }
    }

    /// What the walk over the first `n` slots of the buffer comes to: the
    /// resolver after the effects of their keys, the released keys in slot
    /// order, and whether one of them enters the bootloader.
    pub open spec fn resolved(self, keys: Seq<Key>, n: int, now: u64) -> Resolution
        decreases n,
    {
        if n <= 0 {
            Resolution { state: self, released: Seq::empty(), enter_bootloader: false }
        } else {
            let before = self.resolved(keys, n - 1, now);
            let key = keys[n - 1];
            if key.code == KC::none() {
                before
            } else if key.state == KeyState::Released {
                Resolution {
                    state: before.state.key_step(key),
                    released: before.released.push(key),
                    enter_bootloader: before.enter_bootloader || enters_bootloader(key, now),
                }
            } else {
                Resolution { state: before.state.key_step(key), ..before }
            }
        }
    }

    /// What is handed out after a pass. The half that composes the report
    /// hands it out every time. The other half hands out its message only when
    /// it differs from the one handed out last, and remembers it then.
    pub open spec fn emitted(self) -> (ProvisionView, Option<ReportView>, Option<Seq<u8>>) {
        match self.role {
            Role::ComposeReport => (self, Some(self.report), None),
            Role::ComposeRelayMessage => if self.message == self.sent {
                (self, None, None)
            } else {
                (ProvisionView { sent: self.message, ..self }, None, Some(self.message))
            },
        }
    }

    /// One resolution pass on a snapshot that has come in at `now`.
    ///
    /// The snapshot is merged into the slots of its half, the combo rule
    /// rewrites the codes, the buffer is walked, the released keys leave the
    /// buffer, and the report or the message is handed out. A snapshot of the
    /// other half is left aside by a half that composes no report.
    pub open spec fn pass(self, keys: Seq<Key>, event: MatrixEvent, now: u64) -> Pass {
        let merged = match event {
            MatrixEvent::Local(received) => self.merged(
                keys,
                received@,
                0,
                MATRIX_KEYS_BUFFER as int,
                now,
            ),
            MatrixEvent::Split(received) => if self.role == Role::ComposeReport {
                self.merged(
                    keys,
                    received@,
                    MATRIX_KEYS_BUFFER as int,
                    MATRIX_KEYS_BUFFER as int,
                    now,
                )
            } else {
                keys
            },
        };
        let rewritten = if self.role == Role::ComposeReport {
            combo_rewritten(merged, combo_from(), combo_to())
        } else {
            merged
        };
        let walk = self.resolved(rewritten, MATRIX_KEYS_COMB_BUFFER as int, now);
        let out = walk.state.emitted();
        Pass {
            state: out.0,
            keys: all_cleared(rewritten, walk.released),
            report: out.1,
            message: out.2,
            enter_bootloader: walk.enter_bootloader,
        }
    }
}

/// What the walk over the key buffer comes to.
pub struct Resolution {
    pub state: ProvisionView,
    /// The keys that were found released, in slot order.
    pub released: Seq<Key>,
    pub enter_bootloader: bool,
}

/// What a pass comes to.
pub struct Pass {
    pub state: ProvisionView,
    pub keys: Seq<Key>,
    /// The report to send, if one is to be sent.
    pub report: Option<ReportView>,
    /// The relay message to send, if one is to be sent.
    pub message: Option<Seq<u8>>,
    pub enter_bootloader: bool,
}

/// A snapshot of key positions that reaches the resolver.
#[derive(Debug, Clone, Copy, PartialEq, Eq)]
pub enum MatrixEvent {
    /// The live positions of this half.
    Local([KeyPos; MATRIX_KEYS_BUFFER]),
    /// The live positions of the other half, in the columns of the keymap.
    Split([KeyPos; MATRIX_KEYS_BUFFER]),
}

/// What the resolver hands out after a pass.
#[derive(Debug, Clone, Copy, PartialEq, Eq)]
pub struct PassOutcome {
    /// The report to send to the host.
    pub report: Option<KeyboardReport>,
    /// The message to send to the other half.
    pub message: Option<[u8; MESSAGE_SLOTS]>,
    /// Whether the device is to restart into its bootloader.
    pub enter_bootloader: bool,
}

/// The codes that the combo rule looks for.
pub open spec fn combo_from() -> Seq<KC> {
    seq![KC::LCtrl, KC::Dd]
}

/// The codes that the combo rule puts in their place, one for one.
pub open spec fn combo_to() -> Seq<KC> {
    seq![KC::LCtrl, KC::Backspace]
}

/// The buffer after the first key with the code `from` got the code `to`.
pub open spec fn code_replaced(keys: Seq<Key>, from: KC, to: KC) -> Seq<Key> {
    match key_codes(keys).index_of_first(from) {
        Some(i) => keys.update(i, Key { code: to, ..keys[i] }),
        None => keys,
    }
}

/// The buffer after the first `n` codes of `from` were replaced, in their
/// order, each by the code of `to` at the same place.
pub open spec fn combo_replaced(keys: Seq<Key>, from: Seq<KC>, to: Seq<KC>, n: int) -> Seq<Key>
    decreases n,
{
    if n <= 0 {
        keys
    } else {
        code_replaced(combo_replaced(keys, from, to, n - 1), from[n - 1], to[n - 1])
    }
}

/// A combo rule applies when every code of `from` is the code of a key of the
/// buffer.
pub open spec fn combo_applies(keys: Seq<Key>, from: Seq<KC>) -> bool {
    forall|i: int| 0 <= i < from.len() ==> key_codes(keys).contains(#[trigger] from[i])
}

/// The buffer after a combo rule: where the rule applies, each code of `from`
/// is replaced by its code of `to`.
pub open spec fn combo_rewritten(keys: Seq<Key>, from: Seq<KC>, to: Seq<KC>) -> Seq<Key> {
    if combo_applies(keys, from) {
        combo_replaced(keys, from, to, from.len() as int)
    } else {
        keys
    }
}

/// The buffer after the first slot with `position` was freed.
pub open spec fn position_cleared(keys: Seq<Key>, position: KeyPos) -> Seq<Key> {
    match key_positions(keys).index_of_first(position) {
        Some(i) => keys.update(i, Key::free()),
        None => keys,
    }
}

/// The buffer after the slots of the released keys were freed, the key that
/// was found last first.
pub open spec fn all_cleared(keys: Seq<Key>, released: Seq<Key>) -> Seq<Key>
    decreases released.len(),
{
    if released.len() == 0 {
        keys
    } else {
        all_cleared(position_cleared(keys, released.last().position), released.drop_last())
    }
}

/// The key resolver: active layer, keymap, and the report or relay message
/// that it composes.
pub struct KeyProvision {
    role: Role,
    layer: u8,
    keymap: Keymap,
    keyreport_local: KeyboardReport,
    message_to_peri_local: [u8; MESSAGE_SLOTS],
    message_to_peri_local_old: [u8; MESSAGE_SLOTS],
}

impl View for KeyProvision {
    type V = ProvisionView;

    closed spec fn view(&self) -> ProvisionView {
        ProvisionView {
            role: self.role,
            layer: self.layer,
            keymap: self.keymap,
            report: self.keyreport_local@,
            message: self.message_to_peri_local@,
            sent: self.message_to_peri_local_old@,
        }
    }
}

/// Finds the first slot that holds `value`.
fn find_slot<const N: usize>(slots: &[u8; N], value: u8) -> (found: Option<usize>)
    ensures
        match found {
            Some(i) => i < N && slots@.index_of_first(value) == Some(i as int),
            None => slots@.index_of_first(value) == None::<int>,
        },
{
    let mut i: usize = 0;
    while i < N
        invariant
            i <= N,
            forall|j: int| 0 <= j < i ==> slots@[j] != value,
        decreases N - i,
    {
        if slots[i] == value {
            proof {
                lemma_first_index(slots@, value, i as int);
            }
            return Some(i);
        }
        i += 1;
    }
    proof {
        lemma_no_index(slots@, value);
    }
    None
}

/// Puts `value` into the first free slot, unless it stands in a slot already
/// or no slot is free.
fn fill_slot<const N: usize>(slots: &mut [u8; N], value: u8, empty: u8)
    ensures
        final(slots)@ == slot_filled(old(slots)@, value, empty),
{
    proof {
        lemma_index_of_first(slots@, value);
    }
    if find_slot(slots, value).is_none() {
        if let Some(i) = find_slot(slots, empty) {
            slots[i] = value;
        }
    }
}

/// Frees the first slot that holds `value`.
fn clear_slot<const N: usize>(slots: &mut [u8; N], value: u8, empty: u8)
    ensures
        final(slots)@ == slot_cleared(old(slots)@, value, empty),
{
    if let Some(i) = find_slot(slots, value) {
        slots[i] = empty;
    }
}

/// Packs a position into the byte that stands for it in a relay message.
pub fn pack_position(position: &KeyPos) -> (byte: u8)
    ensures
        byte == packed_position(*position),
{
    (position.row << 4) | position.col
}

impl KeyProvision {
    /// The resolver's invariant.
    pub open spec fn wf(&self) -> bool {
        self@.wf()
    }

    /// Makes a resolver on the base layer, with the idle report and the
    /// empty relay message.
    pub fn init(role: Role, keymap: Keymap) -> (p: Self)
        ensures
            p.wf(),
            p@.role == role,
            p@.layer == 0,
            p@.keymap == keymap,
            p@.report == ReportView::idle(),
            p@.message == Seq::new(MESSAGE_SLOTS as nat, |i: int| MESSAGE_EMPTY),
            p@.sent == Seq::new(MESSAGE_SLOTS as nat, |i: int| MESSAGE_EMPTY),
    {
        let p = Self {
            role,
            layer: 0,
            keymap,
            keyreport_local: KeyboardReport::default(),
            message_to_peri_local: [MESSAGE_EMPTY; MESSAGE_SLOTS],
            message_to_peri_local_old: [MESSAGE_EMPTY; MESSAGE_SLOTS],
        };
        assert(p@.message =~= Seq::new(MESSAGE_SLOTS as nat, |i: int| MESSAGE_EMPTY));
        assert(p@.sent =~= Seq::new(MESSAGE_SLOTS as nat, |i: int| MESSAGE_EMPTY));
        p
    }

    /// Returns what this half composes.
    pub fn role(&self) -> (r: Role)
        ensures
            r == self@.role,
    {
        self.role
    }

    /// Returns the active layer.
    pub fn layer(&self) -> (l: u8)
        ensures
            l == self@.layer,
    {
        self.layer
    }

    /// Returns the report as composed so far.
    pub fn report(&self) -> (r: KeyboardReport)
        ensures
            r@ == self@.report,
    {
        self.keyreport_local
    }

    /// Returns the relay message as packed so far.
    pub fn message(&self) -> (m: [u8; MESSAGE_SLOTS])
        ensures
            m@ == self@.message,
    {
        self.message_to_peri_local
    }

    /// Returns the code of the key at `position` on the active layer, the
    /// code for "no key" where the keymap holds no such position.
    pub fn lookup(&self, position: &KeyPos) -> (kc: KC)
        ensures
            kc == self@.lookup(*position),
    {
        if (self.layer as usize) < LAYERS && (position.row as usize) < ROWS && (
        position.col as usize) < KEYMAP_COLS {
            self.keymap[self.layer as usize][position.row as usize][position.col as usize]
        } else {
            KC::EU
        }
    }

    /// Takes the effect of a pressed key code on layer and report.
    pub fn provision_pressed_keys(&mut self, kc: &KC)
        requires
            old(self).wf(),
        ensures
            final(self).wf(),
            final(self)@ == old(self)@.pressed(*kc),
    {
        match KeyType::check_type(kc) {
            KeyType::Layer => {
                let layer = kc.get_layer();
                if (layer as usize) < LAYERS {
                    self.layer = layer;
                }
            },
            KeyType::Modifier => {
                self.keyreport_local.modifier = self.keyreport_local.modifier | kc.get_modifier();
            },
            KeyType::Key => {
                let mut slots = self.keyreport_local.keycodes;
                fill_slot(&mut slots, kc.code(), REPORT_EMPTY);
                self.keyreport_local.keycodes = slots;
            },
            _ => {},
        }
    }

    /// Takes back the effect of a key code when its key is released.
    pub fn provision_released_keys(&mut self, kc: &KC)
        requires
            old(self).wf(),
        ensures
            final(self).wf(),
            final(self)@ == old(self)@.released(*kc),
    {
        match KeyType::check_type(kc) {
            KeyType::Layer => {
                if self.layer > 0 {
                    self.layer = self.layer - 1;
                }
            },
            KeyType::Modifier => {
                self.keyreport_local.modifier = self.keyreport_local.modifier & !kc.get_modifier();
            },
            KeyType::Key => {
                let mut slots = self.keyreport_local.keycodes;
                clear_slot(&mut slots, kc.code(), REPORT_EMPTY);
                self.keyreport_local.keycodes = slots;
            },
            _ => {},
        }
    }

    /// Packs the position of a pressed key into the relay message.
    pub fn pack_pressed_key(&mut self, position: &KeyPos)
        requires
            old(self).wf(),
        ensures
            final(self).wf(),
            final(self)@ == old(self)@.packed(*position),
    {
        let mut slots = self.message_to_peri_local;
        fill_slot(&mut slots, pack_position(position), MESSAGE_EMPTY);
        self.message_to_peri_local = slots;
    }

    /// Takes the position of a released key out of the relay message.
    pub fn pack_released_key(&mut self, position: &KeyPos)
        requires
            old(self).wf(),
        ensures
            final(self).wf(),
            final(self)@ == old(self)@.unpacked(*position),
    {
        let mut slots = self.message_to_peri_local;
        clear_slot(&mut slots, pack_position(position), MESSAGE_EMPTY);
        self.message_to_peri_local = slots;
    }

    /// Tells whether the release of `key` at `now` is to restart the device
    /// into its bootloader.
    pub fn evaluate_enter_bootloader(&self, key: &Key, now: u64) -> (enter: bool)
        ensures
            enter == enters_bootloader(*key, now),
    {
        if now >= key.time && now - key.time >= BOOTLOADER_HOLD {
            let key_pos_enter_bl = KeyPos { row: BOOTLOADER_ROW, col: BOOTLOADER_COL };
            key.position == key_pos_enter_bl || key.code == KC::BTL
        } else {
            false
        }
    }
}

/// Finds the first key of the buffer that sits at `position`.
fn find_key_at(keys: &[Key; MATRIX_KEYS_COMB_BUFFER], position: KeyPos) -> (found: Option<usize>)
    ensures
        match found {
            Some(i) => i < MATRIX_KEYS_COMB_BUFFER && key_positions(keys@).index_of_first(position)
                == Some(i as int),
            None => key_positions(keys@).index_of_first(position) == None::<int>,
        },
{
    let mut i: usize = 0;
    while i < MATRIX_KEYS_COMB_BUFFER
        invariant
            i <= MATRIX_KEYS_COMB_BUFFER,
            forall|j: int| 0 <= j < i ==> key_positions(keys@)[j] != position,
        decreases MATRIX_KEYS_COMB_BUFFER - i,
    {
        if keys[i].position == position {
            proof {
                lemma_first_index(key_positions(keys@), position, i as int);
            }
            return Some(i);
        }
        i += 1;
    }
    proof {
        lemma_no_index(key_positions(keys@), position);
    }
    None
}

/// Finds the first key of the buffer that has the code `code`.
fn find_key_with(keys: &[Key; MATRIX_KEYS_COMB_BUFFER], code: KC) -> (found: Option<usize>)
    ensures
        match found {
            Some(i) => i < MATRIX_KEYS_COMB_BUFFER && key_codes(keys@).index_of_first(code) == Some(
                i as int,
            ),
            None => key_codes(keys@).index_of_first(code) == None::<int>,
        },
{
    let mut i: usize = 0;
    while i < MATRIX_KEYS_COMB_BUFFER
        invariant
            i <= MATRIX_KEYS_COMB_BUFFER,
            forall|j: int| 0 <= j < i ==> key_codes(keys@)[j] != code,
        decreases MATRIX_KEYS_COMB_BUFFER - i,
    {
        if keys[i].code == code {
            proof {
                lemma_first_index(key_codes(keys@), code, i as int);
            }
            return Some(i);
        }
        i += 1;
    }
    proof {
        lemma_no_index(key_codes(keys@), code);
    }
    None
}

/// Tells whether two relay messages hold the same bytes.
fn same_message(a: &[u8; MESSAGE_SLOTS], b: &[u8; MESSAGE_SLOTS]) -> (same: bool)
    ensures
        same == (a@ == b@),
{
    let mut i: usize = 0;
    while i < MESSAGE_SLOTS
        invariant
            i <= MESSAGE_SLOTS,
            forall|j: int| 0 <= j < i ==> a@[j] == b@[j],
        decreases MESSAGE_SLOTS - i,
    {
        if a[i] != b[i] {
            assert(a@[i as int] != b@[i as int]);
            return false;
        }
        i += 1;
    }
    assert(a@ =~= b@);
    true
}

impl KeyProvision {
    /// Merges a snapshot into the slots `offset` to `offset + 5` of the
    /// buffer.
    fn merge_snapshot(
        &self,
        keys: &mut [Key; MATRIX_KEYS_COMB_BUFFER],
        received: &[KeyPos; MATRIX_KEYS_BUFFER],
        offset: usize,
        now: u64,
    )
        requires
            offset + MATRIX_KEYS_BUFFER <= MATRIX_KEYS_COMB_BUFFER,
        ensures
            final(keys)@ == self@.merged(
                old(keys)@,
                received@,
                offset as int,
                MATRIX_KEYS_BUFFER as int,
                now,
            ),
    {
        let mut i: usize = 0;
        while i < MATRIX_KEYS_BUFFER
            invariant
                i <= MATRIX_KEYS_BUFFER,
                offset + MATRIX_KEYS_BUFFER <= MATRIX_KEYS_COMB_BUFFER,
                keys@ == self@.merged(old(keys)@, received@, offset as int, i as int, now),
            decreases MATRIX_KEYS_BUFFER - i,
        {
            let position = received[i];
            let slot = offset + i;
            proof {
                lemma_index_of_first(key_positions(keys@), position);
            }
            if !(position == KeyPos::default()) {
                if find_key_at(keys, position).is_none() {
                    let code = match self.role {
                        Role::ComposeReport => self.lookup(&position),
                        Role::ComposeRelayMessage => KC::Reserved,
                    };
                    keys[slot] = Key { code, position, state: KeyState::Pressed, time: now };
                }
            } else if !(keys[slot].position == KeyPos::default()) {
                let key = keys[slot];
                keys[slot] = Key {
                    code: key.code,
                    position: key.position,
                    state: KeyState::Released,
                    time: key.time,
                };
            }
            i += 1;
        }
    }

    /// Merges a snapshot of this half into the slots `0` to `5` of the key
    /// buffer. No other slot changes.
    pub fn matrix_to_hid_local(
        &self,
        matrix_keys_local: &mut [Key; MATRIX_KEYS_COMB_BUFFER],
        matrix_keys_received: &[KeyPos; MATRIX_KEYS_BUFFER],
        now: u64,
    )
        ensures
            final(matrix_keys_local)@ == self@.merged(
                old(matrix_keys_local)@,
                matrix_keys_received@,
                0,
                MATRIX_KEYS_BUFFER as int,
                now,
            ),
            forall|i: int|
                MATRIX_KEYS_BUFFER <= i < MATRIX_KEYS_COMB_BUFFER ==> final(matrix_keys_local)@[i]
                    == old(matrix_keys_local)@[i],
            keys_wf(old(matrix_keys_local)@) ==> keys_wf(final(matrix_keys_local)@),
    {
        proof {
            lemma_merged(
                self@,
                matrix_keys_local@,
                matrix_keys_received@,
                0,
                MATRIX_KEYS_BUFFER as int,
                now,
            );
        }
        self.merge_snapshot(matrix_keys_local, matrix_keys_received, 0, now);
    }

    /// Merges a snapshot of the other half into the slots `6` to `11` of the
    /// key buffer. No other slot changes.
    pub fn matrix_to_hid_split(
        &self,
        matrix_keys_local: &mut [Key; MATRIX_KEYS_COMB_BUFFER],
        matrix_keys_received: &[KeyPos; MATRIX_KEYS_BUFFER],
        now: u64,
    )
        ensures
            final(matrix_keys_local)@ == self@.merged(
                old(matrix_keys_local)@,
                matrix_keys_received@,
                MATRIX_KEYS_BUFFER as int,
                MATRIX_KEYS_BUFFER as int,
                now,
            ),
            forall|i: int|
                0 <= i < MATRIX_KEYS_BUFFER ==> final(matrix_keys_local)@[i] == old(
                    matrix_keys_local,
                )@[i],
            keys_wf(old(matrix_keys_local)@) ==> keys_wf(final(matrix_keys_local)@),
    {
        proof {
            lemma_merged(
                self@,
                matrix_keys_local@,
                matrix_keys_received@,
                MATRIX_KEYS_BUFFER as int,
                MATRIX_KEYS_BUFFER as int,
                now,
            );
        }
        self.merge_snapshot(matrix_keys_local, matrix_keys_received, MATRIX_KEYS_BUFFER, now);
    }

    /// Applies the combo rule to the key buffer: where left control and `d`
    /// are both among the keys, the first key with the code of `d` gets the
    /// code of backspace.
    pub fn provision_combos(&mut self, matrix_keys_local: &mut [Key; MATRIX_KEYS_COMB_BUFFER])
        ensures
            *final(self) == *old(self),
            final(matrix_keys_local)@ == combo_rewritten(
                old(matrix_keys_local)@,
                combo_from(),
                combo_to(),
            ),
    {
        let keys_to_remove = combo_from_pair([KC::LCtrl, KC::Dd]);
        let keys_to_add = combo_from_pair([KC::LCtrl, KC::Backspace]);
        let ghost from = combo_codes(keys_to_remove);
        let ghost to = combo_codes(keys_to_add);
        assert(from =~= combo_from());
        assert(to =~= combo_to());
        let count = combo_len(&keys_to_remove);

        let mut all_held = true;
        let mut i: usize = 0;
        while i < count
            invariant
                i <= count,
                count == from.len(),
                from == combo_codes(keys_to_remove),
                all_held <==> forall|j: int|
                    0 <= j < i ==> key_codes(matrix_keys_local@).contains(#[trigger] from[j]),
            decreases count - i,
        {
            let code = combo_get(&keys_to_remove, i);
            proof {
                lemma_index_of_first(key_codes(matrix_keys_local@), code);
            }
            if find_key_with(matrix_keys_local, code).is_none() {
                all_held = false;
            }
            i += 1;
        }

        if all_held {
            let mut i: usize = 0;
            while i < count
                invariant
                    i <= count,
                    count == from.len(),
                    count == to.len(),
                    from == combo_codes(keys_to_remove),
                    to == combo_codes(keys_to_add),
                    matrix_keys_local@ == combo_replaced(
                        old(matrix_keys_local)@,
                        from,
                        to,
                        i as int,
                    ),
                decreases count - i,
            {
                let code = combo_get(&keys_to_remove, i);
                if let Some(index) = find_key_with(matrix_keys_local, code) {
                    let key = matrix_keys_local[index];
                    matrix_keys_local[index] = Key {
                        code: combo_get(&keys_to_add, i),
                        position: key.position,
                        state: key.state,
                        time: key.time,
                    };
                }
                i += 1;
            }
        }
    }

    /// Runs one resolution pass on a snapshot that has come in at `now`, and
    /// returns what is to be sent and whether the device is to restart into
    /// its bootloader.
    ///
    /// On a buffer that is in order the pass leaves no released key behind:
    /// every key that still has a code afterwards is pressed.
    pub fn run(
        &mut self,
        matrix_keys_local: &mut [Key; MATRIX_KEYS_COMB_BUFFER],
        event: &MatrixEvent,
        now: u64,
    ) -> (outcome: PassOutcome)
        requires
            old(self).wf(),
        ensures
            final(self).wf(),
            final(self)@ == old(self)@.pass(old(matrix_keys_local)@, *event, now).state,
            final(matrix_keys_local)@ == old(self)@.pass(old(matrix_keys_local)@, *event, now).keys,
            outcome.enter_bootloader == old(self)@.pass(
                old(matrix_keys_local)@,
                *event,
                now,
            ).enter_bootloader,
            match outcome.report {
                Some(report) => old(self)@.pass(old(matrix_keys_local)@, *event, now).report
                    == Some(report@),
                None => old(self)@.pass(old(matrix_keys_local)@, *event, now).report
                    == None::<ReportView>,
            },
            match outcome.message {
                Some(message) => old(self)@.pass(old(matrix_keys_local)@, *event, now).message
                    == Some(message@),
                None => old(self)@.pass(old(matrix_keys_local)@, *event, now).message
                    == None::<Seq<u8>>,
            },
            keys_wf(old(matrix_keys_local)@) ==> keys_wf(final(matrix_keys_local)@),
            keys_wf(old(matrix_keys_local)@) ==> forall|i: int|
                0 <= i < MATRIX_KEYS_COMB_BUFFER && (#[trigger] final(matrix_keys_local)@[i]).code
                    != KC::none() ==> final(matrix_keys_local)@[i].state == KeyState::Pressed,
    {
        let ghost start = self@;
        let ghost start_keys = matrix_keys_local@;
        proof {
            if keys_wf(start_keys) {
                lemma_pass_settles(start, start_keys, *event, now);
            }
        }
        match event {
            MatrixEvent::Local(received) => {
                self.matrix_to_hid_local(matrix_keys_local, received, now);
            },
            MatrixEvent::Split(received) => {
                if self.role == Role::ComposeReport {
                    self.matrix_to_hid_split(matrix_keys_local, received, now);
                }
            },
        }
        let ghost merged = matrix_keys_local@;
        if self.role == Role::ComposeReport {
            self.provision_combos(matrix_keys_local);
        }
        let ghost rewritten = matrix_keys_local@;
        proof {
            lemma_combo_rewritten_wf(merged, combo_from(), combo_to());
        }

        let mut keys_to_remove = released_new();
        let mut enter_bootloader = false;
        let mut i: usize = 0;
        while i < MATRIX_KEYS_COMB_BUFFER
            invariant
                i <= MATRIX_KEYS_COMB_BUFFER,
                self.wf(),
                matrix_keys_local@ == rewritten,
                self@ == start.resolved(rewritten, i as int, now).state,
                released_keys(keys_to_remove) == start.resolved(rewritten, i as int, now).released,
                enter_bootloader == start.resolved(rewritten, i as int, now).enter_bootloader,
                released_keys(keys_to_remove).len() <= i,
            decreases MATRIX_KEYS_COMB_BUFFER - i,
        {
            let key = matrix_keys_local[i];
            if !(key.code == KC::EU) {
                match key.state {
                    KeyState::Pressed => {
                        match self.role {
                            Role::ComposeReport => self.provision_pressed_keys(&key.code),
                            Role::ComposeRelayMessage => self.pack_pressed_key(&key.position),
                        }
                    },
                    KeyState::Released => {
                        match self.role {
                            Role::ComposeReport => self.provision_released_keys(&key.code),
                            Role::ComposeRelayMessage => self.pack_released_key(&key.position),
                        }
                        if self.evaluate_enter_bootloader(&key, now) {
                            enter_bootloader = true;
                        }
                        // the list has room: it holds at most one key for each
                        // slot that was walked
                        let pushed = released_push(&mut keys_to_remove, key);
                        assert(pushed is Ok);
                    },
                }
            }
            i += 1;
        }
        let ghost walk = start.resolved(rewritten, MATRIX_KEYS_COMB_BUFFER as int, now);

        loop
            invariant
                self@ == walk.state,
                all_cleared(matrix_keys_local@, released_keys(keys_to_remove)) == all_cleared(
                    rewritten,
                    walk.released,
                ),
                keys_wf(rewritten) ==> keys_wf(matrix_keys_local@),
            ensures
                self@ == walk.state,
                matrix_keys_local@ == all_cleared(rewritten, walk.released),
                keys_wf(rewritten) ==> keys_wf(matrix_keys_local@),
            decreases released_keys(keys_to_remove).len(),
        {
            match released_pop(&mut keys_to_remove) {
                Some(key) => {
                    if let Some(position) = find_key_at(matrix_keys_local, key.position) {
                        matrix_keys_local[position] = Key::default();
                    }
                },
                None => {
                    break ;
                },
            }
        }

        match self.role {
            Role::ComposeReport => PassOutcome {
                report: Some(self.keyreport_local),
                message: None,
                enter_bootloader,
            },
            Role::ComposeRelayMessage => {
                if same_message(&self.message_to_peri_local, &self.message_to_peri_local_old) {
                    PassOutcome { report: None, message: None, enter_bootloader }
                } else {
                    self.message_to_peri_local_old = self.message_to_peri_local;
                    PassOutcome {
                        report: None,
                        message: Some(self.message_to_peri_local),
                        enter_bootloader,
                    }
                }
            },
        }
    }
}

/// Merging one entry of a snapshot writes at most its own slot and keeps the
/// buffer in order.
pub proof fn lemma_merge_step(
    view: ProvisionView,
    keys: Seq<Key>,
    slot: int,
    position: KeyPos,
    now: u64,
)
    requires
        0 <= slot < keys.len(),
    ensures
        view.merge_step(keys, slot, position, now).len() == keys.len(),
        forall|i: int|
            0 <= i < keys.len() && i != slot ==> view.merge_step(keys, slot, position, now)[i]
                == keys[i],
        keys_wf(keys) ==> keys_wf(view.merge_step(keys, slot, position, now)),
{
    lemma_index_of_first(key_positions(keys), position);
    let after = view.merge_step(keys, slot, position, now);
    if keys_wf(keys) {
        assert forall|i: int, j: int|
            0 <= i < j < after.len() && after[i].position
                != KeyPos::sentinel() implies after[i].position != after[j].position by {
            assert(key_positions(keys)[i] == keys[i].position);
            assert(key_positions(keys)[j] == keys[j].position);
        }
        assert forall|i: int|
            0 <= i < after.len() && (#[trigger] after[i]).position
                == KeyPos::sentinel() implies after[i] == Key::free() by {
            assert(keys[i].position == KeyPos::sentinel() ==> keys[i] == Key::free());
        }
    }
}

/// Merging a snapshot writes only the slots of its half and keeps the buffer
/// in order.
pub proof fn lemma_merged(
    view: ProvisionView,
    keys: Seq<Key>,
    received: Seq<KeyPos>,
    offset: int,
    n: int,
    now: u64,
)
    requires
        0 <= offset,
        0 <= n,
        offset + n <= keys.len(),
    ensures
        view.merged(keys, received, offset, n, now).len() == keys.len(),
        forall|i: int|
            0 <= i < keys.len() && !(offset <= i < offset + n) ==> view.merged(
                keys,
                received,
                offset,
                n,
                now,
            )[i] == keys[i],
        keys_wf(keys) ==> keys_wf(view.merged(keys, received, offset, n, now)),
    decreases n,
{
    if n > 0 {
        lemma_merged(view, keys, received, offset, n - 1, now);
        lemma_merge_step(
            view,
            view.merged(keys, received, offset, n - 1, now),
            offset + n - 1,
            received[n - 1],
            now,
        );
    }
}

/// Replacing a code moves no key: the positions, states and times of the
/// buffer stay, and so does every key whose code is none of the codes that
/// the rule looks for.
pub proof fn lemma_combo_replaced(keys: Seq<Key>, from: Seq<KC>, to: Seq<KC>, n: int)
    requires
        n <= from.len(),
    ensures
        combo_replaced(keys, from, to, n).len() == keys.len(),
        key_positions(combo_replaced(keys, from, to, n)) == key_positions(keys),
        forall|i: int|
            0 <= i < keys.len() ==> (#[trigger] combo_replaced(keys, from, to, n)[i]).state
                == keys[i].state && combo_replaced(keys, from, to, n)[i].time == keys[i].time
                && combo_replaced(keys, from, to, n)[i].position == keys[i].position,
        forall|i: int|
            0 <= i < keys.len() && !from.contains(keys[i].code) ==> #[trigger] combo_replaced(
                keys,
                from,
                to,
                n,
            )[i] == keys[i],
    decreases n,
{
    if n > 0 {
        lemma_combo_replaced(keys, from, to, n - 1);
        let before = combo_replaced(keys, from, to, n - 1);
        lemma_index_of_first(key_codes(before), from[n - 1]);
        let after = combo_replaced(keys, from, to, n);
        assert(key_positions(after) =~= key_positions(before));
        assert forall|i: int| 0 <= i < keys.len() && !from.contains(keys[i].code) implies after[i]
            == keys[i] by {
            assert(before[i] == keys[i]);
            assert(key_codes(before)[i] == before[i].code);
            assert(from.contains(from[n - 1]));
        }
    } else {
        assert(key_positions(combo_replaced(keys, from, to, n)) =~= key_positions(keys));
    }
}

/// A combo rule that looks for no key without a code keeps the buffer in
/// order.
pub proof fn lemma_combo_rewritten_wf(keys: Seq<Key>, from: Seq<KC>, to: Seq<KC>)
    requires
        !from.contains(KC::none()),
    ensures
        combo_rewritten(keys, from, to).len() == keys.len(),
        key_positions(combo_rewritten(keys, from, to)) == key_positions(keys),
        forall|i: int|
            0 <= i < keys.len() ==> (#[trigger] combo_rewritten(keys, from, to)[i]).state
                == keys[i].state && combo_rewritten(keys, from, to)[i].time == keys[i].time,
        keys_wf(keys) ==> keys_wf(combo_rewritten(keys, from, to)),
{
    lemma_combo_replaced(keys, from, to, from.len() as int);
    let after = combo_rewritten(keys, from, to);
    if keys_wf(keys) {
        assert forall|i: int, j: int|
            0 <= i < j < after.len() && after[i].position
                != KeyPos::sentinel() implies after[i].position != after[j].position by {
            assert(key_positions(after)[i] == after[i].position);
            assert(key_positions(after)[j] == after[j].position);
            assert(key_positions(keys)[i] == keys[i].position);
            assert(key_positions(keys)[j] == keys[j].position);
        }
        assert forall|i: int|
            0 <= i < after.len() && (#[trigger] after[i]).position
                == KeyPos::sentinel() implies after[i] == Key::free() by {
            assert(key_positions(after)[i] == after[i].position);
            assert(key_positions(keys)[i] == keys[i].position);
            assert(keys[i] == Key::free());
        }
    }
}

/// The walk finds exactly the released keys: every key that it hands on for
/// removal is a key of the buffer that has a code and is released, and every
/// such key among the first `n` is handed on.
pub proof fn lemma_resolved_released(view: ProvisionView, keys: Seq<Key>, n: int, now: u64)
    requires
        0 <= n <= keys.len(),
    ensures
        view.resolved(keys, n, now).released.len() <= n,
        forall|k: int|
            0 <= k < view.resolved(keys, n, now).released.len() ==> exists|i: int|
                0 <= i < n && keys[i] == #[trigger] view.resolved(keys, n, now).released[k]
                    && keys[i].code != KC::none() && keys[i].state == KeyState::Released,
        forall|i: int|
            0 <= i < n && (#[trigger] keys[i]).code != KC::none() && keys[i].state
                == KeyState::Released ==> view.resolved(keys, n, now).released.contains(keys[i]),
    decreases n,
{
    if n > 0 {
        lemma_resolved_released(view, keys, n - 1, now);
        let before = view.resolved(keys, n - 1, now).released;
        let after = view.resolved(keys, n, now).released;
        let key = keys[n - 1];
        assert forall|k: int| 0 <= k < after.len() implies exists|i: int|
            0 <= i < n && keys[i] == #[trigger] after[k] && keys[i].code != KC::none()
                && keys[i].state == KeyState::Released by {
            if k < before.len() {
                let i = choose|i: int|
                    0 <= i < n - 1 && keys[i] == before[k] && keys[i].code != KC::none()
                        && keys[i].state == KeyState::Released;
                assert(keys[i] == after[k]);
            } else {
                assert(keys[n - 1] == after[k]);
            }
        }
        assert forall|i: int|
            0 <= i < n && (#[trigger] keys[i]).code != KC::none() && keys[i].state
                == KeyState::Released implies after.contains(keys[i]) by {
            if i < n - 1 {
                assert(before.contains(keys[i]));
                let k = choose|k: int| 0 <= k < before.len() && before[k] == keys[i];
                assert(after[k] == keys[i]);
            } else {
                assert(after[after.len() - 1] == keys[i]);
            }
        }
    }
}

/// Whether one of the released keys sits at `position`.
pub open spec fn is_released_at(released: Seq<Key>, position: KeyPos) -> bool {
    exists|k: int| 0 <= k < released.len() && (#[trigger] released[k]).position == position
}

/// Removal frees exactly the slots of the released keys: in a buffer in order
/// a slot is free afterwards when one of the released keys sits at its
/// position, and is as before when none does.
pub proof fn lemma_all_cleared(keys: Seq<Key>, released: Seq<Key>)
    requires
        keys_wf(keys),
    ensures
        all_cleared(keys, released).len() == keys.len(),
        keys_wf(all_cleared(keys, released)),
        forall|i: int|
            0 <= i < keys.len() ==> #[trigger] all_cleared(keys, released)[i] == if keys[i].position
                != KeyPos::sentinel() && is_released_at(released, keys[i].position) {
                Key::free()
            } else {
                keys[i]
            },
    decreases released.len(),
{
    if released.len() > 0 {
        let position = released.last().position;
        let rest = released.drop_last();
        let next = position_cleared(keys, position);
        lemma_index_of_first(key_positions(keys), position);
        assert forall|i: int| 0 <= i < keys.len() implies key_positions(keys)[i]
            == keys[i].position by {}
        assert(keys_wf(next));
        lemma_all_cleared(next, rest);
        let done = all_cleared(keys, released);
        assert(done == all_cleared(next, rest));
        assert forall|i: int| 0 <= i < keys.len() implies #[trigger] done[i] == if keys[i].position
            != KeyPos::sentinel() && is_released_at(released, keys[i].position) {
            Key::free()
        } else {
            keys[i]
        } by {
            let here = keys[i].position;
            if here != KeyPos::sentinel() {
                if here == position {
                    assert(released[released.len() - 1].position == here);
                    assert(is_released_at(released, here));
                    match key_positions(keys).index_of_first(position) {
                        Some(slot) => {
                            assert(key_positions(keys)[slot] == keys[slot].position);
                            assert(slot == i);
                        },
                        None => {
                            assert(key_positions(keys)[i] == here);
                        },
                    }
                    assert(next[i] == Key::free());
                } else {
                    assert(next[i] == keys[i]);
                    if is_released_at(rest, here) {
                        let k = choose|k: int|
                            0 <= k < rest.len() && (#[trigger] rest[k]).position == here;
                        assert(released[k].position == here);
                    }
                    if is_released_at(released, here) {
                        let k = choose|k: int|
                            0 <= k < released.len() && (#[trigger] released[k]).position == here;
                        assert(k < rest.len());
                        assert(rest[k].position == here);
                    }
                }
            } else {
                assert(keys[i] == Key::free());
                assert(next[i] == Key::free());
            }
        }
    }
}

/// A pass settles the buffer. On a buffer in order, every key that has a
/// code and was released leaves: afterwards each key with a code is pressed.
/// A key that is pressed stays where it is. The buffer stays in order, so a
/// key that has left is not found released a second time.
pub proof fn lemma_pass_settles(view: ProvisionView, keys: Seq<Key>, event: MatrixEvent, now: u64)
    requires
        keys.len() == MATRIX_KEYS_COMB_BUFFER,
        keys_wf(keys),
    ensures
        view.pass(keys, event, now).keys.len() == keys.len(),
        keys_wf(view.pass(keys, event, now).keys),
        forall|i: int|
            0 <= i < keys.len() && (#[trigger] view.pass(keys, event, now).keys[i]).code
                != KC::none() ==> view.pass(keys, event, now).keys[i].state == KeyState::Pressed,
{
    let merged = match event {
        MatrixEvent::Local(received) => {
            lemma_merged(view, keys, received@, 0, MATRIX_KEYS_BUFFER as int, now);
            view.merged(keys, received@, 0, MATRIX_KEYS_BUFFER as int, now)
        },
        MatrixEvent::Split(received) => if view.role == Role::ComposeReport {
            lemma_merged(
                view,
                keys,
                received@,
                MATRIX_KEYS_BUFFER as int,
                MATRIX_KEYS_BUFFER as int,
                now,
            );
            view.merged(
                keys,
                received@,
                MATRIX_KEYS_BUFFER as int,
                MATRIX_KEYS_BUFFER as int,
                now,
            )
        } else {
            keys
        },
    };
    lemma_combo_rewritten_wf(merged, combo_from(), combo_to());
    let rewritten = if view.role == Role::ComposeReport {
        combo_rewritten(merged, combo_from(), combo_to())
    } else {
        merged
    };
    let walk = view.resolved(rewritten, MATRIX_KEYS_COMB_BUFFER as int, now);
    lemma_resolved_released(view, rewritten, MATRIX_KEYS_COMB_BUFFER as int, now);
    lemma_all_cleared(rewritten, walk.released);
    let after = view.pass(keys, event, now).keys;
    assert(after == all_cleared(rewritten, walk.released));
    assert forall|i: int| 0 <= i < keys.len() && (#[trigger] after[i]).code
        != KC::none() implies after[i].state == KeyState::Pressed by {
        assert(after[i] == rewritten[i]);
        if rewritten[i].state == KeyState::Released {
            assert(walk.released.contains(rewritten[i]));
            let k = choose|k: int| 0 <= k < walk.released.len() && walk.released[k] == rewritten[i];
            assert(walk.released[k].position == rewritten[i].position);
            assert(is_released_at(walk.released, rewritten[i].position));
        }
    }
}

/// A report has six key code slots and drops what does not fit: putting a
/// value in never changes a slot that is in use, a full set of slots stays as
/// it is, and the value stands in a slot afterwards exactly when it stood in
/// one before or a slot was free.
pub proof fn lemma_slot_filled(slots: Seq<u8>, value: u8, empty: u8)
    requires
        value != empty,
    ensures
        slot_filled(slots, value, empty).len() == slots.len(),
        forall|i: int|
            0 <= i < slots.len() && slots[i] != empty ==> #[trigger] slot_filled(
                slots,
                value,
                empty,
            )[i] == slots[i],
        !slots.contains(empty) ==> slot_filled(slots, value, empty) == slots,
        slot_filled(slots, value, empty).contains(value) <==> slots.contains(value)
            || slots.contains(empty),
{
    lemma_index_of_first(slots, value);
    lemma_index_of_first(slots, empty);
    let after = slot_filled(slots, value, empty);
    if !slots.contains(value) {
        match slots.index_of_first(empty) {
            Some(i) => {
                assert(after[i] == value);
            },
            None => {},
        }
    }
}

/// Taking a value out frees one slot and changes no other: afterwards every
/// slot holds what it held or is free.
pub proof fn lemma_slot_cleared(slots: Seq<u8>, value: u8, empty: u8)
    ensures
        slot_cleared(slots, value, empty).len() == slots.len(),
        forall|i: int|
            0 <= i < slots.len() ==> #[trigger] slot_cleared(slots, value, empty)[i] == slots[i]
                || slot_cleared(slots, value, empty)[i] == empty,
        !slots.contains(value) ==> slot_cleared(slots, value, empty) == slots,
{
    lemma_index_of_first(slots, value);
}

} // verus!
