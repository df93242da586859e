//! HID keyboards

use crate::codec::{
    flag_bit, flags_byte, has_bit, lemma_flags_byte_bits, lemma_same_bits, lemma_set_bit, test_bit,
    PackingError,
};
use crate::hid_class::descriptor::InterfaceProtocol;
use crate::hid_class::UsbPacketSize;
use crate::interface::managed::{ManagedInterface, ManagedInterfaceView};
use crate::interface::raw::{EndpointConfig, RawInterface, RawInterfaceBuilder, RawInterfaceConfig};
use crate::interface::{InterfaceKind, WrappedInterfaceConfig};
use crate::marshal::{put_bytes, put_u8, MarshalError};
use crate::page::Keyboard;
use crate::usb::UsbError;
use crate::UsbHidError;
use vstd::prelude::*;

verus! {

/// Number of key slots in a boot keyboard report.
pub const BOOT_KEY_SLOTS: usize = 6;

/// Report indicating the currently lit keyboard LEDs
#[derive(Clone, Copy, Debug, PartialEq, Eq, Structural)]
pub struct KeyboardLedsReport {
    /// Bit 0.
    pub num_lock: bool,
    /// Bit 1.
    pub caps_lock: bool,
    /// Bit 2.
    pub scroll_lock: bool,
    /// Bit 3.
    pub compose: bool,
    /// Bit 4.
    pub kana: bool,
}

impl KeyboardLedsReport {
    /// Length of the packed report in bytes.
    pub const SIZE: usize = 1;

    /// The packed report: one byte with a bit for each LED, `num_lock` lowest, and the
    /// three highest bits clear.
    pub open spec fn packed(self) -> Seq<u8> {
        seq![
            flags_byte(
                self.num_lock,
                self.caps_lock,
                self.scroll_lock,
                self.compose,
                self.kana,
                false,
                false,
                false,
            ),
        ]
    }

    /// The report that `bytes` encode. The three unused bits are not looked at; the only
    /// way to fail is a buffer of the wrong length.
    pub open spec fn unpacked(bytes: Seq<u8>) -> Result<KeyboardLedsReport, PackingError> {
        if bytes.len() != 1 {
            Err(PackingError::BufferSizeMismatch { expected: 1, actual: bytes.len() as usize })
        } else {
            Ok(
                KeyboardLedsReport {
                    num_lock: has_bit(bytes[0], 0),
                    caps_lock: has_bit(bytes[0], 1),
                    scroll_lock: has_bit(bytes[0], 2),
                    compose: has_bit(bytes[0], 3),
                    kana: has_bit(bytes[0], 4),
                },
            )
        }
    }

    /// Packs the report. Every report can be packed.
    pub fn pack(&self) -> (result: Result<[u8; 1], PackingError>)
        ensures
            result matches Ok(bytes) && bytes@ == self.packed(),
    {
        let byte = flag_bit(self.num_lock, 0) | flag_bit(self.caps_lock, 1) | flag_bit(
            self.scroll_lock,
            2,
        ) | flag_bit(self.compose, 3) | flag_bit(self.kana, 4);
        proof {
            let b = byte;
            assert(b | 0u8 | 0u8 | 0u8 == b) by (bit_vector);
        }
        let bytes = [byte];
        assert(bytes@ =~= self.packed());
        Ok(bytes)
    }

    /// Unpacks a report from a buffer of exactly its size.
    pub fn unpack(bytes: &[u8; 1]) -> (result: Result<KeyboardLedsReport, PackingError>)
        ensures
            result == KeyboardLedsReport::unpacked(bytes@),
    {
        let byte = bytes[0];
        Ok(
            KeyboardLedsReport {
                num_lock: test_bit(byte, 0),
                caps_lock: test_bit(byte, 1),
                scroll_lock: test_bit(byte, 2),
                compose: test_bit(byte, 3),
                kana: test_bit(byte, 4),
            },
        )
    }

    /// Unpacks a report from a slice, which has to have the length of the report.
    pub fn unpack_from_slice(bytes: &[u8]) -> (result: Result<KeyboardLedsReport, PackingError>)
        ensures
            result == KeyboardLedsReport::unpacked(bytes@),
    {
        if bytes.len() != 1 {
            Err(PackingError::BufferSizeMismatch { expected: 1, actual: bytes.len() })
        } else {
            let byte = bytes[0];
            Ok(
                KeyboardLedsReport {
                    num_lock: test_bit(byte, 0),
                    caps_lock: test_bit(byte, 1),
                    scroll_lock: test_bit(byte, 2),
                    compose: test_bit(byte, 3),
                    kana: test_bit(byte, 4),
                },
            )
        }
    }

    /// Unpacking a packed report gives the report back.
    pub proof fn lemma_round_trip(self)
        ensures
            KeyboardLedsReport::unpacked(self.packed()) == Ok::<KeyboardLedsReport, PackingError>(
                self,
            ),
    {
        lemma_flags_byte_bits(
            self.num_lock,
            self.caps_lock,
            self.scroll_lock,
            self.compose,
            self.kana,
            false,
            false,
            false,
        );
    }
}

impl Default for KeyboardLedsReport {
    fn default() -> (report: KeyboardLedsReport)
        ensures
            report == (KeyboardLedsReport {
                num_lock: false,
                caps_lock: false,
                scroll_lock: false,
                compose: false,
                kana: false,
            }),
    {
        KeyboardLedsReport {
            num_lock: false,
            caps_lock: false,
            scroll_lock: false,
            compose: false,
            kana: false,
        }
    }
}

/// The keys among `keys` that take a slot of the key array, in the order they were
/// pressed: everything but modifiers and `NoEventIndicated`.
pub open spec fn slot_keys(keys: Seq<Keyboard>) -> Seq<Keyboard> {
    keys.filter(|key: Keyboard| key.takes_slot())
}

/// Position of the first error indicator in `keys`, or the length of `keys` if there is
/// none; [`lemma_first_error`] says so.
pub open spec fn first_error(keys: Seq<Keyboard>) -> int
    decreases keys.len(),
{
    if keys.len() == 0 {
        0
    } else {
        let before = first_error(keys.drop_last());
        if before < keys.len() - 1 {
            before
        } else if keys.last().is_error_indicator() {
            keys.len() - 1
        } else {
            keys.len() as int
        }
    }
}

/// Whether the slot keys `keys` overflow a boot report: an error indicator was pressed
/// while there still was room for it, or a seventh key was.
pub open spec fn rolled_over(keys: Seq<Keyboard>) -> bool {
    (first_error(keys) < keys.len() && first_error(keys) <= BOOT_KEY_SLOTS) || keys.len()
        > BOOT_KEY_SLOTS
}

/// What every slot of an overflowed report holds: the error indicator that was pressed,
/// or `ErrorRollOver` if the overflow came from too many keys.
pub open spec fn roll_over_key(keys: Seq<Keyboard>) -> Keyboard {
    if first_error(keys) < keys.len() && first_error(keys) <= BOOT_KEY_SLOTS {
        keys[first_error(keys)]
    } else {
        Keyboard::ErrorRollOver
    }
}

/// The six slots of a boot report for the slot keys `keys`: the keys in order, padded
/// with `NoEventIndicated`, unless they overflow; then every slot holds the same error
/// indicator.
pub open spec fn boot_slots(keys: Seq<Keyboard>) -> Seq<Keyboard> {
    if rolled_over(keys) {
        Seq::new(BOOT_KEY_SLOTS as nat, |i: int| roll_over_key(keys))
    } else {
        Seq::new(
            BOOT_KEY_SLOTS as nat,
            |i: int|
                if i < keys.len() {
                    keys[i]
                } else {
                    Keyboard::NoEventIndicated
                },
        )
    }
}

/// `first_error` is what its name says: no key before it is an error indicator, and
/// the key at it is one, if it is within `keys`.
pub proof fn lemma_first_error(keys: Seq<Keyboard>)
    ensures
        0 <= first_error(keys) <= keys.len(),
        forall|i: int| 0 <= i < first_error(keys) ==> !(#[trigger] keys[i]).is_error_indicator(),
        first_error(keys) < keys.len() ==> keys[first_error(keys)].is_error_indicator(),
    decreases keys.len(),
{
    if keys.len() > 0 {
        lemma_first_error(keys.drop_last());
        assert forall|i: int| 0 <= i < first_error(keys) implies !(
        #[trigger] keys[i]).is_error_indicator() by {
            if i < keys.len() - 1 {
                assert(keys.drop_last()[i] == keys[i]);
            }
        }
    }
}

/// How one more slot key changes the slots of a boot report.
proof fn lemma_boot_slots_push(keys: Seq<Keyboard>, key: Keyboard)
    ensures
        !rolled_over(keys) ==> first_error(keys) == keys.len() && keys.len() <= BOOT_KEY_SLOTS,
        rolled_over(keys.push(key)) == (rolled_over(keys) || key.is_error_indicator()
            || keys.len() >= BOOT_KEY_SLOTS),
        boot_slots(keys.push(key)) == if rolled_over(keys) {
            boot_slots(keys)
        } else if key.is_error_indicator() {
            Seq::new(BOOT_KEY_SLOTS as nat, |i: int| key)
        } else if keys.len() >= BOOT_KEY_SLOTS {
            Seq::new(BOOT_KEY_SLOTS as nat, |i: int| Keyboard::ErrorRollOver)
        } else {
            boot_slots(keys).update(keys.len() as int, key)
        },
{
    let more = keys.push(key);
    assert(more.drop_last() =~= keys);
    lemma_first_error(keys);
    lemma_first_error(more);
    let expected = if rolled_over(keys) {
        boot_slots(keys)
    } else if key.is_error_indicator() {
        Seq::new(BOOT_KEY_SLOTS as nat, |i: int| key)
    } else if keys.len() >= BOOT_KEY_SLOTS {
        Seq::new(BOOT_KEY_SLOTS as nat, |i: int| Keyboard::ErrorRollOver)
    } else {
        boot_slots(keys).update(keys.len() as int, key)
    };
    assert(boot_slots(more) =~= expected);
}

/// How one more key changes the slot keys.
proof fn lemma_slot_keys_push(keys: Seq<Keyboard>, key: Keyboard)
    ensures
        slot_keys(keys.push(key)) == if key.takes_slot() {
            slot_keys(keys).push(key)
        } else {
            slot_keys(keys)
        },
{
    reveal(Seq::filter);
    assert(keys.push(key).drop_last() =~= keys);
}

/// A sequence with one more element contains what it contained before, and that
/// element.
proof fn lemma_contains_push(keys: Seq<Keyboard>, key: Keyboard, wanted: Keyboard)
    ensures
        keys.push(key).contains(wanted) == (keys.contains(wanted) || key == wanted),
{
    let more = keys.push(key);
    if keys.contains(wanted) {
        let i = choose|i: int| 0 <= i < keys.len() && keys[i] == wanted;
        assert(more[i] == wanted);
    }
    if key == wanted {
        assert(more[keys.len() as int] == wanted);
    }
    if more.contains(wanted) {
        let i = choose|i: int| 0 <= i < more.len() && more[i] == wanted;
        if i < keys.len() {
            assert(keys[i] == wanted);
        }
    }
}

/// Report implementing the HID boot keyboard specification
#[derive(Clone, Copy, Debug, PartialEq, Eq)]
pub struct BootKeyboardReport {
    /// Modifier bit 7.
    pub right_gui: bool,
    /// Modifier bit 6.
    pub right_alt: bool,
    /// Modifier bit 5.
    pub right_shift: bool,
    /// Modifier bit 4.
    pub right_ctrl: bool,
    /// Modifier bit 3.
    pub left_gui: bool,
    /// Modifier bit 2.
    pub left_alt: bool,
    /// Modifier bit 1.
    pub left_shift: bool,
    /// Modifier bit 0.
    pub left_ctrl: bool,
    /// The key slots, bytes 2 to 7 of the report.
    pub keys: [Keyboard; 6],
}

impl BootKeyboardReport {
    /// Length of the packed report in bytes.
    pub const SIZE: usize = 8;

    /// The report for the pressed keys `keys`: a modifier is on exactly if it is among
    /// them, and the slots are those of [`boot_slots`] for the keys that take one.
    pub open spec fn of_keys(keys: Seq<Keyboard>) -> BootKeyboardReport {
        let slots = boot_slots(slot_keys(keys));
        BootKeyboardReport {
            right_gui: keys.contains(Keyboard::RightGUI),
            right_alt: keys.contains(Keyboard::RightAlt),
            right_shift: keys.contains(Keyboard::RightShift),
            right_ctrl: keys.contains(Keyboard::RightControl),
            left_gui: keys.contains(Keyboard::LeftGUI),
            left_alt: keys.contains(Keyboard::LeftAlt),
            left_shift: keys.contains(Keyboard::LeftShift),
            left_ctrl: keys.contains(Keyboard::LeftControl),
            keys: [slots[0], slots[1], slots[2], slots[3], slots[4], slots[5]],
        }
    }

    /// The modifier byte: one bit for each modifier, in the order of their usage codes
    /// with `LeftControl` lowest.
    pub open spec fn modifier_byte(self) -> u8 {
        flags_byte(
            self.left_ctrl,
            self.left_shift,
            self.left_alt,
            self.left_gui,
            self.right_ctrl,
            self.right_shift,
            self.right_alt,
            self.right_gui,
        )
    }

    /// The packed report: the modifier byte, a reserved zero byte and the usage codes of
    /// the six slots.
    pub open spec fn packed(self) -> Seq<u8> {
        seq![
            self.modifier_byte(),
            0u8,
            self.keys[0].code(),
            self.keys[1].code(),
            self.keys[2].code(),
            self.keys[3].code(),
            self.keys[4].code(),
            self.keys[5].code(),
        ]
    }

    /// The report that `bytes` encode. The reserved byte is not looked at. Decoding fails
    /// for a buffer of the wrong length and for a slot that holds a reserved usage code.
    pub open spec fn unpacked(bytes: Seq<u8>) -> Result<BootKeyboardReport, PackingError> {
        if bytes.len() != 8 {
            Err(PackingError::BufferSizeMismatch { expected: 8, actual: bytes.len() as usize })
        } else if exists|i: int| 2 <= i < 8 && Keyboard::of_code(#[trigger] bytes[i]).is_none() {
            Err(PackingError::InvalidValue)
        } else {
            Ok(
                BootKeyboardReport {
                    right_gui: has_bit(bytes[0], 7),
                    right_alt: has_bit(bytes[0], 6),
                    right_shift: has_bit(bytes[0], 5),
                    right_ctrl: has_bit(bytes[0], 4),
                    left_gui: has_bit(bytes[0], 3),
                    left_alt: has_bit(bytes[0], 2),
                    left_shift: has_bit(bytes[0], 1),
                    left_ctrl: has_bit(bytes[0], 0),
                    keys: [
                        Keyboard::of_code(bytes[2]).unwrap(),
                        Keyboard::of_code(bytes[3]).unwrap(),
                        Keyboard::of_code(bytes[4]).unwrap(),
                        Keyboard::of_code(bytes[5]).unwrap(),
                        Keyboard::of_code(bytes[6]).unwrap(),
                        Keyboard::of_code(bytes[7]).unwrap(),
                    ],
                },
            )
        }
    }

    /// Builds the report for a set of pressed keys, given in the order they were
    /// pressed.
    ///
    /// Modifiers set their bit. Every other key but `NoEventIndicated` takes the next
    /// free slot. If an error indicator is pressed, or more keys than there are slots,
    /// every slot is overwritten with that indicator, respectively `ErrorRollOver`, and
    /// later keys no longer change the slots.
    pub fn new(keys: &[Keyboard]) -> (report: BootKeyboardReport)
        ensures
            report == BootKeyboardReport::of_keys(keys@),
    {
        let mut report = BootKeyboardReport::default();
        let mut error = false;
        let mut i: usize = 0;
        let mut n: usize = 0;
        proof {
            reveal(Seq::filter);
            assert(keys@.take(0) =~= Seq::<Keyboard>::empty());
            assert(slot_keys(keys@.take(0)) =~= Seq::<Keyboard>::empty());
            assert(report.keys@ =~= boot_slots(slot_keys(keys@.take(0))));
        }
        while n < keys.len()
            invariant
                n <= keys.len(),
                report.right_gui == keys@.take(n as int).contains(Keyboard::RightGUI),
                report.right_alt == keys@.take(n as int).contains(Keyboard::RightAlt),
                report.right_shift == keys@.take(n as int).contains(Keyboard::RightShift),
                report.right_ctrl == keys@.take(n as int).contains(Keyboard::RightControl),
                report.left_gui == keys@.take(n as int).contains(Keyboard::LeftGUI),
                report.left_alt == keys@.take(n as int).contains(Keyboard::LeftAlt),
                report.left_shift == keys@.take(n as int).contains(Keyboard::LeftShift),
                report.left_ctrl == keys@.take(n as int).contains(Keyboard::LeftControl),
                report.keys@ == boot_slots(slot_keys(keys@.take(n as int))),
                error == rolled_over(slot_keys(keys@.take(n as int))),
                !error ==> i == slot_keys(keys@.take(n as int)).len(),
            decreases keys.len() - n,
        {
            let k = keys[n];
            proof {
                reveal(Keyboard::code);
                let seen = keys@.take(n as int);
                assert(keys@.take(n as int + 1) =~= seen.push(k));
                lemma_slot_keys_push(seen, k);
                lemma_boot_slots_push(slot_keys(seen), k);
                lemma_contains_push(seen, k, Keyboard::RightGUI);
                lemma_contains_push(seen, k, Keyboard::RightAlt);
                lemma_contains_push(seen, k, Keyboard::RightShift);
                lemma_contains_push(seen, k, Keyboard::RightControl);
                lemma_contains_push(seen, k, Keyboard::LeftGUI);
                lemma_contains_push(seen, k, Keyboard::LeftAlt);
                lemma_contains_push(seen, k, Keyboard::LeftShift);
                lemma_contains_push(seen, k, Keyboard::LeftControl);
            }
            match k {
                Keyboard::LeftControl => {
                    report.left_ctrl = true;
                },
                Keyboard::LeftShift => {
                    report.left_shift = true;
                },
                Keyboard::LeftAlt => {
                    report.left_alt = true;
                },
                Keyboard::LeftGUI => {
                    report.left_gui = true;
                },
                Keyboard::RightControl => {
                    report.right_ctrl = true;
                },
                Keyboard::RightShift => {
                    report.right_shift = true;
                },
                Keyboard::RightAlt => {
                    report.right_alt = true;
                },
                Keyboard::RightGUI => {
                    report.right_gui = true;
                },
                Keyboard::NoEventIndicated => {},
                Keyboard::ErrorRollOver | Keyboard::POSTFail | Keyboard::ErrorUndefine => {
                    if !error {
                        error = true;
                        i = report.keys.len();
                        report.keys = filled_slots(k);
                    }
                },
                _ => {
                    if !error {
                        if i < report.keys.len() {
                            report.keys[i] = k;
                            i += 1;
                        } else {
                            error = true;
                            i = report.keys.len();
                            report.keys = filled_slots(Keyboard::ErrorRollOver);
                        }
                    }
                },
            }
            n += 1;
        }
        proof {
            assert(keys@.take(n as int) =~= keys@);
            assert(report.keys =~= BootKeyboardReport::of_keys(keys@).keys);
        }
        report
    }

    /// Packs the report. Every report can be packed.
    pub fn pack(&self) -> (result: Result<[u8; 8], PackingError>)
        ensures
            result matches Ok(bytes) && bytes@ == self.packed(),
    {
        let modifiers = flag_bit(self.left_ctrl, 0) | flag_bit(self.left_shift, 1) | flag_bit(
            self.left_alt,
            2,
        ) | flag_bit(self.left_gui, 3) | flag_bit(self.right_ctrl, 4) | flag_bit(
            self.right_shift,
            5,
        ) | flag_bit(self.right_alt, 6) | flag_bit(self.right_gui, 7);
        let bytes = [
            modifiers,
            0,
            self.keys[0].as_u8(),
            self.keys[1].as_u8(),
            self.keys[2].as_u8(),
            self.keys[3].as_u8(),
            self.keys[4].as_u8(),
            self.keys[5].as_u8(),
        ];
        assert(bytes@ =~= self.packed());
        Ok(bytes)
    }

    /// Unpacks a report from a buffer of exactly its size.
    pub fn unpack(bytes: &[u8; 8]) -> (result: Result<BootKeyboardReport, PackingError>)
        ensures
            result == BootKeyboardReport::unpacked(bytes@),
    {
        let keys = match unpack_keys(bytes.as_slice(), 2) {
            Some(keys) => keys,
            None => {
                return Err(PackingError::InvalidValue);
            },
        };
        let byte = bytes[0];
        let report = BootKeyboardReport {
            right_gui: test_bit(byte, 7),
            right_alt: test_bit(byte, 6),
            right_shift: test_bit(byte, 5),
            right_ctrl: test_bit(byte, 4),
            left_gui: test_bit(byte, 3),
            left_alt: test_bit(byte, 2),
            left_shift: test_bit(byte, 1),
            left_ctrl: test_bit(byte, 0),
            keys,
        };
        proof {
            assert forall|i: int| 2 <= i < 8 implies Keyboard::of_code(
                #[trigger] bytes@[i],
            ).is_some() by {
                assert(Keyboard::of_code(bytes@[2 + (i - 2)]) == Some(keys@[i - 2]));
            }
            assert(Keyboard::of_code(bytes@[2 + 0int]) == Some(keys@[0]));
            assert(Keyboard::of_code(bytes@[2 + 1int]) == Some(keys@[1]));
            assert(Keyboard::of_code(bytes@[2 + 2int]) == Some(keys@[2]));
            assert(Keyboard::of_code(bytes@[2 + 3int]) == Some(keys@[3]));
            assert(Keyboard::of_code(bytes@[2 + 4int]) == Some(keys@[4]));
            assert(Keyboard::of_code(bytes@[2 + 5int]) == Some(keys@[5]));
            let expected = BootKeyboardReport::unpacked(bytes@).unwrap();
            assert(report.keys =~= expected.keys);
        }
        Ok(report)
    }

    /// Unpacks a report from a slice, which has to have the length of the report.
    pub fn unpack_from_slice(bytes: &[u8]) -> (result: Result<BootKeyboardReport, PackingError>)
        ensures
            result == BootKeyboardReport::unpacked(bytes@),
    {
        if bytes.len() != 8 {
            Err(PackingError::BufferSizeMismatch { expected: 8, actual: bytes.len() })
        } else {
            let buffer = [
                bytes[0],
                bytes[1],
                bytes[2],
                bytes[3],
                bytes[4],
                bytes[5],
                bytes[6],
                bytes[7],
            ];
            assert(buffer@ =~= bytes@);
            BootKeyboardReport::unpack(&buffer)
        }
    }

    /// Unpacking a packed report gives the report back.
    pub proof fn lemma_round_trip(self)
        ensures
            BootKeyboardReport::unpacked(self.packed()) == Ok::<BootKeyboardReport, PackingError>(
                self,
            ),
    {
        lemma_flags_byte_bits(
            self.left_ctrl,
            self.left_shift,
            self.left_alt,
            self.left_gui,
            self.right_ctrl,
            self.right_shift,
            self.right_alt,
            self.right_gui,
        );
        Keyboard::lemma_code_round_trip(self.keys[0]);
        Keyboard::lemma_code_round_trip(self.keys[1]);
        Keyboard::lemma_code_round_trip(self.keys[2]);
        Keyboard::lemma_code_round_trip(self.keys[3]);
        Keyboard::lemma_code_round_trip(self.keys[4]);
        Keyboard::lemma_code_round_trip(self.keys[5]);
        let decoded = BootKeyboardReport::unpacked(self.packed()).unwrap();
        assert(decoded.keys =~= self.keys);
    }

    /// More than six keys, none of them an error indicator, give a report whose slots
    /// all hold `ErrorRollOver`.
    pub proof fn lemma_rollover(keys: Seq<Keyboard>)
        requires
            slot_keys(keys).len() > BOOT_KEY_SLOTS,
            forall|i: int| 0 <= i < keys.len() ==> !(#[trigger] keys[i]).is_error_indicator(),
        ensures
            forall|slot: int|
                0 <= slot < BOOT_KEY_SLOTS ==> #[trigger] BootKeyboardReport::of_keys(
                    keys,
                ).keys[slot] == Keyboard::ErrorRollOver,
    {
        lemma_slot_keys_rollover(keys);
        let slots = boot_slots(slot_keys(keys));
        assert(forall|slot: int| 0 <= slot < BOOT_KEY_SLOTS ==> slots[slot] == Keyboard::ErrorRollOver);
    }
}

/// Six key slots that all hold `key`.
pub fn filled_slots(key: Keyboard) -> (keys: [Keyboard; 6])
    ensures
        keys@ == Seq::new(BOOT_KEY_SLOTS as nat, |i: int| key),
{
    let keys = [key, key, key, key, key, key];
    assert(keys@ =~= Seq::new(BOOT_KEY_SLOTS as nat, |i: int| key));
    keys
}

/// Decodes the six key slots that start at byte `at` of `bytes`: the keys if every slot
/// holds an assigned usage code, nothing if one holds a reserved code.
pub(crate) fn unpack_keys(bytes: &[u8], at: usize) -> (result: Option<[Keyboard; 6]>)
    requires
        at + BOOT_KEY_SLOTS <= bytes@.len(),
    ensures
        match result {
            Some(keys) => forall|i: int|
                0 <= i < BOOT_KEY_SLOTS ==> Keyboard::of_code(#[trigger] bytes@[at + i]) == Some(
                    keys@[i],
                ),
            None => exists|i: int|
                at <= i < at + BOOT_KEY_SLOTS && Keyboard::of_code(#[trigger] bytes@[i]).is_none(),
        },
{
    let mut keys = filled_slots(Keyboard::NoEventIndicated);
    let len = bytes.len();
    let mut i: usize = 0;
    while i < 6
        invariant
            i <= 6,
            len == bytes@.len(),
            at + BOOT_KEY_SLOTS <= len,
            forall|j: int| 0 <= j < i ==> Keyboard::of_code(#[trigger] bytes@[at + j]) == Some(keys@[j]),
        decreases 6 - i,
    {
        match Keyboard::from_code(bytes[at + i]) {
            Some(key) => {
                keys[i] = key;
            },
            None => {
                return None;
            },
        }
        i += 1;
    }
    Some(keys)
}

/// More than six slot keys, none of them an error indicator, roll over to
/// `ErrorRollOver`.
proof fn lemma_slot_keys_rollover(keys: Seq<Keyboard>)
    requires
        slot_keys(keys).len() > BOOT_KEY_SLOTS,
        forall|i: int| 0 <= i < keys.len() ==> !(#[trigger] keys[i]).is_error_indicator(),
    ensures
        rolled_over(slot_keys(keys)),
        roll_over_key(slot_keys(keys)) == Keyboard::ErrorRollOver,
{
    let slots = slot_keys(keys);
    lemma_first_error(slots);
    if first_error(slots) < slots.len() {
        let culprit = slots[first_error(slots)];
        keys.lemma_filter_contains_rev(|key: Keyboard| key.takes_slot(), culprit);
    }
}

impl Default for BootKeyboardReport {
    fn default() -> (report: BootKeyboardReport)
        ensures
            !report.right_gui && !report.right_alt && !report.right_shift && !report.right_ctrl,
            !report.left_gui && !report.left_alt && !report.left_shift && !report.left_ctrl,
            report.keys@ == Seq::new(BOOT_KEY_SLOTS as nat, |i: int| Keyboard::NoEventIndicated),
    {
        let keys = filled_slots(Keyboard::NoEventIndicated);
        BootKeyboardReport {
            right_gui: false,
            right_alt: false,
            right_shift: false,
            right_ctrl: false,
            left_gui: false,
            left_alt: false,
            left_shift: false,
            left_ctrl: false,
            keys,
        }
    }
}

/// Number of bytes of the key bitmap of an NKRO report.
pub const NKRO_BITMAP_LEN: usize = 17;

/// Number of usage codes that have a bit in the key bitmap of an NKRO report.
pub const NKRO_KEY_COUNT: usize = 136;

/// Whether the key with usage code `code` is among the pressed keys `keys`.
/// `NoEventIndicated`, code 0, does not count as a key.
pub open spec fn pressed(keys: Seq<Keyboard>, code: int) -> bool {
    code != 0 && exists|i: int| 0 <= i < keys.len() && (#[trigger] keys[i]).code() == code
}

/// Bit `code` of a key bitmap: bit `code % 8` of byte `code / 8`.
pub open spec fn nkro_bit(bitmap: Seq<u8>, code: int) -> bool {
    has_bit(bitmap[code / 8], (code % 8) as u8)
}

/// Byte `index` of the key bitmap for the pressed keys `keys`: bit `n` says whether the
/// key with usage code `8 * index + n` is pressed.
pub open spec fn nkro_byte(keys: Seq<Keyboard>, index: int) -> u8 {
    flags_byte(
        pressed(keys, 8 * index),
        pressed(keys, 8 * index + 1),
        pressed(keys, 8 * index + 2),
        pressed(keys, 8 * index + 3),
        pressed(keys, 8 * index + 4),
        pressed(keys, 8 * index + 5),
        pressed(keys, 8 * index + 6),
        pressed(keys, 8 * index + 7),
    )
}

/// The key bitmap for the pressed keys `keys`.
pub open spec fn nkro_bitmap(keys: Seq<Keyboard>) -> Seq<u8> {
    Seq::new(NKRO_BITMAP_LEN as nat, |index: int| nkro_byte(keys, index))
}

/// Bit `code` of the key bitmap says whether key `code` is pressed.
pub proof fn lemma_nkro_bitmap_bit(keys: Seq<Keyboard>, code: int)
    requires
        0 <= code < NKRO_KEY_COUNT,
    ensures
        nkro_bit(nkro_bitmap(keys), code) == pressed(keys, code),
{
    let index = code / 8;
    lemma_flags_byte_bits(
        pressed(keys, 8 * index),
        pressed(keys, 8 * index + 1),
        pressed(keys, 8 * index + 2),
        pressed(keys, 8 * index + 3),
        pressed(keys, 8 * index + 4),
        pressed(keys, 8 * index + 5),
        pressed(keys, 8 * index + 6),
        pressed(keys, 8 * index + 7),
    );
}

/// A bitmap whose every bit says whether its key is pressed is the key bitmap.
proof fn lemma_nkro_bitmap_unique(keys: Seq<Keyboard>, bitmap: Seq<u8>)
    requires
        bitmap.len() == NKRO_BITMAP_LEN,
        forall|code: int|
            0 <= code < NKRO_KEY_COUNT ==> #[trigger] nkro_bit(bitmap, code) == pressed(keys, code),
    ensures
        bitmap == nkro_bitmap(keys),
{
    assert forall|index: int| 0 <= index < NKRO_BITMAP_LEN implies bitmap[index] == nkro_byte(
        keys,
        index,
    ) by {
        assert forall|n: u8| n < 8 implies has_bit(bitmap[index], n) == has_bit(
            nkro_byte(keys, index),
            n,
        ) by {
            let code = 8 * index + n;
            assert(code / 8 == index && code % 8 == n);
            assert(nkro_bit(bitmap, code) == pressed(keys, code));
            lemma_nkro_bitmap_bit(keys, code);
        }
        lemma_same_bits(bitmap[index], nkro_byte(keys, index));
    }
    assert(bitmap =~= nkro_bitmap(keys));
}

/// How one more key changes which keys are pressed.
proof fn lemma_pressed_push(keys: Seq<Keyboard>, key: Keyboard, code: int)
    ensures
        pressed(keys.push(key), code) == (pressed(keys, code) || (code != 0 && key.code()
            == code)),
{
    let more = keys.push(key);
    if pressed(keys, code) {
        let i = choose|i: int| 0 <= i < keys.len() && (#[trigger] keys[i]).code() == code;
        assert(more[i].code() == code);
    }
    if code != 0 && key.code() == code {
        assert(more[keys.len() as int].code() == code);
    }
    if pressed(more, code) {
        let i = choose|i: int| 0 <= i < more.len() && (#[trigger] more[i]).code() == code;
        if i < keys.len() {
            assert(keys[i].code() == code);
        }
    }
}

/// Report implementing an NKRO keyboard as a bitmap appended to the boot
/// keyboard report format
///
/// This is compatible with the HID boot specification: the pressed keys are reported
/// both in `boot_keys` and in `nkro_keys`.
#[derive(Clone, Copy, Debug, PartialEq, Eq)]
pub struct NKROBootKeyboardReport {
    /// Modifier bit 7.
    pub right_gui: bool,
    /// Modifier bit 6.
    pub right_alt: bool,
    /// Modifier bit 5.
    pub right_shift: bool,
    /// Modifier bit 4.
    pub right_ctrl: bool,
    /// Modifier bit 3.
    pub left_gui: bool,
    /// Modifier bit 2.
    pub left_alt: bool,
    /// Modifier bit 1.
    pub left_shift: bool,
    /// Modifier bit 0.
    pub left_ctrl: bool,
    /// The key slots of the boot protocol, bytes 2 to 7 of the report.
    pub boot_keys: [Keyboard; 6],
    /// The key bitmap, bytes 8 to 24 of the report: one bit for each usage code below
    /// 136, least significant bit first.
    pub nkro_keys: [u8; 17],
}

impl NKROBootKeyboardReport {
    /// Length of the packed report in bytes.
    pub const SIZE: usize = 25;

    /// The boot report with the modifiers and key slots of this report.
    pub open spec fn boot(self) -> BootKeyboardReport {
        BootKeyboardReport {
            right_gui: self.right_gui,
            right_alt: self.right_alt,
            right_shift: self.right_shift,
            right_ctrl: self.right_ctrl,
            left_gui: self.left_gui,
            left_alt: self.left_alt,
            left_shift: self.left_shift,
            left_ctrl: self.left_ctrl,
            keys: self.boot_keys,
        }
    }

    /// The report for the pressed keys `keys`: modifiers and key slots as in the boot
    /// report, and the key bitmap of [`nkro_bitmap`], which shows every pressed key
    /// whether or not the slots have rolled over.
    pub open spec fn of_keys(keys: Seq<Keyboard>) -> NKROBootKeyboardReport {
        let boot = BootKeyboardReport::of_keys(keys);
        let bitmap = nkro_bitmap(keys);
        NKROBootKeyboardReport {
            right_gui: boot.right_gui,
            right_alt: boot.right_alt,
            right_shift: boot.right_shift,
            right_ctrl: boot.right_ctrl,
            left_gui: boot.left_gui,
            left_alt: boot.left_alt,
            left_shift: boot.left_shift,
            left_ctrl: boot.left_ctrl,
            boot_keys: boot.keys,
            nkro_keys: [
                bitmap[0],
                bitmap[1],
                bitmap[2],
                bitmap[3],
                bitmap[4],
                bitmap[5],
                bitmap[6],
                bitmap[7],
                bitmap[8],
                bitmap[9],
                bitmap[10],
                bitmap[11],
                bitmap[12],
                bitmap[13],
                bitmap[14],
                bitmap[15],
                bitmap[16],
            ],
        }
    }

    /// The packed report: the eight bytes of the boot report followed by the key
    /// bitmap.
    pub open spec fn packed(self) -> Seq<u8> {
        self.boot().packed() + self.nkro_keys@
    }

    /// The report that `bytes` encode. Decoding fails for a buffer of the wrong length
    /// and for a key slot that holds a reserved usage code; every bitmap is accepted.
    pub open spec fn unpacked(bytes: Seq<u8>) -> Result<NKROBootKeyboardReport, PackingError> {
        if bytes.len() != 25 {
            Err(PackingError::BufferSizeMismatch { expected: 25, actual: bytes.len() as usize })
        } else {
            match BootKeyboardReport::unpacked(bytes.take(8)) {
                Err(error) => Err(error),
                Ok(boot) => Ok(
                    NKROBootKeyboardReport {
                        right_gui: boot.right_gui,
                        right_alt: boot.right_alt,
                        right_shift: boot.right_shift,
                        right_ctrl: boot.right_ctrl,
                        left_gui: boot.left_gui,
                        left_alt: boot.left_alt,
                        left_shift: boot.left_shift,
                        left_ctrl: boot.left_ctrl,
                        boot_keys: boot.keys,
                        nkro_keys: [
                            bytes[8],
                            bytes[9],
                            bytes[10],
                            bytes[11],
                            bytes[12],
                            bytes[13],
                            bytes[14],
                            bytes[15],
                            bytes[16],
                            bytes[17],
                            bytes[18],
                            bytes[19],
                            bytes[20],
                            bytes[21],
                            bytes[22],
                            bytes[23],
                            bytes[24],
                        ],
                    },
                ),
            }
        }
    }

    /// Builds the report for a set of pressed keys, given in the order they were
    /// pressed.
    ///
    /// Modifiers and key slots are filled as in [`BootKeyboardReport::new`]. In
    /// addition every pressed key with a usage code below 136 sets its bit in the key
    /// bitmap, also when the key slots have rolled over.
    pub fn new(keys: &[Keyboard]) -> (report: NKROBootKeyboardReport)
        ensures
            report == NKROBootKeyboardReport::of_keys(keys@),
    {
        let boot = BootKeyboardReport::new(keys);
        let mut nkro_keys = [0u8;17];
        let mut n: usize = 0;
        proof {
            assert forall|code: int| 0 <= code < NKRO_KEY_COUNT implies #[trigger] nkro_bit(
                nkro_keys@,
                code,
            ) == pressed(keys@.take(0), code) by {
                let zero = nkro_keys@[code / 8];
                let bit = (code % 8) as u8;
                assert(zero & (1u8 << bit) == 0) by (bit_vector)
                    requires
                        zero == 0,
                ;
            }
        }
        while n < keys.len()
            invariant
                n <= keys.len(),
                forall|code: int|
                    0 <= code < NKRO_KEY_COUNT ==> #[trigger] nkro_bit(nkro_keys@, code)
                        == pressed(keys@.take(n as int), code),
            decreases keys.len() - n,
        {
            let k = keys[n];
            let code = k.as_u8();
            let ghost seen = keys@.take(n as int);
            let ghost before = nkro_keys@;
            proof {
                assert(keys@.take(n as int + 1) =~= seen.push(k));
            }
            if code != 0 && (code as usize) < NKRO_KEY_COUNT {
                let byte = (code / 8) as usize;
                let bit = code % 8;
                nkro_keys[byte] = nkro_keys[byte] | (1u8 << bit);
                proof {
                    assert forall|other: int| 0 <= other < NKRO_KEY_COUNT implies #[trigger] nkro_bit(
                        nkro_keys@,
                        other,
                    ) == pressed(seen.push(k), other) by {
                        lemma_pressed_push(seen, k, other);
                        assert(nkro_bit(before, other) == pressed(seen, other));
                        if other / 8 == byte {
                            lemma_set_bit(before[byte as int], bit, (other % 8) as u8);
                        }
                    }
                }
            } else {
                proof {
                    assert forall|other: int| 0 <= other < NKRO_KEY_COUNT implies #[trigger] nkro_bit(
                        nkro_keys@,
                        other,
                    ) == pressed(seen.push(k), other) by {
                        lemma_pressed_push(seen, k, other);
                        assert(nkro_bit(before, other) == pressed(seen, other));
                    }
                }
            }
            n += 1;
        }
        let report = NKROBootKeyboardReport {
            right_gui: boot.right_gui,
            right_alt: boot.right_alt,
            right_shift: boot.right_shift,
            right_ctrl: boot.right_ctrl,
            left_gui: boot.left_gui,
            left_alt: boot.left_alt,
            left_shift: boot.left_shift,
            left_ctrl: boot.left_ctrl,
            boot_keys: boot.keys,
            nkro_keys,
        };
        proof {
            assert(keys@.take(n as int) =~= keys@);
            lemma_nkro_bitmap_unique(keys@, nkro_keys@);
            assert(report.nkro_keys =~= NKROBootKeyboardReport::of_keys(keys@).nkro_keys);
        }
        report
    }

    /// The boot report with the modifiers and key slots of this report, computed.
    pub fn boot_report(&self) -> (boot: BootKeyboardReport)
        ensures
            boot == self.boot(),
    {
        BootKeyboardReport {
            right_gui: self.right_gui,
            right_alt: self.right_alt,
            right_shift: self.right_shift,
            right_ctrl: self.right_ctrl,
            left_gui: self.left_gui,
            left_alt: self.left_alt,
            left_shift: self.left_shift,
            left_ctrl: self.left_ctrl,
            keys: self.boot_keys,
        }
    }

    /// Packs the report. Every report can be packed.
    pub fn pack(&self) -> (result: Result<[u8; 25], PackingError>)
        ensures
            result matches Ok(bytes) && bytes@ == self.packed(),
    {
        let head = match self.boot_report().pack() {
            Ok(head) => head,
            Err(error) => {
                return Err(error);
            },
        };
        let mut bytes = [0u8;25];
        let mut i: usize = 0;
        while i < 8
            invariant
                i <= 8,
                forall|j: int| 0 <= j < i ==> bytes@[j] == head@[j],
            decreases 8 - i,
        {
            bytes[i] = head[i];
            i += 1;
        }
        let mut i: usize = 0;
        while i < 17
            invariant
                i <= 17,
                forall|j: int| 0 <= j < 8 ==> bytes@[j] == head@[j],
                forall|j: int| 0 <= j < i ==> bytes@[8 + j] == self.nkro_keys@[j],
            decreases 17 - i,
        {
            bytes[8 + i] = self.nkro_keys[i];
            i += 1;
        }
        assert(bytes@ =~= head@ + self.nkro_keys@);
        Ok(bytes)
    }

    /// Unpacks a report from a buffer of exactly its size.
    pub fn unpack(bytes: &[u8; 25]) -> (result: Result<NKROBootKeyboardReport, PackingError>)
        ensures
            result == NKROBootKeyboardReport::unpacked(bytes@),
    {
        let head = [
            bytes[0],
            bytes[1],
            bytes[2],
            bytes[3],
            bytes[4],
            bytes[5],
            bytes[6],
            bytes[7],
        ];
        assert(head@ =~= bytes@.take(8));
        match BootKeyboardReport::unpack(&head) {
            Err(error) => Err(error),
            Ok(boot) => {
                let nkro_keys = [
                    bytes[8],
                    bytes[9],
                    bytes[10],
                    bytes[11],
                    bytes[12],
                    bytes[13],
                    bytes[14],
                    bytes[15],
                    bytes[16],
                    bytes[17],
                    bytes[18],
                    bytes[19],
                    bytes[20],
                    bytes[21],
                    bytes[22],
                    bytes[23],
                    bytes[24],
                ];
                let report = NKROBootKeyboardReport {
                    right_gui: boot.right_gui,
                    right_alt: boot.right_alt,
                    right_shift: boot.right_shift,
                    right_ctrl: boot.right_ctrl,
                    left_gui: boot.left_gui,
                    left_alt: boot.left_alt,
                    left_shift: boot.left_shift,
                    left_ctrl: boot.left_ctrl,
                    boot_keys: boot.keys,
                    nkro_keys,
                };
                proof {
                    let expected = NKROBootKeyboardReport::unpacked(bytes@).unwrap();
                    assert(report.nkro_keys =~= expected.nkro_keys);
                }
                Ok(report)
            },
        }
    }

    /// Unpacks a report from a slice, which has to have the length of the report.
    pub fn unpack_from_slice(bytes: &[u8]) -> (result: Result<
        NKROBootKeyboardReport,
        PackingError,
    >)
        ensures
            result == NKROBootKeyboardReport::unpacked(bytes@),
    {
        if bytes.len() != 25 {
            Err(PackingError::BufferSizeMismatch { expected: 25, actual: bytes.len() })
        } else {
            let mut buffer = [0u8;25];
            let mut i: usize = 0;
            while i < 25
                invariant
                    i <= 25,
                    bytes@.len() == 25,
                    forall|j: int| 0 <= j < i ==> buffer@[j] == bytes@[j],
                decreases 25 - i,
            {
                buffer[i] = bytes[i];
                i += 1;
            }
            assert(buffer@ =~= bytes@);
            NKROBootKeyboardReport::unpack(&buffer)
        }
    }

    /// Unpacking a packed report gives the report back.
    pub proof fn lemma_round_trip(self)
        ensures
            NKROBootKeyboardReport::unpacked(self.packed()) == Ok::<
                NKROBootKeyboardReport,
                PackingError,
            >(self),
    {
        self.boot().lemma_round_trip();
        assert(self.packed().take(8) =~= self.boot().packed());
        let decoded = NKROBootKeyboardReport::unpacked(self.packed()).unwrap();
        assert(decoded.nkro_keys =~= self.nkro_keys);
    }

    /// The key bitmap shows exactly the pressed keys with a usage code below 136,
    /// however many keys are pressed, and the key slots are those of the boot report
    /// for the same keys.
    pub proof fn lemma_bitmap_shows_pressed_keys(keys: Seq<Keyboard>)
        ensures
            forall|code: int|
                0 <= code < NKRO_KEY_COUNT ==> #[trigger] nkro_bit(
                    NKROBootKeyboardReport::of_keys(keys).nkro_keys@,
                    code,
                ) == pressed(keys, code),
            NKROBootKeyboardReport::of_keys(keys).boot() == BootKeyboardReport::of_keys(keys),
    {
        let report = NKROBootKeyboardReport::of_keys(keys);
        assert(report.nkro_keys@ =~= nkro_bitmap(keys));
        assert forall|code: int| 0 <= code < NKRO_KEY_COUNT implies #[trigger] nkro_bit(
            report.nkro_keys@,
            code,
        ) == pressed(keys, code) by {
            lemma_nkro_bitmap_bit(keys, code);
        }
    }
}

impl Default for NKROBootKeyboardReport {
    fn default() -> (report: NKROBootKeyboardReport)
        ensures
            report.boot().keys@ == Seq::new(
                BOOT_KEY_SLOTS as nat,
                |i: int| Keyboard::NoEventIndicated,
            ),
            report.boot().modifier_byte() == 0,
            report.nkro_keys@ == Seq::new(NKRO_BITMAP_LEN as nat, |i: int| 0u8),
    {
        let nkro_keys = [0u8;17];
        assert(nkro_keys@ =~= Seq::new(NKRO_BITMAP_LEN as nat, |i: int| 0u8));
        let report = NKROBootKeyboardReport {
            right_gui: false,
            right_alt: false,
            right_shift: false,
            right_ctrl: false,
            left_gui: false,
            left_alt: false,
            left_shift: false,
            left_ctrl: false,
            boot_keys: filled_slots(Keyboard::NoEventIndicated),
            nkro_keys,
        };
        assert(report.boot().modifier_byte() == 0) by {
            assert((0u8 | 0u8 | 0u8 | 0u8 | 0u8 | 0u8 | 0u8 | 0u8) == 0u8) by (bit_vector);
        }
        report
    }
}

/// HID Keyboard report descriptor conforming to the Boot specification
///
/// This aims to be compatible with BIOS and other reduced functionality USB hosts
///
/// This is defined in Appendix B.1 & E.6 of [Device Class Definition for Human
/// Interface Devices (Hid) Version 1.11](<https://www.usb.org/sites/default/files/hid1_11.pdf>)
pub const BOOT_KEYBOARD_REPORT_DESCRIPTOR: [u8; 65] = [
    0x05, 0x01,                    // Usage Page (Generic Desktop)
    0x09, 0x06,                    // Usage (Keyboard)
    0xA1, 0x01,                    // Collection (Application)
    0x75, 0x01,                    //     Report Size (1)
    0x95, 0x08,                    //     Report Count (8)
    0x05, 0x07,                    //     Usage Page (Key Codes)
    0x19, 0xE0,                    //     Usage Minimum (224)
    0x29, 0xE7,                    //     Usage Maximum (231)
    0x15, 0x00,                    //     Logical Minimum (0)
    0x25, 0x01,                    //     Logical Maximum (1)
    0x81, 0x02,                    //     Input (Data, Variable, Absolute), ;Modifier byte
    0x95, 0x01,                    //     Report Count (1)
    0x75, 0x08,                    //     Report Size (8)
    0x81, 0x01,                    //     Input (Constant), ;Reserved byte
    0x95, 0x05,                    //     Report Count (5)
    0x75, 0x01,                    //     Report Size (1)
    0x05, 0x08,                    //     Usage Page (LEDs)
    0x19, 0x01,                    //     Usage Minimum (1)
    0x29, 0x05,                    //     Usage Maximum (5)
    0x91, 0x02,                    //     Output (Data, Variable, Absolute), ;LED report
    0x95, 0x01,                    //     Report Count (1)
    0x75, 0x03,                    //     Report Size (3)
    0x91, 0x01,                    //     Output (Constant), ;LED report padding
    0x95, 0x06,                    //     Report Count (6)
    0x75, 0x08,                    //     Report Size (8)
    0x15, 0x00,                    //     Logical Minimum (0)
    0x26, 0xFF, 0x00,              //     Logical Maximum(255)
    0x05, 0x07,                    //     Usage Page (Key Codes)
    0x19, 0x00,                    //     Usage Minimum (0)
    0x2A, 0xFF, 0x00,              //     Usage Maximum (255)
    0x81, 0x00,                    //     Input (Data, Array)
    0xC0,                          // End Collection
];

/// HID Keyboard report descriptor implementing an NKRO keyboard as a bitmap appended to the boot
/// keyboard report format.
///
/// This is compatible with the HID boot specification but key data must be duplicated across both
/// the array and bitmap sections of the report: byte 0 holds the modifiers, byte 1 is reserved,
/// bytes 2 to 7 are the key array of the boot protocol and bytes 8 to 24 the key bitmap.
pub const NKRO_BOOT_KEYBOARD_REPORT_DESCRIPTOR: [u8; 63] = [
    0x05, 0x01,                    // Usage Page (Generic Desktop)
    0x09, 0x06,                    // Usage (Keyboard)
    0xA1, 0x01,                    // Collection (Application)
    // bitmap of modifiers
    0x75, 0x01,                    //   Report Size (1)
    0x95, 0x08,                    //   Report Count (8)
    0x05, 0x07,                    //   Usage Page (Key Codes)
    0x19, 0xE0,                    //   Usage Minimum (224)
    0x29, 0xE7,                    //   Usage Maximum (231)
    0x15, 0x00,                    //   Logical Minimum (0)
    0x25, 0x01,                    //   Logical Maximum (1)
    0x81, 0x02,                    //   Input (Data, Variable, Absolute), ;Modifier byte
    // 7 bytes of padding
    0x75, 0x38,                    //   Report Size (0x38)
    0x95, 0x01,                    //   Report Count (1)
    0x81, 0x01,                    //   Input (Constant), ;Reserved byte
    // LED output report
    0x95, 0x05,                    //   Report Count (5)
    0x75, 0x01,                    //   Report Size (1)
    0x05, 0x08,                    //   Usage Page (LEDs)
    0x19, 0x01,                    //   Usage Minimum (1)
    0x29, 0x05,                    //   Usage Maximum (5)
    0x91, 0x02,                    //   Output (Data, Variable, Absolute)
    0x95, 0x01,                    //   Report Count (1)
    0x75, 0x03,                    //   Report Size (3)
    0x91, 0x03,                    //   Output (Constant)
    // bitmap of keys
    0x95, 0x88,                    //   Report Count () - (REPORT_BYTES-1)*8
    0x75, 0x01,                    //   Report Size (1)
    0x15, 0x00,                    //   Logical Minimum (0)
    0x25, 0x01,                    //   Logical Maximum(1)
    0x05, 0x07,                    //   Usage Page (Key Codes)
    0x19, 0x00,                    //   Usage Minimum (0)
    0x29, 0x87,                    //   Usage Maximum (), - (REPORT_BYTES-1)*8-1
    0x81, 0x02,                    //   Input (Data, Variable, Absolute)
    0xC0,                          // End Collection
];

/// HID Keyboard report descriptor implementing an NKRO keyboard as a bitmap.
///
/// N.B. This is not compatible with the HID boot specification: the report is the modifier byte
/// followed by a key bitmap of 17 bytes.
pub const NKRO_COMPACT_KEYBOARD_REPORT_DESCRIPTOR: [u8; 57] = [
    0x05, 0x01,                    // Usage Page (Generic Desktop)
    0x09, 0x06,                    // Usage (Keyboard)
    0xA1, 0x01,                    // Collection (Application)
    // bitmap of modifiers
    0x75, 0x01,                    //   Report Size (1)
    0x95, 0x08,                    //   Report Count (8)
    0x05, 0x07,                    //   Usage Page (Key Codes)
    0x19, 0xE0,                    //   Usage Minimum (224)
    0x29, 0xE7,                    //   Usage Maximum (231)
    0x15, 0x00,                    //   Logical Minimum (0)
    0x25, 0x01,                    //   Logical Maximum (1)
    0x81, 0x02,                    //   Input (Data, Variable, Absolute), ;Modifier byte
    // LED output report
    0x95, 0x05,                    //   Report Count (5)
    0x75, 0x01,                    //   Report Size (1)
    0x05, 0x08,                    //   Usage Page (LEDs)
    0x19, 0x01,                    //   Usage Minimum (1)
    0x29, 0x05,                    //   Usage Maximum (5)
    0x91, 0x02,                    //   Output (Data, Variable, Absolute)
    0x95, 0x01,                    //   Report Count (1)
    0x75, 0x03,                    //   Report Size (3)
    0x91, 0x03,                    //   Output (Constant)
    // bitmap of keys
    0x95, 0x88,                    //   Report Count () - (REPORT_BYTES-1)*8
    0x75, 0x01,                    //   Report Size (1)
    0x15, 0x00,                    //   Logical Minimum (0)
    0x25, 0x01,                    //   Logical Maximum(1)
    0x05, 0x07,                    //   Usage Page (Key Codes)
    0x19, 0x00,                    //   Usage Minimum (0)
    0x29, 0x87,                    //   Usage Maximum (), - (REPORT_BYTES-1)*8-1
    0x81, 0x02,                    //   Input (Data, Variable, Absolute)
    0xC0,                          // End Collection
];

/// Report descriptor of [`BootKeyboardReportNew`]: the boot keyboard described field by field.
pub const BOOT_KEYBOARD_FIELDS_REPORT_DESCRIPTOR: [u8; 69] = [
    0x05, 0x01,                    // Usage Page (Generic Desktop Ctrls)
    0x09, 0x06,                    // Usage (Keyboard)
    0xA1, 0x01,                    // Collection (Application)
    0x05, 0x07,                    //   Usage Page (Kbrd/Keypad)
    0x19, 0xE0,                    //   Usage Minimum (0xE0)
    0x29, 0xE7,                    //   Usage Maximum (0xE7)
    0x15, 0x00,                    //   Logical Minimum (0)
    0x25, 0x01,                    //   Logical Maximum (1)
    0x75, 0x01,                    //   Report Size (1)
    0x95, 0x08,                    //   Report Count (8)
    0x81, 0x02,                    //   Input (Data,Var,Abs,No Wrap,Linear,Preferred State,No Null Position)
    0x19, 0x00,                    //   Usage Minimum (0x00)
    0x29, 0xFF,                    //   Usage Maximum (0xFF)
    0x26, 0xFF, 0x00,              //   Logical Maximum (255)
    0x75, 0x08,                    //   Report Size (8)
    0x95, 0x01,                    //   Report Count (1)
    0x81, 0x03,                    //   Input (Const,Var,Abs,No Wrap,Linear,Preferred State,No Null Position)
    0x05, 0x08,                    //   Usage Page (LEDs)
    0x19, 0x01,                    //   Usage Minimum (Num Lock)
    0x29, 0x05,                    //   Usage Maximum (Kana)
    0x25, 0x01,                    //   Logical Maximum (1)
    0x75, 0x01,                    //   Report Size (1)
    0x95, 0x05,                    //   Report Count (5)
    0x91, 0x02,                    //   Output (Data,Var,Abs,No Wrap,Linear,Preferred State,No Null Position,Non-volatile)
    0x95, 0x03,                    //   Report Count (3)
    0x91, 0x03,                    //   Output (Const,Var,Abs,No Wrap,Linear,Preferred State,No Null Position,Non-volatile)
    0x05, 0x07,                    //   Usage Page (Kbrd/Keypad)
    0x19, 0x00,                    //   Usage Minimum (0x00)
    0x29, 0xFF,                    //   Usage Maximum (0xFF)
    0x26, 0xFF, 0x00,              //   Logical Maximum (255)
    0x75, 0x08,                    //   Report Size (8)
    0x95, 0x06,                    //   Report Count (6)
    0x81, 0x00,                    //   Input (Data,Array,Abs,No Wrap,Linear,Preferred State,No Null Position)
    0xC0,                          // End Collection
];

/// Report descriptor of [`NKROBootKeyboardReportNew`]: the NKRO boot keyboard described field
/// by field.
pub const NKRO_BOOT_KEYBOARD_FIELDS_REPORT_DESCRIPTOR: [u8; 83] = [
    0x05, 0x01,                    // Usage Page (Generic Desktop Ctrls)
    0x09, 0x06,                    // Usage (Keyboard)
    0xA1, 0x01,                    // Collection (Application)
    0x05, 0x07,                    //   Usage Page (Kbrd/Keypad)
    0x19, 0xE0,                    //   Usage Minimum (0xE0)
    0x29, 0xE7,                    //   Usage Maximum (0xE7)
    0x15, 0x00,                    //   Logical Minimum (0)
    0x25, 0x01,                    //   Logical Maximum (1)
    0x75, 0x01,                    //   Report Size (1)
    0x95, 0x08,                    //   Report Count (8)
    0x81, 0x02,                    //   Input (Data,Var,Abs,No Wrap,Linear,Preferred State,No Null Position)
    0x19, 0x00,                    //   Usage Minimum (0x00)
    0x29, 0xFF,                    //   Usage Maximum (0xFF)
    0x26, 0xFF, 0x00,              //   Logical Maximum (255)
    0x75, 0x08,                    //   Report Size (8)
    0x95, 0x01,                    //   Report Count (1)
    0x81, 0x03,                    //   Input (Const,Var,Abs,No Wrap,Linear,Preferred State,No Null Position)
    0x05, 0x08,                    //   Usage Page (LEDs)
    0x19, 0x01,                    //   Usage Minimum (Num Lock)
    0x29, 0x05,                    //   Usage Maximum (Kana)
    0x25, 0x01,                    //   Logical Maximum (1)
    0x75, 0x01,                    //   Report Size (1)
    0x95, 0x05,                    //   Report Count (5)
    0x91, 0x02,                    //   Output (Data,Var,Abs,No Wrap,Linear,Preferred State,No Null Position,Non-volatile)
    0x95, 0x03,                    //   Report Count (3)
    0x91, 0x03,                    //   Output (Const,Var,Abs,No Wrap,Linear,Preferred State,No Null Position,Non-volatile)
    0x05, 0x07,                    //   Usage Page (Kbrd/Keypad)
    0x19, 0x00,                    //   Usage Minimum (0x00)
    0x29, 0xFF,                    //   Usage Maximum (0xFF)
    0x26, 0xFF, 0x00,              //   Logical Maximum (255)
    0x75, 0x08,                    //   Report Size (8)
    0x95, 0x06,                    //   Report Count (6)
    0x81, 0x00,                    //   Input (Data,Array,Abs,No Wrap,Linear,Preferred State,No Null Position)
    0x05, 0x07,                    //   Usage Page (Kbrd/Keypad)
    0x19, 0x00,                    //   Usage Minimum (0x00)
    0x29, 0x87,                    //   Usage Maximum (0x87)
    0x25, 0x01,                    //   Logical Maximum (1)
    0x75, 0x01,                    //   Report Size (1)
    0x95, 0x88,                    //   Report Count (-120)
    0x81, 0x02,                    //   Input (Data,Var,Abs,No Wrap,Linear,Preferred State,No Null Position)
    0xC0,                          // End Collection
];

/// The boot keyboard report as a list of fields, written with the field encoding of
/// [`crate::marshal`].
#[derive(Clone, Copy, Debug, PartialEq, Eq)]
pub struct BootKeyboardReportNew {
    /// The modifier bits, `LeftControl` lowest.
    pub modifier: u8,
    /// Reserved, sent as it is.
    pub reserved: u8,
    /// The LEDs. They travel from host to device and are not part of the report sent.
    pub leds: u8,
    /// Usage codes of the pressed keys.
    pub keys: [u8; 6],
}

impl BootKeyboardReportNew {
    /// Length of the serialized report in bytes.
    pub const SIZE: usize = 8;

    /// The serialized report: its input fields in order, each at its own width. `leds`
    /// is an output field and left out.
    pub open spec fn serialized(self) -> Seq<u8> {
        seq![self.modifier, self.reserved] + self.keys@
    }

    /// The report descriptor.
    pub fn desc() -> (descriptor: &'static [u8])
        ensures
            descriptor@ == BOOT_KEYBOARD_FIELDS_REPORT_DESCRIPTOR@,
    {
        &BOOT_KEYBOARD_FIELDS_REPORT_DESCRIPTOR
    }

    /// Writes the report to the front of `buf` and returns the number of bytes written.
    ///
    /// Fails with `EndOfStream` exactly when `buf` is shorter than the report; `buf` is
    /// then untouched.
    pub fn serialize(&self, buf: &mut [u8]) -> (result: Result<usize, MarshalError>)
        ensures
            result == if old(buf)@.len() < 8 {
                Err::<usize, MarshalError>(MarshalError::EndOfStream)
            } else {
                Ok::<usize, MarshalError>(8)
            },
            final(buf)@ == if old(buf)@.len() < 8 {
                old(buf)@
            } else {
                self.serialized() + old(buf)@.skip(8)
            },
    {
        if buf.len() < 8 {
            return Err(MarshalError::EndOfStream);
        }
        let at = put_u8(buf, 0, self.modifier)?;
        let at = put_u8(buf, at, self.reserved)?;
        let at = put_bytes(buf, at, self.keys.as_slice())?;
        assert(buf@ =~= self.serialized() + old(buf)@.skip(8));
        Ok(at)
    }
}

impl Default for BootKeyboardReportNew {
    fn default() -> (report: BootKeyboardReportNew)
        ensures
            report.serialized() == Seq::new(8, |i: int| 0u8),
    {
        let report = BootKeyboardReportNew { modifier: 0, reserved: 0, leds: 0, keys: [0u8;6] };
        assert(report.serialized() =~= Seq::new(8, |i: int| 0u8));
        report
    }
}

/// The NKRO boot keyboard report as a list of fields, written with the field encoding
/// of [`crate::marshal`].
#[derive(Clone, Copy, Debug, PartialEq, Eq)]
pub struct NKROBootKeyboardReportNew {
    /// The modifier bits, `LeftControl` lowest.
    pub modifier: u8,
    /// Reserved, sent as it is.
    pub reserved: u8,
    /// The LEDs. They travel from host to device and are not part of the report sent.
    pub leds: u8,
    /// Usage codes of the pressed keys, for the boot protocol.
    pub boot_keys: [u8; 6],
    /// The key bitmap.
    pub nkro_keys: [u8; 17],
}

impl NKROBootKeyboardReportNew {
    /// Length of the serialized report in bytes.
    pub const SIZE: usize = 25;

    /// The serialized report: its input fields in order, each at its own width. `leds`
    /// is an output field and left out.
    pub open spec fn serialized(self) -> Seq<u8> {
        seq![self.modifier, self.reserved] + self.boot_keys@ + self.nkro_keys@
    }

    /// The report descriptor.
    pub fn desc() -> (descriptor: &'static [u8])
        ensures
            descriptor@ == NKRO_BOOT_KEYBOARD_FIELDS_REPORT_DESCRIPTOR@,
    {
        &NKRO_BOOT_KEYBOARD_FIELDS_REPORT_DESCRIPTOR
    }

    /// Writes the report to the front of `buf` and returns the number of bytes written.
    ///
    /// Fails with `EndOfStream` exactly when `buf` is shorter than the report; `buf` is
    /// then untouched.
    pub fn serialize(&self, buf: &mut [u8]) -> (result: Result<usize, MarshalError>)
        ensures
            result == if old(buf)@.len() < 25 {
                Err::<usize, MarshalError>(MarshalError::EndOfStream)
            } else {
                Ok::<usize, MarshalError>(25)
            },
            final(buf)@ == if old(buf)@.len() < 25 {
                old(buf)@
            } else {
                self.serialized() + old(buf)@.skip(25)
            },
    {
        if buf.len() < 25 {
            return Err(MarshalError::EndOfStream);
        }
        let at = put_u8(buf, 0, self.modifier)?;
        let at = put_u8(buf, at, self.reserved)?;
        let at = put_bytes(buf, at, self.boot_keys.as_slice())?;
        let at = put_bytes(buf, at, self.nkro_keys.as_slice())?;
        assert(buf@ =~= self.serialized() + old(buf)@.skip(25));
        Ok(at)
    }
}

impl Default for NKROBootKeyboardReportNew {
    fn default() -> (report: NKROBootKeyboardReportNew)
        ensures
            report.serialized() == Seq::new(25, |i: int| 0u8),
    {
        let report = NKROBootKeyboardReportNew {
            modifier: 0,
            reserved: 0,
            leds: 0,
            boot_keys: [0u8;6],
            nkro_keys: [0u8;17],
        };
        assert(report.serialized() =~= Seq::new(25, |i: int| 0u8));
        report
    }
}

/// What `read_report` of a keyboard answers when the raw interface answered `read` and
/// left `byte` in the one-byte buffer: a failed read is passed on, a read report is
/// decoded.
pub open spec fn leds_read(read: Result<usize, UsbError>, byte: u8) -> Result<
    KeyboardLedsReport,
    UsbError,
> {
    match read {
        Err(error) => Err(error),
        Ok(_) => match KeyboardLedsReport::unpacked(seq![byte]) {
            Ok(report) => Ok(report),
            Err(_) => Err(UsbError::ParseError),
        },
    }
}

/// What `write_report` of a device answers when the interface underneath answered
/// `written`: the number of bytes is dropped, the error kept.
pub open spec fn write_outcome(written: Result<usize, UsbHidError>) -> Result<(), UsbHidError> {
    match written {
        Ok(_) => Ok(()),
        Err(error) => Err(error),
    }
}

/// The settings of a keyboard interface that differ between the two keyboards: the
/// report descriptor, the name and the size of the IN endpoint. Both are boot
/// keyboards with an idle period of 500 ms, an IN endpoint polled every 10 ms and an
/// 8-byte OUT endpoint polled every 100 ms.
pub open spec fn keyboard_config(
    report_descriptor: &'static [u8],
    description: &'static str,
    in_size: UsbPacketSize,
) -> RawInterfaceConfig {
    RawInterfaceConfig {
        report_descriptor,
        description: Some(description),
        protocol: InterfaceProtocol::Keyboard,
        idle_default: 125,
        out_endpoint: Some(
            EndpointConfig { poll_interval: 100, max_packet_size: UsbPacketSize::Bytes8 },
        ),
        in_endpoint: EndpointConfig { poll_interval: 10, max_packet_size: in_size },
    }
}

/// Interface implementing the HID boot keyboard specification
///
/// **Note:** This is a managed interfaces that support HID idle, [BootKeyboardInterface::tick()] must be called every 1ms/at 1kHz.
#[derive(Debug)]
pub struct BootKeyboardInterface {
    inner: ManagedInterface,
}

impl View for BootKeyboardInterface {
    type V = ManagedInterfaceView;

    closed spec fn view(&self) -> ManagedInterfaceView {
        self.inner@
    }
}

impl BootKeyboardInterface {
    /// Wraps an allocated managed interface.
    pub fn new(interface: ManagedInterface) -> (keyboard: BootKeyboardInterface)
        ensures
            keyboard@ == interface@,
    {
        BootKeyboardInterface { inner: interface }
    }

    /// The raw interface underneath.
    pub fn raw(&self) -> (raw: &RawInterface)
        ensures
            raw@ == self@.raw,
    {
        self.inner.raw()
    }

    /// The raw interface underneath, for the dispatcher to update.
    pub fn raw_mut(&mut self) -> (raw: &mut RawInterface)
        ensures
            raw@ == old(self)@.raw,
            final(self)@ == (ManagedInterfaceView { raw: final(raw)@, ..old(self)@ }),
    {
        self.inner.raw_mut()
    }

    /// Call every 1ms / at 1 KHz
    pub fn tick(&mut self) -> (result: Result<(), UsbHidError>)
        ensures
            result == old(self)@.tick_result(),
            final(self)@ == old(self)@.tick(),
    {
        self.inner.tick()
    }

    /// Reports the pressed keys `keys` to the host.
    ///
    /// The report is that of [`BootKeyboardReport::new`]. It is handed to the IN
    /// endpoint, remembered for the idle timer and restarts the idle period. Fails with
    /// `WouldBlock` while the endpoint still holds an earlier report; nothing is queued
    /// or remembered then, and the keys have to be written again.
    pub fn write_report(&mut self, keys: &[Keyboard]) -> (result: Result<(), UsbHidError>)
        ensures
            result == write_outcome(
                old(self)@.write_result(BootKeyboardReport::of_keys(keys@).packed()),
            ),
            final(self)@ == old(self)@.write_report(BootKeyboardReport::of_keys(keys@).packed()),
    {
        let report = BootKeyboardReport::new(keys);
        let data = match report.pack() {
            Ok(data) => data,
            Err(_) => {
                return Err(UsbHidError::SerializationError);
            },
        };
        match self.inner.write_report(data.as_slice()) {
            Ok(_) => Ok(()),
            Err(error) => Err(error),
        }
    }

    /// Reads the LED report the host sent last.
    ///
    /// Fails as [`RawInterface::read_report`] does for a buffer of one byte.
    pub fn read_report(&mut self) -> (result: Result<KeyboardLedsReport, UsbError>)
        ensures
            result == leds_read(
                old(self)@.raw.read_result(1),
                old(self)@.raw.read_into(seq![0u8])[0],
            ),
            final(self)@ == (ManagedInterfaceView {
                raw: old(self)@.raw.read_report(1),
                ..old(self)@
            }),
    {
        let mut data = [0u8];
        match self.inner.read_report(&mut data) {
            Err(error) => Err(error),
            Ok(_) => match KeyboardLedsReport::unpack(&data) {
                Ok(report) => Ok(report),
                Err(_) => Err(UsbError::ParseError),
            },
        }
    }

    /// The settings of a boot keyboard, see [`keyboard_config`].
    pub fn default_config() -> (config: WrappedInterfaceConfig)
        ensures
            config.kind == InterfaceKind::BootKeyboard,
            config.inner.report_descriptor@ == BOOT_KEYBOARD_REPORT_DESCRIPTOR@,
            config.inner == keyboard_config(
                config.inner.report_descriptor,
                "Keyboard",
                UsbPacketSize::Bytes8,
            ),
    {
        let builder = RawInterfaceBuilder::new(&BOOT_KEYBOARD_REPORT_DESCRIPTOR).boot_device(
            InterfaceProtocol::Keyboard,
        ).description("Keyboard").idle_default(500).unwrap().in_endpoint(
            UsbPacketSize::Bytes8,
            10,
        ).unwrap().with_out_endpoint(UsbPacketSize::Bytes8, 100).unwrap();
        WrappedInterfaceConfig::new(InterfaceKind::BootKeyboard, builder.build())
    }
}

/// Interface implementing a NKRO keyboard compatible with the HID boot keyboard specification
///
/// **Note:** This is a managed interfaces that support HID idle, [NKROBootKeyboardInterface::tick()] must be called every 1ms/ at 1kHz.
#[derive(Debug)]
pub struct NKROBootKeyboardInterface {
    inner: ManagedInterface,
}

impl View for NKROBootKeyboardInterface {
    type V = ManagedInterfaceView;

    closed spec fn view(&self) -> ManagedInterfaceView {
        self.inner@
    }
}

impl NKROBootKeyboardInterface {
    /// Wraps an allocated managed interface.
    pub fn new(interface: ManagedInterface) -> (keyboard: NKROBootKeyboardInterface)
        ensures
            keyboard@ == interface@,
    {
        NKROBootKeyboardInterface { inner: interface }
    }

    /// The raw interface underneath.
    pub fn raw(&self) -> (raw: &RawInterface)
        ensures
            raw@ == self@.raw,
    {
        self.inner.raw()
    }

    /// The raw interface underneath, for the dispatcher to update.
    pub fn raw_mut(&mut self) -> (raw: &mut RawInterface)
        ensures
            raw@ == old(self)@.raw,
            final(self)@ == (ManagedInterfaceView { raw: final(raw)@, ..old(self)@ }),
    {
        self.inner.raw_mut()
    }

    /// Call every 1ms / at 1 KHz
    pub fn tick(&mut self) -> (result: Result<(), UsbHidError>)
        ensures
            result == old(self)@.tick_result(),
            final(self)@ == old(self)@.tick(),
    {
        self.inner.tick()
    }

    /// Reports the pressed keys `keys` to the host.
    ///
    /// The report is that of [`NKROBootKeyboardReport::new`]. It is handed to the IN
    /// endpoint, remembered for the idle timer and restarts the idle period. Fails with
    /// `WouldBlock` while the endpoint still holds an earlier report; nothing is queued
    /// or remembered then, and the keys have to be written again.
    pub fn write_report(&mut self, keys: &[Keyboard]) -> (result: Result<(), UsbHidError>)
        ensures
            result == write_outcome(
                old(self)@.write_result(NKROBootKeyboardReport::of_keys(keys@).packed()),
            ),
            final(self)@ == old(self)@.write_report(
                NKROBootKeyboardReport::of_keys(keys@).packed(),
            ),
    {
        let report = NKROBootKeyboardReport::new(keys);
        let data = match report.pack() {
            Ok(data) => data,
            Err(_) => {
                return Err(UsbHidError::SerializationError);
            },
        };
        match self.inner.write_report(data.as_slice()) {
            Ok(_) => Ok(()),
            Err(error) => Err(error),
        }
    }

    /// Reads the LED report the host sent last.
    ///
    /// Fails as [`RawInterface::read_report`] does for a buffer of one byte.
    pub fn read_report(&mut self) -> (result: Result<KeyboardLedsReport, UsbError>)
        ensures
            result == leds_read(
                old(self)@.raw.read_result(1),
                old(self)@.raw.read_into(seq![0u8])[0],
            ),
            final(self)@ == (ManagedInterfaceView {
                raw: old(self)@.raw.read_report(1),
                ..old(self)@
            }),
    {
        let mut data = [0u8];
        match self.inner.read_report(&mut data) {
            Err(error) => Err(error),
            Ok(_) => match KeyboardLedsReport::unpack(&data) {
                Ok(report) => Ok(report),
                Err(_) => Err(UsbError::ParseError),
            },
        }
    }

    /// The settings of an NKRO boot keyboard, see [`keyboard_config`].
    pub fn default_config() -> (config: WrappedInterfaceConfig)
        ensures
            config.kind == InterfaceKind::NkroBootKeyboard,
            config.inner.report_descriptor@ == NKRO_BOOT_KEYBOARD_REPORT_DESCRIPTOR@,
            config.inner == keyboard_config(
                config.inner.report_descriptor,
                "NKRO Keyboard",
                UsbPacketSize::Bytes32,
            ),
    {
        let builder = RawInterfaceBuilder::new(&NKRO_BOOT_KEYBOARD_REPORT_DESCRIPTOR).description(
            "NKRO Keyboard",
        ).boot_device(InterfaceProtocol::Keyboard).idle_default(500).unwrap().in_endpoint(
            UsbPacketSize::Bytes32,
            10,
        ).unwrap().with_out_endpoint(UsbPacketSize::Bytes8, 100).unwrap();
        WrappedInterfaceConfig::new(InterfaceKind::NkroBootKeyboard, builder.build())
    }
}

} // verus!
