//! The Simple Text Input protocol: the minimum input the ConsoleIn device
//! supports.
//!
//! In firmware memory the protocol is a table of two function pointers (reset
//! and read-keystroke) followed by the event to wait on for a key;
//! [`lemma_simple_text_input_layout`] proves that table's byte layout. The
//! structure here models the device behind the table: the queue of pending
//! keystrokes, in arrival order, which the UEFI Specification requires a
//! conformant implementation to maintain. Each operation's contract states
//! the exact status code and state change the specification prescribes; on
//! this simulated device the hardware itself never fails, so the
//! device-error statuses the specification also allows never occur.

use vstd::prelude::*;

use crate::layout::spec_field_offset;
use crate::layout::spec_fields_bounded;
use crate::layout::spec_fields_of;
use crate::layout::spec_struct_size;
use crate::layout::FieldDesc;
use crate::status::EFI_NOT_READY;
use crate::status::EFI_SUCCESS;
use crate::types::BOOLEAN;
use crate::types::CHAR16;
use crate::types::EFI_EVENT;
use crate::types::EFI_STATUS;
use crate::types::UINT16;

verus! {

/// A keystroke from the input device.
#[derive(Clone, Copy, PartialEq, Eq, Structural, Debug)]
pub struct EFI_INPUT_KEY {
    /// The EFI scan code.
    pub ScanCode: UINT16,
    /// The actual printable character, or zero if the key does not represent
    /// a printable character (control key, function key, and so on).
    pub UnicodeChar: CHAR16,
}

/// Model of a conformant ConsoleIn device: the keystrokes pending in its
/// input queue, oldest first, and the event firmware signals when a key
/// becomes available.
pub struct EFI_SIMPLE_TEXT_INPUT_PROTOCOL {
    keys: Vec<EFI_INPUT_KEY>,
    /// Event to use with the boot services' wait-for-event call to wait for a
    /// key to be available.
    pub WaitForKey: EFI_EVENT,
}

impl EFI_SIMPLE_TEXT_INPUT_PROTOCOL {
    /// The keystrokes pending in the input queue, oldest first.
    pub closed spec fn pending(self) -> Seq<EFI_INPUT_KEY> {
        self.keys@
    }

    /// The event firmware signals when a key becomes available.
    pub closed spec fn spec_wait_for_key(self) -> EFI_EVENT {
        self.WaitForKey
    }

    /// The event firmware signals when a key becomes available.
    pub fn wait_for_key(&self) -> (r: EFI_EVENT)
        ensures
            r == self.spec_wait_for_key(),
    {
        self.WaitForKey
    }

    /// A fresh device with an empty input queue.
    pub fn new(wait_for_key: EFI_EVENT) -> (dev: Self)
        ensures
            dev.pending() == Seq::<EFI_INPUT_KEY>::empty(),
            dev.spec_wait_for_key() == wait_for_key,
    {
        EFI_SIMPLE_TEXT_INPUT_PROTOCOL { keys: Vec::new(), WaitForKey: wait_for_key }
    }

    /// A keystroke arrives from the keyboard: firmware appends it to the
    /// input queue.
    pub fn key_arrives(&mut self, key: EFI_INPUT_KEY)
        ensures
            final(self).pending() == old(self).pending().push(key),
            final(self).spec_wait_for_key() == old(self).spec_wait_for_key(),
    {
        self.keys.push(key);
    }

    /// Resets the input device hardware: clears any input queue resident in
    /// memory and puts the input stream in a known empty state. When
    /// `ExtendedVerification` is TRUE the firmware may take longer to verify
    /// the device; the outcome is the same. Returns `EFI_SUCCESS`; the
    /// specification allows `EFI_DEVICE_ERROR` only for hardware that fails
    /// verification, which this simulated device never does.
    pub fn Reset(&mut self, ExtendedVerification: BOOLEAN) -> (r: EFI_STATUS)
        ensures
            r == EFI_SUCCESS,
            final(self).pending() == Seq::<EFI_INPUT_KEY>::empty(),
            final(self).spec_wait_for_key() == old(self).spec_wait_for_key(),
    {
        self.keys.clear();
        EFI_SUCCESS
    }

    /// Reads the next keystroke from the input device: a non-blocking poll,
    /// not a wait. With nothing queued it returns `EFI_NOT_READY` and leaves
    /// `Key` untouched; otherwise it fills `Key` with the oldest pending
    /// keystroke, removes it from the queue and returns `EFI_SUCCESS`.
    pub fn ReadKeyStroke(&mut self, Key: &mut EFI_INPUT_KEY) -> (r: EFI_STATUS)
        ensures
            old(self).pending().len() == 0 ==> {
                &&& r == EFI_NOT_READY
                &&& *final(Key) == *old(Key)
                &&& final(self).pending() == old(self).pending()
            },
            old(self).pending().len() > 0 ==> {
                &&& r == EFI_SUCCESS
                &&& *final(Key) == old(self).pending()[0]
                &&& final(self).pending() == old(self).pending().drop_first()
            },
            final(self).spec_wait_for_key() == old(self).spec_wait_for_key(),
    {
        if self.keys.len() == 0 {
            EFI_NOT_READY
        } else {
            let k = self.keys.remove(0);
            *Key = k;
            EFI_SUCCESS
        }
    }
}

/// Field sizes and alignments of the protocol's function-pointer table on a
/// 64-bit target, in declaration order: Reset, ReadKeyStroke, WaitForKey.
pub open spec fn spec_simple_text_input_fields() -> Seq<(int, int)> {
    seq![(8int, 8int), (8int, 8int), (8int, 8int)]
}

/// Field sizes and alignments of [`EFI_INPUT_KEY`], in declaration order:
/// ScanCode, UnicodeChar.
pub open spec fn spec_input_key_fields() -> Seq<(int, int)> {
    seq![(2int, 2int), (2int, 2int)]
}

/// The protocol table lies out as documented: the reset pointer at offset 0,
/// the read-keystroke pointer at 8, the wait-for-key event at 16, 24 bytes in
/// all; and the keystroke pair is the scan code at 0 and the character at 2,
/// 4 bytes in all.
pub proof fn lemma_simple_text_input_layout()
    ensures
        spec_fields_bounded(spec_simple_text_input_fields()),
        spec_field_offset(spec_simple_text_input_fields(), 0) == 0,
        spec_field_offset(spec_simple_text_input_fields(), 1) == 8,
        spec_field_offset(spec_simple_text_input_fields(), 2) == 16,
        spec_struct_size(spec_simple_text_input_fields(), 8) == 24,
        spec_fields_bounded(spec_input_key_fields()),
        spec_field_offset(spec_input_key_fields(), 0) == 0,
        spec_field_offset(spec_input_key_fields(), 1) == 2,
        spec_struct_size(spec_input_key_fields(), 2) == 4,
{
    let fields = spec_simple_text_input_fields();
    assert(fields[0] == (8int, 8int));
    assert(fields[1] == (8int, 8int));
    assert(fields[2] == (8int, 8int));
    assert(spec_field_offset(fields, 0) == 0);
    assert(spec_field_offset(fields, 1) == 8);
    assert(spec_field_offset(fields, 2) == 16);
    let key_fields = spec_input_key_fields();
    assert(key_fields[0] == (2int, 2int));
    assert(key_fields[1] == (2int, 2int));
    assert(spec_field_offset(key_fields, 0) == 0);
    assert(spec_field_offset(key_fields, 1) == 2);
}

/// The protocol table's field descriptors, for computing its layout at run
/// time.
pub fn simple_text_input_field_descs() -> (r: Vec<FieldDesc>)
    ensures
        spec_fields_of(r@) == spec_simple_text_input_fields(),
{
    let mut v: Vec<FieldDesc> = Vec::new();
    v.push(FieldDesc { size: 8, align: 8 });
    v.push(FieldDesc { size: 8, align: 8 });
    v.push(FieldDesc { size: 8, align: 8 });
    proof {
        assert(spec_fields_of(v@) =~= spec_simple_text_input_fields());
    }
    v
}

/// The keystroke pair's field descriptors, for computing its layout at run
/// time.
pub fn input_key_field_descs() -> (r: Vec<FieldDesc>)
    ensures
        spec_fields_of(r@) == spec_input_key_fields(),
{
    let mut v: Vec<FieldDesc> = Vec::new();
    v.push(FieldDesc { size: 2, align: 2 });
    v.push(FieldDesc { size: 2, align: 2 });
    proof {
        assert(spec_fields_of(v@) =~= spec_input_key_fields());
    }
    v
}

} // verus!
