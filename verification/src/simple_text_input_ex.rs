//! The Simple Text Input Ex protocol: extended console input with modifier and
//! toggle key state and asynchronous keystroke notification.
//!
//! In firmware memory the protocol is a table of five function pointers;
//! [`lemma_simple_text_input_ex_layout`] proves that table's byte layout and
//! the layout of the keystroke-state structures it traffics in. The structure
//! here models the device behind the table: the queue of pending keystroke
//! records, the toggle state last set, and the registered keystroke
//! notifications, each under the unique handle the registration call returned.
//! The notification callbacks themselves are firmware-side code; the model
//! records each registration's trigger and handle, which is everything the
//! status contracts depend on.

use vstd::prelude::*;

use crate::layout::spec_field_offset;
use crate::layout::spec_fields_bounded;
use crate::layout::spec_fields_of;
use crate::layout::spec_struct_size;
use crate::layout::FieldDesc;
use crate::simple_text_input::EFI_INPUT_KEY;
use crate::status::EFI_INVALID_PARAMETER;
use crate::status::EFI_NOT_READY;
use crate::status::EFI_OUT_OF_RESOURCES;
use crate::status::EFI_SUCCESS;
use crate::status::EFI_UNSUPPORTED;
use crate::types::BOOLEAN;
use crate::types::EFI_HANDLE;
use crate::types::EFI_STATUS;
use crate::types::UINT32;
use crate::types::UINT8;

verus! {

/// Current internal state of various toggled attributes.
pub type EFI_KEY_TOGGLE_STATE = UINT8;

/// Current state of various toggled attributes as well as input modifier
/// values.
#[derive(Clone, Copy, PartialEq, Eq, Structural, Debug)]
pub struct EFI_KEY_STATE {
    /// The currently pressed shift modifiers. The value is valid only if the
    /// high order bit ([`EFI_SHIFT_STATE_VALID`]) is set.
    pub KeyShiftState: UINT32,
    /// The current internal state of various toggled attributes. The value is
    /// valid only if the high order bit ([`EFI_TOGGLE_STATE_VALID`]) is set.
    pub KeyToggleState: EFI_KEY_TOGGLE_STATE,
}

/// Keystroke state data for the key that was pressed.
#[derive(Clone, Copy, PartialEq, Eq, Structural, Debug)]
pub struct EFI_KEY_DATA {
    /// The EFI scan code and Unicode value returned from the input device.
    pub Key: EFI_INPUT_KEY,
    /// The current state of various toggled attributes as well as input
    /// modifier values.
    pub KeyState: EFI_KEY_STATE,
}

pub const EFI_SHIFT_STATE_VALID: UINT32 = 0x80000000;

pub const EFI_RIGHT_SHIFT_PRESSED: UINT32 = 0x00000001;

pub const EFI_LEFT_SHIFT_PRESSED: UINT32 = 0x00000002;

pub const EFI_RIGHT_CONTROL_PRESSED: UINT32 = 0x00000004;

pub const EFI_LEFT_CONTROL_PRESSED: UINT32 = 0x00000008;

pub const EFI_RIGHT_ALT_PRESSED: UINT32 = 0x00000010;

pub const EFI_LEFT_ALT_PRESSED: UINT32 = 0x00000020;

pub const EFI_RIGHT_LOGO_PRESSED: UINT32 = 0x00000040;

pub const EFI_LEFT_LOGO_PRESSED: UINT32 = 0x00000080;

pub const EFI_MENU_KEY_PRESSED: UINT32 = 0x00000100;

pub const EFI_SYS_REQ_PRESSED: UINT32 = 0x00000200;

pub const EFI_TOGGLE_STATE_VALID: EFI_KEY_TOGGLE_STATE = 0x80;

pub const EFI_KEY_STATE_EXPOSED: EFI_KEY_TOGGLE_STATE = 0x40;

pub const EFI_SCROLL_LOCK_ACTIVE: EFI_KEY_TOGGLE_STATE = 0x01;

pub const EFI_NUM_LOCK_ACTIVE: EFI_KEY_TOGGLE_STATE = 0x02;

pub const EFI_CAPS_LOCK_ACTIVE: EFI_KEY_TOGGLE_STATE = 0x04;

/// A toggle state the device can be set to: the valid bit is on and no bit
/// outside the defined toggle bits is.
pub open spec fn spec_toggle_state_settable(t: EFI_KEY_TOGGLE_STATE) -> bool {
    &&& t & EFI_TOGGLE_STATE_VALID != 0
    &&& t & (EFI_TOGGLE_STATE_VALID | EFI_KEY_STATE_EXPOSED | EFI_SCROLL_LOCK_ACTIVE
        | EFI_NUM_LOCK_ACTIVE | EFI_CAPS_LOCK_ACTIVE) == t
}

/// Model of a conformant ConsoleIn device behind the extended protocol: the
/// pending keystroke records, the toggle state last set, and the registered
/// keystroke notifications with the handles that name them.
pub struct EFI_SIMPLE_TEXT_INPUT_EX_PROTOCOL {
    keys: Vec<EFI_KEY_DATA>,
    toggle: EFI_KEY_TOGGLE_STATE,
    notifies: Vec<(EFI_HANDLE, EFI_KEY_DATA)>,
    next_handle: EFI_HANDLE,
}

impl EFI_SIMPLE_TEXT_INPUT_EX_PROTOCOL {
    /// The keystroke records pending in the input queue, oldest first.
    pub closed spec fn pending(self) -> Seq<EFI_KEY_DATA> {
        self.keys@
    }

    /// The toggle state last set through [`Self::SetState`].
    pub closed spec fn toggle_state(self) -> EFI_KEY_TOGGLE_STATE {
        self.toggle
    }

    /// The registered notifications: each handle the register call handed out
    /// together with the keystroke that triggers it, in registration order.
    pub closed spec fn registrations(self) -> Seq<(EFI_HANDLE, EFI_KEY_DATA)> {
        self.notifies@
    }

    /// The handle the next successful registration will return.
    pub closed spec fn spec_next_handle(self) -> EFI_HANDLE {
        self.next_handle
    }

    /// A handle names a live registration.
    pub open spec fn spec_registered(self, h: EFI_HANDLE) -> bool {
        exists|i: int|
            0 <= i < self.registrations().len() && (#[trigger] self.registrations()[i]).0 == h
    }

    /// The device's registration bookkeeping is sound: handles were handed
    /// out below the next one, no two registrations share a handle, and the
    /// zero handle is never handed out.
    pub closed spec fn wf(self) -> bool {
        &&& self.next_handle >= 1
        &&& forall|i: int|
            0 <= i < self.notifies@.len() ==> 0 < (#[trigger] self.notifies@[i]).0
                < self.next_handle
        &&& forall|i: int, j: int|
            0 <= i < j < self.notifies@.len() ==> #[trigger] self.notifies@[i].0
                != #[trigger] self.notifies@[j].0
    }

    /// A fresh device: empty queue, all toggles off, no registrations.
    pub fn new() -> (dev: Self)
        ensures
            dev.wf(),
            dev.pending() == Seq::<EFI_KEY_DATA>::empty(),
            dev.toggle_state() == 0,
            dev.registrations() == Seq::<(EFI_HANDLE, EFI_KEY_DATA)>::empty(),
    {
        EFI_SIMPLE_TEXT_INPUT_EX_PROTOCOL {
            keys: Vec::new(),
            toggle: 0,
            notifies: Vec::new(),
            next_handle: 1,
        }
    }

    /// A keystroke arrives from the keyboard: firmware appends its record to
    /// the input queue.
    pub fn key_arrives(&mut self, key_data: EFI_KEY_DATA)
        ensures
            final(self).pending() == old(self).pending().push(key_data),
            final(self).toggle_state() == old(self).toggle_state(),
            final(self).registrations() == old(self).registrations(),
            old(self).wf() ==> final(self).wf(),
    {
        self.keys.push(key_data);
    }

    /// Resets the input device hardware: clears the input queue and puts the
    /// input stream in a known empty state. Registered notifications and the
    /// toggle state survive a reset. When `ExtendedVerification` is TRUE the
    /// firmware may take longer to verify the device; the outcome is the
    /// same. Returns `EFI_SUCCESS`; the specification allows
    /// `EFI_DEVICE_ERROR` only for hardware that fails verification, which
    /// this simulated device never does.
    pub fn Reset(&mut self, ExtendedVerification: BOOLEAN) -> (r: EFI_STATUS)
        ensures
            r == EFI_SUCCESS,
            final(self).pending() == Seq::<EFI_KEY_DATA>::empty(),
            final(self).toggle_state() == old(self).toggle_state(),
            final(self).registrations() == old(self).registrations(),
            old(self).wf() ==> final(self).wf(),
    {
        self.keys.clear();
        EFI_SUCCESS
    }

    /// Reads the next keystroke and its state from the input device: a
    /// non-blocking poll, not a wait. With nothing queued it returns
    /// `EFI_NOT_READY` and leaves `KeyData` untouched; otherwise it fills
    /// `KeyData` with the oldest pending record, removes it from the queue
    /// and returns `EFI_SUCCESS`.
    pub fn ReadKeyStrokeEx(&mut self, KeyData: &mut EFI_KEY_DATA) -> (r: EFI_STATUS)
        ensures
            old(self).pending().len() == 0 ==> {
                &&& r == EFI_NOT_READY
                &&& *final(KeyData) == *old(KeyData)
                &&& final(self).pending() == old(self).pending()
            },
            old(self).pending().len() > 0 ==> {
                &&& r == EFI_SUCCESS
                &&& *final(KeyData) == old(self).pending()[0]
                &&& final(self).pending() == old(self).pending().drop_first()
            },
            final(self).toggle_state() == old(self).toggle_state(),
            final(self).registrations() == old(self).registrations(),
            old(self).wf() ==> final(self).wf(),
    {
        if self.keys.len() == 0 {
            EFI_NOT_READY
        } else {
            let k = self.keys.remove(0);
            *KeyData = k;
            EFI_SUCCESS
        }
    }

    /// Adjusts the state settings of the input device. A request with the
    /// valid bit on and only defined toggle bits is honoured and returns
    /// `EFI_SUCCESS`; any other request is one the device does not support,
    /// and returns `EFI_UNSUPPORTED` leaving the state as it was.
    pub fn SetState(&mut self, KeyToggleState: EFI_KEY_TOGGLE_STATE) -> (r: EFI_STATUS)
        ensures
            spec_toggle_state_settable(KeyToggleState) ==> {
                &&& r == EFI_SUCCESS
                &&& final(self).toggle_state() == KeyToggleState
            },
            !spec_toggle_state_settable(KeyToggleState) ==> {
                &&& r == EFI_UNSUPPORTED
                &&& final(self).toggle_state() == old(self).toggle_state()
            },
            final(self).pending() == old(self).pending(),
            final(self).registrations() == old(self).registrations(),
            old(self).wf() ==> final(self).wf(),
    {
        if KeyToggleState & EFI_TOGGLE_STATE_VALID != 0 && KeyToggleState & (EFI_TOGGLE_STATE_VALID
            | EFI_KEY_STATE_EXPOSED | EFI_SCROLL_LOCK_ACTIVE | EFI_NUM_LOCK_ACTIVE
            | EFI_CAPS_LOCK_ACTIVE) == KeyToggleState {
            self.toggle = KeyToggleState;
            EFI_SUCCESS
        } else {
            EFI_UNSUPPORTED
        }
    }

    /// Registers a notification for a particular keystroke. On success the
    /// unique handle assigned to the registration is written to
    /// `NotifyHandle`: a handle no earlier registration on this device ever
    /// received. The device runs out of handle space only after the native
    /// range is exhausted, and then returns `EFI_OUT_OF_RESOURCES` unchanged.
    pub fn RegisterKeyNotify(&mut self, KeyData: EFI_KEY_DATA, NotifyHandle: &mut EFI_HANDLE) -> (r:
        EFI_STATUS)
        requires
            old(self).wf(),
        ensures
            final(self).wf(),
            old(self).spec_next_handle() < usize::MAX ==> {
                &&& r == EFI_SUCCESS
                &&& !old(self).spec_registered(*final(NotifyHandle))
                &&& final(self).registrations() == old(self).registrations().push(
                    (*final(NotifyHandle), KeyData),
                )
                &&& final(self).spec_registered(*final(NotifyHandle))
            },
            old(self).spec_next_handle() == usize::MAX ==> {
                &&& r == EFI_OUT_OF_RESOURCES
                &&& *final(NotifyHandle) == *old(NotifyHandle)
                &&& final(self).registrations() == old(self).registrations()
            },
            final(self).pending() == old(self).pending(),
            final(self).toggle_state() == old(self).toggle_state(),
    {
        if self.next_handle == usize::MAX {
            return EFI_OUT_OF_RESOURCES;
        }
        let h = self.next_handle;
        proof {
            assert(!old(self).spec_registered(h));
        }
        self.notifies.push((h, KeyData));
        self.next_handle = self.next_handle + 1;
        *NotifyHandle = h;
        proof {
            assert(self.notifies@ == old(self).notifies@.push((h, KeyData)));
            assert(self.registrations()[old(self).registrations().len() as int] == (h, KeyData));
            assert forall|i: int| 0 <= i < self.notifies@.len() implies 0 < (
            #[trigger] self.notifies@[i]).0 < self.next_handle by {
                if i < old(self).notifies@.len() {
                    assert(self.notifies@[i] == old(self).notifies@[i]);
                }
            }
            assert(self.spec_registered(h));
        }
        EFI_SUCCESS
    }

    /// Removes a previously registered notification. A handle that names a
    /// live registration is removed and the call returns `EFI_SUCCESS`; any
    /// other handle value — one never returned by a register call on this
    /// device, or one already unregistered — is invalid, and the call returns
    /// `EFI_INVALID_PARAMETER` leaving the device unchanged.
    pub fn UnregisterKeyNotify(&mut self, NotificationHandle: EFI_HANDLE) -> (r: EFI_STATUS)
        requires
            old(self).wf(),
        ensures
            final(self).wf(),
            !old(self).spec_registered(NotificationHandle) ==> {
                &&& r == EFI_INVALID_PARAMETER
                &&& final(self).registrations() == old(self).registrations()
            },
            old(self).spec_registered(NotificationHandle) ==> {
                &&& r == EFI_SUCCESS
                &&& exists|i: int|
                    {
                        &&& 0 <= i < old(self).registrations().len()
                        &&& (#[trigger] old(self).registrations()[i]).0 == NotificationHandle
                        &&& final(self).registrations() == old(self).registrations().remove(i)
                    }
                &&& !final(self).spec_registered(NotificationHandle)
            },
            final(self).pending() == old(self).pending(),
            final(self).toggle_state() == old(self).toggle_state(),
            final(self).spec_next_handle() == old(self).spec_next_handle(),
    {
        let mut i: usize = 0;
        while i < self.notifies.len()
            invariant
                old(self).wf(),
                *self == *old(self),
                i <= self.notifies@.len(),
                forall|j: int|
                    0 <= j < i ==> (#[trigger] self.notifies@[j]).0 != NotificationHandle,
            decreases self.notifies@.len() - i,
        {
            let entry = self.notifies[i];
            if entry.0 == NotificationHandle {
                let ghost idx = i as int;
                let _ = self.notifies.remove(i);
                proof {
                    let before = old(self).notifies@;
                    let after = self.notifies@;
                    assert(after == before.remove(idx));
                    before.remove_ensures(idx);
                    assert(before[idx].0 == NotificationHandle);
                    assert(old(self).registrations()[idx].0 == NotificationHandle);
                    assert(old(self).spec_registered(NotificationHandle));
                    assert(self.registrations() == old(self).registrations().remove(idx));
                    assert forall|j: int| 0 <= j < after.len() implies (#[trigger] after[j]).0
                        != NotificationHandle by {
                        assert(after[j] == before.remove(idx)[j]);
                        if j < idx {
                            assert(before.remove(idx)[j] == before[j]);
                        } else {
                            assert(before.remove(idx)[j] == before[j + 1]);
                            assert(before[idx].0 != before[j + 1].0);
                        }
                    }
                    assert forall|j: int| 0 <= j < after.len() implies 0 < (#[trigger] after[j]).0
                        < self.next_handle by {
                        assert(after[j] == before.remove(idx)[j]);
                        if j < idx {
                            assert(before.remove(idx)[j] == before[j]);
                        } else {
                            assert(before.remove(idx)[j] == before[j + 1]);
                        }
                    }
                    assert forall|j: int, k: int| 0 <= j < k < after.len() implies after[j].0
                        != after[k].0 by {
                        assert(after[j] == before.remove(idx)[j]);
                        assert(after[k] == before.remove(idx)[k]);
                        if j < idx {
                            assert(before.remove(idx)[j] == before[j]);
                        } else {
                            assert(before.remove(idx)[j] == before[j + 1]);
                        }
                        if k < idx {
                            assert(before.remove(idx)[k] == before[k]);
                        } else {
                            assert(before.remove(idx)[k] == before[k + 1]);
                        }
                    }
                }
                return EFI_SUCCESS;
            }
            i = i + 1;
        }
        proof {
            assert(!old(self).spec_registered(NotificationHandle));
        }
        EFI_INVALID_PARAMETER
    }
}

/// Field sizes and alignments of the protocol's function-pointer table on a
/// 64-bit target, in declaration order: Reset, ReadKeyStrokeEx, SetState,
/// RegisterKeyNotify, UnregisterKeyNotify.
pub open spec fn spec_simple_text_input_ex_fields() -> Seq<(int, int)> {
    seq![(8int, 8int), (8int, 8int), (8int, 8int), (8int, 8int), (8int, 8int)]
}

/// Field sizes and alignments of [`EFI_KEY_STATE`], in declaration order:
/// KeyShiftState, KeyToggleState.
pub open spec fn spec_key_state_fields() -> Seq<(int, int)> {
    seq![(4int, 4int), (1int, 1int)]
}

/// Field sizes and alignments of [`EFI_KEY_DATA`], in declaration order: Key
/// (a 4-byte pair aligned to 2), KeyState (8 bytes aligned to 4).
pub open spec fn spec_key_data_fields() -> Seq<(int, int)> {
    seq![(4int, 2int), (8int, 4int)]
}

/// The protocol table and its keystroke-state structures lie out as
/// documented: five consecutive 8-byte pointers, 40 bytes in all; the key
/// state as a 4-byte shift word at 0 and a toggle byte at 4, padded to 8
/// bytes; the key data as the keystroke pair at 0 and the key state at 4, 12
/// bytes in all.
pub proof fn lemma_simple_text_input_ex_layout()
    ensures
        spec_fields_bounded(spec_simple_text_input_ex_fields()),
        spec_field_offset(spec_simple_text_input_ex_fields(), 0) == 0,
        spec_field_offset(spec_simple_text_input_ex_fields(), 1) == 8,
        spec_field_offset(spec_simple_text_input_ex_fields(), 2) == 16,
        spec_field_offset(spec_simple_text_input_ex_fields(), 3) == 24,
        spec_field_offset(spec_simple_text_input_ex_fields(), 4) == 32,
        spec_struct_size(spec_simple_text_input_ex_fields(), 8) == 40,
        spec_fields_bounded(spec_key_state_fields()),
        spec_field_offset(spec_key_state_fields(), 0) == 0,
        spec_field_offset(spec_key_state_fields(), 1) == 4,
        spec_struct_size(spec_key_state_fields(), 4) == 8,
        spec_fields_bounded(spec_key_data_fields()),
        spec_field_offset(spec_key_data_fields(), 0) == 0,
        spec_field_offset(spec_key_data_fields(), 1) == 4,
        spec_struct_size(spec_key_data_fields(), 4) == 12,
{
    let fields = spec_simple_text_input_ex_fields();
    assert(fields[0] == (8int, 8int));
    assert(fields[1] == (8int, 8int));
    assert(fields[2] == (8int, 8int));
    assert(fields[3] == (8int, 8int));
    assert(fields[4] == (8int, 8int));
    assert(spec_field_offset(fields, 0) == 0);
    assert(spec_field_offset(fields, 1) == 8);
    assert(spec_field_offset(fields, 2) == 16);
    assert(spec_field_offset(fields, 3) == 24);
    assert(spec_field_offset(fields, 4) == 32);
    let ks = spec_key_state_fields();
    assert(ks[0] == (4int, 4int));
    assert(ks[1] == (1int, 1int));
    assert(spec_field_offset(ks, 0) == 0);
    assert(spec_field_offset(ks, 1) == 4);
    let kd = spec_key_data_fields();
    assert(kd[0] == (4int, 2int));
    assert(kd[1] == (8int, 4int));
    assert(spec_field_offset(kd, 0) == 0);
    assert(spec_field_offset(kd, 1) == 4);
}

/// The protocol table's field descriptors, for computing its layout at run
/// time.
pub fn simple_text_input_ex_field_descs() -> (r: Vec<FieldDesc>)
    ensures
        spec_fields_of(r@) == spec_simple_text_input_ex_fields(),
{
    let mut v: Vec<FieldDesc> = Vec::new();
    let mut i: usize = 0;
    while i < 5
        invariant
            i <= 5,
            v@.len() == i,
            forall|j: int| 0 <= j < i ==> v@[j] == (FieldDesc { size: 8, align: 8 }),
        decreases 5 - i,
    {
        v.push(FieldDesc { size: 8, align: 8 });
        i = i + 1;
    }
    proof {
        assert(spec_fields_of(v@) =~= spec_simple_text_input_ex_fields());
    }
    v
}

/// The key state's field descriptors, for computing its layout at run time.
pub fn key_state_field_descs() -> (r: Vec<FieldDesc>)
    ensures
        spec_fields_of(r@) == spec_key_state_fields(),
{
    let mut v: Vec<FieldDesc> = Vec::new();
    v.push(FieldDesc { size: 4, align: 4 });
    v.push(FieldDesc { size: 1, align: 1 });
    proof {
        assert(spec_fields_of(v@) =~= spec_key_state_fields());
    }
    v
}

/// The key data's field descriptors, for computing its layout at run time.
pub fn key_data_field_descs() -> (r: Vec<FieldDesc>)
    ensures
        spec_fields_of(r@) == spec_key_data_fields(),
{
    let mut v: Vec<FieldDesc> = Vec::new();
    v.push(FieldDesc { size: 4, align: 2 });
    v.push(FieldDesc { size: 8, align: 4 });
    proof {
        assert(spec_fields_of(v@) =~= spec_key_data_fields());
    }
    v
}

} // verus!
