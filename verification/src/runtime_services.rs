//! The EFI Runtime Services table and the time structures its clock services
//! traffic in.
//!
//! The table starts with a standard header and continues with function
//! pointers to the runtime services; unlike the boot services, these stay
//! valid after the operating system takes control of the platform. The
//! structure here models the slice of the table this crate describes — the
//! header and the clock services — together with the real-time clock behind
//! them: the time last set and the clock's reporting capabilities.
//! [`lemma_runtime_services_layout`] proves the byte layout of the table and
//! of the time structures.

use vstd::prelude::*;

use crate::layout::spec_field_offset;
use crate::layout::spec_fields_bounded;
use crate::layout::spec_fields_of;
use crate::layout::spec_struct_size;
use crate::layout::FieldDesc;
use crate::status::EFI_SUCCESS;
use crate::system::EFI_SPECIFICATION_VERSION;
use crate::tables::EFI_TABLE_HEADER;
use crate::types::BOOLEAN;
use crate::types::EFI_STATUS;
use crate::types::UINT16;
use crate::types::UINT32;
use crate::types::UINT64;
use crate::types::UINT8;

verus! {

/// Signature for the EFI Runtime Services Table.
pub const EFI_RUNTIME_SERVICES_SIGNATURE: UINT64 = 0x56524553544e5552;

/// The EFI Runtime Services Table revision.
pub const EFI_RUNTIME_SERVICES_REVISION: UINT32 = EFI_SPECIFICATION_VERSION;

/// The time is interpreted as a local time with no offset from UTC recorded.
pub const EFI_UNSPECIFIED_TIMEZONE: UINT16 = 0x07FF;

/// The time should be adjusted when entering daylight saving time.
pub const EFI_TIME_ADJUST_DAYLIGHT: UINT8 = 0x01;

/// The time has been adjusted for daylight saving time.
pub const EFI_TIME_IN_DAYLIGHT: UINT8 = 0x02;

/// The largest offset from UTC a time can record, in minutes.
pub const EFI_TIMEZONE_LIMIT: UINT16 = 1440;

/// Current date and time information.
#[derive(Clone, Copy, PartialEq, Eq, Structural, Debug)]
pub struct EFI_TIME {
    /// The year of the current local date, 1900 through 9999.
    pub Year: UINT16,
    /// The month of the current local date, 1 through 12.
    pub Month: UINT8,
    /// The day of the current local date, 1 through 31.
    pub Day: UINT8,
    /// The hour of the current local time, 0 through 23.
    pub Hour: UINT8,
    /// The minute of the current local time, 0 through 59.
    pub Minute: UINT8,
    /// The second of the current local time, 0 through 59.
    pub Second: UINT8,
    /// Padding the ABI layout prescribes; must be zero.
    pub Pad1: UINT8,
    /// The current fraction of a second, 0 through 999,999,999 nanoseconds.
    pub Nanosecond: UINT32,
    /// The time's offset in minutes from UTC, or
    /// [`EFI_UNSPECIFIED_TIMEZONE`] for a local time.
    pub TimeZone: UINT16,
    /// The daylight saving time bitmask: [`EFI_TIME_ADJUST_DAYLIGHT`] and
    /// [`EFI_TIME_IN_DAYLIGHT`]; all other bits must be zero.
    pub Daylight: UINT8,
    /// Padding the ABI layout prescribes; must be zero.
    pub Pad2: UINT8,
}

impl EFI_TIME {
    /// Every field lies in the range the UEFI Specification gives it: the
    /// calendar fields in their calendar ranges, the nanoseconds below one
    /// second, the time zone an offset of at most a day or unspecified, the
    /// daylight mask only its two defined bits (so below 4), and the padding
    /// zero.
    pub open spec fn wf(self) -> bool {
        &&& 1900 <= self.Year <= 9999
        &&& 1 <= self.Month <= 12
        &&& 1 <= self.Day <= 31
        &&& self.Hour <= 23
        &&& self.Minute <= 59
        &&& self.Second <= 59
        &&& self.Pad1 == 0
        &&& self.Nanosecond <= 999_999_999
        &&& (self.TimeZone <= EFI_TIMEZONE_LIMIT || self.TimeZone == EFI_UNSPECIFIED_TIMEZONE)
        &&& self.Daylight < 4
        &&& self.Pad2 == 0
    }

    /// Whether every field lies in its documented range.
    pub fn is_valid(&self) -> (r: bool)
        ensures
            r == self.wf(),
    {
        1900 <= self.Year && self.Year <= 9999 && 1 <= self.Month && self.Month <= 12 && 1
            <= self.Day && self.Day <= 31 && self.Hour <= 23 && self.Minute <= 59 && self.Second
            <= 59 && self.Pad1 == 0 && self.Nanosecond <= 999_999_999 && (self.TimeZone
            <= EFI_TIMEZONE_LIMIT || self.TimeZone == EFI_UNSPECIFIED_TIMEZONE) && self.Daylight < 4
            && self.Pad2 == 0
    }
}

/// The capabilities of the real-time clock device as exposed through EFI.
#[derive(Clone, Copy, PartialEq, Eq, Structural, Debug)]
pub struct EFI_TIME_CAPABILITIES {
    /// The reporting resolution of the clock in counts per second: 1 for a
    /// normal PC-AT CMOS device, which reports time to the second.
    pub Resolution: UINT32,
    /// The timekeeping accuracy in parts per 10^12: 50 parts per million is
    /// `50_000_000`.
    pub Accuracy: UINT32,
    /// TRUE when a set-time operation clears the device's state below the
    /// reporting resolution; FALSE when that state is kept.
    pub SetsToZero: BOOLEAN,
}

/// Model of the runtime services table slice this crate describes: its
/// header, and the real-time clock behind the get-time service — the time
/// last set and the clock's capabilities.
pub struct EFI_RUNTIME_SERVICES {
    /// The table header, carrying [`EFI_RUNTIME_SERVICES_SIGNATURE`] and the
    /// table's size and checksum.
    pub Hdr: EFI_TABLE_HEADER,
    time: EFI_TIME,
    capabilities: EFI_TIME_CAPABILITIES,
}

impl EFI_RUNTIME_SERVICES {
    /// The table header.
    pub closed spec fn spec_hdr(self) -> EFI_TABLE_HEADER {
        self.Hdr
    }

    /// The time the clock holds.
    pub closed spec fn spec_time(self) -> EFI_TIME {
        self.time
    }

    /// The clock's capabilities.
    pub closed spec fn spec_capabilities(self) -> EFI_TIME_CAPABILITIES {
        self.capabilities
    }

    /// The table is sound: its header carries the runtime services signature
    /// and the table's documented size, and the clock holds a valid time.
    pub open spec fn wf(self) -> bool {
        &&& self.spec_hdr().Signature == EFI_RUNTIME_SERVICES_SIGNATURE
        &&& self.spec_hdr().HeaderSize == 40
        &&& self.spec_time().wf()
    }

    /// A table over a clock holding the given time and capabilities, with a
    /// header carrying the runtime services signature, the current revision,
    /// the table's size and its checksum.
    pub fn new(time: EFI_TIME, capabilities: EFI_TIME_CAPABILITIES) -> (dev: Self)
        requires
            time.wf(),
        ensures
            dev.wf(),
            dev.spec_time() == time,
            dev.spec_capabilities() == capabilities,
            dev.spec_hdr().Signature == EFI_RUNTIME_SERVICES_SIGNATURE,
            dev.spec_hdr().Revision == EFI_RUNTIME_SERVICES_REVISION,
            dev.spec_hdr().HeaderSize as int == spec_struct_size(
                spec_runtime_services_fields(),
                8,
            ),
    {
        proof {
            lemma_runtime_services_layout();
        }
        EFI_RUNTIME_SERVICES {
            Hdr: EFI_TABLE_HEADER::new(
                EFI_RUNTIME_SERVICES_SIGNATURE,
                EFI_RUNTIME_SERVICES_REVISION,
                40,
            ),
            time,
            capabilities,
        }
    }

    /// Returns the current time and date information and the time-keeping
    /// capabilities of the platform: the time the clock holds, which was
    /// valid during the call, and the capabilities as the hardware reports
    /// them. Returns `EFI_SUCCESS`; the specification allows
    /// `EFI_DEVICE_ERROR` only when the hardware clock fails, which this
    /// simulated clock never does.
    pub fn GetTime(&self, Time: &mut EFI_TIME, Capabilities: &mut EFI_TIME_CAPABILITIES) -> (r:
        EFI_STATUS)
        ensures
            r == EFI_SUCCESS,
            *final(Time) == self.spec_time(),
            *final(Capabilities) == self.spec_capabilities(),
            self.wf() ==> final(Time).wf(),
    {
        *Time = self.time;
        *Capabilities = self.capabilities;
        EFI_SUCCESS
    }
}

/// Field sizes and alignments of the runtime services table slice on a
/// 64-bit target, in declaration order: Hdr (24 bytes aligned to 8), the
/// get-time pointer, the set-time pointer.
pub open spec fn spec_runtime_services_fields() -> Seq<(int, int)> {
    seq![(24int, 8int), (8int, 8int), (8int, 8int)]
}

/// Field sizes and alignments of [`EFI_TIME`], in declaration order: Year,
/// Month, Day, Hour, Minute, Second, Pad1, Nanosecond, TimeZone, Daylight,
/// Pad2.
pub open spec fn spec_time_fields() -> Seq<(int, int)> {
    seq![
        (2int, 2int),
        (1int, 1int),
        (1int, 1int),
        (1int, 1int),
        (1int, 1int),
        (1int, 1int),
        (1int, 1int),
        (4int, 4int),
        (2int, 2int),
        (1int, 1int),
        (1int, 1int),
    ]
}

/// Field sizes and alignments of [`EFI_TIME_CAPABILITIES`], in declaration
/// order: Resolution, Accuracy, SetsToZero.
pub open spec fn spec_time_capabilities_fields() -> Seq<(int, int)> {
    seq![(4int, 4int), (4int, 4int), (1int, 1int)]
}

/// The table slice and the time structures lie out as documented: the header
/// at 0, the get-time pointer at 24, the set-time pointer at 32, 40 bytes in
/// all; the time with its calendar bytes packed from 0, nanoseconds at 8,
/// time zone at 12, daylight at 14, 16 bytes in all; and the capabilities as
/// two words and a flag byte, padded to 12 bytes.
pub proof fn lemma_runtime_services_layout()
    ensures
        spec_fields_bounded(spec_runtime_services_fields()),
        spec_field_offset(spec_runtime_services_fields(), 0) == 0,
        spec_field_offset(spec_runtime_services_fields(), 1) == 24,
        spec_field_offset(spec_runtime_services_fields(), 2) == 32,
        spec_struct_size(spec_runtime_services_fields(), 8) == 40,
        spec_fields_bounded(spec_time_fields()),
        spec_field_offset(spec_time_fields(), 0) == 0,
        spec_field_offset(spec_time_fields(), 1) == 2,
        spec_field_offset(spec_time_fields(), 2) == 3,
        spec_field_offset(spec_time_fields(), 3) == 4,
        spec_field_offset(spec_time_fields(), 4) == 5,
        spec_field_offset(spec_time_fields(), 5) == 6,
        spec_field_offset(spec_time_fields(), 6) == 7,
        spec_field_offset(spec_time_fields(), 7) == 8,
        spec_field_offset(spec_time_fields(), 8) == 12,
        spec_field_offset(spec_time_fields(), 9) == 14,
        spec_field_offset(spec_time_fields(), 10) == 15,
        spec_struct_size(spec_time_fields(), 4) == 16,
        spec_fields_bounded(spec_time_capabilities_fields()),
        spec_field_offset(spec_time_capabilities_fields(), 0) == 0,
        spec_field_offset(spec_time_capabilities_fields(), 1) == 4,
        spec_field_offset(spec_time_capabilities_fields(), 2) == 8,
        spec_struct_size(spec_time_capabilities_fields(), 4) == 12,
{
    let rt = spec_runtime_services_fields();
    assert(rt[0] == (24int, 8int));
    assert(rt[1] == (8int, 8int));
    assert(rt[2] == (8int, 8int));
    assert(spec_field_offset(rt, 0) == 0);
    assert(spec_field_offset(rt, 1) == 24);
    assert(spec_field_offset(rt, 2) == 32);
    let t = spec_time_fields();
    assert(t[0] == (2int, 2int));
    assert(t[1] == (1int, 1int));
    assert(t[2] == (1int, 1int));
    assert(t[3] == (1int, 1int));
    assert(t[4] == (1int, 1int));
    assert(t[5] == (1int, 1int));
    assert(t[6] == (1int, 1int));
    assert(t[7] == (4int, 4int));
    assert(t[8] == (2int, 2int));
    assert(t[9] == (1int, 1int));
    assert(t[10] == (1int, 1int));
    assert(spec_field_offset(t, 0) == 0);
    assert(spec_field_offset(t, 1) == 2);
    assert(spec_field_offset(t, 2) == 3);
    assert(spec_field_offset(t, 3) == 4);
    assert(spec_field_offset(t, 4) == 5);
    assert(spec_field_offset(t, 5) == 6);
    assert(spec_field_offset(t, 6) == 7);
    assert(spec_field_offset(t, 7) == 8);
    assert(spec_field_offset(t, 8) == 12);
    assert(spec_field_offset(t, 9) == 14);
    assert(spec_field_offset(t, 10) == 15);
    let c = spec_time_capabilities_fields();
    assert(c[0] == (4int, 4int));
    assert(c[1] == (4int, 4int));
    assert(c[2] == (1int, 1int));
    assert(spec_field_offset(c, 0) == 0);
    assert(spec_field_offset(c, 1) == 4);
    assert(spec_field_offset(c, 2) == 8);
}

/// The time structure's field descriptors, for computing its layout at run
/// time.
pub fn time_field_descs() -> (r: Vec<FieldDesc>)
    ensures
        spec_fields_of(r@) == spec_time_fields(),
{
    let mut v: Vec<FieldDesc> = Vec::new();
    v.push(FieldDesc { size: 2, align: 2 });
    v.push(FieldDesc { size: 1, align: 1 });
    v.push(FieldDesc { size: 1, align: 1 });
    v.push(FieldDesc { size: 1, align: 1 });
    v.push(FieldDesc { size: 1, align: 1 });
    v.push(FieldDesc { size: 1, align: 1 });
    v.push(FieldDesc { size: 1, align: 1 });
    v.push(FieldDesc { size: 4, align: 4 });
    v.push(FieldDesc { size: 2, align: 2 });
    v.push(FieldDesc { size: 1, align: 1 });
    v.push(FieldDesc { size: 1, align: 1 });
    proof {
        assert(spec_fields_of(v@) =~= spec_time_fields());
    }
    v
}

} // verus!
