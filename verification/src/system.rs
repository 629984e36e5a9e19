//! The EFI System Table: the top-level table firmware hands to every UEFI
//! image, containing its header, firmware vendor identification and the
//! active console interfaces.
//!
//! Before the boot services' exit call hands the platform to an operating
//! system, all fields of the table are valid; afterwards only the header,
//! the firmware identification and the runtime-services side stay valid.
//! That validity window is a contract on the caller, recorded here but not
//! enforceable by a layout description. The structure here models the slice
//! of the table this crate describes — through the console input interface —
//! holding the pointed-to values themselves where the ABI form holds
//! pointers. [`lemma_system_table_layout`] proves the ABI form's byte
//! layout.

use vstd::prelude::*;

use crate::layout::spec_field_offset;
use crate::layout::spec_fields_bounded;
use crate::layout::spec_fields_of;
use crate::layout::spec_struct_size;
use crate::layout::FieldDesc;
use crate::simple_text_input::EFI_SIMPLE_TEXT_INPUT_PROTOCOL;
use crate::tables::EFI_TABLE_HEADER;
use crate::types::CHAR16;
use crate::types::EFI_HANDLE;
use crate::types::UINT32;
use crate::types::UINT64;

verus! {

/// Signature for the EFI System Table.
pub const EFI_SYSTEM_TABLE_SIGNATURE: UINT64 = 0x5453595320494249;

/// Revision of the 2.10 EFI System Table.
pub const EFI_2_100_SYSTEM_TABLE_REVISION: UINT32 = (2 << 16) | 100;

/// Revision of the 2.9 EFI System Table.
pub const EFI_2_90_SYSTEM_TABLE_REVISION: UINT32 = (2 << 16) | 90;

/// Revision of the 2.8 EFI System Table.
pub const EFI_2_80_SYSTEM_TABLE_REVISION: UINT32 = (2 << 16) | 80;

/// Revision of the 2.7 EFI System Table.
pub const EFI_2_70_SYSTEM_TABLE_REVISION: UINT32 = (2 << 16) | 70;

/// Revision of the 2.6 EFI System Table.
pub const EFI_2_60_SYSTEM_TABLE_REVISION: UINT32 = (2 << 16) | 60;

/// Revision of the 2.5 EFI System Table.
pub const EFI_2_50_SYSTEM_TABLE_REVISION: UINT32 = (2 << 16) | 50;

/// Revision of the 2.4 EFI System Table.
pub const EFI_2_40_SYSTEM_TABLE_REVISION: UINT32 = (2 << 16) | 40;

/// Revision of the 2.3.1 EFI System Table.
pub const EFI_2_31_SYSTEM_TABLE_REVISION: UINT32 = (2 << 16) | 31;

/// Revision of the 2.3 EFI System Table.
pub const EFI_2_30_SYSTEM_TABLE_REVISION: UINT32 = (2 << 16) | 30;

/// Revision of the 2.2 EFI System Table.
pub const EFI_2_20_SYSTEM_TABLE_REVISION: UINT32 = (2 << 16) | 20;

/// Revision of the 2.1 EFI System Table.
pub const EFI_2_10_SYSTEM_TABLE_REVISION: UINT32 = (2 << 16) | 10;

/// Revision of the 2.0 EFI System Table.
pub const EFI_2_00_SYSTEM_TABLE_REVISION: UINT32 = 2 << 16;

/// Revision of the 1.1 EFI System Table.
pub const EFI_1_10_SYSTEM_TABLE_REVISION: UINT32 = (1 << 16) | 10;

/// Revision of the 1.0.2 EFI System Table.
pub const EFI_1_02_SYSTEM_TABLE_REVISION: UINT32 = (1 << 16) | 2;

/// The EFI System Table revision.
pub const EFI_SYSTEM_TABLE_REVISION: UINT32 = EFI_2_100_SYSTEM_TABLE_REVISION;

/// The EFI specification version.
pub const EFI_SPECIFICATION_VERSION: UINT32 = EFI_SYSTEM_TABLE_REVISION;

/// Model of the system table slice this crate describes: the header, the
/// firmware vendor's null-terminated name and revision, the console input
/// handle, and the console input interface the ABI form points to.
pub struct EFI_SYSTEM_TABLE {
    /// The table header, carrying [`EFI_SYSTEM_TABLE_SIGNATURE`].
    pub Hdr: EFI_TABLE_HEADER,
    vendor: Vec<CHAR16>,
    /// A firmware-vendor-specific value identifying the system firmware
    /// revision.
    pub FirmwareRevision: UINT32,
    /// The handle for the active console input device.
    pub ConsoleInHandle: EFI_HANDLE,
    con_in: EFI_SIMPLE_TEXT_INPUT_PROTOCOL,
}

impl EFI_SYSTEM_TABLE {
    /// The table header.
    pub closed spec fn spec_hdr(self) -> EFI_TABLE_HEADER {
        self.Hdr
    }

    /// The firmware vendor's name: a null-terminated string of 2-byte
    /// characters.
    pub closed spec fn spec_firmware_vendor(self) -> Seq<CHAR16> {
        self.vendor@
    }

    /// The firmware vendor's revision value.
    pub closed spec fn spec_firmware_revision(self) -> UINT32 {
        self.FirmwareRevision
    }

    /// The handle for the active console input device.
    pub closed spec fn spec_console_in_handle(self) -> EFI_HANDLE {
        self.ConsoleInHandle
    }

    /// The console input interface.
    pub closed spec fn spec_con_in(self) -> EFI_SIMPLE_TEXT_INPUT_PROTOCOL {
        self.con_in
    }

    /// The table is sound: its header carries the system table signature and
    /// the table's documented size, and the vendor name ends in its null
    /// terminator.
    pub open spec fn wf(self) -> bool {
        &&& self.spec_hdr().Signature == EFI_SYSTEM_TABLE_SIGNATURE
        &&& self.spec_hdr().HeaderSize == 56
        &&& self.spec_firmware_vendor().len() >= 1
        &&& self.spec_firmware_vendor().last() == 0
    }

    /// A table over the given firmware identification and console input
    /// interface, with a header carrying the system table signature, the
    /// current revision, the table's size and its checksum.
    pub fn new(
        firmware_vendor: Vec<CHAR16>,
        firmware_revision: UINT32,
        console_in_handle: EFI_HANDLE,
        con_in: EFI_SIMPLE_TEXT_INPUT_PROTOCOL,
    ) -> (table: Self)
        requires
            firmware_vendor@.len() >= 1,
            firmware_vendor@.last() == 0,
        ensures
            table.wf(),
            table.spec_firmware_vendor() == firmware_vendor@,
            table.spec_firmware_revision() == firmware_revision,
            table.spec_console_in_handle() == console_in_handle,
            table.spec_con_in() == con_in,
            table.spec_hdr().Signature == EFI_SYSTEM_TABLE_SIGNATURE,
            table.spec_hdr().Revision == EFI_SYSTEM_TABLE_REVISION,
            table.spec_hdr().HeaderSize as int == spec_struct_size(spec_system_table_fields(), 8),
    {
        proof {
            lemma_system_table_layout();
        }
        EFI_SYSTEM_TABLE {
            Hdr: EFI_TABLE_HEADER::new(EFI_SYSTEM_TABLE_SIGNATURE, EFI_SYSTEM_TABLE_REVISION, 56),
            vendor: firmware_vendor,
            FirmwareRevision: firmware_revision,
            ConsoleInHandle: console_in_handle,
            con_in,
        }
    }

    /// The firmware vendor's null-terminated name.
    pub fn firmware_vendor(&self) -> (r: &Vec<CHAR16>)
        ensures
            r@ == self.spec_firmware_vendor(),
    {
        &self.vendor
    }

    /// The console input interface, for reading.
    pub fn con_in(&self) -> (r: &EFI_SIMPLE_TEXT_INPUT_PROTOCOL)
        ensures
            *r == self.spec_con_in(),
    {
        &self.con_in
    }

    /// The console input interface, for calling its operations. The rest of
    /// the table does not change through the returned reference.
    pub fn con_in_mut(&mut self) -> (r: &mut EFI_SIMPLE_TEXT_INPUT_PROTOCOL)
        ensures
            *r == old(self).spec_con_in(),
            final(self).spec_con_in() == *final(r),
            final(self).spec_hdr() == old(self).spec_hdr(),
            final(self).spec_firmware_vendor() == old(self).spec_firmware_vendor(),
            final(self).spec_firmware_revision() == old(self).spec_firmware_revision(),
            final(self).spec_console_in_handle() == old(self).spec_console_in_handle(),
            old(self).wf() ==> final(self).wf(),
    {
        &mut self.con_in
    }
}

/// Field sizes and alignments of the system table slice on a 64-bit target,
/// in declaration order: Hdr (24 bytes aligned to 8), the vendor string
/// pointer, the firmware revision word, the console input handle, the
/// console input interface pointer.
pub open spec fn spec_system_table_fields() -> Seq<(int, int)> {
    seq![(24int, 8int), (8int, 8int), (4int, 4int), (8int, 8int), (8int, 8int)]
}

/// The table slice lies out as documented: the header at 0, the vendor
/// pointer at 24, the revision at 32, then four bytes of padding before the
/// console input handle at 40 and the console input pointer at 48, 56 bytes
/// in all.
pub proof fn lemma_system_table_layout()
    ensures
        spec_fields_bounded(spec_system_table_fields()),
        spec_field_offset(spec_system_table_fields(), 0) == 0,
        spec_field_offset(spec_system_table_fields(), 1) == 24,
        spec_field_offset(spec_system_table_fields(), 2) == 32,
        spec_field_offset(spec_system_table_fields(), 3) == 40,
        spec_field_offset(spec_system_table_fields(), 4) == 48,
        spec_struct_size(spec_system_table_fields(), 8) == 56,
{
    let fields = spec_system_table_fields();
    assert(fields[0] == (24int, 8int));
    assert(fields[1] == (8int, 8int));
    assert(fields[2] == (4int, 4int));
    assert(fields[3] == (8int, 8int));
    assert(fields[4] == (8int, 8int));
    assert(spec_field_offset(fields, 0) == 0);
    assert(spec_field_offset(fields, 1) == 24);
    assert(spec_field_offset(fields, 2) == 32);
    assert(spec_field_offset(fields, 3) == 40);
    assert(spec_field_offset(fields, 4) == 48);
}

/// The system table's field descriptors, for computing its layout at run
/// time.
pub fn system_table_field_descs() -> (r: Vec<FieldDesc>)
    ensures
        spec_fields_of(r@) == spec_system_table_fields(),
{
    let mut v: Vec<FieldDesc> = Vec::new();
    v.push(FieldDesc { size: 24, align: 8 });
    v.push(FieldDesc { size: 8, align: 8 });
    v.push(FieldDesc { size: 4, align: 4 });
    v.push(FieldDesc { size: 8, align: 8 });
    v.push(FieldDesc { size: 8, align: 8 });
    proof {
        assert(spec_fields_of(v@) =~= spec_system_table_fields());
    }
    v
}

} // verus!
