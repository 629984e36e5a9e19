//! Common UEFI data types: fixed-width scalar aliases, opaque handles, the
//! 128-bit globally unique identifier, and network address buffers.
//!
//! Every alias reproduces the exact bit width and signedness the UEFI
//! Specification mandates. The two pointer-sized types, [`INTN`] and [`UINTN`],
//! are the native-width pair and follow the target's pointer width.
//!
//! Handles ([`EFI_HANDLE`], [`EFI_EVENT`]) are opaque references to
//! firmware-owned resources. Firmware hands them out as pointer values; nothing
//! here ever dereferences or frees one, so they are carried as plain address
//! values.

use vstd::prelude::*;

verus! {

/// Logical boolean: one byte holding `0` for FALSE and `1` for TRUE. The UEFI
/// Specification declares every other value undefined; the byte is stored raw
/// and deliberately never normalized or rejected here.
pub type BOOLEAN = u8;

/// Signed value of native width: 8 bytes on a 64-bit target.
pub type INTN = isize;

/// Unsigned value of native width: 8 bytes on a 64-bit target.
pub type UINTN = usize;

/// 1-byte signed value.
pub type INT8 = i8;

/// 1-byte unsigned value.
pub type UINT8 = u8;

/// 2-byte signed value.
pub type INT16 = i16;

/// 2-byte unsigned value.
pub type UINT16 = u16;

/// 4-byte signed value.
pub type INT32 = i32;

/// 4-byte unsigned value.
pub type UINT32 = u32;

/// 8-byte signed value.
pub type INT64 = i64;

/// 8-byte unsigned value.
pub type UINT64 = u64;

/// 16-byte signed value.
pub type INT128 = i128;

/// 16-byte unsigned value.
pub type UINT128 = u128;

/// 1-byte character, 8-bit ASCII using the ISO-Latin-1 character set.
pub type CHAR8 = u8;

/// 2-byte character in the UCS-2 encoding format.
pub type CHAR16 = u16;

/// Undeclared type: the referent of an untyped firmware pointer. It carries a
/// single opaque variant; nothing in this crate constructs or inspects a value
/// of it, only addresses of it are ever passed around.
pub enum VOID {
    Opaque,
}

/// Status code: a native-width unsigned value whose high bit separates errors
/// from success and warnings. See the `status` module.
pub type EFI_STATUS = UINTN;

/// A collection of related interfaces: an opaque firmware-owned reference,
/// carried as its address value and never dereferenced here.
pub type EFI_HANDLE = usize;

/// Handle to an event structure, opaque in the same way as [`EFI_HANDLE`].
pub type EFI_EVENT = usize;

/// Logical block address.
pub type EFI_LBA = UINT64;

/// Task priority level.
pub type EFI_TPL = UINTN;

/// 128-bit buffer containing a unique identifier value: a 32-bit field, two
/// 16-bit fields and an 8-byte array, aligned on a 64-bit boundary.
#[derive(Clone, Copy, PartialEq, Eq, Debug)]
pub struct EFI_GUID(pub UINT32, pub UINT16, pub UINT16, pub [UINT8; 8]);

/// 32-byte buffer containing a network Media Access Control address.
#[derive(Clone, Copy, PartialEq, Eq, Debug)]
pub struct EFI_MAC_ADDRESS {
    pub Addr: [UINT8; 32],
}

/// 4-byte buffer: an IPv4 internet protocol address.
#[derive(Clone, Copy, PartialEq, Eq, Debug)]
pub struct EFI_IPv4_ADDRESS {
    pub Addr: [UINT8; 4],
}

/// 16-byte buffer: an IPv6 internet protocol address.
#[derive(Clone, Copy, PartialEq, Eq, Debug)]
pub struct EFI_IPv6_ADDRESS {
    pub Addr: [UINT8; 16],
}

/// An IPv4 or IPv6 internet protocol address. The ABI stores both in a single
/// 16-byte buffer aligned on a 4-byte boundary; here the two cases are kept
/// apart by a tag, and the buffer form is available through
/// [`EFI_IP_ADDRESS::to_bytes`], which pads an IPv4 address with zero bytes.
#[derive(Clone, Copy, PartialEq, Eq, Debug)]
pub enum EFI_IP_ADDRESS {
    IPv4(EFI_IPv4_ADDRESS),
    IPv6(EFI_IPv6_ADDRESS),
}

impl EFI_IP_ADDRESS {
    /// The 16-byte buffer form of the address: an IPv6 address fills the buffer,
    /// an IPv4 address occupies the first 4 bytes and the rest are zero.
    pub open spec fn spec_bytes(self) -> Seq<u8> {
        match self {
            EFI_IP_ADDRESS::IPv4(v4) => v4.Addr@ + Seq::new(12, |i: int| 0u8),
            EFI_IP_ADDRESS::IPv6(v6) => v6.Addr@,
        }
    }

    /// Whether the address is the IPv4 case.
    pub open spec fn spec_is_v4(self) -> bool {
        self is IPv4
    }

    /// Lays the address out as the 16-byte buffer the ABI prescribes.
    pub fn to_bytes(&self) -> (r: Vec<u8>)
        ensures
            r@ == self.spec_bytes(),
            r@.len() == 16,
    {
        let mut out: Vec<u8> = Vec::new();
        match self {
            EFI_IP_ADDRESS::IPv4(v4) => {
                let mut i: usize = 0;
                while i < 4
                    invariant
                        i <= 4,
                        out@ == v4.Addr@.take(i as int),
                    decreases 4 - i,
                {
                    out.push(v4.Addr[i]);
                    proof {
                        assert(v4.Addr@.take(i + 1) == v4.Addr@.take(i as int).push(v4.Addr@[i as int]));
                    }
                    i = i + 1;
                }
                assert(out@ == v4.Addr@.take(4) && v4.Addr@.take(4) == v4.Addr@);
                let mut j: usize = 0;
                while j < 12
                    invariant
                        j <= 12,
                        out@ == v4.Addr@ + Seq::new(j as nat, |i: int| 0u8),
                    decreases 12 - j,
                {
                    out.push(0u8);
                    proof {
                        assert(v4.Addr@ + Seq::new((j + 1) as nat, |i: int| 0u8)
                            == (v4.Addr@ + Seq::new(j as nat, |i: int| 0u8)).push(0u8));
                    }
                    j = j + 1;
                }
            },
            EFI_IP_ADDRESS::IPv6(v6) => {
                let mut i: usize = 0;
                while i < 16
                    invariant
                        i <= 16,
                        out@ == v6.Addr@.take(i as int),
                    decreases 16 - i,
                {
                    out.push(v6.Addr[i]);
                    proof {
                        assert(v6.Addr@.take(i + 1) == v6.Addr@.take(i as int).push(v6.Addr@[i as int]));
                    }
                    i = i + 1;
                }
                assert(out@ == v6.Addr@.take(16) && v6.Addr@.take(16) == v6.Addr@);
            },
        }
        out
    }

    /// Whether the address is the IPv4 case.
    pub fn is_v4(&self) -> (r: bool)
        ensures
            r == self.spec_is_v4(),
    {
        match self {
            EFI_IP_ADDRESS::IPv4(_) => true,
            EFI_IP_ADDRESS::IPv6(_) => false,
        }
    }
}

} // verus!
