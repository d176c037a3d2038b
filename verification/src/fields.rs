//! Field decoder: total mappings from raw header bytes to typed values.
//!
//! Every decoder is total over its input width. Values outside the named
//! sets decode to an explicit `Unknown` variant carrying the raw value, so
//! no byte pattern is rejected at this layer.

use vstd::prelude::*;

verus! {

/// File class from the identification block: byte offset 4.
#[derive(Clone, Copy, Debug, PartialEq, Eq, Structural)]
pub enum Class {
    NotSet,
    Elf32,
    Elf64,
    Unknown(u8),
}

/// Data encoding (byte order) from the identification block: byte offset 5.
#[derive(Clone, Copy, Debug, PartialEq, Eq, Structural)]
pub enum DataEncoding {
    NotSet,
    LittleEndian,
    BigEndian,
    Unknown(u8),
}

/// Identification version from the identification block: byte offset 6.
#[derive(Clone, Copy, Debug, PartialEq, Eq, Structural)]
pub enum IdentVersion {
    NotSet,
    Current,
    Unknown(u8),
}

/// OS/ABI from the identification block: byte offset 7.
///
/// Fourteen values are named; every other byte decodes to `Unknown`,
/// carrying the raw value, rather than being rejected.
#[derive(Clone, Copy, Debug, PartialEq, Eq, Structural)]
pub enum OsAbi {
    SysV,
    HpUx,
    NetBsd,
    Gnu,
    Solaris,
    Aix,
    Irix,
    FreeBsd,
    Tru64,
    Modesto,
    OpenBsd,
    ArmAeabi,
    Arm,
    Standalone,
    Unknown(u8),
}

/// Object file type from the two-byte field at offset 16.
///
/// Values 0 through 4 are named; the half-open processor-specific range
/// keeps its raw value, as does every other unrecognized value.
#[derive(Clone, Copy, Debug, PartialEq, Eq, Structural)]
pub enum HeaderType {
    NotSet,
    Relocatable,
    Executable,
    SharedObject,
    Core,
    ProcessorSpecific(u16),
    Unknown(u16),
}

pub open spec fn spec_decode_class(b: u8) -> Class {
    if b == 0 {
        Class::NotSet
    } else if b == 1 {
        Class::Elf32
    } else if b == 2 {
        Class::Elf64
    } else {
        Class::Unknown(b)
    }
}

pub open spec fn spec_decode_data_encoding(b: u8) -> DataEncoding {
    if b == 0 {
        DataEncoding::NotSet
    } else if b == 1 {
        DataEncoding::LittleEndian
    } else if b == 2 {
        DataEncoding::BigEndian
    } else {
        DataEncoding::Unknown(b)
    }
}

pub open spec fn spec_decode_ident_version(b: u8) -> IdentVersion {
    if b == 0 {
        IdentVersion::NotSet
    } else if b == 1 {
        IdentVersion::Current
    } else {
        IdentVersion::Unknown(b)
    }
}

pub open spec fn spec_decode_os_abi(b: u8) -> OsAbi {
    if b == 0 {
        OsAbi::SysV
    } else if b == 1 {
        OsAbi::HpUx
    } else if b == 2 {
        OsAbi::NetBsd
    } else if b == 3 {
        OsAbi::Gnu
    } else if b == 6 {
        OsAbi::Solaris
    } else if b == 7 {
        OsAbi::Aix
    } else if b == 8 {
        OsAbi::Irix
    } else if b == 9 {
        OsAbi::FreeBsd
    } else if b == 10 {
        OsAbi::Tru64
    } else if b == 11 {
        OsAbi::Modesto
    } else if b == 12 {
        OsAbi::OpenBsd
    } else if b == 64 {
        OsAbi::ArmAeabi
    } else if b == 97 {
        OsAbi::Arm
    } else if b == 255 {
        OsAbi::Standalone
    } else {
        OsAbi::Unknown(b)
    }
}

pub open spec fn spec_decode_header_type(v: u16) -> HeaderType {
    if v == 0 {
        HeaderType::NotSet
    } else if v == 1 {
        HeaderType::Relocatable
    } else if v == 2 {
        HeaderType::Executable
    } else if v == 3 {
        HeaderType::SharedObject
    } else if v == 4 {
        HeaderType::Core
    } else if 0xff00 <= v {
        HeaderType::ProcessorSpecific(v)
    } else {
        HeaderType::Unknown(v)
    }
}

pub fn decode_class(b: u8) -> (r: Class)
    ensures
        r == spec_decode_class(b),
{
    if b == 0 {
        Class::NotSet
    } else if b == 1 {
        Class::Elf32
    } else if b == 2 {
        Class::Elf64
    } else {
        Class::Unknown(b)
    }
}

pub fn decode_data_encoding(b: u8) -> (r: DataEncoding)
    ensures
        r == spec_decode_data_encoding(b),
{
    if b == 0 {
        DataEncoding::NotSet
    } else if b == 1 {
        DataEncoding::LittleEndian
    } else if b == 2 {
        DataEncoding::BigEndian
    } else {
        DataEncoding::Unknown(b)
    }
}

pub fn decode_ident_version(b: u8) -> (r: IdentVersion)
    ensures
        r == spec_decode_ident_version(b),
{
    if b == 0 {
        IdentVersion::NotSet
    } else if b == 1 {
        IdentVersion::Current
    } else {
        IdentVersion::Unknown(b)
    }
}

pub fn decode_os_abi(b: u8) -> (r: OsAbi)
    ensures
        r == spec_decode_os_abi(b),
{
    if b == 0 {
        OsAbi::SysV
    } else if b == 1 {
        OsAbi::HpUx
    } else if b == 2 {
        OsAbi::NetBsd
    } else if b == 3 {
        OsAbi::Gnu
    } else if b == 6 {
        OsAbi::Solaris
    } else if b == 7 {
        OsAbi::Aix
    } else if b == 8 {
        OsAbi::Irix
    } else if b == 9 {
        OsAbi::FreeBsd
    } else if b == 10 {
        OsAbi::Tru64
    } else if b == 11 {
        OsAbi::Modesto
    } else if b == 12 {
        OsAbi::OpenBsd
    } else if b == 64 {
        OsAbi::ArmAeabi
    } else if b == 97 {
        OsAbi::Arm
    } else if b == 255 {
        OsAbi::Standalone
    } else {
        OsAbi::Unknown(b)
    }
}

pub fn decode_header_type(v: u16) -> (r: HeaderType)
    ensures
        r == spec_decode_header_type(v),
{
    if v == 0 {
        HeaderType::NotSet
    } else if v == 1 {
        HeaderType::Relocatable
    } else if v == 2 {
        HeaderType::Executable
    } else if v == 3 {
        HeaderType::SharedObject
    } else if v == 4 {
        HeaderType::Core
    } else if 0xff00 <= v {
        HeaderType::ProcessorSpecific(v)
    } else {
        HeaderType::Unknown(v)
    }
}

/// Header-type decoding is total: every two-byte value falls into exactly
/// one of the named variants, the processor-specific range, or the unknown
/// fallback.
pub proof fn lemma_header_type_total()
    ensures
        forall|v: u16|
            #[trigger] spec_decode_header_type(v) == if v == 0 {
                HeaderType::NotSet
            } else if v == 1 {
                HeaderType::Relocatable
            } else if v == 2 {
                HeaderType::Executable
            } else if v == 3 {
                HeaderType::SharedObject
            } else if v == 4 {
                HeaderType::Core
            } else if 0xff00 <= v {
                HeaderType::ProcessorSpecific(v)
            } else {
                HeaderType::Unknown(v)
            },
{
}

} // verus!
