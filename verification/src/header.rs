//! Header parser: validates a byte buffer and materializes the typed
//! 64-bit ELF header record.
//!
//! The buffer must hold at least the fixed header size; its first four
//! bytes must be the magic signature. Multi-byte scalars are read as
//! little-endian unsigned integers of their declared width.

use vstd::prelude::*;

use crate::fields::Class;
use crate::fields::DataEncoding;
use crate::fields::HeaderType;
use crate::fields::IdentVersion;
use crate::fields::OsAbi;
use crate::fields::decode_class;
use crate::fields::decode_data_encoding;
use crate::fields::decode_header_type;
use crate::fields::decode_ident_version;
use crate::fields::decode_os_abi;
use crate::fields::spec_decode_class;
use crate::fields::spec_decode_data_encoding;
use crate::fields::spec_decode_header_type;
use crate::fields::spec_decode_ident_version;
use crate::fields::spec_decode_os_abi;

verus! {

/// Size in bytes of the identification block at the start of the header.
pub const IDENT_SIZE: usize = 16;

/// Size in bytes of the whole fixed 64-bit ELF header.
pub const HEADER_SIZE: usize = 64;

/// Why a buffer failed to parse: too short, or not an ELF file at all.
#[derive(Clone, Copy, Debug, PartialEq, Eq, Structural)]
pub enum ParseError {
    TruncatedInput,
    NotAnElfFile,
}

/// The little-endian 16-bit value stored at offset `i` of `s`.
pub open spec fn le16_at(s: Seq<u8>, i: int) -> u16
    recommends
        0 <= i,
        i + 2 <= s.len(),
{
    (s[i] + s[i + 1] * 0x100) as u16
}

/// The little-endian 32-bit value stored at offset `i` of `s`.
pub open spec fn le32_at(s: Seq<u8>, i: int) -> u32
    recommends
        0 <= i,
        i + 4 <= s.len(),
{
    (s[i] + s[i + 1] * 0x100 + s[i + 2] * 0x1_0000 + s[i + 3] * 0x100_0000) as u32
}

/// The little-endian 64-bit value stored at offset `i` of `s`.
pub open spec fn le64_at(s: Seq<u8>, i: int) -> u64
    recommends
        0 <= i,
        i + 8 <= s.len(),
{
    (s[i] + s[i + 1] * 0x100 + s[i + 2] * 0x1_0000 + s[i + 3] * 0x100_0000 + s[i + 4]
        * 0x1_0000_0000 + s[i + 5] * 0x100_0000_0000 + s[i + 6] * 0x1_0000_0000_0000 + s[i + 7]
        * 0x100_0000_0000_0000) as u64
}

/// Whether the first four bytes of `s` are the ELF magic signature.
pub open spec fn spec_magic_ok(s: Seq<u8>) -> bool
    recommends
        s.len() >= 4,
{
    &&& s[0] == 0x7f
    &&& s[1] == 0x45
    &&& s[2] == 0x4c
    &&& s[3] == 0x46
}

pub fn read_le_u16(bytes: &Vec<u8>, i: usize) -> (r: u16)
    requires
        i + 2 <= bytes@.len(),
    ensures
        r == le16_at(bytes@, i as int),
{
    let n: usize = bytes.len();
    proof {
        // the view's length fits in usize, so the index sums cannot wrap
        assert(i + 2 <= n);
    }
    bytes[i] as u16 + bytes[i + 1] as u16 * 0x100
}

pub fn read_le_u32(bytes: &Vec<u8>, i: usize) -> (r: u32)
    requires
        i + 4 <= bytes@.len(),
    ensures
        r == le32_at(bytes@, i as int),
{
    let n: usize = bytes.len();
    proof {
        // the view's length fits in usize, so the index sums cannot wrap
        assert(i + 4 <= n);
    }
    bytes[i] as u32 + bytes[i + 1] as u32 * 0x100 + bytes[i + 2] as u32 * 0x1_0000 + bytes[i
        + 3] as u32 * 0x100_0000
}

pub fn read_le_u64(bytes: &Vec<u8>, i: usize) -> (r: u64)
    requires
        i + 8 <= bytes@.len(),
    ensures
        r == le64_at(bytes@, i as int),
{
    let n: usize = bytes.len();
    proof {
        // the view's length fits in usize, so the index sums cannot wrap
        assert(i + 8 <= n);
    }
    bytes[i] as u64 + bytes[i + 1] as u64 * 0x100 + bytes[i + 2] as u64 * 0x1_0000 + bytes[i
        + 3] as u64 * 0x100_0000 + bytes[i + 4] as u64 * 0x1_0000_0000 + bytes[i + 5] as u64
        * 0x100_0000_0000 + bytes[i + 6] as u64 * 0x1_0000_0000_0000 + bytes[i + 7] as u64
        * 0x100_0000_0000_0000
}

/// The decoded 64-bit ELF header. All fields are copied out of the input
/// buffer: the record borrows nothing once parsing returns.
#[derive(Debug, PartialEq, Eq)]
pub struct Header {
    /// The raw 16-byte identification block, kept for the magic dump line.
    pub ident: Vec<u8>,
    pub class: Class,
    pub data_encoding: DataEncoding,
    pub ident_version: IdentVersion,
    pub os_abi: OsAbi,
    pub abi_version: u8,
    pub file_type: HeaderType,
    pub machine: u16,
    pub version: u32,
    pub entry: u64,
    pub phoff: u64,
    pub shoff: u64,
    pub flags: u32,
    pub ehsize: u16,
    pub phentsize: u16,
    pub phnum: u16,
    pub shentsize: u16,
    pub shnum: u16,
    pub shstrndx: u16,
}

/// Mathematical model of a decoded header.
#[verifier::ext_equal]
pub ghost struct HeaderModel {
    pub ident: Seq<u8>,
    pub class: Class,
    pub data_encoding: DataEncoding,
    pub ident_version: IdentVersion,
    pub os_abi: OsAbi,
    pub abi_version: u8,
    pub file_type: HeaderType,
    pub machine: u16,
    pub version: u32,
    pub entry: u64,
    pub phoff: u64,
    pub shoff: u64,
    pub flags: u32,
    pub ehsize: u16,
    pub phentsize: u16,
    pub phnum: u16,
    pub shentsize: u16,
    pub shnum: u16,
    pub shstrndx: u16,
}

impl View for Header {
    type V = HeaderModel;

    open spec fn view(&self) -> HeaderModel {
        HeaderModel {
            ident: self.ident@,
            class: self.class,
            data_encoding: self.data_encoding,
            ident_version: self.ident_version,
            os_abi: self.os_abi,
            abi_version: self.abi_version,
            file_type: self.file_type,
            machine: self.machine,
            version: self.version,
            entry: self.entry,
            phoff: self.phoff,
            shoff: self.shoff,
            flags: self.flags,
            ehsize: self.ehsize,
            phentsize: self.phentsize,
            phnum: self.phnum,
            shentsize: self.shentsize,
            shnum: self.shnum,
            shstrndx: self.shstrndx,
        }
    }
}

/// A well-formed header model carries the full identification block.
pub open spec fn header_wf(h: HeaderModel) -> bool {
    h.ident.len() == IDENT_SIZE
}

/// `h` is exactly the header that the buffer `s` describes: every field
/// equals the total decoding of its fixed byte range.
pub open spec fn header_matches(h: HeaderModel, s: Seq<u8>) -> bool
    recommends
        s.len() >= HEADER_SIZE,
{
    &&& h.ident == s.subrange(0, IDENT_SIZE as int)
    &&& h.class == spec_decode_class(s[4])
    &&& h.data_encoding == spec_decode_data_encoding(s[5])
    &&& h.ident_version == spec_decode_ident_version(s[6])
    &&& h.os_abi == spec_decode_os_abi(s[7])
    &&& h.abi_version == s[8]
    &&& h.file_type == spec_decode_header_type(le16_at(s, 16))
    &&& h.machine == le16_at(s, 18)
    &&& h.version == le32_at(s, 20)
    &&& h.entry == le64_at(s, 24)
    &&& h.phoff == le64_at(s, 32)
    &&& h.shoff == le64_at(s, 40)
    &&& h.flags == le32_at(s, 48)
    &&& h.ehsize == le16_at(s, 52)
    &&& h.phentsize == le16_at(s, 54)
    &&& h.phnum == le16_at(s, 56)
    &&& h.shentsize == le16_at(s, 58)
    &&& h.shnum == le16_at(s, 60)
    &&& h.shstrndx == le16_at(s, 62)
}

/// Parse the fixed 64-bit ELF header out of `bytes`.
///
/// A buffer shorter than the fixed header size is rejected as truncated,
/// whatever its content; a long enough buffer whose first four bytes are
/// not the magic signature is rejected as not an ELF file, whatever the
/// remaining bytes hold; every other buffer decodes, and decoding itself
/// cannot fail because every field mapping is total.
pub fn parse_header(bytes: &Vec<u8>) -> (r: Result<Header, ParseError>)
    ensures
        r == Err::<Header, ParseError>(ParseError::TruncatedInput) <==> bytes@.len()
            < HEADER_SIZE,
        r == Err::<Header, ParseError>(ParseError::NotAnElfFile) <==> (bytes@.len() >= HEADER_SIZE
            && !spec_magic_ok(bytes@)),
        r is Ok <==> (bytes@.len() >= HEADER_SIZE && spec_magic_ok(bytes@)),
        r is Ok ==> header_wf(r->Ok_0@) && header_matches(r->Ok_0@, bytes@),
{
    if bytes.len() < HEADER_SIZE {
        return Err(ParseError::TruncatedInput);
    }
    if !(bytes[0] == 0x7f && bytes[1] == 0x45 && bytes[2] == 0x4c && bytes[3] == 0x46) {
        return Err(ParseError::NotAnElfFile);
    }
    let mut ident: Vec<u8> = Vec::new();
    let mut i: usize = 0;
    while i < IDENT_SIZE
        invariant
            i <= IDENT_SIZE,
            IDENT_SIZE <= bytes@.len(),
            ident@ == bytes@.subrange(0, i as int),
        decreases IDENT_SIZE - i,
    {
        ident.push(bytes[i]);
        i = i + 1;
        proof {
            assert(ident@ =~= bytes@.subrange(0, i as int));
        }
    }
    let header = Header {
        ident,
        class: decode_class(bytes[4]),
        data_encoding: decode_data_encoding(bytes[5]),
        ident_version: decode_ident_version(bytes[6]),
        os_abi: decode_os_abi(bytes[7]),
        abi_version: bytes[8],
        file_type: decode_header_type(read_le_u16(bytes, 16)),
        machine: read_le_u16(bytes, 18),
        version: read_le_u32(bytes, 20),
        entry: read_le_u64(bytes, 24),
        phoff: read_le_u64(bytes, 32),
        shoff: read_le_u64(bytes, 40),
        flags: read_le_u32(bytes, 48),
        ehsize: read_le_u16(bytes, 52),
        phentsize: read_le_u16(bytes, 54),
        phnum: read_le_u16(bytes, 56),
        shentsize: read_le_u16(bytes, 58),
        shnum: read_le_u16(bytes, 60),
        shstrndx: read_le_u16(bytes, 62),
    };
    Ok(header)
}

/// Decoding is a function of the buffer alone: two header models decoded
/// from the same buffer are identical, field for field.
pub proof fn lemma_parse_deterministic(h1: HeaderModel, h2: HeaderModel, s: Seq<u8>)
    requires
        s.len() >= HEADER_SIZE,
        header_matches(h1, s),
        header_matches(h2, s),
    ensures
        h1 == h2,
{
    assert(h1 =~= h2);
}

} // verus!
