//! Rendering: the human-readable report for a decoded header.
//!
//! Pure formatting with no decision logic. Field order mirrors the
//! header's on-disk order; addresses, offsets given in hexadecimal carry a
//! `0x` prefix, counts and sizes are decimal, enumerations show their
//! display names, and the raw identification block is dumped as two-digit
//! hexadecimal bytes each followed by a space.

use vstd::prelude::*;
use vstd::string::StringExecFns;

use crate::fields::Class;
use crate::fields::DataEncoding;
use crate::fields::HeaderType;
use crate::fields::IdentVersion;
use crate::fields::OsAbi;
use crate::header::Header;
use crate::header::HeaderModel;
use crate::header::HEADER_SIZE;
use crate::header::header_matches;
use crate::header::lemma_parse_deterministic;

verus! {

/// The character for one digit value, decimal or hexadecimal (lowercase).
pub open spec fn digit_char(d: int) -> char
    recommends
        0 <= d < 16,
{
    if d == 0 {
        '0'
    } else if d == 1 {
        '1'
    } else if d == 2 {
        '2'
    } else if d == 3 {
        '3'
    } else if d == 4 {
        '4'
    } else if d == 5 {
        '5'
    } else if d == 6 {
        '6'
    } else if d == 7 {
        '7'
    } else if d == 8 {
        '8'
    } else if d == 9 {
        '9'
    } else if d == 10 {
        'a'
    } else if d == 11 {
        'b'
    } else if d == 12 {
        'c'
    } else if d == 13 {
        'd'
    } else if d == 14 {
        'e'
    } else {
        'f'
    }
}

/// The decimal digits of `n`, most significant first, no leading zeros
/// (a single `'0'` for zero).
pub open spec fn spec_dec(n: nat) -> Seq<char>
    decreases n,
{
    if n < 10 {
        seq![digit_char(n as int)]
    } else {
        spec_dec(n / 10).push(digit_char((n % 10) as int))
    }
}

/// The lowercase hexadecimal digits of `n`, most significant first, no
/// leading zeros (a single `'0'` for zero).
pub open spec fn spec_hex(n: nat) -> Seq<char>
    decreases n,
{
    if n < 16 {
        seq![digit_char(n as int)]
    } else {
        spec_hex(n / 16).push(digit_char((n % 16) as int))
    }
}

/// The hexadecimal digits of `n` behind a `0x` prefix.
pub open spec fn spec_hex_pref(n: nat) -> Seq<char> {
    "0x"@ + spec_hex(n)
}

/// One byte as exactly two lowercase hexadecimal digits.
pub open spec fn spec_hex_byte(b: u8) -> Seq<char> {
    seq![digit_char(b as int / 16), digit_char(b as int % 16)]
}

/// The raw identification bytes, each as two hexadecimal digits followed
/// by one space.
pub open spec fn spec_magic_dump(s: Seq<u8>) -> Seq<char>
    decreases s.len(),
{
    if s.len() == 0 {
        Seq::empty()
    } else {
        spec_magic_dump(s.drop_last()) + spec_hex_byte(s.last()) + seq![' ']
    }
}

pub open spec fn spec_class_string(c: Class) -> Seq<char> {
    match c {
        Class::NotSet => "None"@,
        Class::Elf32 => "ELF32"@,
        Class::Elf64 => "ELF64"@,
        Class::Unknown(b) => "Unknown ("@ + spec_dec(b as nat) + ")"@,
    }
}

pub open spec fn spec_data_encoding_string(d: DataEncoding) -> Seq<char> {
    match d {
        DataEncoding::NotSet => "None"@,
        DataEncoding::LittleEndian => "2's complement, little endian"@,
        DataEncoding::BigEndian => "2's complement, big endian"@,
        DataEncoding::Unknown(b) => "Unknown ("@ + spec_dec(b as nat) + ")"@,
    }
}

pub open spec fn spec_ident_version_string(v: IdentVersion) -> Seq<char> {
    match v {
        IdentVersion::NotSet => "None"@,
        IdentVersion::Current => "1 (current)"@,
        IdentVersion::Unknown(b) => "Unknown ("@ + spec_dec(b as nat) + ")"@,
    }
}

pub open spec fn spec_os_abi_string(a: OsAbi) -> Seq<char> {
    match a {
        OsAbi::SysV => "UNIX - System V"@,
        OsAbi::HpUx => "HP-UX"@,
        OsAbi::NetBsd => "NetBSD"@,
        OsAbi::Gnu => "GNU ELF"@,
        OsAbi::Solaris => "Sun Solaris"@,
        OsAbi::Aix => "IBM AIX"@,
        OsAbi::Irix => "SGI Irix"@,
        OsAbi::FreeBsd => "FreeBSD"@,
        OsAbi::Tru64 => "Compaq TRU64 UNIX"@,
        OsAbi::Modesto => "Novell Modesto"@,
        OsAbi::OpenBsd => "OpenBSD"@,
        OsAbi::ArmAeabi => "ARM EABI"@,
        OsAbi::Arm => "ARM"@,
        OsAbi::Standalone => "Standalone (embedded) application"@,
        OsAbi::Unknown(b) => "Unknown ("@ + spec_dec(b as nat) + ")"@,
    }
}

pub open spec fn spec_header_type_string(t: HeaderType) -> Seq<char> {
    match t {
        HeaderType::NotSet => "NONE (No file type)"@,
        HeaderType::Relocatable => "REL (Relocatable file)"@,
        HeaderType::Executable => "EXEC (Executable file)"@,
        HeaderType::SharedObject => "DYN (Shared object file)"@,
        HeaderType::Core => "CORE (Core file)"@,
        HeaderType::ProcessorSpecific(_) => "Processor-specific"@,
        HeaderType::Unknown(_) => "Unknown file type"@,
    }
}

pub fn digit_str(d: u8) -> (r: &'static str)
    requires
        d < 16,
    ensures
        r@ == seq![digit_char(d as int)],
{
    proof {
        reveal_strlit("0");
        reveal_strlit("1");
        reveal_strlit("2");
        reveal_strlit("3");
        reveal_strlit("4");
        reveal_strlit("5");
        reveal_strlit("6");
        reveal_strlit("7");
        reveal_strlit("8");
        reveal_strlit("9");
        reveal_strlit("a");
        reveal_strlit("b");
        reveal_strlit("c");
        reveal_strlit("d");
        reveal_strlit("e");
        reveal_strlit("f");
    }
    let r: &'static str = if d == 0 {
        "0"
    } else if d == 1 {
        "1"
    } else if d == 2 {
        "2"
    } else if d == 3 {
        "3"
    } else if d == 4 {
        "4"
    } else if d == 5 {
        "5"
    } else if d == 6 {
        "6"
    } else if d == 7 {
        "7"
    } else if d == 8 {
        "8"
    } else if d == 9 {
        "9"
    } else if d == 10 {
        "a"
    } else if d == 11 {
        "b"
    } else if d == 12 {
        "c"
    } else if d == 13 {
        "d"
    } else if d == 14 {
        "e"
    } else {
        "f"
    };
    proof {
        assert(r@ =~= seq![digit_char(d as int)]);
    }
    r
}

/// The decimal rendering of `n`, as `{}` formats an unsigned integer.
pub fn dec_u64(n: u64) -> (r: String)
    ensures
        r@ == spec_dec(n as nat),
    decreases n,
{
    if n < 10 {
        String::from_str(digit_str(n as u8))
    } else {
        let mut s = dec_u64(n / 10);
        s.append(digit_str((n % 10) as u8));
        proof {
            assert(s@ =~= spec_dec(n as nat));
        }
        s
    }
}

/// The bare hexadecimal rendering of `n`, lowercase, without a prefix.
pub fn hex_u64(n: u64) -> (r: String)
    ensures
        r@ == spec_hex(n as nat),
    decreases n,
{
    if n < 16 {
        String::from_str(digit_str(n as u8))
    } else {
        let mut s = hex_u64(n / 16);
        s.append(digit_str((n % 16) as u8));
        proof {
            assert(s@ =~= spec_hex(n as nat));
        }
        s
    }
}

/// The hexadecimal rendering of `n` with a `0x` prefix, as `{:#x}`
/// formats an unsigned integer.
pub fn hex_u64_pref(n: u64) -> (r: String)
    ensures
        r@ == spec_hex_pref(n as nat),
{
    let mut s = String::from_str("0x");
    let digits = hex_u64(n);
    s.append(digits.as_str());
    s
}

/// One byte as two hexadecimal digits, as `{:02x}` formats it.
pub fn hex_byte(b: u8) -> (r: String)
    ensures
        r@ == spec_hex_byte(b),
{
    let mut s = String::from_str(digit_str(b / 16));
    s.append(digit_str(b % 16));
    proof {
        assert(s@ =~= spec_hex_byte(b));
    }
    s
}

/// The identification block dump: each byte as two hexadecimal digits
/// followed by a space.
pub fn magic_dump(ident: &Vec<u8>) -> (r: String)
    ensures
        r@ == spec_magic_dump(ident@),
{
    let mut out = String::new();
    let mut i: usize = 0;
    let n = ident.len();
    while i < n
        invariant
            i <= n,
            n == ident@.len(),
            out@ == spec_magic_dump(ident@.subrange(0, i as int)),
        decreases n - i,
    {
        let b = hex_byte(ident[i]);
        out.append(b.as_str());
        out.append(" ");
        i = i + 1;
        proof {
            reveal_strlit(" ");
            let prefix = ident@.subrange(0, i as int);
            assert(prefix.drop_last() =~= ident@.subrange(0, i - 1));
            assert(prefix.last() == ident@[i - 1]);
            assert(out@ =~= spec_magic_dump(prefix));
        }
    }
    proof {
        assert(ident@.subrange(0, ident@.len() as int) =~= ident@);
    }
    out
}

pub fn class_string(c: Class) -> (r: String)
    ensures
        r@ == spec_class_string(c),
{
    match c {
        Class::NotSet => String::from_str("None"),
        Class::Elf32 => String::from_str("ELF32"),
        Class::Elf64 => String::from_str("ELF64"),
        Class::Unknown(b) => unknown_value_string(b as u64),
    }
}

pub fn data_encoding_string(d: DataEncoding) -> (r: String)
    ensures
        r@ == spec_data_encoding_string(d),
{
    match d {
        DataEncoding::NotSet => String::from_str("None"),
        DataEncoding::LittleEndian => String::from_str("2's complement, little endian"),
        DataEncoding::BigEndian => String::from_str("2's complement, big endian"),
        DataEncoding::Unknown(b) => unknown_value_string(b as u64),
    }
}

pub fn ident_version_string(v: IdentVersion) -> (r: String)
    ensures
        r@ == spec_ident_version_string(v),
{
    match v {
        IdentVersion::NotSet => String::from_str("None"),
        IdentVersion::Current => String::from_str("1 (current)"),
        IdentVersion::Unknown(b) => unknown_value_string(b as u64),
    }
}

pub fn os_abi_string(a: OsAbi) -> (r: String)
    ensures
        r@ == spec_os_abi_string(a),
{
    match a {
        OsAbi::SysV => String::from_str("UNIX - System V"),
        OsAbi::HpUx => String::from_str("HP-UX"),
        OsAbi::NetBsd => String::from_str("NetBSD"),
        OsAbi::Gnu => String::from_str("GNU ELF"),
        OsAbi::Solaris => String::from_str("Sun Solaris"),
        OsAbi::Aix => String::from_str("IBM AIX"),
        OsAbi::Irix => String::from_str("SGI Irix"),
        OsAbi::FreeBsd => String::from_str("FreeBSD"),
        OsAbi::Tru64 => String::from_str("Compaq TRU64 UNIX"),
        OsAbi::Modesto => String::from_str("Novell Modesto"),
        OsAbi::OpenBsd => String::from_str("OpenBSD"),
        OsAbi::ArmAeabi => String::from_str("ARM EABI"),
        OsAbi::Arm => String::from_str("ARM"),
        OsAbi::Standalone => String::from_str("Standalone (embedded) application"),
        OsAbi::Unknown(b) => unknown_value_string(b as u64),
    }
}

pub fn header_type_string(t: HeaderType) -> (r: String)
    ensures
        r@ == spec_header_type_string(t),
{
    match t {
        HeaderType::NotSet => String::from_str("NONE (No file type)"),
        HeaderType::Relocatable => String::from_str("REL (Relocatable file)"),
        HeaderType::Executable => String::from_str("EXEC (Executable file)"),
        HeaderType::SharedObject => String::from_str("DYN (Shared object file)"),
        HeaderType::Core => String::from_str("CORE (Core file)"),
        HeaderType::ProcessorSpecific(_) => String::from_str("Processor-specific"),
        HeaderType::Unknown(_) => String::from_str("Unknown file type"),
    }
}

/// The fallback display for a value outside a named set.
fn unknown_value_string(v: u64) -> (r: String)
    ensures
        r@ == "Unknown ("@ + spec_dec(v as nat) + ")"@,
{
    let mut s = String::from_str("Unknown (");
    let digits = dec_u64(v);
    s.append(digits.as_str());
    s.append(")");
    s
}

/// The full report for a decoded header: title line, then one line per
/// field in on-disk order, with no trailing newline after the last line.
pub open spec fn spec_render(h: HeaderModel) -> Seq<char> {
    "ELF Header:\n  Magic:   "@ + spec_magic_dump(h.ident)
        + "\n  Class:                             "@ + spec_class_string(h.class)
        + "\n  Data:                              "@ + spec_data_encoding_string(h.data_encoding)
        + "\n  Version:                           "@ + spec_ident_version_string(h.ident_version)
        + "\n  OS/ABI:                            "@ + spec_os_abi_string(h.os_abi)
        + "\n  ABI Version:                       "@ + spec_dec(h.abi_version as nat)
        + "\n  Type:                              "@ + spec_header_type_string(h.file_type)
        + "\n  Machine:                           "@ + spec_dec(h.machine as nat)
        + "\n  Version:                           "@ + spec_hex_pref(h.version as nat)
        + "\n  Entry point address:               "@ + spec_hex_pref(h.entry as nat)
        + "\n  Start of program headers:          "@ + spec_dec(h.phoff as nat)
        + " (bytes into file)\n  Start of section headers:          "@ + spec_dec(h.shoff as nat)
        + " (bytes into file)\n  Flags:                             "@ + spec_hex_pref(
        h.flags as nat,
    ) + "\n  Size of this header:               "@ + spec_dec(h.ehsize as nat)
        + " (bytes)\n  Size of program headers:           "@ + spec_dec(h.phentsize as nat)
        + " (bytes)\n  Number of program headers:         "@ + spec_dec(h.phnum as nat)
        + "\n  Size of section headers:           "@ + spec_dec(h.shentsize as nat)
        + " (bytes)\n  Number of section headers:         "@ + spec_dec(h.shnum as nat)
        + "\n  Section header string table index: "@ + spec_dec(h.shstrndx as nat)
}

/// Render the report for `h`.
pub fn render_header(h: &Header) -> (r: String)
    ensures
        r@ == spec_render(h@),
{
    let mut out = String::from_str("ELF Header:\n  Magic:   ");
    let magic = magic_dump(&h.ident);
    out.append(magic.as_str());
    out.append("\n  Class:                             ");
    let class = class_string(h.class);
    out.append(class.as_str());
    out.append("\n  Data:                              ");
    let data = data_encoding_string(h.data_encoding);
    out.append(data.as_str());
    out.append("\n  Version:                           ");
    let iver = ident_version_string(h.ident_version);
    out.append(iver.as_str());
    out.append("\n  OS/ABI:                            ");
    let abi = os_abi_string(h.os_abi);
    out.append(abi.as_str());
    out.append("\n  ABI Version:                       ");
    let abiver = dec_u64(h.abi_version as u64);
    out.append(abiver.as_str());
    out.append("\n  Type:                              ");
    let ftype = header_type_string(h.file_type);
    out.append(ftype.as_str());
    out.append("\n  Machine:                           ");
    let machine = dec_u64(h.machine as u64);
    out.append(machine.as_str());
    out.append("\n  Version:                           ");
    let version = hex_u64_pref(h.version as u64);
    out.append(version.as_str());
    out.append("\n  Entry point address:               ");
    let entry = hex_u64_pref(h.entry);
    out.append(entry.as_str());
    out.append("\n  Start of program headers:          ");
    let phoff = dec_u64(h.phoff);
    out.append(phoff.as_str());
    out.append(" (bytes into file)\n  Start of section headers:          ");
    let shoff = dec_u64(h.shoff);
    out.append(shoff.as_str());
    out.append(" (bytes into file)\n  Flags:                             ");
    let flags = hex_u64_pref(h.flags as u64);
    out.append(flags.as_str());
    out.append("\n  Size of this header:               ");
    let ehsize = dec_u64(h.ehsize as u64);
    out.append(ehsize.as_str());
    out.append(" (bytes)\n  Size of program headers:           ");
    let phentsize = dec_u64(h.phentsize as u64);
    out.append(phentsize.as_str());
    out.append(" (bytes)\n  Number of program headers:         ");
    let phnum = dec_u64(h.phnum as u64);
    out.append(phnum.as_str());
    out.append("\n  Size of section headers:           ");
    let shentsize = dec_u64(h.shentsize as u64);
    out.append(shentsize.as_str());
    out.append(" (bytes)\n  Number of section headers:         ");
    let shnum = dec_u64(h.shnum as u64);
    out.append(shnum.as_str());
    out.append("\n  Section header string table index: ");
    let shstrndx = dec_u64(h.shstrndx as u64);
    out.append(shstrndx.as_str());
    proof {
        assert(out@ =~= spec_render(h@));
    }
    out
}

/// Decoding then rendering is deterministic: two headers decoded from the
/// same buffer agree field for field and render to identical text.
pub proof fn lemma_decode_render_deterministic(h1: HeaderModel, h2: HeaderModel, s: Seq<u8>)
    requires
        s.len() >= HEADER_SIZE,
        header_matches(h1, s),
        header_matches(h2, s),
    ensures
        h1 == h2,
        spec_render(h1) == spec_render(h2),
{
    lemma_parse_deterministic(h1, h2, s);
}

} // verus!
