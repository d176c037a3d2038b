use elf_header::fields::Class;
use elf_header::fields::DataEncoding;
use elf_header::fields::HeaderType;
use elf_header::fields::IdentVersion;
use elf_header::fields::OsAbi;
use elf_header::header::HEADER_SIZE;
use elf_header::header::parse_header;
use elf_header::render::class_string;
use elf_header::render::data_encoding_string;
use elf_header::render::dec_u64;
use elf_header::render::header_type_string;
use elf_header::render::hex_byte;
use elf_header::render::hex_u64;
use elf_header::render::hex_u64_pref;
use elf_header::render::ident_version_string;
use elf_header::render::magic_dump;
use elf_header::render::os_abi_string;
use elf_header::render::render_header;

/// A minimal valid 64-byte header: magic, class ELF64, little-endian data,
/// current version, System V OS/ABI, ABI version 0, type EXEC.
fn minimal_header_buf() -> Vec<u8> {
    let mut buf = vec![0u8; HEADER_SIZE];
    buf[0] = 0x7f;
    buf[1] = b'E';
    buf[2] = b'L';
    buf[3] = b'F';
    buf[4] = 2;
    buf[5] = 1;
    buf[6] = 1;
    buf[7] = 0;
    buf[8] = 0;
    buf[16] = 2;
    buf
}

/// The first 64 bytes of a real statically-linked 64-bit ELF executable.
fn real_header_buf() -> Vec<u8> {
    vec![
        0x7f, 0x45, 0x4c, 0x46, 0x02, 0x01, 0x01, 0x00, 0x00, 0x00, 0x00, 0x00, 0x00, 0x00, 0x00,
        0x00, 0x02, 0x00, 0x3e, 0x00, 0x01, 0x00, 0x00, 0x00, 0x20, 0x01, 0x48, 0x00, 0x00, 0x00,
        0x00, 0x00, 0x40, 0x00, 0x00, 0x00, 0x00, 0x00, 0x00, 0x00, 0x18, 0x18, 0x92, 0x07, 0x00,
        0x00, 0x00, 0x00, 0x00, 0x00, 0x00, 0x00, 0x40, 0x00, 0x38, 0x00, 0x06, 0x00, 0x40, 0x00,
        0x10, 0x00, 0x0f, 0x00,
    ]
}

#[test]
fn decimal_rendering() {
    assert_eq!(dec_u64(0).as_str(), "0");
    assert_eq!(dec_u64(7).as_str(), "7");
    assert_eq!(dec_u64(10).as_str(), "10");
    assert_eq!(dec_u64(12345).as_str(), "12345");
    assert_eq!(dec_u64(u64::MAX).as_str(), "18446744073709551615");
}

#[test]
fn hexadecimal_rendering() {
    assert_eq!(hex_u64(0).as_str(), "0");
    assert_eq!(hex_u64(0xabc).as_str(), "abc");
    assert_eq!(hex_u64_pref(0).as_str(), "0x0");
    assert_eq!(hex_u64_pref(0x400078).as_str(), "0x400078");
    assert_eq!(hex_u64_pref(u64::MAX).as_str(), "0xffffffffffffffff");
}

#[test]
fn hex_byte_rendering() {
    assert_eq!(hex_byte(0x00).as_str(), "00");
    assert_eq!(hex_byte(0x0f).as_str(), "0f");
    assert_eq!(hex_byte(0x7f).as_str(), "7f");
    assert_eq!(hex_byte(0xff).as_str(), "ff");
}

#[test]
fn magic_dump_rendering() {
    let bytes = vec![0x7fu8, 0x45, 0x4c, 0x46, 0x02, 0x00];
    assert_eq!(magic_dump(&bytes).as_str(), "7f 45 4c 46 02 00 ");
}

#[test]
fn enum_display_strings() {
    assert_eq!(class_string(Class::NotSet).as_str(), "None");
    assert_eq!(class_string(Class::Elf32).as_str(), "ELF32");
    assert_eq!(class_string(Class::Elf64).as_str(), "ELF64");
    assert_eq!(class_string(Class::Unknown(7)).as_str(), "Unknown (7)");
    assert_eq!(
        data_encoding_string(DataEncoding::LittleEndian).as_str(),
        "2's complement, little endian"
    );
    assert_eq!(
        data_encoding_string(DataEncoding::BigEndian).as_str(),
        "2's complement, big endian"
    );
    assert_eq!(ident_version_string(IdentVersion::Current).as_str(), "1 (current)");
    assert_eq!(header_type_string(HeaderType::NotSet).as_str(), "NONE (No file type)");
    assert_eq!(header_type_string(HeaderType::Relocatable).as_str(), "REL (Relocatable file)");
    assert_eq!(header_type_string(HeaderType::SharedObject).as_str(), "DYN (Shared object file)");
    assert_eq!(header_type_string(HeaderType::Core).as_str(), "CORE (Core file)");
    assert_eq!(
        header_type_string(HeaderType::ProcessorSpecific(0xff00)).as_str(),
        "Processor-specific"
    );
    assert_eq!(header_type_string(HeaderType::Unknown(5)).as_str(), "Unknown file type");
}

#[test]
fn os_abi_display_strings() {
    assert_eq!(os_abi_string(OsAbi::Gnu).as_str(), "GNU ELF");
    assert_eq!(os_abi_string(OsAbi::Standalone).as_str(), "Standalone (embedded) application");
    assert_eq!(os_abi_string(OsAbi::SysV).as_str(), "UNIX - System V");
    assert_eq!(os_abi_string(OsAbi::Unknown(4)).as_str(), "Unknown (4)");
}

#[test]
fn minimal_header_report() {
    let buf = minimal_header_buf();
    let h = parse_header(&buf).unwrap();
    let report = render_header(&h);
    assert!(report.contains("ELF Header:"));
    assert!(report.contains("Class:"));
    assert!(report.contains("ELF64"));
    assert!(report.contains("2's complement, little endian"));
    assert!(report.contains("EXEC (Executable file)"));
    assert!(report.contains("  Class:                             ELF64\n"));
    assert!(report.contains("  Data:                              2's complement, little endian\n"));
    assert!(report.contains("  Type:                              EXEC (Executable file)\n"));
    assert!(report.contains("  Magic:   7f 45 4c 46 02 01 01 00 00 00 00 00 00 00 00 00 \n"));
}

#[test]
fn report_is_identical_on_repeated_decode() {
    let buf = real_header_buf();
    let first = parse_header(&buf).unwrap();
    let second = parse_header(&buf).unwrap();
    assert_eq!(first, second);
    assert_eq!(render_header(&first), render_header(&second));
}

#[test]
fn real_executable_report_offsets() {
    let buf = real_header_buf();
    let phoff = u64::from_le_bytes(buf[32..40].try_into().unwrap());
    let shoff = u64::from_le_bytes(buf[40..48].try_into().unwrap());
    let h = parse_header(&buf).unwrap();
    assert_eq!(h.phoff, phoff);
    assert_eq!(h.shoff, shoff);
    let report = render_header(&h);
    let phoff_line = format!("  Start of program headers:          {} (bytes into file)\n", phoff);
    let shoff_line = format!("  Start of section headers:          {} (bytes into file)\n", shoff);
    assert!(report.contains(&phoff_line));
    assert!(report.contains(&shoff_line));
}

#[test]
fn real_executable_full_report() {
    let buf = real_header_buf();
    let h = parse_header(&buf).unwrap();
    let report = render_header(&h);
    let lines = [
        "ELF Header:",
        "  Magic:   7f 45 4c 46 02 01 01 00 00 00 00 00 00 00 00 00 ",
        "  Class:                             ELF64",
        "  Data:                              2's complement, little endian",
        "  Version:                           1 (current)",
        "  OS/ABI:                            UNIX - System V",
        "  ABI Version:                       0",
        "  Type:                              EXEC (Executable file)",
        "  Machine:                           62",
        "  Version:                           0x1",
        "  Entry point address:               0x480120",
        "  Start of program headers:          64 (bytes into file)",
        "  Start of section headers:          127014936 (bytes into file)",
        "  Flags:                             0x0",
        "  Size of this header:               64 (bytes)",
        "  Size of program headers:           56 (bytes)",
        "  Number of program headers:         6",
        "  Size of section headers:           64 (bytes)",
        "  Number of section headers:         16",
        "  Section header string table index: 15",
    ];
    let expected = lines.join("\n");
    assert_eq!(report.as_str(), expected.as_str());
}
