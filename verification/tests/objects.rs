//! End-to-end tests on hand-built object files: the patches the policy
//! engine emits are applied to the raw bytes, and the result is inspected
//! byte by byte.

use symtool::config::Config;
use symtool::transform::transform;

fn strings(ss: &[&str]) -> Vec<String> {
    ss.iter().map(|s| s.to_string()).collect()
}

fn pairs(ps: &[(&str, &str)]) -> Vec<(String, String)> {
    ps.iter().map(|(a, b)| (a.to_string(), b.to_string())).collect()
}

fn config(
    renames: &[(&str, &str)],
    hidden: Option<&[&str]>,
    default: Option<&[&str]>,
) -> Config {
    Config::build(
        false,
        &pairs(renames),
        &hidden.map(|h| strings(h)),
        &default.map(|d| strings(d)),
    )
    .ok()
    .expect("configuration should be valid")
}

fn le16(v: &mut Vec<u8>, x: u16) {
    v.extend_from_slice(&x.to_le_bytes());
}

fn le32(v: &mut Vec<u8>, x: u32) {
    v.extend_from_slice(&x.to_le_bytes());
}

fn le64(v: &mut Vec<u8>, x: u64) {
    v.extend_from_slice(&x.to_le_bytes());
}

/// A minimal 64-bit little-endian ELF relocatable object with one symbol
/// table holding the null entry and one global symbol named `foo` with
/// default visibility (st_other = 0).
///
/// Layout: ehdr 0..64, symtab 64..112, strtab 112..117 ("\0foo\0"),
/// padding to 120, three section headers 120..312.
fn elf_with_foo() -> Vec<u8> {
    let mut v = Vec::new();
    // e_ident
    v.extend_from_slice(&[0x7f, b'E', b'L', b'F', 2, 1, 1, 0, 0, 0, 0, 0, 0, 0, 0, 0]);
    le16(&mut v, 1); // e_type = ET_REL
    le16(&mut v, 0x3e); // e_machine = x86-64
    le32(&mut v, 1); // e_version
    le64(&mut v, 0); // e_entry
    le64(&mut v, 0); // e_phoff
    le64(&mut v, 120); // e_shoff
    le32(&mut v, 0); // e_flags
    le16(&mut v, 64); // e_ehsize
    le16(&mut v, 0); // e_phentsize
    le16(&mut v, 0); // e_phnum
    le16(&mut v, 64); // e_shentsize
    le16(&mut v, 3); // e_shnum
    le16(&mut v, 2); // e_shstrndx
    assert_eq!(v.len(), 64);
    // symtab entry 0: the null symbol
    v.extend_from_slice(&[0u8; 24]);
    // symtab entry 1: name offset 1 ("foo"), global, st_other = 0 (default)
    le32(&mut v, 1); // st_name
    v.push(0x10); // st_info: GLOBAL | NOTYPE
    v.push(0); // st_other
    le16(&mut v, 0); // st_shndx
    le64(&mut v, 0); // st_value
    le64(&mut v, 0); // st_size
    assert_eq!(v.len(), 112);
    // strtab
    v.extend_from_slice(b"\0foo\0");
    v.extend_from_slice(&[0u8; 3]); // padding
    assert_eq!(v.len(), 120);
    // section header 0: null
    v.extend_from_slice(&[0u8; 64]);
    // section header 1: .symtab
    le32(&mut v, 0); // sh_name
    le32(&mut v, 2); // sh_type = SHT_SYMTAB
    le64(&mut v, 0); // sh_flags
    le64(&mut v, 0); // sh_addr
    le64(&mut v, 64); // sh_offset
    le64(&mut v, 48); // sh_size
    le32(&mut v, 2); // sh_link -> strtab section
    le32(&mut v, 1); // sh_info
    le64(&mut v, 8); // sh_addralign
    le64(&mut v, 24); // sh_entsize
    // section header 2: .strtab
    le32(&mut v, 0); // sh_name
    le32(&mut v, 3); // sh_type = SHT_STRTAB
    le64(&mut v, 0); // sh_flags
    le64(&mut v, 0); // sh_addr
    le64(&mut v, 112); // sh_offset
    le64(&mut v, 5); // sh_size
    le32(&mut v, 0); // sh_link
    le32(&mut v, 0); // sh_info
    le64(&mut v, 1); // sh_addralign
    le64(&mut v, 0); // sh_entsize
    assert_eq!(v.len(), 312);
    v
}

/// A minimal 64-bit little-endian Mach-O object with one debug-only (stab)
/// entry named `dbg` and one regular external entry named `baz`.
///
/// Layout: header 0..32, LC_SYMTAB 32..56, two nlist_64 56..88 (the debug
/// entry first), strtab 88..97 ("\0baz\0dbg\0").
fn macho_with_debug_and_baz() -> Vec<u8> {
    let mut v = Vec::new();
    le32(&mut v, 0xfeed_facf); // magic: 64-bit
    le32(&mut v, 0x0100_0007); // cputype: x86-64
    le32(&mut v, 3); // cpusubtype
    le32(&mut v, 1); // filetype: MH_OBJECT
    le32(&mut v, 1); // ncmds
    le32(&mut v, 24); // sizeofcmds
    le32(&mut v, 0); // flags
    le32(&mut v, 0); // reserved
    assert_eq!(v.len(), 32);
    // LC_SYMTAB
    le32(&mut v, 0x2); // cmd
    le32(&mut v, 24); // cmdsize
    le32(&mut v, 56); // symoff
    le32(&mut v, 2); // nsyms
    le32(&mut v, 88); // stroff
    le32(&mut v, 9); // strsize
    assert_eq!(v.len(), 56);
    // nlist 0: debug (stab) entry named "dbg"
    le32(&mut v, 5); // n_strx
    v.push(0x64); // n_type: N_SO, stab bits set
    v.push(1); // n_sect
    le16(&mut v, 0); // n_desc
    le64(&mut v, 0); // n_value
    // nlist 1: regular entry named "baz"
    le32(&mut v, 1); // n_strx
    v.push(0x0f); // n_type: N_SECT | N_EXT
    v.push(1); // n_sect
    le16(&mut v, 0); // n_desc
    le64(&mut v, 0); // n_value
    assert_eq!(v.len(), 88);
    v.extend_from_slice(b"\0baz\0dbg\0");
    assert_eq!(v.len(), 97);
    v
}

fn run_on_elf(bytes: &[u8], cfg: &Config) -> Vec<u8> {
    let elf = goblin::elf::Elf::parse(bytes).expect("the test object should parse");
    let object = symtool_backend::object::Object::Elf(Box::new(elf));
    let patches = transform(bytes, object, cfg).expect("the transform should succeed");
    let mut out = bytes.to_vec();
    for p in &patches {
        p.apply(&mut out);
    }
    out
}

fn run_on_macho(bytes: &[u8], cfg: &Config) -> Vec<u8> {
    let macho = goblin::mach::MachO::parse(bytes, 0).expect("the test object should parse");
    let object = symtool_backend::object::Object::MachO(Box::new(macho));
    let patches = transform(bytes, object, cfg).expect("the transform should succeed");
    let mut out = bytes.to_vec();
    for p in &patches {
        p.apply(&mut out);
    }
    out
}

#[test]
fn elf_rename_and_hide_patches_name_and_visibility_in_place() {
    let bytes = elf_with_foo();
    let cfg = config(&[("foo", "bar")], Some(&["^foo$"]), None);
    let out = run_on_elf(&bytes, &cfg);
    // Length preserved.
    assert_eq!(out.len(), bytes.len());
    // The three name bytes became "bar" in place.
    assert_eq!(&out[113..116], b"bar");
    // The symbol's st_other byte became STV_HIDDEN.
    assert_eq!(out[93], 2);
    // Nothing else changed.
    for i in 0..out.len() {
        if i != 113 && i != 114 && i != 115 && i != 93 {
            assert_eq!(out[i], bytes[i], "byte {} changed unexpectedly", i);
        }
    }
}

#[test]
fn elf_without_matches_is_left_alone() {
    let bytes = elf_with_foo();
    let cfg = config(&[("nope", "nop")], Some(&["^nothing$"]), None);
    let out = run_on_elf(&bytes, &cfg);
    assert_eq!(out, bytes);
}

#[test]
fn macho_hide_all_touches_only_the_regular_entry() {
    let bytes = macho_with_debug_and_baz();
    let cfg = config(&[], Some(&[".*"]), None);
    let out = run_on_macho(&bytes, &cfg);
    assert_eq!(out.len(), bytes.len());
    // The regular entry's n_type gained the private-extern bit.
    assert_eq!(out[76], 0x1f);
    // Everything else, the debug entry included, is untouched.
    for i in 0..out.len() {
        if i != 76 {
            assert_eq!(out[i], bytes[i], "byte {} changed unexpectedly", i);
        }
    }
}

#[test]
fn macho_default_clears_the_private_extern_bit() {
    let bytes = macho_with_debug_and_baz();
    let hidden = run_on_macho(&bytes, &config(&[], Some(&["^baz$"]), None));
    assert_eq!(hidden[76], 0x1f);
    // A name matching both sets ends up default: the bit is cleared again.
    let both = run_on_macho(&hidden, &config(&[], Some(&["^baz$"]), Some(&["^baz$"])));
    assert_eq!(both[76], 0x0f);
    assert_eq!(both, bytes);
}

#[test]
fn hiding_twice_is_byte_identical_to_hiding_once() {
    let bytes = elf_with_foo();
    let cfg = config(&[], Some(&["^foo$"]), None);
    let once = run_on_elf(&bytes, &cfg);
    let twice = run_on_elf(&once, &cfg);
    assert_eq!(twice, once);

    let bytes = macho_with_debug_and_baz();
    let cfg = config(&[], Some(&[".*"]), None);
    let once = run_on_macho(&bytes, &cfg);
    let twice = run_on_macho(&once, &cfg);
    assert_eq!(twice, once);
}

#[test]
fn patch_application_preserves_length() {
    let bytes = elf_with_foo();
    let cfg = config(&[("foo", "ab")], Some(&[".*"]), None);
    let out = run_on_elf(&bytes, &cfg);
    assert_eq!(out.len(), bytes.len());
    // A shorter replacement overwrites only its own bytes; the tail of the
    // original name stays in place, as the patch primitive defines it.
    assert_eq!(&out[113..116], b"abo");
}

#[test]
fn unnamed_elf_symbol_gets_no_patch_even_with_match_all() {
    let bytes = elf_with_foo();
    // The null symbol is unnamed; only `foo` may produce patches. Renaming
    // maps are keyed by name, so the unnamed entry can never be renamed.
    let cfg = config(&[], Some(&[".*"]), None);
    let out = run_on_elf(&bytes, &cfg);
    // Only foo's st_other byte changed.
    for i in 0..out.len() {
        if i != 93 {
            assert_eq!(out[i], bytes[i], "byte {} changed unexpectedly", i);
        }
    }
    assert_eq!(out[93], 2);
}

#[test]
fn malformed_symbol_table_is_a_backend_error() {
    let mut bytes = elf_with_foo();
    // Shrink the symtab section's sh_entsize below a symbol record's size:
    // enumeration must fail and the failure must be propagated.
    bytes[240..248].copy_from_slice(&8u64.to_le_bytes());
    let elf = goblin::elf::Elf::parse(&bytes).expect("the header still parses");
    let object = symtool_backend::object::Object::Elf(Box::new(elf));
    let cfg = config(&[], Some(&[".*"]), None);
    let r = transform(&bytes, object, &cfg);
    assert!(matches!(r, Err(symtool::error::Error::SymTool(_))));
}

#[test]
fn object_without_symbol_table_yields_no_patches() {
    let mut bytes = elf_with_foo();
    // Turn the symtab section into SHT_PROGBITS: there is no symbol table
    // left to patch, and the run succeeds with nothing to do.
    bytes[188..192].copy_from_slice(&1u32.to_le_bytes());
    let out = run_on_elf(&bytes, &config(&[("foo", "bar")], Some(&[".*"]), None));
    assert_eq!(out, bytes);
}

#[test]
fn elf_with_dangling_strtab_link_is_an_error_not_a_crash() {
    let mut bytes = elf_with_foo();
    // Point the symtab's string-table link one past the last section.
    bytes[224..228].copy_from_slice(&3u32.to_le_bytes());
    let elf = goblin::elf::Elf::parse(&bytes).expect("goblin accepts the dangling link");
    let object = symtool_backend::object::Object::Elf(Box::new(elf));
    let r = transform(&bytes, object, &config(&[], Some(&[".*"]), None));
    assert!(matches!(r, Err(symtool::error::Error::SymTool(_))));
}

#[test]
fn elf_symtab_striding_past_the_end_is_an_error_not_a_crash() {
    let mut bytes = elf_with_foo();
    // A stride larger than a record, with a section size that walks the
    // table past the end of the file.
    bytes[216..224].copy_from_slice(&3000u64.to_le_bytes()); // sh_size
    bytes[240..248].copy_from_slice(&1000u64.to_le_bytes()); // sh_entsize
    let elf = goblin::elf::Elf::parse(&bytes).expect("goblin accepts the header");
    let object = symtool_backend::object::Object::Elf(Box::new(elf));
    let r = transform(&bytes, object, &config(&[], Some(&[".*"]), None));
    assert!(matches!(r, Err(symtool::error::Error::SymTool(_))));
}

#[test]
fn macho_symbols_past_the_end_is_an_error_not_a_crash() {
    let mut bytes = macho_with_debug_and_baz();
    // Claim more symbols than the file holds.
    bytes[44..48].copy_from_slice(&4u32.to_le_bytes());
    let macho = goblin::mach::MachO::parse(&bytes, 0).expect("goblin accepts the header");
    let object = symtool_backend::object::Object::MachO(Box::new(macho));
    let r = transform(&bytes, object, &config(&[], Some(&[".*"]), None));
    assert!(matches!(r, Err(symtool::error::Error::SymTool(_))));
}

#[test]
fn empty_configuration_emits_no_patches() {
    let bytes = elf_with_foo();
    let out = run_on_elf(&bytes, &config(&[], None, None));
    assert_eq!(out, bytes);
    let bytes = macho_with_debug_and_baz();
    let out = run_on_macho(&bytes, &config(&[], None, None));
    assert_eq!(out, bytes);
}
