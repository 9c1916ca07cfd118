//! Drive the policy over a decoded object: enumerate its symbol table, decide
//! each symbol, and accumulate the ordered list of byte patches. The decoding,
//! enumeration and patch primitives are symtool-backend's; every decision
//! between them is made here, and the emitted patch list is pinned, patch by
//! patch, to what the policy owes for the object's entries.

use vstd::prelude::*;
use crate::config::Config;
use crate::error::Error;
use crate::policy::{decide, spec_new_flags, spec_new_name};
use crate::record::SymbolFlags;

verus! {

/// goblin's decoded ELF object, carried opaquely.
#[verifier::external_type_specification]
#[verifier::external_body]
pub struct ExElf<'a>(goblin::elf::Elf<'a>);

/// goblin's decoded Mach-O object, carried opaquely.
#[verifier::external_type_specification]
#[verifier::external_body]
pub struct ExMachO<'a>(goblin::mach::MachO<'a>);

/// goblin's ELF symbol record, carried opaquely; only its `st_other` byte is
/// read, and only that byte is replaced when a patch is built.
#[verifier::external_type_specification]
#[verifier::external_body]
pub struct ExSym(goblin::elf::sym::Sym);

/// goblin's Mach-O symbol record, carried opaquely; only its `n_type` byte is
/// read and replaced.
#[verifier::external_type_specification]
#[verifier::external_body]
pub struct ExNlist(goblin::mach::symbols::Nlist);

/// symtool-backend's decoded object: one variant per supported format.
#[verifier::external_type_specification]
#[verifier::external_body]
pub struct ExObject<'a>(symtool_backend::object::Object<'a>);

/// The ELF symbol-table enumerator, held opaquely. (symtool-backend)
#[verifier::external_body]
pub struct ElfSymtab<'a> {
    inner: symtool_backend::elf::SymtabIter<'a>,
}

/// The Mach-O symbol-table enumerator, held opaquely. (symtool-backend)
#[verifier::external_body]
pub struct MachSymtab<'a> {
    inner: symtool_backend::mach::SymtabIter<'a>,
}

/// symtool-backend's located value: a value rooted at the byte span it was
/// decoded from, from which a patch over exactly that span can be built.
#[verifier::external_type_specification]
#[verifier::external_body]
#[verifier::reject_recursive_types(T)]
pub struct ExRooted<T>(symtool_backend::patch::Rooted<T>);

/// symtool-backend's patch: one byte range of the original buffer and the
/// replacement bytes for it, never longer than the range.
#[verifier::external_type_specification]
#[verifier::external_body]
pub struct ExPatch(symtool_backend::patch::Patch);

/// The entries an enumerator has yet to yield, each as the plain values the
/// policy reads: the optional name and the record's flag byte.
pub uninterp spec fn elf_entries(it: ElfSymtab) -> Seq<(Option<Seq<char>>, u8)>;

/// As `elf_entries`, for the Mach-O enumerator.
pub uninterp spec fn mach_entries(it: MachSymtab) -> Seq<(Option<Seq<char>>, u8)>;

/// The entries of the object's static ELF symbol table, a function of the
/// buffer and the decoded object alone; None when the object has no such
/// table.
pub uninterp spec fn elf_symbol_entries(bytes: Seq<u8>, elf: goblin::elf::Elf) -> Option<
    Seq<(Option<Seq<char>>, u8)>,
>;

/// As `elf_symbol_entries`, for a Mach-O binary's symbol table.
pub uninterp spec fn mach_symbol_entries(bytes: Seq<u8>, mach: goblin::mach::MachO) -> Option<
    Seq<(Option<Seq<char>>, u8)>,
>;

/// The byte length of the span a located name reserves in the string table.
pub uninterp spec fn name_span_len(loc: symtool_backend::patch::Rooted<&str>) -> nat;

/// What one emitted patch writes, as the contracts of this crate state it.
pub enum PatchShape {
    /// A rename patch: exactly these bytes, over the old name's span.
    Name(Seq<u8>),
    /// A record patch: the record's re-encoding with this flag byte, over the
    /// record's span.
    Record(u8),
}

/// The content of a backend patch: a rename patch carries its replacement
/// bytes, a record patch the flag byte spliced into the re-encoding.
pub uninterp spec fn patch_shape(p: symtool_backend::patch::Patch) -> PatchShape;

/// The shapes of a patch list, in order.
pub open spec fn shapes_of(ps: Seq<symtool_backend::patch::Patch>) -> Seq<PatchShape> {
    ps.map_values(|p: symtool_backend::patch::Patch| patch_shape(p))
}

/// No patches owed.
pub open spec fn no_shapes() -> Seq<PatchShape> {
    Seq::empty()
}

/// The patches the policy owes for one symbol, in order: the rename patch
/// when the mapping resolves the name, then the record patch when the
/// classifier changed the record; nothing else.
pub open spec fn entry_shapes(cfg: Config, name: Option<Seq<char>>, flags: SymbolFlags) -> Seq<
    PatchShape,
> {
    let renames = match spec_new_name(cfg, name) {
        Option::Some(nn) => seq![PatchShape::Name(vstd::utf8::encode_utf8(nn))],
        Option::None => no_shapes(),
    };
    let records = match spec_new_flags(cfg, name, flags) {
        Option::Some(f) => seq![PatchShape::Record(f.spec_byte())],
        Option::None => no_shapes(),
    };
    renames + records
}

/// The patches the policy owes for a whole entry sequence, entry by entry in
/// order; `elf_format` picks which flag encoding the entries carry.
pub open spec fn expected_shapes(
    cfg: Config,
    entries: Seq<(Option<Seq<char>>, u8)>,
    elf_format: bool,
) -> Seq<PatchShape>
    decreases entries.len(),
{
    if entries.len() == 0 {
        no_shapes()
    } else {
        let flags = if elf_format {
            SymbolFlags::Elf { st_other: entries[0].1 }
        } else {
            SymbolFlags::MachO { n_type: entries[0].1 }
        };
        entry_shapes(cfg, entries[0].0, flags) + expected_shapes(
            cfg,
            entries.drop_first(),
            elf_format,
        )
    }
}

/// Appending one patch appends its shape.
proof fn lemma_shapes_push(ps: Seq<symtool_backend::patch::Patch>, p: symtool_backend::patch::Patch)
    ensures
        shapes_of(ps.push(p)) == shapes_of(ps).push(patch_shape(p)),
{
    assert(shapes_of(ps.push(p)) =~= shapes_of(ps).push(patch_shape(p)));
}

/// With an empty configuration — no renames, no patterns — the policy owes no
/// patch for any entry sequence: the transform is a no-op.
pub proof fn lemma_empty_config_no_shapes(
    cfg: Config,
    entries: Seq<(Option<Seq<char>>, u8)>,
    elf_format: bool,
)
    requires
        cfg.renames.spec_entries() == crate::rename::no_entries(),
        forall|t: Seq<char>| !cfg.force_default.spec_matches(t),
        forall|t: Seq<char>| !cfg.force_hidden.spec_matches(t),
    ensures
        expected_shapes(cfg, entries, elf_format) == no_shapes(),
    decreases entries.len(),
{
    if entries.len() > 0 {
        lemma_empty_config_no_shapes(cfg, entries.drop_first(), elf_format);
        assert(expected_shapes(cfg, entries, elf_format) =~= no_shapes());
    }
}

/// The ELF carried by a decoded object, when it is the ELF variant.
pub uninterp spec fn object_as_elf(o: symtool_backend::object::Object) -> Option<
    goblin::elf::Elf,
>;

/// The Mach-O carried by a decoded object, when it is that variant.
pub uninterp spec fn object_as_macho(o: symtool_backend::object::Object) -> Option<
    goblin::mach::MachO,
>;

/// The decoded object, told apart by format; the policy pipeline is the same
/// for both, only the enumerator and the flag encoding differ.
pub enum DecodedObject<'a> {
    /// An ELF relocatable or linked object.
    Elf(Box<goblin::elf::Elf<'a>>),
    /// A Mach-O binary.
    MachO(Box<goblin::mach::MachO<'a>>),
}

/// Relies on symtool_backend::object::Object: its two variants carry the two
/// decoded formats; they are told apart here and their contents moved.
#[verifier::external_body]
fn split_object<'a>(object: symtool_backend::object::Object<'a>) -> (r: DecodedObject<'a>)
    ensures
        r matches DecodedObject::Elf(elf) ==> object_as_elf(object) == Option::Some(*elf)
            && object_as_macho(object) is None,
        r matches DecodedObject::MachO(m) ==> object_as_macho(object) == Option::Some(*m)
            && object_as_elf(object) is None,
{
    match object {
        symtool_backend::object::Object::Elf(elf) => DecodedObject::Elf(elf),
        symtool_backend::object::Object::MachO(mach) => DecodedObject::MachO(mach),
    }
}

/// Relies on symtool_backend::elf::SymtabIter::symtab_from_elf: finds the
/// object's static symbol table; None when the object has none; an error on a
/// malformed table, handed back as its rendered message. The body first
/// re-checks the section's string-table link and the table's byte range
/// against the buffer, because the backend indexes both unchecked: a file
/// failing either check is reported as an error here, never a panic.
#[verifier::external_body]
fn elf_symtab<'a>(bytes: &'a [u8], elf: &goblin::elf::Elf<'a>) -> (r: Result<
    Option<ElfSymtab<'a>>,
    String,
>)
    ensures
        r matches Ok(Some(it)) ==> elf_symbol_entries(bytes@, *elf) == Option::Some(
            elf_entries(it),
        ),
        r matches Ok(None) ==> elf_symbol_entries(bytes@, *elf) is None,
{
    for h in &elf.section_headers {
        if h.sh_type == goblin::elf::section_header::SHT_SYMTAB {
            if h.sh_link as usize >= elf.section_headers.len()
                || h.sh_offset.checked_add(h.sh_size).map_or(true, |e| e > bytes.len() as u64) {
                return Err("malformed symbol table section".to_string());
            }
            break;
        }
    }
    match symtool_backend::elf::SymtabIter::symtab_from_elf(bytes, elf) {
        Ok(Some(it)) => Ok(Some(ElfSymtab { inner: it })),
        Ok(None) => Ok(None),
        Err(e) => Err(format!("{}", e)),
    }
}

/// Relies on symtool_backend::mach::SymtabIter::from_mach: finds the binary's
/// symbol table from its load commands; None when it has none. The body first
/// checks the command's symbol range against the buffer, because the backend
/// slices it unchecked: a file failing the check is reported as an error,
/// never a panic.
#[verifier::external_body]
fn mach_symtab<'a>(bytes: &'a [u8], mach: &goblin::mach::MachO<'a>) -> (r: Result<
    Option<MachSymtab<'a>>,
    String,
>)
    ensures
        r matches Ok(Some(it)) ==> mach_symbol_entries(bytes@, *mach) == Option::Some(
            mach_entries(it),
        ),
        r matches Ok(None) ==> mach_symbol_entries(bytes@, *mach) is None,
{
    for lc in &mach.load_commands {
        if let goblin::mach::load_command::CommandVariant::Symtab(c) = lc.command {
            let width: u64 = if mach.is_64 { 16 } else { 12 };
            if (c.nsyms as u64).checked_mul(width).and_then(|n| n.checked_add(c.symoff as u64))
                .map_or(true, |e| e > bytes.len() as u64) {
                return Err("malformed symbol table command".to_string());
            }
            break;
        }
    }
    Ok(symtool_backend::mach::SymtabIter::from_mach(bytes, mach).map(|it| MachSymtab { inner: it }))
}

/// One enumerated ELF symbol-table entry: the plain values the policy reads,
/// and the located originals the patches are built from.
pub struct ElfEntry<'a> {
    /// The symbol's name, when it has one.
    pub name: Option<String>,
    /// The record's `st_other` byte.
    pub st_other: u8,
    /// The name's location in the string table, exactly when `name` is there.
    pub name_loc: Option<symtool_backend::patch::Rooted<&'a str>>,
    /// The record's location in the symbol table.
    pub sym_loc: symtool_backend::patch::Rooted<goblin::elf::sym::Sym>,
}

/// One enumerated Mach-O symbol-table entry, as `ElfEntry`.
pub struct MachEntry<'a> {
    /// The symbol's name, when it has one.
    pub name: Option<String>,
    /// The record's `n_type` byte.
    pub n_type: u8,
    /// The name's location in the string table, exactly when `name` is there.
    pub name_loc: Option<symtool_backend::patch::Rooted<&'a str>>,
    /// The record's location in the symbol table.
    pub sym_loc: symtool_backend::patch::Rooted<goblin::mach::symbols::Nlist>,
}

/// Relies on the ELF SymtabIter's next: yields the remaining entries in
/// order, each an optional located name and a located record; the name text
/// and the `st_other` byte are copied out as plain values. The name's span is
/// exactly its own byte length. With the table's range checked at
/// construction, every slice the backend takes stays in bounds.
#[verifier::external_body]
fn elf_next<'a>(it: &mut ElfSymtab<'a>) -> (r: Option<Result<ElfEntry<'a>, String>>)
    ensures
        r is None ==> elf_entries(*old(it)).len() == 0 && elf_entries(*final(it)) == elf_entries(
            *old(it),
        ),
        r is Some ==> elf_entries(*old(it)).len() > 0 && elf_entries(*final(it)) == elf_entries(
            *old(it),
        ).drop_first(),
        r matches Some(Ok(e)) ==> (e.name is Some <==> e.name_loc is Some)
            && e.name.deep_view() == elf_entries(*old(it))[0].0 && e.st_other == elf_entries(
            *old(it),
        )[0].1,
        r matches Some(Ok(e)) ==> (e.name matches Some(s) ==> (e.name_loc matches Some(nl)
            ==> name_span_len(nl) == vstd::utf8::encode_utf8(s@).len())),
{
    match it.inner.next() {
        None => None,
        Some(Err(e)) => Some(Err(format!("{}", e))),
        Some(Ok((name, sym))) => {
            let st_other = sym.st_other;
            let (name_str, name_loc) = match name {
                Some(n) => (Some((*n).to_string()), Some(n)),
                None => (None, None),
            };
            Some(Ok(ElfEntry { name: name_str, st_other, name_loc, sym_loc: sym }))
        },
    }
}

/// Relies on the Mach-O SymtabIter's next, as the ELF one; the `n_type` byte
/// is copied out.
#[verifier::external_body]
fn mach_next<'a>(it: &mut MachSymtab<'a>) -> (r: Option<Result<MachEntry<'a>, String>>)
    ensures
        r is None ==> mach_entries(*old(it)).len() == 0 && mach_entries(*final(it))
            == mach_entries(*old(it)),
        r is Some ==> mach_entries(*old(it)).len() > 0 && mach_entries(*final(it)) == mach_entries(
            *old(it),
        ).drop_first(),
        r matches Some(Ok(e)) ==> (e.name is Some <==> e.name_loc is Some)
            && e.name.deep_view() == mach_entries(*old(it))[0].0 && e.n_type == mach_entries(
            *old(it),
        )[0].1,
        r matches Some(Ok(e)) ==> (e.name matches Some(s) ==> (e.name_loc matches Some(nl)
            ==> name_span_len(nl) == vstd::utf8::encode_utf8(s@).len())),
{
    match it.inner.next() {
        None => None,
        Some(Err(e)) => Some(Err(format!("{}", e))),
        Some(Ok((name, nlist))) => {
            let n_type = nlist.n_type;
            let (name_str, name_loc) = match name {
                Some(n) => (Some((*n).to_string()), Some(n)),
                None => (None, None),
            };
            Some(Ok(MachEntry { name: name_str, n_type, name_loc, sym_loc: nlist }))
        },
    }
}

/// Relies on symtool_backend::patch::Rooted::patch_with_bytes: builds the
/// patch that overwrites the name's reserved span with the replacement bytes;
/// succeeds exactly when they fit the span, and the patch then carries
/// exactly those bytes.
#[verifier::external_body]
fn name_patch(loc: &symtool_backend::patch::Rooted<&str>, new_name: &str) -> (r: Result<
    symtool_backend::patch::Patch,
    String,
>)
    ensures
        r is Ok <==> vstd::utf8::encode_utf8(new_name@).len() <= name_span_len(*loc),
        r matches Ok(p) ==> patch_shape(p) == PatchShape::Name(
            vstd::utf8::encode_utf8(new_name@),
        ),
{
    match loc.patch_with_bytes(new_name.as_bytes()) {
        Ok(p) => Ok(p),
        Err(e) => Err(format!("{}", e)),
    }
}

/// Relies on Rooted::patch_with and goblin's Sym encoder: builds the patch
/// that re-encodes the record over its original span, with the given
/// `st_other` byte and every other field unchanged.
#[verifier::external_body]
fn elf_record_patch(
    loc: &symtool_backend::patch::Rooted<goblin::elf::sym::Sym>,
    st_other: u8,
) -> (r: Result<symtool_backend::patch::Patch, String>)
    ensures
        r matches Ok(p) ==> patch_shape(p) == PatchShape::Record(st_other),
{
    let new_sym = goblin::elf::sym::Sym { st_other, ..(**loc).clone() };
    match loc.patch_with(new_sym) {
        Ok(p) => Ok(p),
        Err(e) => Err(format!("{}", e)),
    }
}

/// Relies on Rooted::patch_with and goblin's Nlist encoder: builds the patch
/// that re-encodes the record over its original span, with the given
/// `n_type` byte and every other field unchanged.
#[verifier::external_body]
fn mach_record_patch(
    loc: &symtool_backend::patch::Rooted<goblin::mach::symbols::Nlist>,
    n_type: u8,
) -> (r: Result<symtool_backend::patch::Patch, String>)
    ensures
        r matches Ok(p) ==> patch_shape(p) == PatchShape::Record(n_type),
{
    let new_nlist = goblin::mach::symbols::Nlist { n_type, ..(**loc).clone() };
    match loc.patch_with(new_nlist) {
        Ok(p) => Ok(p),
        Err(e) => Err(format!("{}", e)),
    }
}

/// Apply the policy to a decoded ELF object: decide every symbol-table entry
/// in order and accumulate its patches, the name patch before the record
/// patch. The emitted list is exactly what the policy owes for the table's
/// entries; every backend failure is propagated, none is swallowed.
pub fn transform_elf<'a>(bytes: &'a [u8], elf: &goblin::elf::Elf<'a>, cfg: &Config) -> (r: Result<
    Vec<symtool_backend::patch::Patch>,
    Error,
>)
    ensures
        r matches Err(e) ==> e.is_backend_error(),
        r matches Ok(ps) ==> match elf_symbol_entries(bytes@, *elf) {
            Option::Some(es) => shapes_of(ps@) == expected_shapes(*cfg, es, true),
            Option::None => ps@.len() == 0,
        },
{
    let mut patches: Vec<symtool_backend::patch::Patch> = Vec::new();
    let mut it = match elf_symtab(bytes, elf) {
        Ok(Some(it)) => it,
        Ok(None) => { return Ok(patches); },
        Err(m) => { return Err(Error::SymTool(m)); },
    };
    let ghost es = elf_entries(it);
    loop
        invariant
            elf_symbol_entries(bytes@, *elf) == Option::Some(es),
            shapes_of(patches@) + expected_shapes(*cfg, elf_entries(it), true) == expected_shapes(
                *cfg,
                es,
                true,
            ),
        ensures
            shapes_of(patches@) == expected_shapes(*cfg, es, true),
        decreases elf_entries(it).len(),
    {
        let ghost pre_entries = elf_entries(it);
        let ghost pre_shapes = shapes_of(patches@);
        let step = elf_next(&mut it);
        match step {
            None => {
                proof {
                    assert(shapes_of(patches@) + no_shapes() =~= shapes_of(patches@));
                }
                break;
            },
            Some(Err(m)) => { return Err(Error::SymTool(m)); },
            Some(Ok(entry)) => {
                let ghost head_flags = SymbolFlags::Elf { st_other: pre_entries[0].1 };
                let flags = SymbolFlags::Elf { st_other: entry.st_other };
                let d = decide(cfg, &entry.name, &flags);
                match (&d.new_name, &entry.name_loc) {
                    (Some(new_name), Some(loc)) => {
                        match name_patch(loc, new_name.as_str()) {
                            Ok(p) => {
                                proof {
                                    lemma_shapes_push(patches@, p);
                                }
                                patches.push(p);
                            },
                            Err(m) => { return Err(Error::SymTool(m)); },
                        }
                    },
                    _ => {},
                }
                if let Some(new_flags) = &d.new_flags {
                    match elf_record_patch(&entry.sym_loc, new_flags.byte()) {
                        Ok(p) => {
                            proof {
                                lemma_shapes_push(patches@, p);
                            }
                            patches.push(p);
                        },
                        Err(m) => { return Err(Error::SymTool(m)); },
                    }
                }
                proof {
                    assert(shapes_of(patches@) =~= pre_shapes + entry_shapes(
                        *cfg,
                        pre_entries[0].0,
                        head_flags,
                    ));
                    assert(shapes_of(patches@) + expected_shapes(*cfg, elf_entries(it), true)
                        =~= expected_shapes(*cfg, es, true));
                }
            },
        }
    }
    Ok(patches)
}

/// Apply the policy to a decoded Mach-O binary, exactly as `transform_elf`.
pub fn transform_macho<'a>(
    bytes: &'a [u8],
    mach: &goblin::mach::MachO<'a>,
    cfg: &Config,
) -> (r: Result<Vec<symtool_backend::patch::Patch>, Error>)
    ensures
        r matches Err(e) ==> e.is_backend_error(),
        r matches Ok(ps) ==> match mach_symbol_entries(bytes@, *mach) {
            Option::Some(es) => shapes_of(ps@) == expected_shapes(*cfg, es, false),
            Option::None => ps@.len() == 0,
        },
{
    let mut patches: Vec<symtool_backend::patch::Patch> = Vec::new();
    let mut it = match mach_symtab(bytes, mach) {
        Ok(Some(it)) => it,
        Ok(None) => { return Ok(patches); },
        Err(m) => { return Err(Error::SymTool(m)); },
    };
    let ghost es = mach_entries(it);
    loop
        invariant
            mach_symbol_entries(bytes@, *mach) == Option::Some(es),
            shapes_of(patches@) + expected_shapes(*cfg, mach_entries(it), false)
                == expected_shapes(*cfg, es, false),
        ensures
            shapes_of(patches@) == expected_shapes(*cfg, es, false),
        decreases mach_entries(it).len(),
    {
        let ghost pre_entries = mach_entries(it);
        let ghost pre_shapes = shapes_of(patches@);
        let step = mach_next(&mut it);
        match step {
            None => {
                proof {
                    assert(shapes_of(patches@) + no_shapes() =~= shapes_of(patches@));
                }
                break;
            },
            Some(Err(m)) => { return Err(Error::SymTool(m)); },
            Some(Ok(entry)) => {
                let ghost head_flags = SymbolFlags::MachO { n_type: pre_entries[0].1 };
                let flags = SymbolFlags::MachO { n_type: entry.n_type };
                let d = decide(cfg, &entry.name, &flags);
                match (&d.new_name, &entry.name_loc) {
                    (Some(new_name), Some(loc)) => {
                        match name_patch(loc, new_name.as_str()) {
                            Ok(p) => {
                                proof {
                                    lemma_shapes_push(patches@, p);
                                }
                                patches.push(p);
                            },
                            Err(m) => { return Err(Error::SymTool(m)); },
                        }
                    },
                    _ => {},
                }
                if let Some(new_flags) = &d.new_flags {
                    match mach_record_patch(&entry.sym_loc, new_flags.byte()) {
                        Ok(p) => {
                            proof {
                                lemma_shapes_push(patches@, p);
                            }
                            patches.push(p);
                        },
                        Err(m) => { return Err(Error::SymTool(m)); },
                    }
                }
                proof {
                    assert(shapes_of(patches@) =~= pre_shapes + entry_shapes(
                        *cfg,
                        pre_entries[0].0,
                        head_flags,
                    ));
                    assert(shapes_of(patches@) + expected_shapes(*cfg, mach_entries(it), false)
                        =~= expected_shapes(*cfg, es, false));
                }
            },
        }
    }
    Ok(patches)
}

/// Apply the policy to one decoded object of either format: the format is
/// told apart once, here, and the same pipeline runs on either; the emitted
/// list is the per-format owed patch list.
pub fn transform<'a>(
    bytes: &'a [u8],
    object: symtool_backend::object::Object<'a>,
    cfg: &Config,
) -> (r: Result<Vec<symtool_backend::patch::Patch>, Error>)
    ensures
        r matches Err(e) ==> e.is_backend_error(),
        r matches Ok(ps) ==> (object_as_elf(object) matches Some(elf)
            ==> match elf_symbol_entries(bytes@, elf) {
                Option::Some(es) => shapes_of(ps@) == expected_shapes(*cfg, es, true),
                Option::None => ps@.len() == 0,
            }),
        r matches Ok(ps) ==> (object_as_macho(object) matches Some(m)
            ==> match mach_symbol_entries(bytes@, m) {
                Option::Some(es) => shapes_of(ps@) == expected_shapes(*cfg, es, false),
                Option::None => ps@.len() == 0,
            }),
{
    let ghost o = object;
    match split_object(object) {
        DecodedObject::Elf(elf) => {
            proof {
                assert(object_as_elf(o) == Option::Some(*elf));
                assert(object_as_macho(o) is None);
            }
            transform_elf(bytes, &*elf, cfg)
        },
        DecodedObject::MachO(mach) => {
            proof {
                assert(object_as_macho(o) == Option::Some(*mach));
                assert(object_as_elf(o) is None);
            }
            transform_macho(bytes, &*mach, cfg)
        },
    }
}

} // verus!
