//! The binary loader: what the library takes from a parsed ELF image.
//!
//! Parsing is the work of the `goblin` crate. The functions here hand its
//! tables to the resolvers as plain values.

use crate::strtab::{strtab_view, StrtabView};
use crate::symbol::RawSymbol;
use crate::version::{need_views, VersionAux, VersionNeed, VersionNeedView};
use goblin::elf::Elf;
use goblin::strtab::Strtab;
use vstd::prelude::*;

verus! {

/// `goblin::elf::Elf`, a parsed ELF image. Its contents are opaque here;
/// `elf_view` names the tables that the library reads from it.
#[verifier::external_type_specification]
#[verifier::external_body]
pub struct ExElf<'a>(Elf<'a>);

/// `goblin::error::Error`, the reason why bytes were not accepted as an ELF
/// image.
#[verifier::external_type_specification]
#[verifier::external_body]
pub struct ExLoadError(goblin::error::Error);

/// The tables of an ELF image that the library reads.
pub struct ElfView {
    /// The entries of the static symbol table, in file order.
    pub syms: Seq<RawSymbol>,
    /// The string table of the static symbols.
    pub strtab: StrtabView,
    /// The entries of the dynamic symbol table, in file order.
    pub dynsyms: Seq<RawSymbol>,
    /// The string table of the dynamic symbols and of the version names.
    pub dynstrtab: StrtabView,
    /// The version identifiers of the dynamic symbols, position by position,
    /// where the image has a version-symbol section.
    pub versym: Option<Seq<u16>>,
    /// The version requirements, where the image has a version-needed
    /// section.
    pub verneed: Option<Seq<VersionNeedView>>,
    /// The strings of the section-name table in table order, where they can
    /// be listed.
    pub section_names: Option<Seq<Seq<char>>>,
    /// Whether the image names a program interpreter, as a dynamically linked
    /// program does.
    pub has_interpreter: bool,
}

/// The tables that the parsed image `bin` holds.
pub uninterp spec fn elf_view(bin: Elf) -> ElfView;

/// The tables of the ELF image that `bytes` hold, or nothing where `bytes` are
/// not accepted as an ELF image.
pub uninterp spec fn parsed_elf(bytes: Seq<u8>) -> Option<ElfView>;

/// The bytes start with a whole ELF header: sixteen identification bytes
/// with the magic number, a class byte for 32 or for 64 bits and a data
/// byte for little or for big endian, in as many bytes as a header of that
/// class takes.
pub open spec fn has_elf_header(bytes: Seq<u8>) -> bool {
    &&& bytes.len() >= 16
    &&& bytes[0] == 0x7f && bytes[1] == 0x45 && bytes[2] == 0x4c && bytes[3] == 0x46
    &&& (bytes[4] == 1 && bytes.len() >= 52) || (bytes[4] == 2 && bytes.len() >= 64)
    &&& bytes[5] == 1 || bytes[5] == 2
}

/// `Elf::parse`: whether bytes are accepted, and the image that comes out,
/// depend on the bytes alone. Bytes that do not start with a whole ELF header
/// are not accepted: the parser reads the header first, and refuses a wrong
/// magic number, an unknown class or data byte, and a header that is cut
/// short. The section-name table of an image that comes out can be listed:
/// the parser has read every string of it, or left it empty.
pub assume_specification<'a>[ Elf::<'a>::parse ](bytes: &'a [u8]) -> (r: Result<
    Elf<'a>,
    goblin::error::Error,
>)
    ensures
        match parsed_elf(bytes@) {
            Some(view) => r matches Ok(bin) && elf_view(bin) == view,
            None => r is Err,
        },
        r is Ok ==> has_elf_header(bytes@),
        r matches Ok(bin) ==> elf_view(bin).section_names is Some,
;

/// The views of a sequence of string slices, position by position.
pub open spec fn str_views(names: Seq<&str>) -> Seq<Seq<char>> {
    Seq::new(names.len(), |i: int| names[i]@)
}

/// The entries of the static symbol table, by `Symtab::iter` on the field
/// `syms`: every entry, in file order, field for field.
#[verifier::external_body]
pub(crate) fn static_symbols(bin: &Elf) -> (syms: Vec<RawSymbol>)
    ensures
        syms@ == elf_view(*bin).syms,
{
    bin.syms.iter().map(|s| RawSymbol {
        st_name: s.st_name,
        st_info: s.st_info,
        st_other: s.st_other,
        st_shndx: s.st_shndx,
        st_value: s.st_value,
        st_size: s.st_size,
    }).collect()
}

/// The entries of the dynamic symbol table, by `Symtab::iter` on the field
/// `dynsyms`: every entry, in file order, field for field.
#[verifier::external_body]
pub(crate) fn dynamic_symbols(bin: &Elf) -> (syms: Vec<RawSymbol>)
    ensures
        syms@ == elf_view(*bin).dynsyms,
{
    bin.dynsyms.iter().map(|s| RawSymbol {
        st_name: s.st_name,
        st_info: s.st_info,
        st_other: s.st_other,
        st_shndx: s.st_shndx,
        st_value: s.st_value,
        st_size: s.st_size,
    }).collect()
}

/// The field `strtab`: the string table of the static symbols.
#[verifier::external_body]
pub(crate) fn static_strings<'b, 'a>(bin: &'b Elf<'a>) -> (table: &'b Strtab<'a>)
    ensures
        strtab_view(*table) == elf_view(*bin).strtab,
{
    &bin.strtab
}

/// The field `dynstrtab`: the string table of the dynamic symbols.
#[verifier::external_body]
pub(crate) fn dynamic_strings<'b, 'a>(bin: &'b Elf<'a>) -> (table: &'b Strtab<'a>)
    ensures
        strtab_view(*table) == elf_view(*bin).dynstrtab,
{
    &bin.dynstrtab
}

/// The version identifiers, by `VersymSection::iter` on the field `versym`:
/// nothing where the image has no such section, else the value of every
/// entry, in file order.
#[verifier::external_body]
pub(crate) fn version_symbols(bin: &Elf) -> (ids: Option<Vec<u16>>)
    ensures
        match ids {
            Some(v) => elf_view(*bin).versym == Some(v@),
            None => elf_view(*bin).versym is None,
        },
{
    bin.versym.as_ref().map(|section| section.iter().map(|v| v.vs_val).collect())
}

/// The version requirements, by `VerneedSection::iter` on the field `verneed`
/// and `Verneed::iter` on each requirement: nothing where the image has no
/// such section, else every requirement with its auxiliary entries, in file
/// order.
#[verifier::external_body]
pub(crate) fn version_needs(bin: &Elf) -> (needs: Option<Vec<VersionNeed>>)
    ensures
        match needs {
            Some(v) => elf_view(*bin).verneed == Some(need_views(v@)),
            None => elf_view(*bin).verneed is None,
        },
{
    bin.verneed.as_ref().map(|section| section.iter().map(|need| VersionNeed {
        vn_file: need.vn_file,
        aux: need.iter().map(|a| VersionAux {
            vna_other: a.vna_other,
            vna_name: a.vna_name,
        }).collect(),
    }).collect())
}

/// The strings of the section-name table, by `Strtab::to_vec` on the field
/// `shdr_strtab`: in table order, or the error that kept them from being
/// listed.
#[verifier::external_body]
pub(crate) fn section_names<'a>(bin: &Elf<'a>) -> (r: Result<Vec<&'a str>, goblin::error::Error>)
    ensures
        match elf_view(*bin).section_names {
            Some(names) => r matches Ok(v) && str_views(v@) == names,
            None => r is Err,
        },
{
    bin.shdr_strtab.to_vec()
}

/// The field `interpreter`: whether the image names a program interpreter.
#[verifier::external_body]
pub(crate) fn has_interpreter(bin: &Elf) -> (r: bool)
    ensures
        r == elf_view(*bin).has_interpreter,
{
    bin.interpreter.is_some()
}

/// Why bytes were not accepted as an ELF image.
#[derive(Debug, Clone)]
pub struct ParseError {
    /// What the parser said.
    pub message: String,
}

/// `message` is the text that the parser's error `e` shows itself as.
pub open spec fn is_message_of(e: goblin::error::Error, message: String) -> bool {
    vstd::string::to_string_from_display_ensures::<goblin::error::Error>(&e, message)
}

impl ParseError {
    /// The error of the library that stands for the parser's error `e`: its
    /// message is the text that `e` shows itself as.
    pub(crate) fn from_parser(e: &goblin::error::Error) -> (r: ParseError)
        ensures
            is_message_of(*e, r.message),
    {
        ParseError { message: e.to_string() }
    }

    /// The message as a string of its own.
    pub fn to_text(&self) -> (s: String)
        ensures
            s@ == self.message@,
    {
        self.message.clone()
    }
}

} // verus!
