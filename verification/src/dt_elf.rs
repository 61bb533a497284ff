//! The listing of a dynamically linked image: the dynamic symbols of an image
//! that names a program interpreter, under the names that the dynamic string
//! table has for them. No session is kept and no versions are attached.

pub use crate::disasm::has_debug;

use crate::format::{display_symbol_table, table_text};
use crate::loader::{
    dynamic_strings, dynamic_symbols, elf_view, has_elf_header, has_interpreter, parsed_elf,
    ElfView, ParseError,
};
use crate::resolver::{placeholders_beyond, resolve_symbols, resolved};
use crate::symbol::{symbol_views, ResolvedSym, ResolvedSymView};
use goblin::elf::Elf;
use vstd::prelude::*;
use vstd::string::*;

verus! {

/// The text that stands in this listing for a name that could not be read.
pub open spec fn retrieve_failed() -> Seq<char> {
    "<FAILED TO RETRIEVE>"@
}

/// The text that stands in this listing for a name that could not be read.
pub fn retrieve_failed_str() -> (s: &'static str)
    ensures
        s@ == retrieve_failed(),
{
    "<FAILED TO RETRIEVE>"
}

/// The dynamic symbols of an image as this listing shows them: each under
/// the string at its own name offset in the dynamic string table, or under
/// `<FAILED TO RETRIEVE>` where there is none, and without a version.
pub open spec fn listed_symbols(image: ElfView) -> Seq<ResolvedSymView> {
    resolved(image.dynsyms, image.dynstrtab.entries, retrieve_failed())
}

/// The dynamic symbols of a dynamically linked image with their names;
/// nothing for an image without a program interpreter. One symbol comes out
/// per entry of the dynamic table, in the order of the table.
fn resolve_dynamic_symbols<'a>(bin: &Elf<'a>) -> (r: Option<Vec<ResolvedSym<'a>>>)
    ensures
        match r {
            Some(syms) => {
                &&& elf_view(*bin).has_interpreter
                &&& symbol_views(syms@) == listed_symbols(elf_view(*bin))
                &&& placeholders_beyond(
                    elf_view(*bin).dynsyms,
                    elf_view(*bin).dynstrtab.len,
                    symbol_views(syms@),
                    retrieve_failed(),
                )
            },
            None => !elf_view(*bin).has_interpreter,
        },
{
    if !has_interpreter(bin) {
        None
    } else {
        let raw = dynamic_symbols(bin);
        Some(resolve_symbols(&raw, dynamic_strings(bin), retrieve_failed_str()))
    }
}

/// The listing of a dynamically linked image: the table of its dynamic
/// symbols; the empty text for an image without a program interpreter.
pub open spec fn linked_listing(image: ElfView) -> Seq<char> {
    if image.has_interpreter {
        table_text(listed_symbols(image), ".dynsym"@)
    } else {
        Seq::empty()
    }
}

/// Lists the dynamic symbols of the ELF image in `bytes`. Every image that is
/// accepted has a listing: that of an image without a program interpreter, and
/// that of an image without dynamic symbols, is the empty text. Bytes that are
/// not accepted as an ELF image give an error, and no other bytes do.
pub fn get_all_syms(bytes: &[u8]) -> (r: Result<String, ParseError>)
    ensures
        match parsed_elf(bytes@) {
            Some(image) => r matches Ok(listing) && listing@ == linked_listing(image),
            None => r is Err,
        },
        r is Ok ==> has_elf_header(bytes@),
{
    match Elf::parse(bytes) {
        Ok(bin) => match resolve_dynamic_symbols(&bin) {
            Some(dynsyms_resolved) => Ok(display_symbol_table(&dynsyms_resolved, ".dynsym")),
            None => Ok(String::new()),
        },
        Err(e) => Err(ParseError::from_parser(&e)),
    }
}

} // verus!
