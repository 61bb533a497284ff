//! The symbol resolver: reads the name of each entry of a symbol table from
//! the companion string table.

use crate::strtab::{lookup_name, name_at, strtab_entries, strtab_len};
use crate::symbol::{symbol_views, RawSymbol, ResolvedSym, ResolvedSymView};
use goblin::strtab::Strtab;
use vstd::prelude::*;

verus! {

/// The symbol that the entry `raw` resolves to: its name is the string at the
/// offset that the entry gives, or `fallback` where there is none, and it has
/// no version yet.
pub open spec fn resolved_symbol(
    raw: RawSymbol,
    names: Map<usize, Seq<char>>,
    fallback: Seq<char>,
) -> ResolvedSymView {
    ResolvedSymView { name: name_at(names, raw.st_name, fallback), version: None, info: raw }
}

/// The symbols that a table of raw entries resolves to: one per entry, in the
/// order of the entries.
pub open spec fn resolved(
    raw: Seq<RawSymbol>,
    names: Map<usize, Seq<char>>,
    fallback: Seq<char>,
) -> Seq<ResolvedSymView> {
    Seq::new(raw.len(), |i: int| resolved_symbol(raw[i], names, fallback))
}

/// Every symbol whose name offset lies beyond a string table of `len` bytes
/// is called by `fallback`.
pub open spec fn placeholders_beyond(
    raw: Seq<RawSymbol>,
    len: nat,
    syms: Seq<ResolvedSymView>,
    fallback: Seq<char>,
) -> bool {
    forall|i: int|
        0 <= i < raw.len() && 0 <= i < syms.len() && raw[i].st_name > len
            ==> (#[trigger] syms[i]).name == fallback
}

/// Resolves the name of every entry of `raw` through `table`. The result has
/// one symbol per entry, in the same order; none is dropped, moved or merged.
/// An entry whose name cannot be read is called by `fallback`, and the others
/// are not affected by it.
pub fn resolve_symbols<'a>(raw: &Vec<RawSymbol>, table: &Strtab<'a>, fallback: &'a str) -> (syms:
    Vec<ResolvedSym<'a>>)
    ensures
        symbol_views(syms@) == resolved(raw@, strtab_entries(*table), fallback@),
        syms@.len() == raw@.len(),
        forall|i: int| 0 <= i < raw@.len() ==> (#[trigger] syms@[i]).info == raw@[i],
        placeholders_beyond(raw@, strtab_len(*table), symbol_views(syms@), fallback@),
{
    let mut syms: Vec<ResolvedSym<'a>> = Vec::new();
    let mut i: usize = 0;
    while i < raw.len()
        invariant
            i <= raw.len(),
            syms.len() == i,
            forall|k: int|
                0 <= k < i ==> (#[trigger] syms[k])@ == resolved_symbol(
                    raw[k],
                    strtab_entries(*table),
                    fallback@,
                ),
            forall|k: int|
                0 <= k < i && raw[k].st_name > strtab_len(*table) ==> (#[trigger] syms[k]).symbol@
                    == fallback@,
        decreases raw.len() - i,
    {
        let entry = raw[i];
        let name = lookup_name(table, entry.st_name, fallback);
        syms.push(ResolvedSym { symbol: name, version: None, info: entry });
        i = i + 1;
    }
    syms
}

} // verus!
