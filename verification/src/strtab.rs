//! String tables: byte blobs of NUL-terminated strings that symbol and
//! version records refer to by byte offset.

use goblin::strtab::Strtab;
use vstd::prelude::*;

verus! {

/// `goblin::strtab::Strtab`, a parsed string table. Its contents are opaque
/// here; `strtab_entries` and `strtab_len` name what the contracts need of it.
#[verifier::external_type_specification]
#[verifier::external_body]
pub struct ExStrtab<'a>(Strtab<'a>);

/// The string found at each byte offset of the table at which a lookup
/// succeeds.
pub uninterp spec fn strtab_entries(table: Strtab) -> Map<usize, Seq<char>>;

/// The number of bytes that back the table.
pub uninterp spec fn strtab_len(table: Strtab) -> nat;

/// `Strtab::get_at`: the string that the parsed table has at byte `offset`,
/// or nothing. For an offset beyond the table's bytes it gives nothing.
pub assume_specification<'a>[ Strtab::<'a>::get_at ](table: &Strtab<'a>, offset: usize) -> (r:
    Option<&'a str>)
    ensures
        match r {
            Some(s) => strtab_entries(*table).contains_key(offset) && strtab_entries(
                *table,
            )[offset] == s@,
            None => !strtab_entries(*table).contains_key(offset),
        },
        offset > strtab_len(*table) ==> r is None,
;

/// What a string table holds, as far as lookups can tell.
pub struct StrtabView {
    /// The string found at each offset at which a lookup succeeds.
    pub entries: Map<usize, Seq<char>>,
    /// The number of bytes that back the table.
    pub len: nat,
}

/// What `table` holds.
pub open spec fn strtab_view(table: Strtab) -> StrtabView {
    StrtabView { entries: strtab_entries(table), len: strtab_len(table) }
}

/// The text that stands for a name that the session could not read.
pub open spec fn placeholder() -> Seq<char> {
    "<ERR>"@
}

/// The text that stands for a name that the session could not read.
pub fn placeholder_str() -> (s: &'static str)
    ensures
        s@ == placeholder(),
{
    "<ERR>"
}

/// The name found at `offset`, or `fallback` where the table has none.
pub open spec fn name_at(
    entries: Map<usize, Seq<char>>,
    offset: usize,
    fallback: Seq<char>,
) -> Seq<char> {
    if entries.contains_key(offset) {
        entries[offset]
    } else {
        fallback
    }
}

/// The name that a lookup stands for: the string that was found, or
/// `fallback` where none was.
pub fn name_or<'a>(found: Option<&'a str>, fallback: &'a str) -> (name: &'a str)
    ensures
        name@ == match found {
            Some(s) => s@,
            None => fallback@,
        },
{
    match found {
        Some(s) => s,
        None => fallback,
    }
}

/// Looks up the string at `offset`. A failed lookup gives `fallback` instead
/// of an error; an offset beyond the table always does.
pub fn lookup_name<'a>(table: &Strtab<'a>, offset: usize, fallback: &'a str) -> (name: &'a str)
    ensures
        name@ == name_at(strtab_entries(*table), offset, fallback@),
        offset > strtab_len(*table) ==> name@ == fallback@,
{
    name_or(table.get_at(offset), fallback)
}

} // verus!
