//! The version resolver: attaches to each dynamic symbol the name of the
//! version that a version requirement gives it.
//!
//! The version-symbol array runs parallel to the dynamic symbol table: the
//! identifier at position `i` belongs to the symbol at position `i`.

use crate::strtab::{
    lookup_name, name_at, placeholder, placeholder_str, strtab_entries, strtab_len,
};
use crate::symbol::{symbol_views, ResolvedSym, ResolvedSymView};
use goblin::strtab::Strtab;
use vstd::prelude::*;

verus! {

/// One auxiliary entry of a version requirement: a version identifier and the
/// offset of the version's name in the dynamic string table.
#[derive(Debug, Clone, Copy, PartialEq, Eq)]
pub struct VersionAux {
    pub vna_other: u16,
    pub vna_name: usize,
}

/// One version requirement: the offset of the name of the library that is
/// needed, and the versions needed of it, in the order of the file.
#[derive(Debug, Clone)]
pub struct VersionNeed {
    pub vn_file: usize,
    pub aux: Vec<VersionAux>,
}

/// What a `VersionNeed` stands for in contracts.
pub struct VersionNeedView {
    pub file: usize,
    pub aux: Seq<VersionAux>,
}

impl View for VersionNeed {
    type V = VersionNeedView;

    open spec fn view(&self) -> VersionNeedView {
        VersionNeedView { file: self.vn_file, aux: self.aux@ }
    }
}

/// The views of a sequence of version requirements, position by position.
pub open spec fn need_views(needs: Seq<VersionNeed>) -> Seq<VersionNeedView> {
    Seq::new(needs.len(), |i: int| needs[i]@)
}

/// Entry `j` of requirement `i` exists and carries the identifier `id`.
pub open spec fn matches_at(needs: Seq<VersionNeedView>, id: u16, i: int, j: int) -> bool {
    0 <= i < needs.len() && 0 <= j < needs[i].aux.len() && needs[i].aux[j].vna_other == id
}

/// Entry `(k, l)` is scanned before entry `(i, j)`: the requirements in their
/// order, and within one requirement its entries in their order.
pub open spec fn scanned_before(k: int, l: int, i: int, j: int) -> bool {
    k < i || (k == i && l < j)
}

/// Entry `j` of requirement `i` is the first one that carries `id`.
pub open spec fn first_match_at(needs: Seq<VersionNeedView>, id: u16, i: int, j: int) -> bool {
    &&& matches_at(needs, id, i, j)
    &&& forall|k: int, l: int|
        scanned_before(k, l, i, j) ==> !#[trigger] matches_at(needs, id, k, l)
}

/// Some entry of some requirement carries `id`.
pub open spec fn has_match(needs: Seq<VersionNeedView>, id: u16) -> bool {
    exists|i: int, j: int| matches_at(needs, id, i, j)
}

/// The name offset that the version identifier `id` stands for: that of the
/// first entry that carries `id`, or nothing where no entry does.
pub open spec fn version_offset(needs: Seq<VersionNeedView>, id: u16) -> Option<usize> {
    if has_match(needs, id) {
        let (i, j) = choose|i: int, j: int| first_match_at(needs, id, i, j);
        Some(needs[i].aux[j].vna_name)
    } else {
        None
    }
}

/// The first entry that carries an identifier decides: where `(i, j)` is that
/// entry, the identifier stands for its name offset, whatever later entries
/// carry the same identifier.
pub proof fn lemma_first_match_wins(needs: Seq<VersionNeedView>, id: u16, i: int, j: int)
    requires
        first_match_at(needs, id, i, j),
    ensures
        version_offset(needs, id) == Some(needs[i].aux[j].vna_name),
{
    let (a, b) = choose|a: int, b: int| first_match_at(needs, id, a, b);
    assert(!scanned_before(a, b, i, j) && !scanned_before(i, j, a, b));
}

/// Where an entry carries `id` at or after position `(i, j)` and none does
/// before it, some entry is the first to carry `id`.
proof fn lemma_scan_finds_first(needs: Seq<VersionNeedView>, id: u16, i: int, j: int)
    requires
        0 <= i <= needs.len(),
        i < needs.len() ==> 0 <= j <= needs[i].aux.len(),
        i == needs.len() ==> j == 0,
        has_match(needs, id),
        forall|k: int, l: int|
            scanned_before(k, l, i, j) ==> !#[trigger] matches_at(needs, id, k, l),
    ensures
        exists|a: int, b: int| first_match_at(needs, id, a, b),
    decreases needs.len() - i, (if i < needs.len() { needs[i].aux.len() - j } else { 0 }),
{
    if i == needs.len() {
        let (x, y) = choose|x: int, y: int| matches_at(needs, id, x, y);
        assert(scanned_before(x, y, i, j));
    } else if j == needs[i].aux.len() {
        lemma_scan_finds_first(needs, id, i + 1, 0);
    } else if needs[i].aux[j].vna_other == id {
        assert(first_match_at(needs, id, i, j));
    } else {
        lemma_scan_finds_first(needs, id, i, j + 1);
    }
}

/// An identifier stands for a name offset exactly where some entry carries
/// it, and the offset is then that of the first such entry.
pub proof fn lemma_version_offset(needs: Seq<VersionNeedView>, id: u16)
    ensures
        version_offset(needs, id) is Some <==> has_match(needs, id),
        has_match(needs, id) ==> exists|i: int, j: int|
            first_match_at(needs, id, i, j) && version_offset(needs, id) == Some(
                needs[i].aux[j].vna_name,
            ),
{
    if has_match(needs, id) {
        lemma_scan_finds_first(needs, id, 0, 0);
        let (a, b) = choose|a: int, b: int| first_match_at(needs, id, a, b);
        lemma_first_match_wins(needs, id, a, b);
    }
}

/// Finds the name offset that the version identifier `id` stands for: the
/// requirements are scanned in order, each with its entries in order, and the
/// first entry that carries `id` gives the offset.
pub fn find_version(needs: &Vec<VersionNeed>, id: u16) -> (r: Option<usize>)
    ensures
        r == version_offset(need_views(needs@), id),
{
    let ghost views = need_views(needs@);
    let mut i: usize = 0;
    while i < needs.len()
        invariant
            i <= needs.len(),
            views == need_views(needs@),
            forall|k: int, l: int| 0 <= k < i ==> !#[trigger] matches_at(views, id, k, l),
        decreases needs.len() - i,
    {
        let need = &needs[i];
        let mut j: usize = 0;
        while j < need.aux.len()
            invariant
                i < needs.len(),
                j <= need.aux.len(),
                need == needs[i as int],
                views == need_views(needs@),
                forall|k: int, l: int| 0 <= k < i ==> !#[trigger] matches_at(views, id, k, l),
                forall|l: int| 0 <= l < j ==> !#[trigger] matches_at(views, id, i as int, l),
            decreases need.aux.len() - j,
        {
            let entry = need.aux[j];
            if entry.vna_other == id {
                proof {
                    lemma_first_match_wins(views, id, i as int, j as int);
                }
                return Some(entry.vna_name);
            }
            j = j + 1;
        }
        i = i + 1;
    }
    None
}

/// The symbol `sym` after the version pass, where `id` is its version
/// identifier if it has one: the first entry that carries `id` gives the
/// symbol its version name; a symbol without an identifier, or with one that
/// no entry carries, stays as it is.
pub open spec fn with_version(
    sym: ResolvedSymView,
    id: Option<u16>,
    needs: Seq<VersionNeedView>,
    names: Map<usize, Seq<char>>,
) -> ResolvedSymView {
    match id {
        Some(id) => match version_offset(needs, id) {
            Some(offset) => ResolvedSymView {
                name: sym.name,
                version: Some(name_at(names, offset, placeholder())),
                info: sym.info,
            },
            None => sym,
        },
        None => sym,
    }
}

/// The version identifier of the symbol at position `i`, if the array
/// reaches that far.
pub open spec fn id_at(versyms: Seq<u16>, i: int) -> Option<u16> {
    if 0 <= i < versyms.len() {
        Some(versyms[i])
    } else {
        None
    }
}

/// The symbols after the version pass: each one with the version that the
/// identifier at its own position stands for.
pub open spec fn versioned(
    syms: Seq<ResolvedSymView>,
    versyms: Seq<u16>,
    needs: Seq<VersionNeedView>,
    names: Map<usize, Seq<char>>,
) -> Seq<ResolvedSymView> {
    Seq::new(syms.len(), |i: int| with_version(syms[i], id_at(versyms, i), needs, names))
}

/// How many of the first `n` symbols have an identifier that some entry
/// carries. Each of them costs the version pass one lookup in the string
/// table, and no other symbol costs any.
pub open spec fn version_lookups(n: nat, versyms: Seq<u16>, needs: Seq<VersionNeedView>) -> nat
    decreases n,
{
    if n == 0 {
        0
    } else {
        let rest = version_lookups((n - 1) as nat, versyms, needs);
        match id_at(versyms, n - 1) {
            Some(id) => if version_offset(needs, id) is Some {
                rest + 1
            } else {
                rest
            },
            None => rest,
        }
    }
}

/// A symbol without an identifier, or with one that no entry carries, comes
/// out of the version pass as it went in: one without a version stays
/// without.
pub proof fn lemma_unmatched_symbol_unchanged(
    syms: Seq<ResolvedSymView>,
    versyms: Seq<u16>,
    needs: Seq<VersionNeedView>,
    names: Map<usize, Seq<char>>,
    i: int,
)
    requires
        0 <= i < syms.len(),
        id_at(versyms, i) matches Some(id) ==> !has_match(needs, id),
    ensures
        versioned(syms, versyms, needs, names)[i] == syms[i],
        syms[i].version is None ==> versioned(syms, versyms, needs, names)[i].version is None,
{
}

/// A symbol whose identifier an entry carries gets the version of the first
/// such entry, read at that entry's name offset, and keeps its name.
pub proof fn lemma_matched_symbol_gets_version(
    syms: Seq<ResolvedSymView>,
    versyms: Seq<u16>,
    needs: Seq<VersionNeedView>,
    names: Map<usize, Seq<char>>,
    i: int,
    a: int,
    b: int,
)
    requires
        0 <= i < syms.len(),
        i < versyms.len(),
        first_match_at(needs, versyms[i], a, b),
    ensures
        versioned(syms, versyms, needs, names)[i].version == Some(
            name_at(names, needs[a].aux[b].vna_name, placeholder()),
        ),
        versioned(syms, versyms, needs, names)[i].name == syms[i].name,
        versioned(syms, versyms, needs, names)[i].info == syms[i].info,
{
    lemma_first_match_wins(needs, versyms[i], a, b);
}

/// Without version data, that is without identifiers or without
/// requirements, the version pass changes nothing.
pub proof fn lemma_no_version_data(
    syms: Seq<ResolvedSymView>,
    versyms: Seq<u16>,
    needs: Seq<VersionNeedView>,
    names: Map<usize, Seq<char>>,
)
    requires
        versyms.len() == 0 || needs.len() == 0,
    ensures
        versioned(syms, versyms, needs, names) == syms,
        version_lookups(syms.len(), versyms, needs) == 0,
{
    if needs.len() == 0 {
        assert forall|id: u16| !has_match(needs, id) by {
            assert forall|i: int, j: int| !matches_at(needs, id, i, j) by {}
        }
    }
    lemma_no_match_no_lookups(syms.len(), versyms, needs);
}

/// Where no identifier of the first `n` symbols is carried by an entry, the
/// version pass looks nothing up.
proof fn lemma_no_match_no_lookups(n: nat, versyms: Seq<u16>, needs: Seq<VersionNeedView>)
    requires
        forall|i: int|
            0 <= i < n && i < versyms.len() ==> !has_match(needs, #[trigger] versyms[i]),
    ensures
        version_lookups(n, versyms, needs) == 0,
    decreases n,
{
    if n > 0 {
        lemma_no_match_no_lookups((n - 1) as nat, versyms, needs);
        if n - 1 < versyms.len() {
        }
    }
}

/// The version pass is idempotent: a second pass over its own result changes
/// nothing.
pub proof fn lemma_version_pass_idempotent(
    syms: Seq<ResolvedSymView>,
    versyms: Seq<u16>,
    needs: Seq<VersionNeedView>,
    names: Map<usize, Seq<char>>,
)
    ensures
        versioned(versioned(syms, versyms, needs, names), versyms, needs, names) == versioned(
            syms,
            versyms,
            needs,
            names,
        ),
{
}

/// A version pass over no symbols looks nothing up and gives no symbols.
pub proof fn lemma_no_symbols_no_lookups(
    versyms: Seq<u16>,
    needs: Seq<VersionNeedView>,
    names: Map<usize, Seq<char>>,
)
    ensures
        version_lookups(0, versyms, needs) == 0,
        versioned(Seq::empty(), versyms, needs, names) == Seq::<ResolvedSymView>::empty(),
{
}

/// Every symbol that got its version from a name offset beyond a string
/// table of `len` bytes has the placeholder for its version.
pub open spec fn version_placeholders_beyond(
    versyms: Seq<u16>,
    needs: Seq<VersionNeedView>,
    len: nat,
    syms: Seq<ResolvedSymView>,
) -> bool {
    forall|i: int|
        0 <= i < syms.len() && 0 <= i < versyms.len() && (version_offset(
            needs,
            #[trigger] versyms[i],
        ) matches Some(offset) && offset > len) ==> syms[i].version == Some(placeholder())
}

/// Attaches to each of `syms` the version that the identifier at the same
/// position of `versyms` stands for in `needs`, and reads the name of that
/// version from `table`; a name that cannot be read becomes the placeholder.
/// A symbol beyond the end of `versyms`, or whose identifier no entry of
/// `needs` carries, is left as it was. Names, raw entries, order and number of
/// the symbols stay. Returns the number of names looked up.
pub fn attach_versions<'a>(
    syms: &mut Vec<ResolvedSym<'a>>,
    versyms: &Vec<u16>,
    needs: &Vec<VersionNeed>,
    table: &Strtab<'a>,
) -> (lookups: usize)
    ensures
        symbol_views(final(syms)@) == versioned(
            symbol_views(old(syms)@),
            versyms@,
            need_views(needs@),
            strtab_entries(*table),
        ),
        final(syms)@.len() == old(syms)@.len(),
        forall|i: int|
            0 <= i < old(syms)@.len() ==> (#[trigger] final(syms)@[i]).symbol@ == old(
                syms,
            )@[i].symbol@ && final(syms)@[i].info == old(syms)@[i].info,
        lookups == version_lookups(old(syms)@.len(), versyms@, need_views(needs@)),
        version_placeholders_beyond(
            versyms@,
            need_views(needs@),
            strtab_len(*table),
            symbol_views(final(syms)@),
        ),
{
    let ghost before = symbol_views(syms@);
    let ghost views = need_views(needs@);
    let ghost names = strtab_entries(*table);
    let count: usize = syms.len();
    let mut lookups: usize = 0;
    let mut i: usize = 0;
    while i < count
        invariant
            i <= count,
            count == syms.len(),
            before == symbol_views(old(syms)@),
            before.len() == count,
            views == need_views(needs@),
            names == strtab_entries(*table),
            lookups == version_lookups(i as nat, versyms@, views),
            lookups <= i,
            forall|k: int|
                0 <= k < i ==> (#[trigger] syms[k])@ == with_version(
                    before[k],
                    id_at(versyms@, k),
                    views,
                    names,
                ),
            forall|k: int| i <= k < count ==> (#[trigger] syms[k])@ == before[k],
            forall|k: int|
                0 <= k < i && 0 <= k < versyms.len() && (version_offset(
                    views,
                    #[trigger] versyms[k],
                ) matches Some(offset) && offset > strtab_len(*table)) ==> syms[k]@.version
                    == Some(placeholder()),
        decreases count - i,
    {
        if i < versyms.len() {
            match find_version(needs, versyms[i]) {
                Some(offset) => {
                    let mut sym = syms[i];
                    sym.version = Some(lookup_name(table, offset, placeholder_str()));
                    syms.set(i, sym);
                    lookups = lookups + 1;
                },
                None => {},
            }
        }
        i = i + 1;
    }
    lookups
}

} // verus!
