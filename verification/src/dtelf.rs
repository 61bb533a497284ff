//! The file session: one parsed ELF image with its two symbol listings. Each
//! table is resolved when it is first asked for, and kept. The dynamic
//! symbols get their versions in a pass of its own, at their first display.

use crate::format::{display_name, display_symbol_table, table_text};
use crate::loader::{
    dynamic_strings, dynamic_symbols, elf_view, has_elf_header, parsed_elf, static_strings,
    static_symbols, version_needs, version_symbols, ElfView, ParseError,
};
use crate::resolver::{placeholders_beyond, resolve_symbols, resolved};
use crate::strtab::{name_at, placeholder, placeholder_str};
use crate::symbol::{symbol_views, ResolvedSym, ResolvedSymView};
use crate::version::{
    attach_versions, first_match_at, has_match, id_at, lemma_first_match_wins, need_views,
    version_lookups, version_placeholders_beyond, versioned, VersionNeed, VersionNeedView,
};
use goblin::elf::Elf;
use vstd::prelude::*;
use vstd::string::*;

verus! {

/// The version requirements of an image; none where it has no version-needed
/// section.
pub open spec fn needs_of(image: ElfView) -> Seq<VersionNeedView> {
    match image.verneed {
        Some(needs) => needs,
        None => Seq::empty(),
    }
}

/// The static symbols of an image with their names.
pub open spec fn resolved_static(image: ElfView) -> Seq<ResolvedSymView> {
    resolved(image.syms, image.strtab.entries, placeholder())
}

/// The dynamic symbols of an image with their names, each without a version:
/// what the symbol resolver makes of the dynamic table.
pub open spec fn named_dynamic(image: ElfView) -> Seq<ResolvedSymView> {
    resolved(image.dynsyms, image.dynstrtab.entries, placeholder())
}

/// The dynamic symbols of an image with their names and, where the image has
/// a version-symbol section, their versions: what the version pass makes of
/// the named symbols.
pub open spec fn resolved_dynamic(image: ElfView) -> Seq<ResolvedSymView> {
    match image.versym {
        Some(ids) => versioned(
            named_dynamic(image),
            ids,
            needs_of(image),
            image.dynstrtab.entries,
        ),
        None => named_dynamic(image),
    }
}

/// The listing of the dynamic symbol table of an image.
pub open spec fn dynsym_text(image: ElfView) -> Seq<char> {
    table_text(resolved_dynamic(image), ".dynsym"@)
}

/// The listing of the static symbol table of an image.
pub open spec fn symtab_text(image: ElfView) -> Seq<char> {
    table_text(resolved_static(image), ".symtab"@)
}

/// One open ELF file: its path, its parsed image and the symbols resolved so
/// far.
#[derive(Debug)]
pub struct FileData<'a> {
    path: &'a str,
    bin: Elf<'a>,
    dynsyms: Option<Vec<ResolvedSym<'a>>>,
    symtab: Option<Vec<ResolvedSym<'a>>>,
    versions_attached: bool,
    resolutions: usize,
}

/// What a session stands for in contracts.
pub struct FileDataView {
    /// The path that the session was opened with.
    pub path: Seq<char>,
    /// The tables of the image.
    pub image: ElfView,
    /// The dynamic symbols, once they have been resolved.
    pub dynsyms: Option<Seq<ResolvedSymView>>,
    /// Whether the version pass has run over the dynamic symbols.
    pub versions_attached: bool,
    /// The static symbols, once they have been resolved.
    pub symtab: Option<Seq<ResolvedSymView>>,
    /// How many times a table has been resolved in this session.
    pub resolutions: nat,
}

impl<'a> View for FileData<'a> {
    type V = FileDataView;

    closed spec fn view(&self) -> FileDataView {
        FileDataView {
            path: self.path@,
            image: elf_view(self.bin),
            dynsyms: match self.dynsyms {
                Some(v) => Some(symbol_views(v@)),
                None => None,
            },
            versions_attached: self.versions_attached,
            symtab: match self.symtab {
                Some(v) => Some(symbol_views(v@)),
                None => None,
            },
            resolutions: self.resolutions as nat,
        }
    }
}

/// One for a table that has been resolved, zero for one that has not.
pub open spec fn resolved_count(cache: Option<Seq<ResolvedSymView>>) -> nat {
    if cache is Some {
        1
    } else {
        0
    }
}

/// The dynamic symbols `syms` are those of `image`: the named symbols before
/// the version pass, the named symbols with their versions after it. Every
/// name and version that was to be read beyond the dynamic string table is the
/// placeholder.
pub open spec fn dynsyms_hold(
    image: ElfView,
    syms: Seq<ResolvedSymView>,
    versions_attached: bool,
) -> bool {
    &&& syms == if versions_attached {
        resolved_dynamic(image)
    } else {
        named_dynamic(image)
    }
    &&& placeholders_beyond(image.dynsyms, image.dynstrtab.len, syms, placeholder())
    &&& versions_attached ==> (image.versym matches Some(ids) ==> version_placeholders_beyond(
        ids,
        needs_of(image),
        image.dynstrtab.len,
        syms,
    ))
}

/// The static symbols `syms` are those of `image`, and every name that was to
/// be read beyond the static string table is the placeholder.
pub open spec fn symtab_holds(image: ElfView, syms: Seq<ResolvedSymView>) -> bool {
    &&& syms == resolved_static(image)
    &&& placeholders_beyond(image.syms, image.strtab.len, syms, placeholder())
}

/// A session is well formed when each table that it keeps holds the resolved
/// symbols of its image, the version pass has run only over resolved symbols,
/// and the session has resolved each kept table once.
pub open spec fn session_wf(s: FileDataView) -> bool {
    &&& s.dynsyms matches Some(syms) ==> dynsyms_hold(s.image, syms, s.versions_attached)
    &&& s.dynsyms is None ==> !s.versions_attached
    &&& s.symtab matches Some(syms) ==> symtab_holds(s.image, syms)
    &&& s.resolutions == resolved_count(s.dynsyms) + resolved_count(s.symtab)
}

/// A session that has just been opened on `image`: nothing is resolved yet.
pub open spec fn opened(path: Seq<char>, image: ElfView) -> FileDataView {
    FileDataView {
        path,
        image,
        dynsyms: None,
        versions_attached: false,
        symtab: None,
        resolutions: 0,
    }
}

/// The session after the dynamic symbols have been resolved: a session that
/// holds them already stays as it is; another one holds the named symbols,
/// each without a version, and has resolved once more.
pub open spec fn after_dynsyms(s: FileDataView) -> FileDataView {
    if s.dynsyms is Some {
        s
    } else {
        FileDataView {
            path: s.path,
            image: s.image,
            dynsyms: Some(named_dynamic(s.image)),
            versions_attached: s.versions_attached,
            symtab: s.symtab,
            resolutions: s.resolutions + 1,
        }
    }
}

/// The session after the version pass: the dynamic symbols have their
/// versions, and the session records that the pass has run.
pub open spec fn after_versions(s: FileDataView) -> FileDataView {
    FileDataView {
        path: s.path,
        image: s.image,
        dynsyms: Some(resolved_dynamic(s.image)),
        versions_attached: true,
        symtab: s.symtab,
        resolutions: s.resolutions,
    }
}

/// The session after a display of the dynamic table: the symbols are
/// resolved, then the version pass has run.
pub open spec fn after_display_dynsyms(s: FileDataView) -> FileDataView {
    after_versions(after_dynsyms(s))
}

/// The session after its static symbols have been asked for: they are
/// resolved now, and that counts as a resolution only if they were not
/// resolved before.
pub open spec fn after_symtab(s: FileDataView) -> FileDataView {
    FileDataView {
        path: s.path,
        image: s.image,
        dynsyms: s.dynsyms,
        versions_attached: s.versions_attached,
        symtab: Some(resolved_static(s.image)),
        resolutions: if s.symtab is Some {
            s.resolutions
        } else {
            s.resolutions + 1
        },
    }
}

/// The symbols `syms` are the dynamic symbols of `image` with their names
/// and nothing more: one per entry of the dynamic table, in its order, each
/// with the raw entry, the name at the entry's own offset or the placeholder,
/// and no version.
pub open spec fn names_only(image: ElfView, syms: Seq<ResolvedSymView>) -> bool {
    &&& syms.len() == image.dynsyms.len()
    &&& forall|i: int|
        0 <= i < syms.len() ==> (#[trigger] syms[i]).version is None && syms[i].info
            == image.dynsyms[i] && syms[i].name == name_at(
            image.dynstrtab.entries,
            image.dynsyms[i].st_name,
            placeholder(),
        )
}

/// Resolving the dynamic symbols of a session that has resolved nothing
/// gives one symbol per entry of the dynamic table, each with its name and
/// without a version, whatever version data the image has. The version pass
/// has not run.
pub proof fn lemma_resolved_symbols_have_no_version(s: FileDataView, i: int)
    requires
        s.dynsyms is None,
        0 <= i < s.image.dynsyms.len(),
    ensures
        after_dynsyms(s).dynsyms == Some(named_dynamic(s.image)),
        after_dynsyms(s).versions_attached == s.versions_attached,
        named_dynamic(s.image).len() == s.image.dynsyms.len(),
        named_dynamic(s.image)[i].info == s.image.dynsyms[i],
        named_dynamic(s.image)[i].name == name_at(
            s.image.dynstrtab.entries,
            s.image.dynsyms[i].st_name,
            placeholder(),
        ),
        named_dynamic(s.image)[i].version is None,
{
}

/// A well-formed session over which the version pass has run is not changed
/// by another display of its dynamic table: neither the resolver nor the
/// version pass runs again.
pub proof fn lemma_versions_kept(s: FileDataView)
    requires
        session_wf(s),
        s.versions_attached,
    ensures
        after_display_dynsyms(s) == s,
{
}

/// A well-formed session that already holds its static symbols is not changed
/// by asking for them again.
pub proof fn lemma_symtab_kept(s: FileDataView)
    requires
        session_wf(s),
        s.symtab is Some,
    ensures
        after_symtab(s) == s,
{
}

/// Displaying the dynamic table a second time resolves nothing, attaches
/// nothing and gives the same text: the session after the second display is
/// the session after the first, resolution count included, and the listing
/// depends on the image alone.
pub proof fn lemma_display_dynsyms_twice(s: FileDataView)
    ensures
        after_display_dynsyms(after_display_dynsyms(s)) == after_display_dynsyms(s),
        after_display_dynsyms(after_display_dynsyms(s)).resolutions == after_display_dynsyms(
            s,
        ).resolutions,
        dynsym_text(after_display_dynsyms(s).image) == dynsym_text(s.image),
{
}

/// Displaying the static table a second time resolves nothing and gives the
/// same text.
pub proof fn lemma_display_symtab_twice(s: FileDataView)
    ensures
        after_symtab(after_symtab(s)) == after_symtab(s),
        after_symtab(after_symtab(s)).resolutions == after_symtab(s).resolutions,
        symtab_text(after_symtab(s).image) == symtab_text(s.image),
{
}

/// Displaying both tables a second time resolves nothing and gives the same
/// text.
pub proof fn lemma_display_all_twice(s: FileDataView)
    ensures
        after_symtab(after_display_dynsyms(after_symtab(after_display_dynsyms(s))))
            == after_symtab(after_display_dynsyms(s)),
        after_symtab(after_display_dynsyms(s)).image == s.image,
{
}

/// The number of version names that the version pass over the dynamic
/// symbols of an image looks up.
pub open spec fn dynamic_lookups(image: ElfView) -> nat {
    match image.versym {
        Some(ids) => version_lookups(image.dynsyms.len(), ids, needs_of(image)),
        None => 0,
    }
}

/// An image without dynamic symbols costs the version pass no lookup and has
/// no dynamic listing, not even a header; displaying both tables shows the
/// static listing alone.
pub proof fn lemma_empty_dynamic_table(image: ElfView)
    requires
        image.dynsyms.len() == 0,
    ensures
        dynamic_lookups(image) == 0,
        resolved_dynamic(image).len() == 0,
        dynsym_text(image) == Seq::<char>::empty(),
        dynsym_text(image) + symtab_text(image) == symtab_text(image),
{
}

/// In a well-formed session a static symbol whose name offset lies beyond
/// the static string table is called by the placeholder; the table is listed
/// all the same.
pub proof fn lemma_static_name_out_of_range(s: FileDataView, i: int)
    requires
        session_wf(s),
        s.symtab is Some,
        0 <= i < s.image.syms.len(),
        s.image.syms[i].st_name > s.image.strtab.len,
    ensures
        s.symtab->0.len() == s.image.syms.len(),
        s.symtab->0[i].name == placeholder(),
{
}

/// In a well-formed session a dynamic symbol whose name offset lies beyond
/// the dynamic string table is called by the placeholder, before the version
/// pass and after it; the table is listed all the same.
pub proof fn lemma_dynamic_name_out_of_range(s: FileDataView, i: int)
    requires
        session_wf(s),
        s.dynsyms is Some,
        0 <= i < s.image.dynsyms.len(),
        s.image.dynsyms[i].st_name > s.image.dynstrtab.len,
    ensures
        s.dynsyms->0.len() == s.image.dynsyms.len(),
        s.dynsyms->0[i].name == placeholder(),
{
}

/// An image without a version-symbol section has no versions: its dynamic
/// symbols are the named symbols as they are, each without a version.
pub proof fn lemma_no_version_section(image: ElfView)
    requires
        image.versym is None,
    ensures
        resolved_dynamic(image) == named_dynamic(image),
        forall|i: int|
            0 <= i < resolved_dynamic(image).len() ==> (#[trigger] resolved_dynamic(
                image,
            )[i]).version is None,
{
}

/// A dynamic symbol without a version identifier, or with one that no
/// version requirement carries, has no version after the version pass: it is
/// the named symbol as it is.
pub proof fn lemma_unmatched_dynamic_symbol(image: ElfView, i: int)
    requires
        0 <= i < image.dynsyms.len(),
        image.versym matches Some(ids) ==> (id_at(ids, i) matches Some(id) ==> !has_match(
            needs_of(image),
            id,
        )),
    ensures
        resolved_dynamic(image)[i] == named_dynamic(image)[i],
        resolved_dynamic(image)[i].version is None,
{
}

/// A dynamic symbol whose version identifier a version requirement carries
/// has, after the version pass, its own name and the version named by the
/// first entry that carries the identifier; it is listed as `name@version`.
pub proof fn lemma_matched_dynamic_symbol(image: ElfView, i: int, a: int, b: int)
    requires
        0 <= i < image.dynsyms.len(),
        image.versym matches Some(ids) && i < ids.len() && first_match_at(
            needs_of(image),
            ids[i],
            a,
            b,
        ),
    ensures
        resolved_dynamic(image)[i].name == named_dynamic(image)[i].name,
        resolved_dynamic(image)[i].version == Some(
            name_at(
                image.dynstrtab.entries,
                needs_of(image)[a].aux[b].vna_name,
                placeholder(),
            ),
        ),
        display_name(resolved_dynamic(image)[i]) == named_dynamic(image)[i].name + "@"@ + name_at(
            image.dynstrtab.entries,
            needs_of(image)[a].aux[b].vna_name,
            placeholder(),
        ),
{
    lemma_first_match_wins(needs_of(image), image.versym->0[i], a, b);
}

impl<'a> FileData<'a> {
    /// Opens a session on the ELF image in `bytes`, under the name `path`.
    /// Only the image is parsed; no symbol is resolved yet. Bytes that are not
    /// accepted as an ELF image give an error, and no session; bytes with a
    /// wrong magic number, an unknown class or a header cut short are never
    /// accepted.
    pub fn lazy_parse(path: &'a str, bytes: &'a [u8]) -> (r: Result<FileData<'a>, ParseError>)
        ensures
            match parsed_elf(bytes@) {
                Some(image) => r matches Ok(session) && session@ == opened(path@, image)
                    && session_wf(session@),
                None => r is Err,
            },
            r is Ok ==> has_elf_header(bytes@),
    {
        match Elf::parse(bytes) {
            Ok(bin) => Ok(
                FileData {
                    path,
                    bin,
                    dynsyms: None,
                    symtab: None,
                    versions_attached: false,
                    resolutions: 0,
                },
            ),
            Err(e) => Err(ParseError::from_parser(&e)),
        }
    }

    /// The path that the session was opened with.
    pub fn path(&self) -> (p: &'a str)
        ensures
            p@ == self@.path,
    {
        self.path
    }

    /// How many times a table has been resolved in this session.
    pub fn resolutions(&self) -> (n: usize)
        ensures
            n == self@.resolutions,
    {
        self.resolutions
    }

    /// Whether the version pass has run over the dynamic symbols.
    pub fn versions_attached(&self) -> (b: bool)
        ensures
            b == self@.versions_attached,
    {
        self.versions_attached
    }

    /// The dynamic symbols, once they have been resolved.
    pub fn dynsyms(&self) -> (r: Option<&Vec<ResolvedSym<'a>>>)
        ensures
            match r {
                Some(syms) => self@.dynsyms == Some(symbol_views(syms@)),
                None => self@.dynsyms is None,
            },
    {
        self.dynsyms.as_ref()
    }

    /// The static symbols, once they have been resolved.
    pub fn symtab(&self) -> (r: Option<&Vec<ResolvedSym<'a>>>)
        ensures
            match r {
                Some(syms) => self@.symtab == Some(symbol_views(syms@)),
                None => self@.symtab is None,
            },
    {
        self.symtab.as_ref()
    }

    /// Displays the dynamic table, then the static table. A table without
    /// symbols is left out. Each table is resolved if it has not been yet.
    pub fn diplay_symbol_tables(&mut self) -> (out: String)
        requires
            session_wf(old(self)@),
        ensures
            session_wf(final(self)@),
            final(self)@ == after_symtab(after_display_dynsyms(old(self)@)),
            out@ == dynsym_text(old(self)@.image) + symtab_text(old(self)@.image),
    {
        let mut out = self.display_dynsyms();
        let tail = self.display_symtab();
        out.append(tail.as_str());
        out
    }

    /// Displays the dynamic symbol table: resolves it if it has not been
    /// resolved in this session, runs the version pass over it if that has
    /// not run in this session, and renders it. The text depends on the image
    /// alone; a table without symbols gives the empty string.
    pub fn display_dynsyms(&mut self) -> (out: String)
        requires
            session_wf(old(self)@),
        ensures
            session_wf(final(self)@),
            final(self)@ == after_display_dynsyms(old(self)@),
            out@ == dynsym_text(old(self)@.image),
    {
        self.process_dynsyms();
        if !self.versions_attached {
            let mut syms = self.dynsyms.take().unwrap();
            self.get_dynsym_versions(&mut syms);
            self.dynsyms = Some(syms);
            self.versions_attached = true;
        }
        display_symbol_table(self.dynsyms.as_ref().unwrap(), ".dynsym")
    }

    /// Displays the static symbol table: resolves it if it has not been
    /// resolved in this session, and renders it. The text depends on the
    /// image alone; a table without symbols gives the empty string.
    pub fn display_symtab(&mut self) -> (out: String)
        requires
            session_wf(old(self)@),
        ensures
            session_wf(final(self)@),
            final(self)@ == after_symtab(old(self)@),
            out@ == symtab_text(old(self)@.image),
    {
        self.process_symtab();
        display_symbol_table(self.symtab.as_ref().unwrap(), ".symtab")
    }

    /// Resolves the names of the dynamic symbols unless the session holds
    /// them already. One symbol comes out per entry of the dynamic symbol
    /// table, in the order of the table, each without a version: versions are
    /// attached by a pass of its own, at the first display.
    pub fn process_dynsyms(&mut self)
        requires
            session_wf(old(self)@),
        ensures
            session_wf(final(self)@),
            final(self)@ == after_dynsyms(old(self)@),
            final(self)@.versions_attached == old(self)@.versions_attached,
            old(self)@.dynsyms is None ==> (final(self)@.dynsyms matches Some(syms) && names_only(
                old(self)@.image,
                syms,
            )),
    {
        if self.dynsyms.is_none() {
            let raw = dynamic_symbols(&self.bin);
            let syms = resolve_symbols(&raw, dynamic_strings(&self.bin), placeholder_str());
            self.dynsyms = Some(syms);
            self.resolutions = self.resolutions + 1;
        }
    }

    /// Resolves the static symbols unless the session holds them already. One
    /// symbol comes out per entry of the static symbol table, in the order of
    /// the table.
    pub fn process_symtab(&mut self)
        requires
            session_wf(old(self)@),
        ensures
            session_wf(final(self)@),
            final(self)@ == after_symtab(old(self)@),
    {
        if self.symtab.is_none() {
            let raw = static_symbols(&self.bin);
            let syms = resolve_symbols(&raw, static_strings(&self.bin), placeholder_str());
            self.symtab = Some(syms);
            self.resolutions = self.resolutions + 1;
        }
    }

    /// The version pass over the named dynamic symbols of this image: where
    /// the image has version identifiers, each symbol gets the version that
    /// the identifier at its position stands for. Returns the number of
    /// version names looked up.
    fn get_dynsym_versions(&self, syms: &mut Vec<ResolvedSym<'a>>) -> (lookups: usize)
        requires
            dynsyms_hold(self@.image, symbol_views(old(syms)@), false),
        ensures
            dynsyms_hold(self@.image, symbol_views(final(syms)@), true),
            lookups == dynamic_lookups(self@.image),
    {
        match self.process_sym_version_info() {
            Some((ids, needs)) => attach_versions(syms, &ids, &needs, dynamic_strings(&self.bin)),
            None => 0,
        }
    }

    /// Collects the version data of the image: the version identifiers and
    /// the version requirements. An image without version identifiers has no
    /// version data; one with identifiers but without requirements has an
    /// empty list of requirements. Neither is an error.
    fn process_sym_version_info(&self) -> (info: Option<(Vec<u16>, Vec<VersionNeed>)>)
        ensures
            match info {
                Some((ids, needs)) => self@.image.versym == Some(ids@) && need_views(needs@)
                    == needs_of(self@.image),
                None => self@.image.versym is None,
            },
    {
        match version_symbols(&self.bin) {
            Some(ids) => {
                let needs = match version_needs(&self.bin) {
                    Some(needs) => needs,
                    None => Vec::new(),
                };
                Some((ids, needs))
            },
            None => None,
        }
    }
}

} // verus!
