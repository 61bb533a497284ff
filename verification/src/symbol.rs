//! Symbol records: the raw entry of a symbol table, and the entry with its
//! name resolved to text.

use vstd::prelude::*;

verus! {

/// One entry of a symbol table as the file holds it: the offset of its name in
/// the companion string table, the packed type-and-binding byte, the
/// visibility byte, the index of its section, its value and its size.
#[derive(Debug, Clone, Copy, PartialEq, Eq, Default)]
pub struct RawSymbol {
    pub st_name: usize,
    pub st_info: u8,
    pub st_other: u8,
    pub st_shndx: usize,
    pub st_value: u64,
    pub st_size: u64,
}

/// A symbol whose name has been read from its string table. `version` is set
/// only for a dynamic symbol that a version requirement names.
#[derive(Debug, Clone, Copy)]
pub struct ResolvedSym<'a> {
    /// The name of the symbol, or the placeholder where it could not be read.
    pub symbol: &'a str,
    /// The version of the symbol, where it has one.
    pub version: Option<&'a str>,
    /// The entry as the symbol table holds it.
    pub info: RawSymbol,
}

/// What a `ResolvedSym` stands for in contracts: its texts as sequences of
/// characters.
pub struct ResolvedSymView {
    pub name: Seq<char>,
    pub version: Option<Seq<char>>,
    pub info: RawSymbol,
}

impl<'a> View for ResolvedSym<'a> {
    type V = ResolvedSymView;

    open spec fn view(&self) -> ResolvedSymView {
        ResolvedSymView {
            name: self.symbol@,
            version: match self.version {
                Some(v) => Some(v@),
                None => None,
            },
            info: self.info,
        }
    }
}

/// The views of a sequence of resolved symbols, position by position.
pub open spec fn symbol_views(syms: Seq<ResolvedSym>) -> Seq<ResolvedSymView> {
    Seq::new(syms.len(), |i: int| syms[i]@)
}

/// The section index of a symbol that no section defines.
pub const SHN_UNDEF: usize = 0;

/// The first of the reserved section indices.
pub const SHN_LORESERVE: usize = 0xff00;

/// The section index of a symbol whose value is absolute.
pub const SHN_ABS: usize = 0xfff1;

/// Where a symbol is defined.
#[derive(Debug, Clone, Copy, PartialEq, Eq, Structural)]
pub enum SectionIndex {
    /// No section defines the symbol.
    Undefined,
    /// The symbol has an absolute value.
    Absolute,
    /// The first reserved index.
    ReservedLow,
    /// The section with this index.
    Index(usize),
}

impl SectionIndex {
    /// The section index that `raw` encodes.
    pub open spec fn spec_decode(raw: usize) -> SectionIndex {
        if raw == SHN_UNDEF {
            SectionIndex::Undefined
        } else if raw == SHN_ABS {
            SectionIndex::Absolute
        } else if raw == SHN_LORESERVE {
            SectionIndex::ReservedLow
        } else {
            SectionIndex::Index(raw)
        }
    }

    /// The number that stands for this index in a symbol table.
    pub open spec fn spec_raw(self) -> usize {
        match self {
            SectionIndex::Undefined => SHN_UNDEF,
            SectionIndex::Absolute => SHN_ABS,
            SectionIndex::ReservedLow => SHN_LORESERVE,
            SectionIndex::Index(n) => n,
        }
    }

    /// Tells the special section indices from the numbers of sections.
    pub fn decode(raw: usize) -> (r: SectionIndex)
        ensures
            r == Self::spec_decode(raw),
            r.spec_raw() == raw,
    {
        if raw == SHN_UNDEF {
            SectionIndex::Undefined
        } else if raw == SHN_ABS {
            SectionIndex::Absolute
        } else if raw == SHN_LORESERVE {
            SectionIndex::ReservedLow
        } else {
            SectionIndex::Index(raw)
        }
    }

    /// The number that stands for this index in a symbol table.
    pub fn raw(self) -> (r: usize)
        ensures
            r == self.spec_raw(),
    {
        match self {
            SectionIndex::Undefined => SHN_UNDEF,
            SectionIndex::Absolute => SHN_ABS,
            SectionIndex::ReservedLow => SHN_LORESERVE,
            SectionIndex::Index(n) => n,
        }
    }
}

/// The type of a symbol: the low four bits of its info byte.
pub open spec fn symbol_type(info: u8) -> u8 {
    info & 0xf
}

/// The binding of a symbol: the high four bits of its info byte.
pub open spec fn symbol_bind(info: u8) -> u8 {
    info >> 4
}

/// The visibility of a symbol: the low three bits of its other byte.
pub open spec fn symbol_visibility(other: u8) -> u8 {
    other & 0x7
}

/// `goblin::elf::sym::st_type`: the low four bits of the info byte.
pub assume_specification[ goblin::elf::sym::st_type ](info: u8) -> (r: u8)
    ensures
        r == symbol_type(info),
;

/// `goblin::elf::sym::st_bind`: the info byte shifted right by four bits.
pub assume_specification[ goblin::elf::sym::st_bind ](info: u8) -> (r: u8)
    ensures
        r == symbol_bind(info),
;

/// `goblin::elf::sym::st_visibility`: the low three bits of the other byte.
pub assume_specification[ goblin::elf::sym::st_visibility ](other: u8) -> (r: u8)
    ensures
        r == symbol_visibility(other),
;

/// The name of a symbol type.
pub open spec fn type_text(typ: u8) -> Seq<char> {
    if typ == 0 {
        "NOTYPE"@
    } else if typ == 1 {
        "OBJECT"@
    } else if typ == 2 {
        "FUNC"@
    } else if typ == 3 {
        "SECTION"@
    } else if typ == 4 {
        "FILE"@
    } else if typ == 5 {
        "COMMON"@
    } else if typ == 6 {
        "TLS"@
    } else if typ == 7 {
        "NUM"@
    } else if typ == 10 {
        "GNU_IFUNC"@
    } else {
        "UNKNOWN_STT"@
    }
}

/// The name of a symbol binding.
pub open spec fn bind_text(bind: u8) -> Seq<char> {
    if bind == 0 {
        "LOCAL"@
    } else if bind == 1 {
        "GLOBAL"@
    } else if bind == 2 {
        "WEAK"@
    } else if bind == 3 {
        "NUM"@
    } else if bind == 10 {
        "GNU_UNIQUE"@
    } else {
        "UNKNOWN_STB"@
    }
}

/// The name of a symbol visibility.
pub open spec fn visibility_text(vis: u8) -> Seq<char> {
    if vis == 0 {
        "DEFAULT"@
    } else if vis == 1 {
        "INTERNAL"@
    } else if vis == 2 {
        "HIDDEN"@
    } else if vis == 3 {
        "PROTECTED"@
    } else if vis == 4 {
        "EXPORTED"@
    } else if vis == 5 {
        "SINGLETON"@
    } else if vis == 6 {
        "ELIMINATE"@
    } else {
        "UNKNOWN_STV"@
    }
}

/// `goblin::elf::sym::type_to_str`: the name of each symbol type that the
/// crate knows, and `UNKNOWN_STT` for every other number.
pub assume_specification[ goblin::elf::sym::type_to_str ](typ: u8) -> (r: &'static str)
    ensures
        r@ == type_text(typ),
;

/// `goblin::elf::sym::bind_to_str`: the name of each binding that the crate
/// knows, and `UNKNOWN_STB` for every other number.
pub assume_specification[ goblin::elf::sym::bind_to_str ](typ: u8) -> (r: &'static str)
    ensures
        r@ == bind_text(typ),
;

/// `goblin::elf::sym::visibility_to_str`: the name of each visibility that
/// the crate knows, and `UNKNOWN_STV` for every other number.
pub assume_specification[ goblin::elf::sym::visibility_to_str ](typ: u8) -> (r: &'static str)
    ensures
        r@ == visibility_text(typ),
;

} // verus!
