use dt::resolver::resolve_symbols;
use dt::strtab::{lookup_name, name_or, placeholder_str};
use dt::symbol::{RawSymbol, ResolvedSym};
use dt::version::{attach_versions, find_version, VersionAux, VersionNeed};
use goblin::strtab::Strtab;

const NAMES: &[u8] = b"\0puts\0printf\0LIBC_2.2.5\0GLIBC_2.34\0";
const PUTS: usize = 1;
const PRINTF: usize = 6;
const LIBC_2_2_5: usize = 13;
const GLIBC_2_34: usize = 24;

fn table(bytes: &[u8]) -> Strtab<'_> {
    Strtab::new_preparsed(bytes, 0).unwrap()
}

fn raw_entry(name: usize) -> RawSymbol {
    RawSymbol { st_name: name, st_info: 0x12, st_other: 0, st_shndx: 0, st_value: 0, st_size: 0 }
}

fn need(file: usize, aux: &[(u16, usize)]) -> VersionNeed {
    VersionNeed {
        vn_file: file,
        aux: aux.iter().map(|&(other, name)| VersionAux { vna_other: other, vna_name: name }).collect(),
    }
}

fn names<'a>(syms: &[ResolvedSym<'a>]) -> Vec<&'a str> {
    syms.iter().map(|s| s.symbol).collect()
}

fn versions<'a>(syms: &[ResolvedSym<'a>]) -> Vec<Option<&'a str>> {
    syms.iter().map(|s| s.version).collect()
}

#[test]
fn lookup_reads_the_string_at_the_offset() {
    let t = table(NAMES);
    assert_eq!(lookup_name(&t, PUTS, "<ERR>"), "puts");
    assert_eq!(lookup_name(&t, PRINTF, "<ERR>"), "printf");
    assert_eq!(lookup_name(&t, LIBC_2_2_5, "<ERR>"), "LIBC_2.2.5");
    assert_eq!(lookup_name(&t, 0, "<ERR>"), "");
}

#[test]
fn lookup_inside_a_string_reads_its_tail() {
    let t = table(NAMES);
    assert_eq!(lookup_name(&t, PRINTF + 2, "<ERR>"), "intf");
}

#[test]
fn lookup_beyond_the_table_gives_the_placeholder() {
    let t = table(NAMES);
    assert_eq!(lookup_name(&t, NAMES.len() + 1, "<ERR>"), "<ERR>");
    assert_eq!(lookup_name(&t, 4096, "<ERR>"), "<ERR>");
    assert_eq!(lookup_name(&t, usize::MAX, "<ERR>"), "<ERR>");
}

#[test]
fn lookup_in_an_empty_table_gives_the_placeholder() {
    let t = table(b"");
    assert_eq!(lookup_name(&t, 0, "<ERR>"), "<ERR>");
    assert_eq!(lookup_name(&t, 1, "<ERR>"), "<ERR>");
}

#[test]
fn lookup_off_a_character_boundary_gives_the_placeholder() {
    let bytes = "\0\u{192}oo\0".as_bytes();
    let t = table(bytes);
    assert_eq!(lookup_name(&t, 1, "<ERR>"), "\u{192}oo");
    assert_eq!(lookup_name(&t, 2, "<ERR>"), "<ERR>");
    assert_eq!(lookup_name(&t, 3, "<ERR>"), "oo");
}

#[test]
fn resolver_keeps_number_and_order() {
    let t = table(NAMES);
    let raw = vec![raw_entry(PRINTF), raw_entry(0), raw_entry(PUTS), raw_entry(PRINTF), raw_entry(PUTS)];
    let syms = resolve_symbols(&raw, &t, "<ERR>");
    assert_eq!(names(&syms), vec!["printf", "", "puts", "printf", "puts"]);
    for (s, r) in syms.iter().zip(raw.iter()) {
        assert_eq!(s.info, *r);
        assert_eq!(s.version, None);
    }
}

#[test]
fn resolver_keeps_the_raw_entry() {
    let t = table(NAMES);
    let raw = vec![RawSymbol {
        st_name: PUTS,
        st_info: 0x21,
        st_other: 2,
        st_shndx: 0xfff1,
        st_value: 0x1234,
        st_size: 99,
    }];
    let syms = resolve_symbols(&raw, &t, "<ERR>");
    assert_eq!(syms.len(), 1);
    assert_eq!(syms[0].symbol, "puts");
    assert_eq!(syms[0].info, raw[0]);
}

#[test]
fn resolver_of_no_entries_gives_no_symbols() {
    let t = table(NAMES);
    assert_eq!(resolve_symbols(&Vec::new(), &t, "<ERR>").len(), 0);
}

#[test]
fn name_offset_out_of_range_resolves_to_placeholder() {
    let t = table(NAMES);
    let raw = vec![raw_entry(PUTS), raw_entry(100_000), raw_entry(PRINTF)];
    let syms = resolve_symbols(&raw, &t, "<ERR>");
    assert_eq!(names(&syms), vec!["puts", "<ERR>", "printf"]);
}

#[test]
fn find_version_takes_the_first_entry_with_the_identifier() {
    let needs = vec![need(1, &[(3, 30), (2, 20)]), need(1, &[(4, 40), (2, 21)])];
    assert_eq!(find_version(&needs, 2), Some(20));
    assert_eq!(find_version(&needs, 3), Some(30));
    assert_eq!(find_version(&needs, 4), Some(40));
}

#[test]
fn find_version_with_duplicates_in_one_requirement() {
    let needs = vec![need(1, &[(2, 50), (2, 60)])];
    assert_eq!(find_version(&needs, 2), Some(50));
}

#[test]
fn find_version_without_a_match_gives_nothing() {
    let needs = vec![need(1, &[(3, 30)]), need(1, &[])];
    assert_eq!(find_version(&needs, 2), None);
    assert_eq!(find_version(&Vec::new(), 2), None);
    assert_eq!(find_version(&vec![need(1, &[])], 0), None);
}

#[test]
fn symbol_with_matching_identifier_gets_its_version() {
    let t = table(NAMES);
    let mut syms = resolve_symbols(&vec![raw_entry(PUTS)], &t, "<ERR>");
    let needs = vec![need(1, &[(2, LIBC_2_2_5)])];
    let lookups = attach_versions(&mut syms, &vec![2], &needs, &t);
    assert_eq!(lookups, 1);
    assert_eq!(syms[0].symbol, "puts");
    assert_eq!(syms[0].version, Some("LIBC_2.2.5"));
    assert_eq!(syms[0].display_name(), "puts@LIBC_2.2.5");
    let row = syms[0].print_symbol(0);
    assert_eq!(row.trim_end().rsplit(' ').next(), Some("puts@LIBC_2.2.5"));
}

#[test]
fn versions_follow_the_positions_of_the_identifiers() {
    let t = table(NAMES);
    let mut syms = resolve_symbols(&vec![raw_entry(0), raw_entry(PUTS), raw_entry(PRINTF), raw_entry(PUTS)], &t, "<ERR>");
    let needs = vec![need(1, &[(2, LIBC_2_2_5), (3, GLIBC_2_34)])];
    let lookups = attach_versions(&mut syms, &vec![0, 3, 2, 1], &needs, &t);
    assert_eq!(lookups, 2);
    assert_eq!(names(&syms), vec!["", "puts", "printf", "puts"]);
    assert_eq!(versions(&syms), vec![None, Some("GLIBC_2.34"), Some("LIBC_2.2.5"), None]);
}

#[test]
fn first_matching_entry_decides_the_version() {
    let t = table(NAMES);
    let mut syms = resolve_symbols(&vec![raw_entry(PUTS)], &t, "<ERR>");
    let needs = vec![need(1, &[(2, LIBC_2_2_5)]), need(1, &[(2, GLIBC_2_34)])];
    attach_versions(&mut syms, &vec![2], &needs, &t);
    assert_eq!(syms[0].version, Some("LIBC_2.2.5"));
}

#[test]
fn symbol_without_matching_entry_keeps_no_version() {
    let t = table(NAMES);
    let raw = vec![raw_entry(PUTS), raw_entry(PRINTF)];
    let mut syms = resolve_symbols(&raw, &t, "<ERR>");
    let needs = vec![need(1, &[(2, LIBC_2_2_5)])];
    let lookups = attach_versions(&mut syms, &vec![5, 1], &needs, &t);
    assert_eq!(lookups, 0);
    assert_eq!(versions(&syms), vec![None, None]);
    assert_eq!(names(&syms), vec!["puts", "printf"]);
}

#[test]
fn version_pass_without_requirements_changes_nothing() {
    let t = table(NAMES);
    let mut syms = resolve_symbols(&vec![raw_entry(PUTS), raw_entry(PRINTF)], &t, "<ERR>");
    let lookups = attach_versions(&mut syms, &vec![2, 3], &Vec::new(), &t);
    assert_eq!(lookups, 0);
    assert_eq!(versions(&syms), vec![None, None]);
}

#[test]
fn version_pass_without_identifiers_changes_nothing() {
    let t = table(NAMES);
    let mut syms = resolve_symbols(&vec![raw_entry(PUTS), raw_entry(PRINTF)], &t, "<ERR>");
    let needs = vec![need(1, &[(2, LIBC_2_2_5)])];
    let lookups = attach_versions(&mut syms, &Vec::new(), &needs, &t);
    assert_eq!(lookups, 0);
    assert_eq!(versions(&syms), vec![None, None]);
}

#[test]
fn version_pass_leaves_a_version_where_nothing_matches() {
    let t = table(NAMES);
    let mut syms = vec![ResolvedSym { symbol: "puts", version: Some("OLD"), info: raw_entry(PUTS) }];
    let needs = vec![need(1, &[(2, LIBC_2_2_5)])];
    attach_versions(&mut syms, &vec![7], &needs, &t);
    assert_eq!(syms[0].version, Some("OLD"));
}

#[test]
fn symbols_beyond_the_identifiers_stay_as_they_are() {
    let t = table(NAMES);
    let mut syms = resolve_symbols(&vec![raw_entry(PUTS), raw_entry(PRINTF), raw_entry(PUTS)], &t, "<ERR>");
    let needs = vec![need(1, &[(2, LIBC_2_2_5)])];
    let lookups = attach_versions(&mut syms, &vec![2], &needs, &t);
    assert_eq!(lookups, 1);
    assert_eq!(versions(&syms), vec![Some("LIBC_2.2.5"), None, None]);
}

#[test]
fn identifiers_beyond_the_symbols_are_not_read() {
    let t = table(NAMES);
    let mut syms = resolve_symbols(&vec![raw_entry(PUTS)], &t, "<ERR>");
    let needs = vec![need(1, &[(2, LIBC_2_2_5), (3, GLIBC_2_34)])];
    let lookups = attach_versions(&mut syms, &vec![3, 2, 2, 2], &needs, &t);
    assert_eq!(lookups, 1);
    assert_eq!(versions(&syms), vec![Some("GLIBC_2.34")]);
}

#[test]
fn version_name_out_of_range_becomes_the_placeholder() {
    let t = table(NAMES);
    let mut syms = resolve_symbols(&vec![raw_entry(PUTS), raw_entry(PRINTF)], &t, "<ERR>");
    let needs = vec![need(1, &[(2, 9999), (3, LIBC_2_2_5)])];
    let lookups = attach_versions(&mut syms, &vec![2, 3], &needs, &t);
    assert_eq!(lookups, 2);
    assert_eq!(versions(&syms), vec![Some("<ERR>"), Some("LIBC_2.2.5")]);
    assert_eq!(syms[0].display_name(), "puts@<ERR>");
}

#[test]
fn version_pass_over_no_symbols_looks_nothing_up() {
    let t = table(NAMES);
    let mut syms: Vec<ResolvedSym> = Vec::new();
    let needs = vec![need(1, &[(2, LIBC_2_2_5)])];
    let lookups = attach_versions(&mut syms, &vec![2, 2], &needs, &t);
    assert_eq!(lookups, 0);
    assert!(syms.is_empty());
}

#[test]
fn version_pass_twice_gives_the_same() {
    let t = table(NAMES);
    let mut syms = resolve_symbols(&vec![raw_entry(PUTS), raw_entry(PRINTF)], &t, "<ERR>");
    let needs = vec![need(1, &[(2, LIBC_2_2_5)])];
    attach_versions(&mut syms, &vec![2, 9], &needs, &t);
    let once = versions(&syms);
    attach_versions(&mut syms, &vec![2, 9], &needs, &t);
    assert_eq!(versions(&syms), once);
    assert_eq!(once, vec![Some("LIBC_2.2.5"), None]);
}

#[test]
fn hidden_bit_is_part_of_the_identifier() {
    let t = table(NAMES);
    let mut syms = resolve_symbols(&vec![raw_entry(PUTS), raw_entry(PRINTF)], &t, "<ERR>");
    let needs = vec![need(1, &[(2, LIBC_2_2_5), (0x8003, GLIBC_2_34)])];
    attach_versions(&mut syms, &vec![0x8002, 0x8003], &needs, &t);
    assert_eq!(versions(&syms), vec![None, Some("GLIBC_2.34")]);
}

#[test]
fn missing_name_is_the_placeholder() {
    assert_eq!(name_or(None, "<ERR>"), "<ERR>");
    assert_eq!(name_or(None, "<FAILED TO RETRIEVE>"), "<FAILED TO RETRIEVE>");
    assert_eq!(name_or(Some("puts"), "<ERR>"), "puts");
    assert_eq!(name_or(Some(""), "<ERR>"), "");
    assert_eq!(placeholder_str(), "<ERR>");
}

#[test]
fn resolver_calls_an_unreadable_name_by_the_placeholder_it_is_given() {
    let t = table(NAMES);
    let raw = vec![raw_entry(PUTS), raw_entry(100_000), raw_entry(PRINTF)];
    let syms = resolve_symbols(&raw, &t, "<FAILED TO RETRIEVE>");
    assert_eq!(names(&syms), vec!["puts", "<FAILED TO RETRIEVE>", "printf"]);
    for (s, r) in syms.iter().zip(raw.iter()) {
        assert_eq!(s.info, *r);
        assert_eq!(s.version, None);
    }
    assert_eq!(lookup_name(&t, 100_000, "<FAILED TO RETRIEVE>"), "<FAILED TO RETRIEVE>");
}

#[test]
fn lookup_at_the_end_of_a_terminated_table_finds_nothing() {
    let t = table(NAMES);
    assert_eq!(lookup_name(&t, NAMES.len() - 1, "<ERR>"), "");
    assert_eq!(lookup_name(&t, NAMES.len(), "<ERR>"), "<ERR>");
}

#[test]
fn lookup_at_the_end_of_an_unterminated_table_reads_the_empty_string() {
    let t = table(b"ab");
    assert_eq!(lookup_name(&t, 0, "<ERR>"), "ab");
    assert_eq!(lookup_name(&t, 2, "<ERR>"), "");
    assert_eq!(lookup_name(&t, 3, "<ERR>"), "<ERR>");
}
