//! Disassembly through a debugger: whether an image carries debug
//! information, the debugger invocation either way, and the report made of
//! what the debugger wrote. Running the debugger is left to the caller.

use crate::loader::{
    has_elf_header, parsed_elf, section_names, str_views, ElfView, ParseError,
};
use goblin::elf::Elf;
use vstd::prelude::*;
use vstd::string::*;

verus! {

/// `str`'s `==`: two string slices are equal when they hold the same
/// characters.
pub assume_specification[ <str as PartialEq>::eq ](a: &str, b: &str) -> (r: bool)
    ensures
        r == (a@ == b@),
;

/// The views of a sequence of strings, position by position.
pub open spec fn string_views(items: Seq<String>) -> Seq<Seq<char>> {
    Seq::new(items.len(), |i: int| items[i]@)
}

/// The image has a section called `.debug_info`.
pub open spec fn has_debug_section(image: ElfView) -> bool {
    image.section_names matches Some(names) && names.contains(".debug_info"@)
}

/// Tells whether one of `names` is `wanted`.
pub fn contains_name(names: &Vec<&str>, wanted: &str) -> (found: bool)
    ensures
        found == str_views(names@).contains(wanted@),
{
    let mut i: usize = 0;
    while i < names.len()
        invariant
            i <= names.len(),
            forall|k: int| 0 <= k < i ==> (#[trigger] str_views(names@)[k]) != wanted@,
        decreases names.len() - i,
    {
        if *names[i] == *wanted {
            assert(str_views(names@)[i as int] == wanted@);
            return true;
        }
        i = i + 1;
    }
    false
}

/// Tells whether the ELF image in `bytes` carries debug information, that is,
/// whether one of its sections is called `.debug_info`. Bytes that are not
/// accepted as an ELF image give an error, and no other bytes do.
pub fn has_debug(bytes: &[u8]) -> (r: Result<bool, ParseError>)
    ensures
        match parsed_elf(bytes@) {
            Some(image) => r matches Ok(b) && b == has_debug_section(image),
            None => r is Err,
        },
        r is Ok ==> has_elf_header(bytes@),
{
    match Elf::parse(bytes) {
        Ok(bin) => match section_names(&bin) {
            Ok(names) => Ok(contains_name(&names, ".debug_info")),
            Err(e) => Err(ParseError::from_parser(&e)),
        },
        Err(e) => Err(ParseError::from_parser(&e)),
    }
}

/// The debugger that disassembles.
pub const DEBUGGER: &'static str = "/usr/bin/gdb";

/// How a function is disassembled.
#[derive(Debug, Clone, Copy, PartialEq, Eq, Structural)]
pub enum DisasmMode {
    /// With source lines, for an image with debug information.
    Source,
    /// Instructions only.
    Plain,
}

/// The arguments of the debugger that disassemble `func` of the file at
/// `path` together with its source lines.
pub open spec fn src_disasm_args(path: Seq<char>, func: Seq<char>) -> Seq<Seq<char>> {
    seq!["-batch"@, "-ex"@, "disassemble/rs "@ + func, path]
}

/// The arguments of the debugger that disassemble `func` of the file at
/// `path` without source lines.
pub open spec fn no_src_disasm_args(path: Seq<char>, func: Seq<char>) -> Seq<Seq<char>> {
    seq!["-batch"@, "-ex"@, "file "@ + path, "-ex"@, "disassemble "@ + func]
}

/// The debugger arguments for a disassembly of `func` with source lines: the
/// file at `path` is loaded as the debugger's program.
pub fn src_disasm(path: &str, func: &str) -> (args: Vec<String>)
    ensures
        string_views(args@) == src_disasm_args(path@, func@),
{
    let mut command = String::from_str("disassemble/rs ");
    command.append(func);
    let mut args: Vec<String> = Vec::new();
    args.push(String::from_str("-batch"));
    args.push(String::from_str("-ex"));
    args.push(command);
    args.push(String::from_str(path));
    args
}

/// The debugger arguments for a disassembly of `func` without source lines:
/// the file at `path` is loaded by a command of its own.
pub fn no_src_disasm(path: &str, func: &str) -> (args: Vec<String>)
    ensures
        string_views(args@) == no_src_disasm_args(path@, func@),
{
    let mut load = String::from_str("file ");
    load.append(path);
    let mut command = String::from_str("disassemble ");
    command.append(func);
    let mut args: Vec<String> = Vec::new();
    args.push(String::from_str("-batch"));
    args.push(String::from_str("-ex"));
    args.push(load);
    args.push(String::from_str("-ex"));
    args.push(command);
    args
}

/// The report of a disassembly: what the debugger wrote to its error stream,
/// then what it wrote to its output, each followed by a line feed. A
/// disassembly with source lines starts with an empty line.
pub open spec fn report_text(mode: DisasmMode, errors: Seq<char>, output: Seq<char>) -> Seq<char> {
    let body = errors + "\n"@ + output + "\n"@;
    match mode {
        DisasmMode::Source => "\n"@ + body,
        DisasmMode::Plain => body,
    }
}

/// Makes the report of a disassembly from what the debugger wrote.
pub fn disasm_report(mode: DisasmMode, errors: &str, output: &str) -> (report: String)
    ensures
        report@ == report_text(mode, errors@, output@),
{
    let mut report = String::new();
    match mode {
        DisasmMode::Source => {
            report.append("\n");
        },
        DisasmMode::Plain => {},
    }
    report.append(errors);
    report.append("\n");
    report.append(output);
    report.append("\n");
    report
}

} // verus!
