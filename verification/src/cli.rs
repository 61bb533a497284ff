//! What one run of the tool does: the request as the command line gave it,
//! and the outcome that the caller prints and acts on.

use crate::codes::DtCode;
use crate::disasm::{
    has_debug, has_debug_section, no_src_disasm, no_src_disasm_args, src_disasm, src_disasm_args,
    string_views, DisasmMode,
};
use crate::dtelf::{dynsym_text, session_wf, symtab_text, FileData};
use crate::loader::{has_elf_header, parsed_elf, ElfView, ParseError};
use vstd::prelude::*;
use vstd::string::*;

verus! {

/// The request of one run, as the command line gave it.
#[derive(Debug, Clone)]
pub struct CliArgs {
    /// The path of the file to inspect.
    pub file: String,
    /// The function to disassemble, where one was asked for.
    pub func: Option<String>,
    /// List both symbol tables.
    pub list_symbols: bool,
    /// List the dynamic symbol table.
    pub dynsyms: bool,
    /// List the static symbol table.
    pub syms: bool,
}

/// A debugger invocation that the caller is to run.
#[derive(Debug, Clone)]
pub struct DebuggerCall {
    /// How the report of the run is made.
    pub mode: DisasmMode,
    /// The arguments of the debugger.
    pub args: Vec<String>,
}

/// What one run came to.
#[derive(Debug, Clone)]
pub struct Outcome {
    /// The exit status.
    pub code: DtCode,
    /// The text to print.
    pub output: String,
    /// The debugger invocation to run after printing, where there is one.
    pub debugger: Option<DebuggerCall>,
}

/// The listing that a request asks for: both tables, the dynamic one or the
/// static one; nothing where the request names none. A request for both
/// tables comes before one for the dynamic table, and that before one for the
/// static table.
pub open spec fn listing(args: CliArgs, image: ElfView) -> Seq<char> {
    if args.list_symbols {
        dynsym_text(image) + symtab_text(image)
    } else if args.dynsyms {
        dynsym_text(image)
    } else if args.syms {
        symtab_text(image)
    } else {
        Seq::empty()
    }
}

/// `out` is a failure: the status `code`, the text `message` on a line of its
/// own, and nothing to run.
pub open spec fn is_failure(out: Outcome, code: DtCode, message: Seq<char>) -> bool {
    out.code == code && out.output@ == message + "\n"@ && out.debugger is None
}

/// `out` is a parse failure with some message on a line of its own.
pub open spec fn is_parse_failure(out: Outcome) -> bool {
    exists|message: Seq<char>| is_failure(out, DtCode::ElfParse, message)
}

/// `out` asks for the debugger: the status of success, the text `note`, and
/// an invocation in the mode `mode` with the arguments `args`.
pub open spec fn is_debugger_call(
    out: Outcome,
    note: Seq<char>,
    mode: DisasmMode,
    args: Seq<Seq<char>>,
) -> bool {
    &&& out.code == DtCode::Success
    &&& out.output@ == note
    &&& out.debugger matches Some(call)
    &&& call.mode == mode
    &&& string_views(call.args@) == args
}

/// `out` is the outcome of a disassembly request for `func`, where `found`
/// tells whether the image has debug information: a note on what was found
/// and the matching debugger invocation.
pub open spec fn disasm_outcome(args: CliArgs, func: Seq<char>, found: bool, out: Outcome) -> bool {
    if found {
        is_debugger_call(
            out,
            "[+] Debug symbols found\n"@,
            DisasmMode::Source,
            src_disasm_args(args.file@, func),
        )
    } else {
        is_debugger_call(
            out,
            "[*] No debug symbols found\n"@,
            DisasmMode::Plain,
            no_src_disasm_args(args.file@, func),
        )
    }
}

/// `out` is the outcome of a listing request on `image`: the listing, and
/// nothing to run.
pub open spec fn listing_outcome(args: CliArgs, image: ElfView, out: Outcome) -> bool {
    &&& out.code == DtCode::Success
    &&& out.output@ == listing(args, image)
    &&& out.debugger is None
}

/// `out` is the outcome of the request `args` on a file that holds `bytes`. A
/// request that names a function is a disassembly request; every other one is
/// a listing request. Bytes that are not accepted as an ELF image make either
/// a parse failure.
pub open spec fn command_outcome(args: CliArgs, bytes: Seq<u8>, out: Outcome) -> bool {
    match parsed_elf(bytes) {
        Some(image) => match args.func {
            Some(func) => disasm_outcome(args, func@, has_debug_section(image), out),
            None => listing_outcome(args, image, out),
        },
        None => is_parse_failure(out),
    }
}

/// The outcome of a run that failed with `code`: the message on a line of its
/// own, and nothing to run.
pub fn failure(code: DtCode, message: &str) -> (out: Outcome)
    ensures
        is_failure(out, code, message@),
{
    let mut output = String::from_str(message);
    output.append("\n");
    Outcome { code, output, debugger: None }
}

/// The outcome of a request to disassemble `func`, where `found` is what the
/// search for debug information gave: with debug information the debugger is
/// to disassemble with source lines, without it instructions only. A failed
/// search is a parse failure with the message of its error.
pub fn disasm_request(args: &CliArgs, func: &str, found: Result<bool, ParseError>) -> (out: Outcome)
    ensures
        match found {
            Ok(found) => disasm_outcome(*args, func@, found, out),
            Err(e) => is_failure(out, DtCode::ElfParse, e.message@),
        },
{
    match found {
        Ok(true) => Outcome {
            code: DtCode::Success,
            output: String::from_str("[+] Debug symbols found\n"),
            debugger: Some(
                DebuggerCall {
                    mode: DisasmMode::Source,
                    args: src_disasm(args.file.as_str(), func),
                },
            ),
        },
        Ok(false) => Outcome {
            code: DtCode::Success,
            output: String::from_str("[*] No debug symbols found\n"),
            debugger: Some(
                DebuggerCall {
                    mode: DisasmMode::Plain,
                    args: no_src_disasm(args.file.as_str(), func),
                },
            ),
        },
        Err(e) => failure(DtCode::ElfParse, e.message.as_str()),
    }
}

/// The outcome of a listing request, where `session` is what opening the file
/// gave: the listing of the tables that the request names, both tables before
/// the dynamic one and that before the static one, or nothing where it names
/// none. A file that could not be opened is a parse failure with the message
/// of its error.
pub fn listing_request(args: &CliArgs, session: Result<FileData, ParseError>) -> (out: Outcome)
    requires
        session matches Ok(s) ==> session_wf(s@),
    ensures
        match session {
            Ok(s) => listing_outcome(*args, s@.image, out),
            Err(e) => is_failure(out, DtCode::ElfParse, e.message@),
        },
{
    match session {
        Ok(mut elf_file) => {
            let output = if args.list_symbols {
                elf_file.diplay_symbol_tables()
            } else if args.dynsyms {
                elf_file.display_dynsyms()
            } else if args.syms {
                elf_file.display_symtab()
            } else {
                String::new()
            };
            Outcome { code: DtCode::Success, output, debugger: None }
        },
        Err(e) => failure(DtCode::ElfParse, e.message.as_str()),
    }
}

/// Carries out the request `args` on the contents of its file. A request that
/// names a function gives the debugger invocation that disassembles it, with
/// source lines where the image has debug information. Every other request
/// gives the listing of the tables that it names. Bytes that are not accepted
/// as an ELF image give the parser's message and the status of a parse
/// failure.
pub fn process_command(args: &CliArgs, bytes: &[u8]) -> (out: Outcome)
    ensures
        command_outcome(*args, bytes@, out),
        out.code == if parsed_elf(bytes@) is Some {
            DtCode::Success
        } else {
            DtCode::ElfParse
        },
        !has_elf_header(bytes@) ==> out.code == DtCode::ElfParse,
{
    match &args.func {
        Some(func) => disasm_request(args, func.as_str(), has_debug(bytes)),
        None => listing_request(args, FileData::lazy_parse(args.file.as_str(), bytes)),
    }
}

} // verus!
