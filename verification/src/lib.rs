//! Symbol-table listings for ELF object files.
//!
//! The library resolves the names of the static and dynamic symbols of an ELF
//! image, attaches GNU version names to the dynamic ones, and renders both
//! tables as text. Reading files, parsing the command line and running a
//! debugger are left to the caller.
//!
//! - `loader`, `strtab` and `symbol` hold what is taken on trust from the
//!   `goblin` parser: the tables of an image, the lookups in its string
//!   tables, and the names of symbol types, bindings and visibilities.
//! - `resolver` reads the names of symbols, `version` attaches their versions,
//!   `format` renders a table.
//! - `dtelf` is the session over one file, which resolves each table once.
//! - `dt_elf` lists a dynamically linked image without a session, `disasm`
//!   prepares a disassembly.
//! - `cli` and `dt` carry out one request of the command line.

use vstd::prelude::*;

pub mod cli;
pub mod codes;
pub mod disasm;
pub mod dt_elf;
pub mod dtelf;
pub mod format;
pub mod loader;
pub mod resolver;
pub mod strtab;
pub mod symbol;
pub mod version;

verus! {

/// One run of the tool: carries out the request `args`, where `file` is what
/// reading the file gave, its bytes or the message of the read error. A read
/// error gives its message and the status of a failed read; bytes that do not
/// start with an ELF header give the status of a parse failure.
pub fn dt(args: &cli::CliArgs, file: Result<Vec<u8>, String>) -> (out: cli::Outcome)
    ensures
        match file {
            Ok(bytes) => cli::command_outcome(*args, bytes@, out),
            Err(message) => cli::is_failure(out, codes::DtCode::IoReadFail, message@),
        },
        file matches Ok(bytes) ==> out.code == if loader::parsed_elf(bytes@) is Some {
            codes::DtCode::Success
        } else {
            codes::DtCode::ElfParse
        },
        file matches Ok(bytes) && !loader::has_elf_header(bytes@) ==> out.code
            == codes::DtCode::ElfParse,
{
    match file {
        Ok(bytes) => cli::process_command(args, bytes.as_slice()),
        Err(message) => cli::failure(codes::DtCode::IoReadFail, message.as_str()),
    }
}

} // verus!
