//! The table formatter: renders resolved symbols as an aligned listing, one
//! row per symbol under a header row.

use crate::symbol::{
    bind_text, symbol_bind, symbol_type, symbol_views, symbol_visibility, type_text,
    visibility_text, ResolvedSym, ResolvedSymView, SectionIndex,
};
use vstd::prelude::*;
use vstd::string::*;

verus! {

/// The character that stands for a digit below sixteen.
pub open spec fn digit_char(d: nat) -> char {
    if d == 0 {
        '0'
    } else if d == 1 {
        '1'
    } else if d == 2 {
        '2'
    } else if d == 3 {
        '3'
    } else if d == 4 {
        '4'
    } else if d == 5 {
        '5'
    } else if d == 6 {
        '6'
    } else if d == 7 {
        '7'
    } else if d == 8 {
        '8'
    } else if d == 9 {
        '9'
    } else if d == 10 {
        'a'
    } else if d == 11 {
        'b'
    } else if d == 12 {
        'c'
    } else if d == 13 {
        'd'
    } else if d == 14 {
        'e'
    } else {
        'f'
    }
}

/// The decimal digits of `n`, without leading zeros.
pub open spec fn decimal(n: nat) -> Seq<char>
    decreases n,
{
    if n < 10 {
        seq![digit_char(n)]
    } else {
        decimal(n / 10).push(digit_char(n % 10))
    }
}

/// The lower-case hexadecimal digits of `n`, without leading zeros.
pub open spec fn hex(n: nat) -> Seq<char>
    decreases n,
{
    if n < 16 {
        seq![digit_char(n)]
    } else {
        hex(n / 16).push(digit_char(n % 16))
    }
}

/// `count` copies of `c`; nothing where `count` is not positive.
pub open spec fn fill(count: int, c: char) -> Seq<char> {
    Seq::new(
        if count > 0 {
            count as nat
        } else {
            0
        },
        |i: int| c,
    )
}

/// `text` moved to the right end of a field of `width` characters. A text
/// that is wider than the field is kept whole.
pub open spec fn pad_left(text: Seq<char>, width: nat, c: char) -> Seq<char> {
    fill(width - text.len(), c) + text
}

/// `text` at the left end of a field of `width` characters. A text that is
/// wider than the field is kept whole.
pub open spec fn pad_right(text: Seq<char>, width: nat) -> Seq<char> {
    text + fill(width - text.len(), ' ')
}

/// One line of a table: the eight cells in their columns, then a line feed.
/// The value and size cells come already padded.
pub open spec fn table_line(
    num: Seq<char>,
    value: Seq<char>,
    size: Seq<char>,
    typ: Seq<char>,
    bind: Seq<char>,
    vis: Seq<char>,
    ndx: Seq<char>,
    name: Seq<char>,
) -> Seq<char> {
    pad_left(num, 3, ' ') + ": "@ + value + " "@ + size + " "@ + pad_right(typ, 8) + " "@
        + pad_right(bind, 6) + " "@ + pad_right(vis, 8) + " "@ + pad_left(ndx, 4, ' ') + " "@
        + pad_right(name, 4) + "\n"@
}

/// The header row.
pub open spec fn header_text() -> Seq<char> {
    table_line(
        "Num"@,
        pad_left("Value"@, 6, ' '),
        pad_left("Size"@, 15, ' '),
        "Type"@,
        "Bind"@,
        "Vis"@,
        "Ndx"@,
        "Name"@,
    )
}

/// How a section index is shown: `UND` for an undefined symbol, `ABS` for an
/// absolute one, the decimal number for every other index.
pub open spec fn shndx_text(raw: usize) -> Seq<char> {
    SectionIndex::spec_decode(raw).spec_text()
}

/// The name column of a symbol: `name@version` where it has a version, the
/// bare name where it has none.
pub open spec fn display_name(sym: ResolvedSymView) -> Seq<char> {
    match sym.version {
        Some(v) => sym.name + "@"@ + v,
        None => sym.name,
    }
}

/// The row of the symbol at position `idx`.
pub open spec fn row_text(idx: nat, sym: ResolvedSymView) -> Seq<char> {
    table_line(
        decimal(idx),
        pad_left(hex(sym.info.st_value as nat), 16, '0'),
        pad_left(decimal(sym.info.st_size as nat), 5, ' '),
        type_text(symbol_type(sym.info.st_info)),
        bind_text(symbol_bind(sym.info.st_info)),
        visibility_text(symbol_visibility(sym.info.st_other)),
        shndx_text(sym.info.st_shndx),
        display_name(sym),
    )
}

/// The rows of the first `n` symbols, in order.
pub open spec fn rows_text(syms: Seq<ResolvedSymView>, n: nat) -> Seq<char>
    decreases n,
{
    if n == 0 {
        Seq::empty()
    } else {
        rows_text(syms, (n - 1) as nat) + row_text((n - 1) as nat, syms[n - 1])
    }
}

/// The line above the header: the name of the table and how many symbols it
/// holds.
pub open spec fn title_text(name: Seq<char>, count: nat) -> Seq<char> {
    "Symbol table '"@ + name + "' contains "@ + decimal(count) + " entries:\n"@
}

/// The listing of a symbol table: title, header, one row per symbol and an
/// empty line. An empty table has no listing at all.
pub open spec fn table_text(syms: Seq<ResolvedSymView>, name: Seq<char>) -> Seq<char> {
    if syms.len() == 0 {
        Seq::empty()
    } else {
        title_text(name, syms.len()) + header_text() + rows_text(syms, syms.len()) + "\n"@
    }
}

/// The cells of a line fit their columns: the number in three characters,
/// value and size together in twenty-one, type, binding and visibility in
/// eight, six and eight, the section index in four.
pub open spec fn cells_fit(
    num: Seq<char>,
    value: Seq<char>,
    size: Seq<char>,
    typ: Seq<char>,
    bind: Seq<char>,
    vis: Seq<char>,
    ndx: Seq<char>,
) -> bool {
    &&& num.len() <= 3
    &&& value.len() + size.len() == 21
    &&& typ.len() <= 8
    &&& bind.len() <= 6
    &&& vis.len() <= 8
    &&& ndx.len() <= 4
}

/// `cell` is what `line` holds from position `start` on.
pub open spec fn stands_at(line: Seq<char>, start: int, cell: Seq<char>) -> bool {
    0 <= start && start + cell.len() <= line.len() && line.subrange(start, start + cell.len())
        == cell
}

/// The places of the cells in a line: the number ends before column 3, the
/// value starts in column 5, the size ends before column 27, type, binding
/// and visibility start in columns 28, 37 and 44, the section index ends
/// before column 57 and the name starts in column 58.
pub open spec fn in_columns(
    line: Seq<char>,
    num: Seq<char>,
    value: Seq<char>,
    size: Seq<char>,
    typ: Seq<char>,
    bind: Seq<char>,
    vis: Seq<char>,
    ndx: Seq<char>,
    name: Seq<char>,
) -> bool {
    &&& stands_at(line, 3 - num.len(), num)
    &&& stands_at(line, 5, value)
    &&& stands_at(line, 27 - size.len(), size)
    &&& stands_at(line, 28, typ)
    &&& stands_at(line, 37, bind)
    &&& stands_at(line, 44, vis)
    &&& stands_at(line, 57 - ndx.len(), ndx)
    &&& stands_at(line, 58, name)
}

/// In a line whose cells fit their columns every cell stands at its place,
/// whatever the cells hold. The header and the rows are such lines, so a row
/// starts its cells where the header starts its labels.
pub proof fn lemma_line_columns(
    num: Seq<char>,
    value: Seq<char>,
    size: Seq<char>,
    typ: Seq<char>,
    bind: Seq<char>,
    vis: Seq<char>,
    ndx: Seq<char>,
    name: Seq<char>,
)
    requires
        cells_fit(num, value, size, typ, bind, vis, ndx),
    ensures
        in_columns(
            table_line(num, value, size, typ, bind, vis, ndx, name),
            num,
            value,
            size,
            typ,
            bind,
            vis,
            ndx,
            name,
        ),
{
    reveal_strlit(": ");
    reveal_strlit(" ");
    reveal_strlit("\n");
    let line = table_line(num, value, size, typ, bind, vis, ndx, name);
    assert(line.subrange(3 - num.len(), 3) =~= num);
    assert(line.subrange(5, 5 + value.len() as int) =~= value);
    assert(line.subrange(27 - size.len(), 27) =~= size);
    assert(line.subrange(28, 28 + typ.len() as int) =~= typ);
    assert(line.subrange(37, 37 + bind.len() as int) =~= bind);
    assert(line.subrange(44, 44 + vis.len() as int) =~= vis);
    assert(line.subrange(57 - ndx.len(), 57) =~= ndx);
    assert(line.subrange(58, 58 + name.len() as int) =~= name);
}

/// The labels of the header stand in the columns of the table.
pub proof fn lemma_header_columns()
    ensures
        in_columns(
            header_text(),
            "Num"@,
            pad_left("Value"@, 6, ' '),
            pad_left("Size"@, 15, ' '),
            "Type"@,
            "Bind"@,
            "Vis"@,
            "Ndx"@,
            "Name"@,
        ),
{
    reveal_strlit("Num");
    reveal_strlit("Value");
    reveal_strlit("Size");
    reveal_strlit("Type");
    reveal_strlit("Bind");
    reveal_strlit("Vis");
    reveal_strlit("Ndx");
    reveal_strlit("Name");
    lemma_line_columns(
        "Num"@,
        pad_left("Value"@, 6, ' '),
        pad_left("Size"@, 15, ' '),
        "Type"@,
        "Bind"@,
        "Vis"@,
        "Ndx"@,
        "Name"@,
    );
}

/// One more than the largest number of `digits` decimal digits.
pub open spec fn decimal_limit(digits: nat) -> nat
    decreases digits,
{
    if digits == 0 {
        1
    } else {
        10 * decimal_limit((digits - 1) as nat)
    }
}

/// One more than the largest number of `digits` hexadecimal digits.
pub open spec fn hex_limit(digits: nat) -> nat
    decreases digits,
{
    if digits == 0 {
        1
    } else {
        16 * hex_limit((digits - 1) as nat)
    }
}

/// A number below ten to the power of `digits` has at most `digits` decimal
/// digits.
pub proof fn lemma_decimal_len(n: nat, digits: nat)
    requires
        digits >= 1,
        n < decimal_limit(digits),
    ensures
        1 <= decimal(n).len() <= digits,
    decreases n,
{
    if n >= 10 {
        assert(decimal_limit(1) == 10) by {
            reveal_with_fuel(decimal_limit, 2);
        }
        lemma_decimal_len(n / 10, (digits - 1) as nat);
    }
}

/// A number below sixteen to the power of `digits` has at most `digits`
/// hexadecimal digits.
pub proof fn lemma_hex_len(n: nat, digits: nat)
    requires
        digits >= 1,
        n < hex_limit(digits),
    ensures
        1 <= hex(n).len() <= digits,
    decreases n,
{
    if n >= 16 {
        assert(hex_limit(1) == 16) by {
            reveal_with_fuel(hex_limit, 2);
        }
        lemma_hex_len(n / 16, (digits - 1) as nat);
    }
}

/// The row of a symbol stands in the columns of the table, like the header,
/// where its position is below a thousand, its size below a hundred thousand,
/// and the texts of its type, binding, visibility and section index are no
/// wider than their columns. Every value is shown in sixteen digits.
pub proof fn lemma_row_columns(idx: nat, sym: ResolvedSymView)
    requires
        idx < 1000,
        sym.info.st_size < 100000,
        type_text(symbol_type(sym.info.st_info)).len() <= 8,
        bind_text(symbol_bind(sym.info.st_info)).len() <= 6,
        visibility_text(symbol_visibility(sym.info.st_other)).len() <= 8,
        shndx_text(sym.info.st_shndx).len() <= 4,
    ensures
        pad_left(hex(sym.info.st_value as nat), 16, '0').len() == 16,
        in_columns(
            row_text(idx, sym),
            decimal(idx),
            pad_left(hex(sym.info.st_value as nat), 16, '0'),
            pad_left(decimal(sym.info.st_size as nat), 5, ' '),
            type_text(symbol_type(sym.info.st_info)),
            bind_text(symbol_bind(sym.info.st_info)),
            visibility_text(symbol_visibility(sym.info.st_other)),
            shndx_text(sym.info.st_shndx),
            display_name(sym),
        ),
{
    assert(decimal_limit(3) == 1000 && decimal_limit(5) == 100000) by {
        reveal_with_fuel(decimal_limit, 6);
    }
    assert(hex_limit(16) == 0x1_0000_0000_0000_0000) by {
        reveal_with_fuel(hex_limit, 17);
    }
    lemma_decimal_len(idx, 3);
    lemma_decimal_len(sym.info.st_size as nat, 5);
    lemma_hex_len(sym.info.st_value as nat, 16);
    lemma_line_columns(
        decimal(idx),
        pad_left(hex(sym.info.st_value as nat), 16, '0'),
        pad_left(decimal(sym.info.st_size as nat), 5, ' '),
        type_text(symbol_type(sym.info.st_info)),
        bind_text(symbol_bind(sym.info.st_info)),
        visibility_text(symbol_visibility(sym.info.st_other)),
        shndx_text(sym.info.st_shndx),
        display_name(sym),
    );
}

/// The one-character text of a digit below sixteen.
fn digit_str(d: u64) -> (s: &'static str)
    requires
        d < 16,
    ensures
        s@ == seq![digit_char(d as nat)],
{
    proof {
        reveal_strlit("0");
        reveal_strlit("1");
        reveal_strlit("2");
        reveal_strlit("3");
        reveal_strlit("4");
        reveal_strlit("5");
        reveal_strlit("6");
        reveal_strlit("7");
        reveal_strlit("8");
        reveal_strlit("9");
        reveal_strlit("a");
        reveal_strlit("b");
        reveal_strlit("c");
        reveal_strlit("d");
        reveal_strlit("e");
        reveal_strlit("f");
    }
    match d {
        0 => "0",
        1 => "1",
        2 => "2",
        3 => "3",
        4 => "4",
        5 => "5",
        6 => "6",
        7 => "7",
        8 => "8",
        9 => "9",
        10 => "a",
        11 => "b",
        12 => "c",
        13 => "d",
        14 => "e",
        _ => "f",
    }
}

/// Appends the decimal digits of `n`.
pub fn push_decimal(out: &mut String, n: u64)
    ensures
        final(out)@ == old(out)@ + decimal(n as nat),
    decreases n,
{
    if n >= 10 {
        push_decimal(out, n / 10);
    }
    out.append(digit_str(n % 10));
}

/// Appends the lower-case hexadecimal digits of `n`.
pub fn push_hex(out: &mut String, n: u64)
    ensures
        final(out)@ == old(out)@ + hex(n as nat),
    decreases n,
{
    if n >= 16 {
        push_hex(out, n / 16);
    }
    out.append(digit_str(n % 16));
}

/// The character that fills a field up: a zero or a space.
pub open spec fn filler(zero: bool) -> char {
    if zero {
        '0'
    } else {
        ' '
    }
}

/// Appends `count` zeros or `count` spaces.
fn push_fill(out: &mut String, count: usize, zero: bool)
    ensures
        final(out)@ == old(out)@ + fill(count as int, filler(zero)),
{
    let mut i: usize = 0;
    while i < count
        invariant
            i <= count,
            out@ == old(out)@ + fill(i as int, filler(zero)),
        decreases count - i,
    {
        proof {
            reveal_strlit("0");
            reveal_strlit(" ");
        }
        out.append(if zero { "0" } else { " " });
        i = i + 1;
    }
}

/// Appends `text` at the right end of a field of `width` characters, filled
/// up with zeros or with spaces.
pub fn push_left_padded(out: &mut String, text: &str, width: usize, zero: bool)
    ensures
        final(out)@ == old(out)@ + pad_left(text@, width as nat, filler(zero)),
{
    let len: usize = text.unicode_len();
    if len < width {
        push_fill(out, width - len, zero);
    }
    out.append(text);
}

/// Appends `text` at the left end of a field of `width` characters, filled up
/// with spaces.
pub fn push_right_padded(out: &mut String, text: &str, width: usize)
    ensures
        final(out)@ == old(out)@ + pad_right(text@, width as nat),
{
    let len: usize = text.unicode_len();
    out.append(text);
    if len < width {
        push_fill(out, width - len, false);
    }
}

/// Appends one line of a table: the eight cells in their columns and a line
/// feed. The header and the rows are both made here, so they share their
/// columns.
fn push_table_line(
    out: &mut String,
    num: &str,
    value: &str,
    size: &str,
    typ: &str,
    bind: &str,
    vis: &str,
    ndx: &str,
    name: &str,
)
    ensures
        final(out)@ == old(out)@ + table_line(
            num@,
            value@,
            size@,
            typ@,
            bind@,
            vis@,
            ndx@,
            name@,
        ),
{
    let mut line = String::new();
    push_left_padded(&mut line, num, 3, false);
    line.append(": ");
    line.append(value);
    line.append(" ");
    line.append(size);
    line.append(" ");
    push_right_padded(&mut line, typ, 8);
    line.append(" ");
    push_right_padded(&mut line, bind, 6);
    line.append(" ");
    push_right_padded(&mut line, vis, 8);
    line.append(" ");
    push_left_padded(&mut line, ndx, 4, false);
    line.append(" ");
    push_right_padded(&mut line, name, 4);
    line.append("\n");
    out.append(line.as_str());
}

/// Appends the header row.
fn push_header(out: &mut String)
    ensures
        final(out)@ == old(out)@ + header_text(),
{
    let mut value = String::new();
    push_left_padded(&mut value, "Value", 6, false);
    let mut size = String::new();
    push_left_padded(&mut size, "Size", 15, false);
    push_table_line(
        out,
        "Num",
        value.as_str(),
        size.as_str(),
        "Type",
        "Bind",
        "Vis",
        "Ndx",
        "Name",
    );
}

impl SectionIndex {
    /// How the index is shown in a listing.
    pub open spec fn spec_text(self) -> Seq<char> {
        match self {
            SectionIndex::Undefined => "UND"@,
            SectionIndex::Absolute => "ABS"@,
            other => decimal(other.spec_raw() as nat),
        }
    }

    /// How the index is shown in a listing: `UND` for an undefined symbol,
    /// `ABS` for an absolute one, the decimal number for every other index.
    pub fn text(self) -> (s: String)
        ensures
            s@ == self.spec_text(),
    {
        match self {
            SectionIndex::Undefined => String::from_str("UND"),
            SectionIndex::Absolute => String::from_str("ABS"),
            other => {
                let mut s = String::new();
                push_decimal(&mut s, other.raw() as u64);
                s
            },
        }
    }
}

impl<'a> ResolvedSym<'a> {
    /// How the section index of the symbol is shown: `UND` for index zero,
    /// `ABS` for the absolute index, the decimal number for every other.
    pub fn shndx_to_str(&self) -> (s: String)
        ensures
            s@ == shndx_text(self.info.st_shndx),
    {
        SectionIndex::decode(self.info.st_shndx).text()
    }

    /// The name column of the symbol: `name@version` where it has a version,
    /// the bare name where it has none.
    pub fn display_name(&self) -> (s: String)
        ensures
            s@ == display_name(self@),
    {
        let mut s = String::from_str(self.symbol);
        match self.version {
            Some(v) => {
                s.append("@");
                s.append(v);
            },
            None => {},
        }
        s
    }

    /// The row of this symbol in a listing where it stands at position `idx`:
    /// index, value in sixteen hexadecimal digits, size, type, binding,
    /// visibility, section index and name, each in its column.
    pub fn print_symbol(&self, idx: usize) -> (row: String)
        ensures
            row@ == row_text(idx as nat, self@),
    {
        let mut num = String::new();
        push_decimal(&mut num, idx as u64);
        let mut digits = String::new();
        push_hex(&mut digits, self.info.st_value);
        let mut value = String::new();
        push_left_padded(&mut value, digits.as_str(), 16, true);
        let mut count = String::new();
        push_decimal(&mut count, self.info.st_size);
        let mut size = String::new();
        push_left_padded(&mut size, count.as_str(), 5, false);
        let typ = goblin::elf::sym::type_to_str(goblin::elf::sym::st_type(self.info.st_info));
        let bind = goblin::elf::sym::bind_to_str(goblin::elf::sym::st_bind(self.info.st_info));
        let vis = goblin::elf::sym::visibility_to_str(
            goblin::elf::sym::st_visibility(self.info.st_other),
        );
        let ndx = self.shndx_to_str();
        let name = self.display_name();
        let mut row = String::new();
        push_table_line(
            &mut row,
            num.as_str(),
            value.as_str(),
            size.as_str(),
            typ,
            bind,
            vis,
            ndx.as_str(),
            name.as_str(),
        );
        row
    }
}

/// Renders a symbol table under the name `name`: a title with the number of
/// symbols, the header row, one row per symbol in the order given, numbered
/// from zero, and an empty line. An empty table renders as the empty string.
pub fn display_symbol_table(tab: &Vec<ResolvedSym>, name: &str) -> (out: String)
    ensures
        out@ == table_text(symbol_views(tab@), name@),
{
    let mut out = String::new();
    let num: usize = tab.len();
    if num > 0 {
        out.append("Symbol table '");
        out.append(name);
        out.append("' contains ");
        push_decimal(&mut out, num as u64);
        out.append(" entries:\n");
        push_header(&mut out);
        let mut i: usize = 0;
        while i < num
            invariant
                i <= num,
                num == tab.len(),
                out@ == title_text(name@, num as nat) + header_text() + rows_text(
                    symbol_views(tab@),
                    i as nat,
                ),
            decreases num - i,
        {
            let row = tab[i].print_symbol(i);
            out.append(row.as_str());
            i = i + 1;
        }
        out.append("\n");
    }
    out
}

} // verus!
