//! Rendering a record as one line of the listing.

use crate::category::category_label;
use crate::category::category_label_of;
use crate::category::LABEL_WIDTH;
use crate::names::views_of;
use crate::names::NameLookup;
use crate::record::be_u64;
use crate::record::record_of;
use crate::record::TitleRecord;
use crate::text::decimal;
use crate::text::hex8;
use crate::text::padded;
use crate::text::push_decimal;
use crate::text::push_hex8;
use crate::text::push_padded;
use crate::text::push_signed_decimal;
use crate::text::signed_decimal;
use vstd::prelude::*;
use vstd::string::StringExecFns;

verus! {

/// Codes below this one name a module of the system firmware.
pub const FIRMWARE_CODES: u32 = 255;

/// The character shown for a byte of a code: the byte itself where it is
/// printable ASCII, a dot where it is not.
pub open spec fn printable(byte: u8) -> char {
    if 32 <= byte < 128 {
        byte as char
    } else {
        '.'
    }
}

/// Whether a character can stand in a code string: printable ASCII only.
pub open spec fn is_code_char(ch: char) -> bool {
    32 <= ch as int && (ch as int) < 128
}

/// The four bytes that spell `value`, most significant byte first.
pub open spec fn be_bytes_u32(value: u32) -> Seq<u8> {
    seq![
        (value / 0x0100_0000 % 0x100) as u8,
        (value / 0x0001_0000 % 0x100) as u8,
        (value / 0x0100 % 0x100) as u8,
        (value % 0x100) as u8,
    ]
}

/// The code string of a code: its four bytes, most significant first, each
/// as the character shown for it.
pub open spec fn gameid_string(gameid: u32) -> Seq<char> {
    be_bytes_u32(gameid).map_values(|byte: u8| printable(byte))
}

/// The names of a lookup that may be absent.
pub open spec fn names_of(lookup: Option<&NameLookup>) -> Option<Map<Seq<char>, Seq<char>>> {
    match lookup {
        Some(lookup) => Some(lookup@),
        None => None,
    }
}

/// What follows the code string on a line: nothing without a name database;
/// with one, the title's name, or the firmware module's number, or question
/// marks where the database has no name and the code is no firmware module's.
pub open spec fn name_suffix_of(code: u32, names: Option<Map<Seq<char>, Seq<char>>>) -> Seq<
    char,
> {
    match names {
        None => Seq::empty(),
        Some(names) => if names.contains_key(gameid_string(code)) {
            " - "@ + names[gameid_string(code)]
        } else if code < FIRMWARE_CODES {
            " - IOS "@ + decimal(code as nat)
        } else {
            " - ????"@
        },
    }
}

/// The category column of a line: the padded label where labels were asked
/// for, nothing where they were not.
pub open spec fn label_column_of(category: u32, pretty: bool) -> Seq<char> {
    if pretty {
        padded(category_label_of(category), LABEL_WIDTH as nat)
    } else {
        Seq::empty()
    }
}

/// The line that shows a record.
pub open spec fn line_of(
    record: TitleRecord,
    pretty: bool,
    names: Option<Map<Seq<char>, Seq<char>>>,
) -> Seq<char> {
    signed_decimal(record.install_index() as int) + ": "@ + label_column_of(
        record.category(),
        pretty,
    ) + hex8(record.category()) + "-"@ + hex8(record.code()) + " ("@ + gameid_string(
        record.code(),
    ) + ")"@ + name_suffix_of(record.code(), names)
}

/// The character shown for one byte of a code.
pub fn printable_char(byte: u8) -> (ch: char)
    ensures
        ch == printable(byte),
{
    if 32 <= byte && byte < 128 {
        byte as char
    } else {
        '.'
    }
}

/// Derives the four-character code string of a code.
pub fn make_gameid_string(gameid: u32) -> (code: String)
    ensures
        code@ == gameid_string(gameid),
{
    let mut code = String::new();
    code.push(printable_char((gameid / 0x0100_0000 % 0x100) as u8));
    code.push(printable_char((gameid / 0x0001_0000 % 0x100) as u8));
    code.push(printable_char((gameid / 0x0100 % 0x100) as u8));
    code.push(printable_char((gameid % 0x100) as u8));
    assert(code@ =~= gameid_string(gameid));
    code
}

/// Renders what follows the code string on a line.
pub fn name_suffix(code: u32, lookup: Option<&NameLookup>) -> (suffix: String)
    ensures
        suffix@ == name_suffix_of(code, names_of(lookup)),
{
    match lookup {
        None => String::new(),
        Some(lookup) => {
            let key = make_gameid_string(code);
            match lookup.lookup(key.as_str()) {
                Some(name) => {
                    let mut suffix = String::from_str(" - ");
                    suffix.append(name.as_str());
                    suffix
                },
                None => {
                    if code < FIRMWARE_CODES {
                        let mut suffix = String::from_str(" - IOS ");
                        push_decimal(&mut suffix, code);
                        suffix
                    } else {
                        String::from_str(" - ????")
                    }
                },
            }
        },
    }
}

/// Renders one record as a line of the listing.
///
/// With `pretty` the category's label stands in front of the identifier, in
/// a column of its own; without it the line holds no label.
pub fn format_line(record: TitleRecord, pretty: bool, lookup: Option<&NameLookup>) -> (line:
    String)
    ensures
        line@ == line_of(record, pretty, names_of(lookup)),
{
    let mut line = String::new();
    push_signed_decimal(&mut line, record.install_index());
    line.append(": ");
    if pretty {
        push_padded(&mut line, category_label(record.category()), LABEL_WIDTH);
    }
    push_hex8(&mut line, record.category());
    line.append("-");
    push_hex8(&mut line, record.code());
    line.append(" (");
    let code = make_gameid_string(record.code());
    line.append(code.as_str());
    line.append(")");
    let suffix = name_suffix(record.code(), lookup);
    line.append(suffix.as_str());
    assert(line@ =~= line_of(record, pretty, names_of(lookup)));
    line
}

/// Renders every record, one line each, in the order of the records.
pub fn format_lines(records: &[TitleRecord], pretty: bool, lookup: Option<&NameLookup>) -> (lines:
    Vec<String>)
    ensures
        views_of(lines@) == records@.map_values(
            |record: TitleRecord| line_of(record, pretty, names_of(lookup)),
        ),
{
    let mut lines: Vec<String> = Vec::with_capacity(records.len());
    let mut index: usize = 0;
    while index < records.len()
        invariant
            index <= records@.len(),
            lines@.len() == index,
            forall|k: int|
                0 <= k < index ==> (#[trigger] lines@[k])@ == line_of(
                    records@[k],
                    pretty,
                    names_of(lookup),
                ),
        decreases records@.len() - index,
    {
        lines.push(format_line(records[index], pretty, lookup));
        index += 1;
    }
    assert(views_of(lines@) =~= records@.map_values(
        |record: TitleRecord| line_of(record, pretty, names_of(lookup)),
    ));
    lines
}

/// A code string has four characters, each a printable ASCII character or a
/// dot.
pub proof fn lemma_code_string_shape(gameid: u32)
    ensures
        gameid_string(gameid).len() == 4,
        forall|k: int| 0 <= k < 4 ==> is_code_char(#[trigger] gameid_string(gameid)[k]),
{
}

/// The code string depends on the low half of the title identifier alone.
pub proof fn lemma_code_string_of_low_half(first: TitleRecord, second: TitleRecord)
    requires
        first.title_id % 0x1_0000_0000 == second.title_id % 0x1_0000_0000,
    ensures
        gameid_string(first.code()) == gameid_string(second.code()),
{
}

/// The code string of a stored record shows bytes 4 to 7 of its chunk:
/// decoding the same bytes gives the same code string.
pub proof fn lemma_code_string_of_chunk(chunk: Seq<u8>)
    requires
        chunk.len() == 12,
    ensures
        gameid_string(record_of(chunk).code()) == chunk.subrange(4, 8).map_values(
            |byte: u8| printable(byte),
        ),
{
    let id = be_u64(chunk.subrange(0, 8));
    let low = chunk[4] * 0x0100_0000 + chunk[5] * 0x0001_0000 + chunk[6] * 0x0100 + chunk[7];
    assert(id % 0x1_0000_0000 == low);
    assert(be_bytes_u32(record_of(chunk).code()) =~= chunk.subrange(4, 8));
}

} // verus!
