//! What saving scraped content writes: the lines appended to a text file, or
//! the CSV file (a header row holding the selector, then one row per item),
//! both under the data folder. The files themselves are written by the caller.
use vstd::prelude::*;
use vstd::string::*;

use crate::text::str_eq;
use crate::utils::{file_extension, lemma_extension_of_dotted_name, split_file_extension};

verus! {

#[verifier::external_type_specification]
#[verifier::external_body]
pub struct ExCsvError(csv::Error);

/// Whether a CSV field must be quoted: it holds a `,`, a `"`, a `\r` or a
/// `\n`.
pub open spec fn csv_needs_quotes(field: Seq<char>) -> bool {
    exists|i: int|
        0 <= i < field.len() && (field[i] == ',' || field[i] == '"' || field[i] == '\r'
            || field[i] == '\n')
}

/// `field` with every `"` doubled.
pub open spec fn csv_double_quotes(field: Seq<char>) -> Seq<char>
    decreases field.len(),
{
    if field.len() == 0 {
        Seq::empty()
    } else {
        let rest = csv_double_quotes(field.drop_last());
        if field.last() == '"' {
            rest + seq!['"', '"']
        } else {
            rest.push(field.last())
        }
    }
}

/// The text of a CSV record made of the single field `field`, ended by a line
/// break: an empty field is written as `""`, a field that needs quotes is
/// written between quotes with its quotes doubled, any other field as it is.
pub open spec fn csv_record_text(field: Seq<char>) -> Seq<char> {
    if field.len() == 0 {
        seq!['"', '"', '\n']
    } else if csv_needs_quotes(field) {
        seq!['"'] + csv_double_quotes(field) + seq!['"', '\n']
    } else {
        field + seq!['\n']
    }
}

/// The bytes of the CSV record made of the single field `field`: the UTF-8
/// encoding of its text.
pub open spec fn csv_record(field: Seq<char>) -> Seq<u8> {
    vstd::utf8::encode_utf8(csv_record_text(field))
}

/// Encodes one single-field CSV record with `csv::Writer` over an in-memory
/// buffer (`Writer::from_writer`, `write_record`, `into_inner`), with the
/// writer's default settings: `,` delimiter, `"` quote doubled inside quoted
/// fields, `\n` terminator, quoting where necessary. Trusted: writing to a
/// `Vec` cannot fail and a one-field record cannot have unequal lengths, so
/// the call succeeds; the bytes are the field followed by `\n`, quoted (with
/// inner quotes doubled) where it holds `,`, `"`, `\r` or `\n`, and `""` for
/// an empty field, as `csv_record` states.
#[verifier::external_body]
fn encode_csv_record(field: &str) -> (r: Result<Vec<u8>, csv::Error>)
    ensures
        r is Ok,
        r matches Ok(b) ==> b@ == csv_record(field@),
{
    let mut wtr = csv::Writer::from_writer(Vec::new());
    wtr.write_record([field])?;
    match wtr.into_inner() {
        Ok(bytes) => Ok(bytes),
        Err(e) => Err(csv::Error::from(e.into_error())),
    }
}

/// The folder that holds the saved files.
pub open spec fn data_dir() -> Seq<char> {
    seq!['d', 'a', 't', 'a', '/']
}

/// The path of the saved file `filename`.
pub open spec fn data_path(filename: Seq<char>) -> Seq<char> {
    data_dir() + filename
}

/// The lines appended to a text file for `data`: each item followed by a
/// line break, in order.
pub open spec fn text_lines(data: Seq<Seq<char>>) -> Seq<Seq<char>> {
    data.map_values(|s: Seq<char>| s + seq!['\n'])
}

/// The CSV encoding of `rows`: one single-field record per row, in order.
pub open spec fn csv_rows(rows: Seq<Seq<char>>) -> Seq<u8>
    decreases rows.len(),
{
    if rows.len() == 0 {
        Seq::empty()
    } else {
        csv_rows(rows.drop_last()) + csv_record(rows.last())
    }
}

/// The contents of the CSV file saved for `data`: a header record holding the
/// selector, then one record per item.
pub open spec fn csv_file(selector: Seq<char>, data: Seq<Seq<char>>) -> Seq<u8> {
    csv_rows(seq![selector] + data)
}

/// The extension of a text file.
pub open spec fn txt_ext() -> Seq<char> {
    seq!['t', 'x', 't']
}

/// The extension of a CSV file.
pub open spec fn csv_ext() -> Seq<char> {
    seq!['c', 's', 'v']
}

/// The extensions that content can be saved under: `txt` and `csv`.
pub open spec fn is_supported_extension(ext: Seq<char>) -> bool {
    ext == txt_ext() || ext == csv_ext()
}

/// A file write that saving content asks for.
#[derive(Debug)]
pub enum SavePlan {
    /// Append each line, in order, to the text file at `path`, creating it
    /// where it is missing.
    AppendLines { path: String, lines: Vec<String> },
    /// Create (or truncate) the file at `path` and write `bytes` to it.
    WriteFile { path: String, bytes: Vec<u8> },
}

/// Why content could not be saved.
#[derive(Debug)]
pub enum SaveError {
    /// The file extension is neither `txt` nor `csv`.
    UnsupportedExtension,
}

/// `p` appends the lines of `data` to the text file `filename`.
pub open spec fn is_text_plan(p: SavePlan, data: Seq<Seq<char>>, filename: Seq<char>) -> bool {
    &&& p matches SavePlan::AppendLines { path, lines }
    &&& path@ == data_path(filename)
    &&& lines.deep_view() == text_lines(data)
}

/// `p` writes the CSV file `filename` for `data`: a header record holding
/// `selector`, then one record per item.
pub open spec fn is_csv_plan(
    p: SavePlan,
    data: Seq<Seq<char>>,
    filename: Seq<char>,
    selector: Seq<char>,
) -> bool {
    &&& p matches SavePlan::WriteFile { path, bytes }
    &&& path@ == data_path(filename)
    &&& bytes@ == csv_file(selector, data)
}

/// The path of the saved file `filename`: `data/` followed by the name.
pub fn data_file_path(filename: &str) -> (r: String)
    ensures
        r@ == data_path(filename@),
{
    let mut p = String::from_str("data/");
    p.append(filename);
    proof {
        reveal_strlit("data/");
        assert("data/"@ =~= data_dir());
    }
    p
}

/// The lines that saving `data` as text appends to `data/<filename>`: each
/// item followed by a line break, in order.
pub fn save_html_content(data: Vec<String>, filename: &str) -> (r: SavePlan)
    ensures
        is_text_plan(r, data.deep_view(), filename@),
        r matches SavePlan::AppendLines { path, lines } && path@ == data_dir() + filename@
            && lines@.len() == data@.len() && forall|j: int|
            0 <= j < data@.len() ==> #[trigger] lines@[j]@ == data@[j]@ + seq!['\n'],
{
    let path = data_file_path(filename);
    let mut lines: Vec<String> = Vec::new();
    for i in 0..data.len()
        invariant
            lines@.len() == i,
            forall|j: int| 0 <= j < i ==> #[trigger] lines@[j]@ == data@[j]@ + seq!['\n'],
    {
        let mut line = data[i].clone();
        line.append("\n");
        proof {
            reveal_strlit("\n");
            assert("\n"@ =~= seq!['\n']);
        }
        lines.push(line);
    }
    assert(lines.deep_view() =~= text_lines(data.deep_view()));
    proof {
        lemma_text_lines_one_per_item(data.deep_view());
    }
    SavePlan::AppendLines { path, lines }
}

/// The CSV file that saving `data` writes to `data/<filename>`: a header
/// record holding `selector`, then one record per item, in order.
pub fn save_in_csv(data: Vec<String>, filename: &str, selector: &str) -> (r: SavePlan)
    ensures
        is_csv_plan(r, data.deep_view(), filename@, selector@),
        r matches SavePlan::WriteFile { path, bytes } && path@ == data_dir() + filename@ && bytes@
            == csv_record(selector@) + csv_rows(data.deep_view()),
{
    let path = data_file_path(filename);
    let ghost rows = seq![selector@] + data.deep_view();
    let mut bytes = match encode_csv_record(selector) {
        Ok(b) => b,
        Err(_) => {
            assert(false);
            Vec::new()
        },
    };
    assert(rows.take(1).drop_last() =~= Seq::<Seq<char>>::empty());
    assert(rows.take(1).last() == selector@);
    assert(csv_rows(Seq::<Seq<char>>::empty()) == Seq::<u8>::empty());
    assert(Seq::<u8>::empty() + bytes@ =~= bytes@);
    assert(csv_rows(rows.take(1)) == bytes@);
    for i in 0..data.len()
        invariant
            rows == seq![selector@] + data.deep_view(),
            rows.len() == data@.len() + 1,
            csv_rows(rows.take(i + 1)) == bytes@,
    {
        proof {
            assert(rows.take(i + 2).drop_last() =~= rows.take(i + 1));
            assert(rows.take(i + 2).last() == data@[i as int]@);
        }
        let mut record = match encode_csv_record(data[i].as_str()) {
            Ok(b) => b,
            Err(_) => {
                assert(false);
                Vec::new()
            },
        };
        bytes.append(&mut record);
    }
    assert(rows.take(data@.len() + 1 as int) =~= rows);
    proof {
        lemma_csv_file_header_then_items(selector@, data.deep_view());
    }
    SavePlan::WriteFile { path, bytes }
}

/// Whether content can be saved under the extension `extension`.
pub fn supported_extension(extension: &str) -> (r: bool)
    ensures
        r == is_supported_extension(extension@),
{
    proof {
        reveal_strlit("txt");
        reveal_strlit("csv");
        assert("txt"@ =~= txt_ext());
        assert("csv"@ =~= csv_ext());
    }
    str_eq(extension, "txt") || str_eq(extension, "csv")
}

/// The save that the file extension selects: `txt` appends the items as
/// lines, `csv` writes a CSV file with `selector` as header. Any other
/// extension is refused before the call.
pub fn match_file_extension(
    data: Vec<String>,
    filename: &str,
    extension: &str,
    selector: &str,
) -> (r: SavePlan)
    requires
        is_supported_extension(extension@),
    ensures
        extension@ == txt_ext() ==> is_text_plan(r, data.deep_view(), filename@),
        extension@ == csv_ext() ==> is_csv_plan(r, data.deep_view(), filename@, selector@),
{
    proof {
        reveal_strlit("txt");
        assert("txt"@ =~= txt_ext());
    }
    if str_eq(extension, "txt") {
        save_html_content(data, filename)
    } else {
        save_in_csv(data, filename, selector)
    }
}

/// `r` is the outcome of saving `data` to `filename`, in the format that the
/// file's extension selects: lines of text for `txt`, a CSV file with
/// `selector` as header for `csv`, a refusal for any other extension.
pub open spec fn is_save_outcome(
    r: Result<SavePlan, SaveError>,
    data: Seq<Seq<char>>,
    filename: Seq<char>,
    selector: Seq<char>,
) -> bool {
    let ext = file_extension(filename);
    if ext == txt_ext() {
        r matches Ok(p) && is_text_plan(p, data, filename)
    } else if ext == csv_ext() {
        r matches Ok(p) && is_csv_plan(p, data, filename, selector)
    } else {
        r matches Err(SaveError::UnsupportedExtension)
    }
}

/// The save of `data` to `filename` in the format its extension selects; a
/// file name whose extension is neither `txt` nor `csv` is refused.
pub fn save_by_extension(data: Vec<String>, filename: &str, selector: &str) -> (r: Result<
    SavePlan,
    SaveError,
>)
    ensures
        is_save_outcome(r, data.deep_view(), filename@, selector@),
{
    let extension = split_file_extension(filename);
    if supported_extension(extension.as_str()) {
        Ok(match_file_extension(data, filename, extension.as_str(), selector))
    } else {
        Err(SaveError::UnsupportedExtension)
    }
}

/// The format follows the extension of the save file alone: a file named
/// `name.txt` receives the items as lines, a file named `name.csv` a CSV file
/// with the selector as header, a file named `name.ext` for any other `ext`
/// (holding no `'.'`) is refused; whatever is written goes under `data/`.
pub proof fn lemma_save_format_follows_extension(
    r: Result<SavePlan, SaveError>,
    data: Seq<Seq<char>>,
    name: Seq<char>,
    ext: Seq<char>,
    selector: Seq<char>,
)
    requires
        forall|j: int| 0 <= j < ext.len() ==> ext[j] != '.',
        is_save_outcome(r, data, name + seq!['.'] + ext, selector),
    ensures
        ext == txt_ext() ==> (r matches Ok(SavePlan::AppendLines { lines, .. })
            && lines.deep_view() == text_lines(data)),
        ext == csv_ext() ==> (r matches Ok(SavePlan::WriteFile { bytes, .. }) && bytes@
            == csv_file(selector, data)),
        !is_supported_extension(ext) ==> r matches Err(SaveError::UnsupportedExtension),
        r matches Ok(p) ==> match p {
            SavePlan::AppendLines { path, .. } => path@.take(5) == data_dir(),
            SavePlan::WriteFile { path, .. } => path@.take(5) == data_dir(),
        },
{
    lemma_extension_of_dotted_name(name, ext);
    let filename = name + seq!['.'] + ext;
    assert(data_path(filename).take(5) =~= data_dir());
}

/// A text save writes one line per item, empty items included: line `j` is
/// item `j` followed by a line break, and nothing else is written.
pub proof fn lemma_text_lines_one_per_item(data: Seq<Seq<char>>)
    ensures
        text_lines(data).len() == data.len(),
        forall|j: int|
            0 <= j < data.len() ==> #[trigger] text_lines(data)[j] == data[j] + seq!['\n'],
        forall|j: int| 0 <= j < data.len() ==> #[trigger] text_lines(data)[j].last() == '\n',
        forall|j: int|
            0 <= j < data.len() ==> #[trigger] text_lines(data)[j].drop_last() == data[j],
{
    assert forall|j: int| 0 <= j < data.len() implies #[trigger] text_lines(data)[j].drop_last()
        == data[j] by {
        assert((data[j] + seq!['\n']).drop_last() =~= data[j]);
    }
}

/// The CSV encoding of rows is the single-row encodings joined in order:
/// encoding `a + b` gives the encoding of `a` followed by that of `b`, and
/// one row gives exactly its record. So no row is dropped, merged or
/// reordered, whatever the values.
pub proof fn lemma_csv_rows_concat(a: Seq<Seq<char>>, b: Seq<Seq<char>>)
    ensures
        csv_rows(a + b) == csv_rows(a) + csv_rows(b),
        csv_rows(Seq::<Seq<char>>::empty()) == Seq::<u8>::empty(),
    decreases b.len(),
{
    if b.len() == 0 {
        assert(a + b =~= a);
        assert(csv_rows(a) + Seq::<u8>::empty() =~= csv_rows(a));
    } else {
        lemma_csv_rows_concat(a, b.drop_last());
        assert((a + b).drop_last() =~= a + b.drop_last());
        assert((a + b).last() == b.last());
        assert(csv_rows(a) + csv_rows(b.drop_last()) + csv_record(b.last()) =~= csv_rows(a) + (
        csv_rows(b.drop_last()) + csv_record(b.last())));
    }
}

/// One row is encoded as exactly its record, and adding a row at the end
/// adds exactly its record at the end.
pub proof fn lemma_csv_rows_single_and_push(rows: Seq<Seq<char>>, x: Seq<char>)
    ensures
        csv_rows(seq![x]) == csv_record(x),
        csv_rows(rows.push(x)) == csv_rows(rows) + csv_record(x),
{
    assert(seq![x].drop_last() =~= Seq::<Seq<char>>::empty());
    assert(csv_rows(Seq::<Seq<char>>::empty()) == Seq::<u8>::empty());
    assert(Seq::<u8>::empty() + csv_record(x) =~= csv_record(x));
    assert(rows.push(x).drop_last() =~= rows);
}

/// The CSV file is the record of the selector, then the record of each item
/// in order: `data.len() + 1` records whatever the item values, equal items
/// included.
pub proof fn lemma_csv_file_header_then_items(selector: Seq<char>, data: Seq<Seq<char>>)
    ensures
        csv_file(selector, data) == csv_record(selector) + csv_rows(data),
        data.len() > 0 ==> csv_rows(data) == csv_rows(data.drop_last()) + csv_record(
            data.last(),
        ),
{
    lemma_csv_rows_concat(seq![selector], data);
    lemma_csv_rows_single_and_push(Seq::empty(), selector);
    if data.len() > 0 {
        lemma_csv_rows_single_and_push(data.drop_last(), data.last());
        assert(data.drop_last().push(data.last()) =~= data);
    }
}

/// Quote doubling keeps every character and doubles exactly the quotes: a
/// field without quotes is unchanged, and each character of the field adds
/// one character, or two for a quote.
pub proof fn lemma_csv_double_quotes(field: Seq<char>, c: char)
    ensures
        (forall|j: int| 0 <= j < field.len() ==> field[j] != '"') ==> csv_double_quotes(field)
            == field,
        csv_double_quotes(field.push(c)) == csv_double_quotes(field) + (if c == '"' {
            seq!['"', '"']
        } else {
            seq![c]
        }),
    decreases field.len(),
{
    assert(field.push(c).drop_last() =~= field);
    if forall|j: int| 0 <= j < field.len() ==> field[j] != '"' {
        if field.len() > 0 {
            lemma_csv_double_quotes(field.drop_last(), c);
            assert(field.drop_last().push(field.last()) =~= field);
            assert(csv_double_quotes(field.drop_last()).push(field.last()) =~= field);
        } else {
            assert(csv_double_quotes(field) =~= field);
        }
    }
    if c != '"' {
        assert(csv_double_quotes(field).push(c) =~= csv_double_quotes(field) + seq![c]);
    }
}

/// The text of a one-field CSV record: a non-empty field that holds none of
/// `,`, `"`, `\r`, `\n` is written as it is; an empty field as `""`; any
/// other field between quotes; every record ends with one line break.
pub proof fn lemma_csv_record_text(field: Seq<char>)
    ensures
        field.len() > 0 && !csv_needs_quotes(field) ==> csv_record_text(field) == field + seq![
            '\n',
        ],
        field.len() == 0 ==> csv_record_text(field) == seq!['"', '"', '\n'],
        field.len() > 0 && csv_needs_quotes(field) ==> csv_record_text(field)[0] == '"'
            && csv_record_text(field).drop_last().last() == '"',
        csv_record_text(field).last() == '\n',
        csv_record_text(field).len() >= field.len() + 1,
{
    if field.len() > 0 && csv_needs_quotes(field) {
        lemma_csv_double_quotes_len(field);
        let t = seq!['"'] + csv_double_quotes(field) + seq!['"', '\n'];
        assert(t.drop_last().last() == '"');
    }
}

proof fn lemma_csv_double_quotes_len(field: Seq<char>)
    ensures
        csv_double_quotes(field).len() >= field.len(),
    decreases field.len(),
{
    if field.len() > 0 {
        lemma_csv_double_quotes_len(field.drop_last());
    }
}

} // verus!
