//! Document editor demo, solved with the factory method pattern.
//!
//! A factory selects a reader by document type (CSV, JSON); the reader turns
//! the text of a document into one normalized record `{name, age}`.

use vstd::prelude::*;
use vstd::string::StrSliceExecFns;

verus! {

/// The single normalized record parsed from a document source.
#[derive(Debug)]
pub struct DocData {
    pub name: String,
    pub age: u16,
}

impl Clone for DocData {
    fn clone(&self) -> (r: Self)
        ensures
            r == *self,
    {
        DocData { name: self.name.clone(), age: self.age }
    }
}

/// Why a document yielded no record.
#[derive(Clone, Copy, PartialEq, Eq, Structural, Debug)]
pub enum DocError {
    /// The document could not be parsed, or its one record does not have the
    /// expected shape.
    Parse,
    /// The document is well formed but holds no data row at all.
    RecordNotFound,
}

/// Whether `c` is a decimal digit.
pub open spec fn is_dec_digit(c: char) -> bool {
    '0' <= c && c <= '9'
}

/// The numeric value of the decimal digit `c`.
pub open spec fn dec_digit_value(c: char) -> int {
    c as int - '0' as int
}

/// The value of `s` read as a big-endian sequence of decimal digits.
pub open spec fn dec_value(s: Seq<char>) -> int
    decreases s.len(),
{
    if s.len() == 0 {
        0
    } else {
        dec_value(s.drop_last()) * 10 + dec_digit_value(s.last())
    }
}

/// Whether every character of `s` is a decimal digit.
pub open spec fn all_dec_digits(s: Seq<char>) -> bool {
    forall|i: int| 0 <= i < s.len() ==> is_dec_digit(s[i])
}

/// The value `s` denotes as a decimal `u16`: an optional leading `+`, then
/// one or more decimal digits whose value fits in a `u16`; anything else
/// denotes nothing.
pub open spec fn u16_from_decimal(s: Seq<char>) -> Option<u16> {
    let digits = if s.len() > 0 && s[0] == '+' {
        s.skip(1)
    } else {
        s
    };
    if digits.len() > 0 && all_dec_digits(digits) && dec_value(digits) <= u16::MAX {
        Some(dec_value(digits) as u16)
    } else {
        None
    }
}

/// A sequence of digits worth more than `u16::MAX` stays too large when more
/// digits follow it.
proof fn lemma_dec_value_monotone(s: Seq<char>)
    requires
        s.len() > 0,
        all_dec_digits(s),
    ensures
        dec_value(s) >= dec_value(s.drop_last()),
{
    assert(dec_digit_value(s.last()) >= 0);
    assert(dec_value(s.drop_last()) * 10 >= dec_value(s.drop_last())) by {
        lemma_dec_value_nonneg(s.drop_last());
    }
}

/// Digits denote a nonnegative value.
proof fn lemma_dec_value_nonneg(s: Seq<char>)
    requires
        all_dec_digits(s),
    ensures
        dec_value(s) >= 0,
    decreases s.len(),
{
    if s.len() > 0 {
        assert(all_dec_digits(s.drop_last())) by {
            assert(forall|i: int| 0 <= i < s.len() - 1 ==> s.drop_last()[i] == s[i]);
        }
        lemma_dec_value_nonneg(s.drop_last());
    }
}

/// Reads `s` as a decimal `u16`, exactly as `u16_from_decimal` describes:
/// an optional leading `+`, then one or more decimal digits whose value fits.
pub fn parse_u16(s: &str) -> (r: Option<u16>)
    ensures
        r == u16_from_decimal(s@),
{
    let n = s.unicode_len();
    let offset: usize = if n > 0 && s.get_char(0) == '+' {
        1
    } else {
        0
    };
    let ghost digits: Seq<char> = if s@.len() > 0 && s@[0] == '+' {
        s@.skip(1)
    } else {
        s@
    };
    proof {
        assert(digits.len() == n - offset);
        assert(forall|j: int| 0 <= j < digits.len() ==> digits[j] == s@[j + offset]);
    }
    if n == offset {
        return None;
    }
    let mut v: u32 = 0;
    let mut over = false;
    let mut i: usize = offset;
    while i < n
        invariant
            offset <= i <= n,
            n == s@.len(),
            digits == (if s@.len() > 0 && s@[0] == '+' {
                s@.skip(1)
            } else {
                s@
            }),
            digits.len() == n - offset,
            forall|j: int| 0 <= j < digits.len() ==> digits[j] == s@[j + offset],
            forall|j: int| 0 <= j < i - offset ==> is_dec_digit(digits[j]),
            !over ==> v == dec_value(digits.take(i - offset)) && v <= 65535,
            over ==> dec_value(digits.take(i - offset)) > 65535,
            over ==> all_dec_digits(digits.take(i - offset)),
        decreases n - i,
    {
        let c = s.get_char(i);
        let d = c as u32;
        if d < 48 || d > 57 {
            proof {
                assert(!is_dec_digit(digits[i - offset]));
            }
            return None;
        }
        let ghost prefix = digits.take(i - offset);
        let ghost extended = digits.take(i + 1 - offset);
        proof {
            assert(extended.drop_last() =~= prefix);
            assert(extended.last() == digits[i - offset]);
            assert(dec_value(extended) == dec_value(prefix) * 10 + dec_digit_value(digits[i
                - offset]));
        }
        let dv = d - 48;
        if !over {
            let w = v * 10 + dv;
            if w <= 65535 {
                v = w;
            } else {
                over = true;
            }
        } else {
            proof {
                assert(all_dec_digits(extended));
                lemma_dec_value_monotone(extended);
            }
        }
        i = i + 1;
    }
    proof {
        assert(digits.take(n - offset) =~= digits);
    }
    if over {
        None
    } else {
        Some(v as u16)
    }
}

/// The index of the first column of `headers` labelled `label`, if any.
pub open spec fn column_index(headers: Seq<Seq<char>>, label: Seq<char>) -> Option<int>
    decreases headers.len(),
{
    if headers.len() == 0 {
        None
    } else if headers[0] == label {
        Some(0)
    } else {
        match column_index(headers.drop_first(), label) {
            Some(i) => Some(i + 1),
            None => None,
        }
    }
}

/// `column_index` finds exactly the first column labelled `label`: the index
/// it returns carries the label and no earlier one does, and it returns
/// nothing only when no column carries the label.
pub proof fn lemma_column_index_is_first(headers: Seq<Seq<char>>, label: Seq<char>)
    ensures
        match column_index(headers, label) {
            Some(i) => 0 <= i < headers.len() && headers[i] == label && (forall|j: int|
                0 <= j < i ==> headers[j] != label),
            None => forall|j: int| 0 <= j < headers.len() ==> headers[j] != label,
        },
    decreases headers.len(),
{
    if headers.len() > 0 && headers[0] != label {
        let tail = headers.drop_first();
        lemma_column_index_is_first(tail, label);
        match column_index(tail, label) {
            Some(i) => {
                assert(headers[i + 1] == tail[i]);
                assert forall|j: int| 0 <= j < i + 1 implies headers[j] != label by {
                    if j > 0 {
                        assert(tail[j - 1] == headers[j]);
                    }
                }
            },
            None => {
                assert forall|j: int| 0 <= j < headers.len() implies headers[j] != label by {
                    if j > 0 {
                        assert(tail[j - 1] == headers[j]);
                    }
                }
            },
        }
    }
}

/// Compares two strings for equality, character by character.
fn str_eq(a: &str, b: &str) -> (r: bool)
    ensures
        r == (a@ == b@),
{
    a.to_owned() == b.to_owned()
}

/// Finds the first column of `headers` labelled `label`, as `column_index`
/// describes.
fn find_column(headers: &Vec<String>, label: &str) -> (r: Option<usize>)
    ensures
        column_index(headers.deep_view(), label@) == (match r {
            Some(i) => Some(i as int),
            None => None::<int>,
        }),
        r matches Some(i) ==> i < headers.len(),
{
    let ghost hs = headers.deep_view();
    let mut i: usize = 0;
    while i < headers.len()
        invariant
            i <= headers.len(),
            hs == headers.deep_view(),
            hs.len() == headers.len(),
            forall|j: int| 0 <= j < i ==> hs[j] != label@,
        decreases headers.len() - i,
    {
        if str_eq(headers[i].as_str(), label) {
            proof {
                assert(hs[i as int] == label@);
                lemma_column_index_is_first(hs, label@);
            }
            return Some(i);
        }
        i = i + 1;
    }
    proof {
        lemma_column_index_is_first(hs, label@);
    }
    None
}

/// The record a CSV table yields. The table's first data row decides it
/// alone: a header-only table yields no record at all, and any later rows
/// are ignored. The `name` field is taken verbatim from the first column
/// labelled `name`; the `age` field is read as a decimal `u16` from the
/// first column labelled `age`.
pub open spec fn record_from_table(headers: Seq<Seq<char>>, rows: Seq<Seq<Seq<char>>>) -> Result<
    (Seq<char>, u16),
    DocError,
> {
    if rows.len() == 0 {
        Err(DocError::RecordNotFound)
    } else {
        match (column_index(headers, "name"@), column_index(headers, "age"@)) {
            (Some(name_idx), Some(age_idx)) => {
                let row = rows[0];
                if name_idx < row.len() && age_idx < row.len() {
                    match u16_from_decimal(row[age_idx]) {
                        Some(age) => Ok((row[name_idx], age)),
                        None => Err(DocError::Parse),
                    }
                } else {
                    Err(DocError::Parse)
                }
            },
            _ => Err(DocError::Parse),
        }
    }
}

/// Whether the parsed record `r` is the model record `m`: the same outcome,
/// with the same name and age on success and the same error on failure.
pub open spec fn doc_result_matches(
    r: Result<DocData, DocError>,
    m: Result<(Seq<char>, u16), DocError>,
) -> bool {
    match (r, m) {
        (Ok(d), Ok(p)) => d.name@ == p.0 && d.age == p.1,
        (Err(e1), Err(e2)) => e1 == e2,
        _ => false,
    }
}

/// The record a CSV head (header row and first data row, if any) yields:
/// `record_from_table` on the at-most-one-row table it stands for.
pub open spec fn record_from_head(
    headers: Seq<Seq<char>>,
    first_row: Option<Seq<Seq<char>>>,
) -> Result<(Seq<char>, u16), DocError> {
    match first_row {
        Some(row) => record_from_table(headers, seq![row]),
        None => record_from_table(headers, Seq::empty()),
    }
}

/// The header row and first data row that CSV parsing gives the text `text`,
/// or nothing where it reports an error before the first data row ends. The
/// outcome depends on the text alone; the text beyond the first data row is
/// never read.
pub uninterp spec fn csv_head_of(text: Seq<char>) -> Option<
    (Seq<Seq<char>>, Option<Seq<Seq<char>>>),
>;

/// Relies on `csv::Reader`: `from_reader` over the text's bytes, `headers`
/// for the header row and `records().next()` for the first data row, all
/// with the default configuration. What is parsed is a function of the text
/// alone; `None` stands for a reported error, such as a first data row whose
/// length differs from the header row's.
#[verifier::external_body]
fn csv_parse(contents: &str) -> (r: Option<(Vec<String>, Option<Vec<String>>)>)
    ensures
        (match r {
            Some(t) => csv_head_of(contents@) == Some((t.0.deep_view(), t.1.deep_view())),
            None => csv_head_of(contents@) is None,
        }),
{
    let mut rdr = csv::Reader::from_reader(contents.as_bytes());
    let headers: Vec<String> = match rdr.headers() {
        Ok(h) => h.iter().map(str::to_string).collect(),
        Err(_) => return None,
    };
    let first: Option<Vec<String>> = match rdr.records().next() {
        Some(Ok(rec)) => Some(rec.iter().map(str::to_string).collect()),
        Some(Err(_)) => return None,
        None => None,
    };
    Some((headers, first))
}

/// The string value at top-level key `key` of the text, where the whole
/// text parses as one JSON value holding a string there, and nothing
/// otherwise. The outcome depends on the text and the key alone.
pub uninterp spec fn json_str_of(text: Seq<char>, key: Seq<char>) -> Option<Seq<char>>;

/// Relies on `serde_json::from_str` to parse the text as one JSON value and
/// on `serde_json::Value::get` and `as_str` to look the key up: the string
/// found, if the text is a JSON object with a string at that key.
#[verifier::external_body]
fn json_get_str(text: &str, key: &str) -> (r: Option<String>)
    ensures
        (match r {
            Some(s) => json_str_of(text@, key@) == Some(s@),
            None => json_str_of(text@, key@) is None,
        }),
{
    let value: serde_json::Value = serde_json::from_str(text).ok()?;
    Some(value.get(key)?.as_str()?.to_string())
}

/// The integer value at top-level key `key` of the text, where the whole
/// text parses as one JSON value holding a nonnegative integer there (as
/// `u64`), and nothing otherwise. The outcome depends on the text and the
/// key alone.
pub uninterp spec fn json_u64_of(text: Seq<char>, key: Seq<char>) -> Option<u64>;

/// Relies on `serde_json::from_str` to parse the text as one JSON value and
/// on `serde_json::Value::get` and `as_u64` to look the key up: the integer
/// found, if the text is a JSON object with a `u64` integer at that key.
#[verifier::external_body]
fn json_get_u64(text: &str, key: &str) -> (r: Option<u64>)
    ensures
        r == json_u64_of(text@, key@),
{
    let value: serde_json::Value = serde_json::from_str(text).ok()?;
    value.get(key)?.as_u64()
}

/// The one record the JSON text yields: the string at `name` and the
/// integer at `age`, which must fit in a `u16`; any structural mismatch
/// yields nothing.
pub open spec fn json_record_of(text: Seq<char>) -> Option<(Seq<char>, u16)> {
    match (json_str_of(text, "name"@), json_u64_of(text, "age"@)) {
        (Some(name), Some(age)) => if age <= u16::MAX {
            Some((name, age as u16))
        } else {
            None
        },
        _ => None,
    }
}

/// Builds the record of the CSV head `(headers, first_row)`, exactly as
/// `record_from_head` describes.
pub fn extract_first_record(headers: &Vec<String>, first_row: &Option<Vec<String>>) -> (r: Result<
    DocData,
    DocError,
>)
    ensures
        doc_result_matches(r, record_from_head(headers.deep_view(), first_row.deep_view())),
{
    let row = match first_row {
        Some(row) => row,
        None => {
            return Err(DocError::RecordNotFound);
        },
    };
    proof {
        assert(first_row.deep_view() == Some(row.deep_view()));
        assert(seq![row.deep_view()][0] == row.deep_view());
    }
    let name_idx = match find_column(headers, "name") {
        Some(i) => i,
        None => {
            return Err(DocError::Parse);
        },
    };
    let age_idx = match find_column(headers, "age") {
        Some(i) => i,
        None => {
            return Err(DocError::Parse);
        },
    };
    if name_idx >= row.len() || age_idx >= row.len() {
        return Err(DocError::Parse);
    }
    match parse_u16(row[age_idx].as_str()) {
        Some(age) => Ok(DocData { name: row[name_idx].clone(), age }),
        None => Err(DocError::Parse),
    }
}

/// The closed set of supported document types.
#[derive(Clone, Copy, PartialEq, Eq, Structural, Debug)]
pub enum DocumentType {
    Json,
    Csv,
}

/// The record the text of a document of type `doc_type` yields.
pub open spec fn read_model(doc_type: DocumentType, text: Seq<char>) -> Result<
    (Seq<char>, u16),
    DocError,
> {
    match doc_type {
        DocumentType::Csv => match csv_head_of(text) {
            Some(t) => record_from_head(t.0, t.1),
            None => Err(DocError::Parse),
        },
        DocumentType::Json => match json_record_of(text) {
            Some(p) => Ok(p),
            None => Err(DocError::Parse),
        },
    }
}

/// A stateless, reusable reader for one document type: it turns the text of
/// a document into its one normalized record.
pub trait DocumentProcessor: Sized {
    /// The document type this reader handles.
    spec fn doc_type(&self) -> DocumentType;

    fn read_data(&self, contents: &str) -> (r: Result<DocData, DocError>)
        ensures
            doc_result_matches(r, read_model(self.doc_type(), contents@)),
    ;
}

/// Reads CSV text: header-based field mapping, taking only the first data
/// row and ignoring all later ones.
pub struct CsvProcessor {}

impl DocumentProcessor for CsvProcessor {
    open spec fn doc_type(&self) -> DocumentType {
        DocumentType::Csv
    }

    fn read_data(&self, contents: &str) -> (r: Result<DocData, DocError>) {
        match csv_parse(contents) {
            Some((headers, first_row)) => extract_first_record(&headers, &first_row),
            None => Err(DocError::Parse),
        }
    }
}

/// Reads JSON text: the whole text must be exactly one record object.
pub struct JsonProcessor {}

impl DocumentProcessor for JsonProcessor {
    open spec fn doc_type(&self) -> DocumentType {
        DocumentType::Json
    }

    fn read_data(&self, contents: &str) -> (r: Result<DocData, DocError>) {
        let name = match json_get_str(contents, "name") {
            Some(name) => name,
            None => {
                return Err(DocError::Parse);
            },
        };
        let age = match json_get_u64(contents, "age") {
            Some(age) => age,
            None => {
                return Err(DocError::Parse);
            },
        };
        if age > 65535 {
            return Err(DocError::Parse);
        }
        Ok(DocData { name, age: age as u16 })
    }
}

/// The reader a document editor was built with.
pub enum ReaderKind {
    Csv(CsvProcessor),
    Json(JsonProcessor),
}

impl ReaderKind {
    /// The document type this reader handles.
    pub open spec fn doc_type(&self) -> DocumentType {
        match self {
            ReaderKind::Csv(_) => DocumentType::Csv,
            ReaderKind::Json(_) => DocumentType::Json,
        }
    }
}

/// An editor bound to one named document and the reader for its type.
pub struct DocumentEditor {
    pub file_name: String,
    pub reader: ReaderKind,
}

impl DocumentEditor {
    /// Reads the one record from the text of this editor's document.
    pub fn read_data(&self, contents: &str) -> (r: Result<DocData, DocError>)
        ensures
            doc_result_matches(r, read_model(self.reader.doc_type(), contents@)),
    {
        match &self.reader {
            ReaderKind::Csv(p) => p.read_data(contents),
            ReaderKind::Json(p) => p.read_data(contents),
        }
    }
}

/// Builds document editors, selecting the reader by document type.
pub struct DocumentEditorFactory {}

impl DocumentEditorFactory {
    /// Builds an editor for the named document, with the reader its type
    /// calls for.
    pub fn create_editor(file_name: String, doc_type: DocumentType) -> (editor: DocumentEditor)
        ensures
            editor.file_name == file_name,
            editor.reader.doc_type() == doc_type,
    {
        match doc_type {
            DocumentType::Csv => DocumentEditor { file_name, reader: ReaderKind::Csv(CsvProcessor {}) },
            DocumentType::Json => DocumentEditor {
                file_name,
                reader: ReaderKind::Json(JsonProcessor {}),
            },
        }
    }
}

/// The record of a CSV table depends on its first data row alone: any table
/// yields exactly what its head (header row and at most the first data row)
/// yields, however many rows follow and whatever they hold. In particular a
/// header-only table yields `RecordNotFound`.
pub proof fn lemma_first_row_decides(headers: Seq<Seq<char>>, rows: Seq<Seq<Seq<char>>>)
    ensures
        record_from_table(headers, rows) == record_from_head(
            headers,
            if rows.len() > 0 {
                Some(rows[0])
            } else {
                None
            },
        ),
{
    if rows.len() > 0 {
        assert(seq![rows[0]][0] == rows[0]);
    }
}

} // verus!
