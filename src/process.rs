use vstd::prelude::*;

use crate::opts::OutputFormat;

pub mod gen_pass;

verus! {

/// A cell or a field name, as characters.
pub type Text = Seq<char>;

/// A structured row: field names paired with cell values, in column order.
pub type FieldSeq = Seq<(Text, Text)>;

/// What the csv crate reads from `data` with `delimiter`, taking every line as
/// a record (the header too): `Some` of the records' cells, or `None` where
/// the reader reports an error.
pub uninterp spec fn csv_parse(data: Seq<u8>, delimiter: u8) -> Option<Seq<Seq<Text>>>;

/// The pretty-printed JSON array of objects that serde_json writes for `rows`.
pub uninterp spec fn json_of(rows: Seq<FieldSeq>) -> Text;

/// The YAML sequence of mappings that serde_yaml writes for `rows`.
pub uninterp spec fn yaml_of(rows: Seq<FieldSeq>) -> Text;

/// Pairs the header with a record position by position, stopping at the
/// shorter of the two.
pub open spec fn zip_row(header: Seq<Text>, record: Seq<Text>) -> FieldSeq {
    let n = if header.len() <= record.len() { header.len() } else { record.len() };
    Seq::new(n, |i: int| (header[i], record[i]))
}

/// Every record has the width of the first.
pub open spec fn uniform_width(records: Seq<Seq<Text>>) -> bool {
    forall|i: int| 0 <= i < records.len() ==> #[trigger] records[i].len() == records[0].len()
}

/// The structured rows of a table whose first record is the header: one per
/// following record, in input order.
pub open spec fn structured_rows(records: Seq<Seq<Text>>) -> Seq<FieldSeq> {
    if records.len() == 0 {
        Seq::empty()
    } else {
        Seq::new((records.len() - 1) as nat, |i: int| zip_row(records[0], records[i + 1]))
    }
}

/// The serialized document for `rows` in `format`.
pub open spec fn document_of(format: OutputFormat, rows: Seq<FieldSeq>) -> Text {
    match format {
        OutputFormat::Json => json_of(rows),
        OutputFormat::Yaml => yaml_of(rows),
    }
}

/// One structured row: (field name, value) pairs in column order.
pub type Row = Vec<(String, String)>;

/// Why a conversion failed.
#[derive(Clone, Debug)]
pub enum ConvertError {
    /// The source could not be read as delimited records; the reader's message.
    Data(String),
    /// The rows could not be serialized; the serializer's message.
    Serialize(String),
}

/// Relies on csv::ReaderBuilder (no header handling, the given delimiter, not
/// flexible) and its `records` iterator: every record's fields as strings, or
/// the first error's message. A record whose width differs from the first
/// record's is such an error. What comes back depends on the bytes and the
/// delimiter alone.
#[verifier::external_body]
fn read_records(data: &[u8], delimiter: u8) -> (r: Result<Vec<Vec<String>>, String>)
    ensures
        r matches Ok(v) ==> csv_parse(data@, delimiter) == Some(v.deep_view()),
        r matches Ok(v) ==> uniform_width(v.deep_view()),
        r is Err ==> csv_parse(data@, delimiter) is None,
{
    let mut reader = csv::ReaderBuilder::new().has_headers(false).delimiter(delimiter).from_reader(data);
    reader
        .records()
        .map(|rec| rec.map(|rec| rec.iter().map(String::from).collect()))
        .collect::<Result<Vec<Vec<String>>, csv::Error>>()
        .map_err(|e| e.to_string())
}

/// Relies on serde_json::to_string_pretty over an array of objects with string
/// keys and string values, which the documentation lets fail only on non-string
/// keys; an empty array is written `[]`.
#[verifier::external_body]
fn json_document(rows: &Vec<Row>) -> (r: Result<String, String>)
    ensures
        r is Ok,
        r matches Ok(s) ==> s@ == json_of(rows.deep_view()),
        r matches Ok(s) ==> (rows@.len() == 0 ==> s@ == "[]"@),
{
    let values: Vec<serde_json::Value> = rows
        .iter()
        .map(|row| row.iter().map(|(k, v)| (k.clone(), serde_json::Value::String(v.clone()))).collect())
        .map(serde_json::Value::Object)
        .collect();
    serde_json::to_string_pretty(&values).map_err(|e| e.to_string())
}

/// Relies on serde_yaml::to_string over a sequence of mappings with string keys
/// and string values, which the documentation lets fail only where a value's
/// own serialization fails.
#[verifier::external_body]
fn yaml_document(rows: &Vec<Row>) -> (r: Result<String, String>)
    ensures
        r is Ok,
        r matches Ok(s) ==> s@ == yaml_of(rows.deep_view()),
{
    let values: Vec<serde_json::Value> = rows
        .iter()
        .map(|row| row.iter().map(|(k, v)| (k.clone(), serde_json::Value::String(v.clone()))).collect())
        .map(serde_json::Value::Object)
        .collect();
    serde_yaml::to_string(&values).map_err(|e| e.to_string())
}

/// Builds one structured row by pairing header names with record values
/// positionally; a record of another width is cut to the shorter length.
/// (`process_csv` never meets one: the reader refuses ragged records.)
pub fn pair_row(header: &Vec<String>, record: &Vec<String>) -> (r: Vec<(String, String)>)
    ensures
        r.deep_view() == zip_row(header.deep_view(), record.deep_view()),
{
    let n: usize = if header.len() <= record.len() { header.len() } else { record.len() };
    let mut row: Vec<(String, String)> = Vec::new();
    let mut i: usize = 0;
    while i < n
        invariant
            i <= n,
            n <= header@.len(),
            n <= record@.len(),
            n as int == zip_row(header.deep_view(), record.deep_view()).len(),
            row@.len() == i,
            forall|j: int| 0 <= j < i ==> row@[j].0@ == header@[j]@ && row@[j].1@ == record@[j]@,
        decreases n - i,
    {
        row.push((header[i].clone(), record[i].clone()));
        i = i + 1;
    }
    assert(row.deep_view() =~= zip_row(header.deep_view(), record.deep_view()));
    row
}

/// Turns records whose first entry is the header into structured rows, one per
/// data record, in input order.
pub fn rows_from_records(records: &Vec<Vec<String>>) -> (r: Vec<Vec<(String, String)>>)
    ensures
        r.deep_view() == structured_rows(records.deep_view()),
{
    let mut rows: Vec<Vec<(String, String)>> = Vec::new();
    if records.len() == 0 {
        assert(rows.deep_view() =~= structured_rows(records.deep_view()));
        return rows;
    }
    let header = &records[0];
    let mut i: usize = 1;
    while i < records.len()
        invariant
            1 <= i <= records@.len(),
            header.deep_view() == records.deep_view()[0],
            rows@.len() == i - 1,
            forall|j: int| 0 <= j < i - 1 ==> #[trigger] rows@[j].deep_view() == zip_row(
                records.deep_view()[0],
                records.deep_view()[j + 1],
            ),
        decreases records@.len() - i,
    {
        let row = pair_row(header, &records[i]);
        rows.push(row);
        i = i + 1;
    }
    assert(rows.deep_view() =~= structured_rows(records.deep_view()));
    rows
}

/// Serializes the structured rows of already-read records (header first) in
/// the requested format.
pub fn convert_records(records: &Vec<Vec<String>>, format: OutputFormat) -> (r: Result<String, ConvertError>)
    ensures
        r is Ok,
        r matches Ok(s) ==> s@ == document_of(format, structured_rows(records.deep_view())),
        r matches Ok(s) ==> (format == OutputFormat::Json && records@.len() <= 1 ==> s@ == "[]"@),
{
    let rows = rows_from_records(records);
    assert(rows.deep_view().len() == rows@.len());
    let doc = match format {
        OutputFormat::Json => json_document(&rows),
        OutputFormat::Yaml => yaml_document(&rows),
    };
    match doc {
        Ok(s) => Ok(s),
        Err(m) => Err(ConvertError::Serialize(m)),
    }
}

/// Reads delimited bytes, header first, and serializes their structured rows
/// in the requested format. Fails exactly when the reader does; a record whose
/// width differs from the header's is such a failure, a `Data` error, so on
/// success every row pairs each field name with a value.
pub fn process_csv(data: &[u8], delimiter: u8, format: OutputFormat) -> (r: Result<String, ConvertError>)
    ensures
        r is Ok <==> csv_parse(data@, delimiter) is Some,
        r matches Ok(s) ==> s@ == document_of(format, structured_rows(csv_parse(data@, delimiter)->0)),
        r matches Err(e) ==> e is Data,
        r is Ok ==> uniform_width(csv_parse(data@, delimiter)->0),
        r matches Ok(s) ==> (format == OutputFormat::Json && csv_parse(data@, delimiter)->0.len() <= 1
            ==> s@ == "[]"@),
{
    match read_records(data, delimiter) {
        Ok(records) => convert_records(&records, format),
        Err(m) => Err(ConvertError::Data(m)),
    }
}

/// A table whose data records all have the header's width converts into one
/// structured row per data record, in input order; each row lists the header's
/// field names in header order, paired with that record's values.
pub proof fn lemma_rows_follow_header(records: Seq<Seq<Text>>)
    requires
        records.len() >= 1,
        forall|i: int| 1 <= i < records.len() ==> #[trigger] records[i].len() == records[0].len(),
    ensures
        structured_rows(records).len() == records.len() - 1,
        forall|i: int|
            0 <= i < records.len() - 1 ==> (#[trigger] structured_rows(records)[i]).len() == records[0].len(),
        forall|i: int, j: int|
            0 <= i < records.len() - 1 && 0 <= j < records[0].len() ==> #[trigger] structured_rows(records)[i][j]
                == (records[0][j], records[i + 1][j]),
{
    assert forall|i: int| 0 <= i < records.len() - 1 implies (#[trigger] structured_rows(records)[i]).len()
        == records[0].len() by {
        assert(records[i + 1].len() == records[0].len());
    }
}

/// A table with a header and no data records converts into no rows.
pub proof fn lemma_header_only_is_empty(records: Seq<Seq<Text>>)
    requires
        records.len() == 1,
    ensures
        structured_rows(records) == Seq::<FieldSeq>::empty(),
{
    assert(structured_rows(records) =~= Seq::<FieldSeq>::empty());
}

} // verus!
