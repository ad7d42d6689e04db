//! The CSV export of a project: a header line, then one line per row, each
//! field written as the `csv` crate writes it by default.
use vstd::prelude::*;
use vstd::utf8::{decode_utf8, encode_utf8};

use crate::decimal::{
    lemma_signed_decimal_text_reads_back, signed_decimal_text, signed_digits_value, signed_text,
};
use crate::models::{ProjectExportRow, Timestamp};

verus! {

/// A CSV writer into memory: the `csv` crate's `Writer<Vec<u8>>`, held where
/// Verus sees only the bytes it has written (`csv_written`).
#[verifier::external_body]
pub struct CsvBuffer {
    writer: csv::Writer<Vec<u8>>,
}

#[verifier::external_type_specification]
#[verifier::external_body]
pub struct ExCsvError(csv::Error);

/// The bytes that a CSV writer into memory holds so far (flushed or still
/// buffered).
pub uninterp spec fn csv_written(buffer: CsvBuffer) -> Seq<u8>;

/// The number of fields of the first record the writer wrote, once it wrote
/// one (the writer's `first_field_count`). A `CsvBuffer` is only had from
/// `csv_writer` and from a write that succeeded (a writer whose write failed
/// is dropped), so it never sits in the middle of a refused record.
pub uninterp spec fn csv_record_width(buffer: CsvBuffer) -> Option<nat>;

/// The text that chrono's `NaiveDateTime` displays for the moment `secs`
/// seconds and `nanos` nanoseconds after 1970-01-01 00:00:00, or `None` when
/// chrono cannot represent that moment.
pub uninterp spec fn naive_datetime_text(secs: i64, nanos: u32) -> Option<Seq<char>>;

/// A field is quoted when it holds a delimiter, a quote or a line break.
pub open spec fn needs_quotes(field: Seq<char>) -> bool {
    exists|k: int|
        0 <= k < field.len() && (#[trigger] field[k] == ',' || field[k] == '"' || field[k] == '\n'
            || field[k] == '\r')
}

/// The field with each quote doubled.
pub open spec fn escape_quotes(field: Seq<char>) -> Seq<char>
    decreases field.len(),
{
    if field.len() == 0 {
        Seq::empty()
    } else {
        escape_quotes(field.drop_last()) + if field.last() == '"' {
            seq!['"', '"']
        } else {
            seq![field.last()]
        }
    }
}

/// A field as written in a record.
pub open spec fn csv_field_text(field: Seq<char>) -> Seq<char> {
    if needs_quotes(field) {
        seq!['"'] + escape_quotes(field) + seq!['"']
    } else {
        field
    }
}

/// The fields of a record as written, separated by commas.
pub open spec fn csv_fields_text(fields: Seq<Seq<char>>) -> Seq<char>
    decreases fields.len(),
{
    if fields.len() == 0 {
        Seq::empty()
    } else if fields.len() == 1 {
        csv_field_text(fields[0])
    } else {
        csv_fields_text(fields.drop_last()) + seq![','] + csv_field_text(fields.last())
    }
}

/// A record as written: its fields, or `""` when they come to nothing, then a
/// line feed.
pub open spec fn csv_record_text(fields: Seq<Seq<char>>) -> Seq<char> {
    (if csv_fields_text(fields).len() == 0 {
        seq!['"', '"']
    } else {
        csv_fields_text(fields)
    }) + seq!['\n']
}

/// The UTF-8 bytes of a sequence of records.
pub open spec fn csv_document(records: Seq<Seq<Seq<char>>>) -> Seq<u8>
    decreases records.len(),
{
    if records.len() == 0 {
        Seq::empty()
    } else {
        csv_document(records.drop_last()) + encode_utf8(csv_record_text(records.last()))
    }
}

/// The texts of a sequence of strings.
pub open spec fn texts_of(strings: Seq<String>) -> Seq<Seq<char>> {
    strings.map_values(|s: String| s@)
}

/// `csv::Writer::from_writer(Vec::new())`: a writer with the default
/// configuration (comma, double quote, quotes doubled, `\n` after each
/// record, quoting only where needed, records of equal length) that has
/// written nothing.
#[verifier::external_body]
fn csv_writer() -> (buffer: CsvBuffer)
    ensures
        csv_written(buffer) == Seq::<u8>::empty(),
        csv_record_width(buffer) is None,
{
    CsvBuffer { writer: csv::Writer::from_writer(Vec::new()) }
}

/// `csv::Writer::write_record`, on a writer that is handed back only when the
/// write succeeds (after a refused record the writer stays inside that
/// record, so it is not reused). Claimed: on such a writer it succeeds when
/// the record is the first or has as many fields as the first (its only
/// other failures come from the underlying writer, and writing into a
/// `Vec<u8>` does not fail); when it succeeds, the writer has appended the
/// UTF-8 bytes of the record as `csv_record_text` describes it, and the
/// record width is the record's length.
#[verifier::external_body]
fn csv_write_record(buffer: CsvBuffer, record: &Vec<String>) -> (result: Result<
    CsvBuffer,
    csv::Error,
>)
    ensures
        (csv_record_width(buffer) is None || csv_record_width(buffer) == Some(record@.len()))
            ==> result is Ok,
        result matches Ok(written) ==> csv_record_width(written) == Some(record@.len()),
        result matches Ok(written) ==> csv_written(written) == csv_written(buffer) + encode_utf8(
            csv_record_text(texts_of(record@)),
        ),
{
    let mut buffer = buffer;
    match buffer.writer.write_record(record.iter()) {
        Ok(()) => Ok(buffer),
        Err(error) => Err(error),
    }
}

/// `csv::Writer::into_inner`: the bytes written. Claimed: it succeeds (it
/// only flushes into the `Vec<u8>`, which does not fail), and the bytes are
/// those the writer holds.
#[verifier::external_body]
fn csv_into_bytes(buffer: CsvBuffer) -> (bytes: Option<Vec<u8>>)
    ensures
        bytes is Some,
        bytes matches Some(b) ==> b@ == csv_written(buffer),
{
    buffer.writer.into_inner().ok()
}

/// chrono's `DateTime::from_timestamp(secs, nanos)`, read without a zone
/// (`naive_utc`) and displayed. Claimed: the result is
/// `naive_datetime_text(secs, nanos)`, a function of the two numbers alone.
#[verifier::external_body]
fn datetime_text(secs: i64, nanos: u32) -> (text: Option<String>)
    ensures
        text is Some <==> naive_datetime_text(secs, nanos) is Some,
        text matches Some(t) ==> naive_datetime_text(secs, nanos) == Some(t@),
{
    match chrono::DateTime::from_timestamp(secs, nanos) {
        Some(moment) => Some(moment.naive_utc().to_string()),
        None => None,
    }
}

/// The names of the columns of an export.
pub const EXPORT_HEADER: [&'static str; 12] = [
    "owner_id",
    "owner_meta",
    "owner_created_at",
    "owner_updated_at",
    "code",
    "code_is_active",
    "code_use_count",
    "code_created_at",
    "code_updated_at",
    "redemption_id",
    "redemption_meta",
    "redemption_created_at",
];

/// The header record of an export.
pub open spec fn header_fields() -> Seq<Seq<char>> {
    EXPORT_HEADER@.map_values(|name: &str| name@)
}

/// The text of a timestamp in an export.
pub open spec fn timestamp_field(at: Timestamp) -> Option<Seq<char>> {
    naive_datetime_text(at.secs, at.nanos)
}

/// The text of a boolean: `true` or `false`.
pub open spec fn bool_field(b: bool) -> Seq<char> {
    if b {
        "true"@
    } else {
        "false"@
    }
}

/// The fields of a row of an export, or `None` when one of its timestamps has
/// no text. Absent redemption values are empty fields.
pub open spec fn export_fields(row: ProjectExportRow) -> Option<Seq<Seq<char>>> {
    let redemption_created = match row.redemption_created_at {
        Some(at) => timestamp_field(at),
        None => Some(Seq::<char>::empty()),
    };
    if timestamp_field(row.owner_created_at) is Some && timestamp_field(row.owner_updated_at) is Some
        && timestamp_field(row.code_created_at) is Some && timestamp_field(row.code_updated_at) is Some
        && redemption_created is Some {
        Some(
            seq![
                signed_decimal_text(row.owner_id as int),
                row.owner_meta@,
                timestamp_field(row.owner_created_at)->Some_0,
                timestamp_field(row.owner_updated_at)->Some_0,
                row.code@,
                bool_field(row.code_is_active),
                signed_decimal_text(row.code_use_count as int),
                timestamp_field(row.code_created_at)->Some_0,
                timestamp_field(row.code_updated_at)->Some_0,
                match row.redemption_id {
                    Some(id) => signed_decimal_text(id as int),
                    None => Seq::<char>::empty(),
                },
                match row.redemption_meta {
                    Some(meta) => meta@,
                    None => Seq::<char>::empty(),
                },
                redemption_created->Some_0,
            ],
        )
    } else {
        None
    }
}

fn timestamp_string(at: Timestamp) -> (text: Option<String>)
    ensures
        text is Some <==> timestamp_field(at) is Some,
        text matches Some(t) ==> timestamp_field(at) == Some(t@),
{
    datetime_text(at.secs, at.nanos)
}

/// The fields of a row of an export, as strings.
pub fn export_record(row: &ProjectExportRow) -> (record: Option<Vec<String>>)
    ensures
        record is Some <==> export_fields(*row) is Some,
        record matches Some(r) ==> export_fields(*row) == Some(texts_of(r@)),
{
    let owner_created = match timestamp_string(row.owner_created_at) {
        Some(t) => t,
        None => return None,
    };
    let owner_updated = match timestamp_string(row.owner_updated_at) {
        Some(t) => t,
        None => return None,
    };
    let code_created = match timestamp_string(row.code_created_at) {
        Some(t) => t,
        None => return None,
    };
    let code_updated = match timestamp_string(row.code_updated_at) {
        Some(t) => t,
        None => return None,
    };
    let redemption_created = match row.redemption_created_at {
        Some(at) => match timestamp_string(at) {
            Some(t) => t,
            None => return None,
        },
        None => String::new(),
    };
    let redemption_id = match row.redemption_id {
        Some(id) => signed_text(id),
        None => String::new(),
    };
    let redemption_meta = match &row.redemption_meta {
        Some(meta) => meta.clone(),
        None => String::new(),
    };
    let is_active = if row.code_is_active {
        "true".to_string()
    } else {
        "false".to_string()
    };
    let mut record: Vec<String> = Vec::new();
    record.push(signed_text(row.owner_id));
    record.push(row.owner_meta.clone());
    record.push(owner_created);
    record.push(owner_updated);
    record.push(row.code.clone());
    record.push(is_active);
    record.push(signed_text(row.code_use_count as i64));
    record.push(code_created);
    record.push(code_updated);
    record.push(redemption_id);
    record.push(redemption_meta);
    record.push(redemption_created);
    assert(texts_of(record@) =~= export_fields(*row)->Some_0);
    Some(record)
}

/// Why an export failed.
#[derive(Debug, Clone, Copy, PartialEq, Eq, Structural)]
pub enum ExportError {
    /// A timestamp of a row has no text.
    UnrepresentableTimestamp,
    /// The CSV writer reported a failure.
    Csv,
}

/// The records of an export, when every row can be exported.
pub open spec fn export_records(rows: Seq<ProjectExportRow>) -> Seq<Seq<Seq<char>>> {
    seq![header_fields()] + rows.map_values(|row: ProjectExportRow| export_fields(row)->Some_0)
}

/// The CSV document of the rows of a project: the header, then the fields of
/// each row in order. It fails exactly when a row has a timestamp without
/// text.
pub fn export_csv(rows: &Vec<ProjectExportRow>) -> (result: Result<Vec<u8>, ExportError>)
    ensures
        (exists|i: int| 0 <= i < rows@.len() && #[trigger] export_fields(rows@[i]) is None)
            ==> result == Err::<Vec<u8>, ExportError>(ExportError::UnrepresentableTimestamp),
        (forall|i: int| 0 <= i < rows@.len() ==> #[trigger] export_fields(rows@[i]) is Some)
            ==> result is Ok,
        result matches Ok(bytes) ==> bytes@ == csv_document(export_records(rows@)),
{
    let mut header: Vec<String> = Vec::new();
    for k in 0..12
        invariant
            header@.len() == k,
            forall|j: int| 0 <= j < k ==> #[trigger] header@[j]@ == EXPORT_HEADER@[j]@,
    {
        header.push(EXPORT_HEADER[k].to_string());
    }
    assert(texts_of(header@) =~= header_fields());
    let mut writer = match csv_write_record(csv_writer(), &header) {
        Ok(written) => written,
        Err(_) => return Err(ExportError::Csv),
    };
    let ghost records: Seq<Seq<Seq<char>>> = seq![header_fields()];
    assert(csv_document(records) =~= csv_written(writer)) by {
        assert(records.drop_last() =~= Seq::<Seq<Seq<char>>>::empty());
        assert(csv_document(records.drop_last()) == Seq::<u8>::empty());
        assert(records.last() == texts_of(header@));
    }
    let n = rows.len();
    for i in 0..n
        invariant
            n == rows@.len(),
            forall|j: int| 0 <= j < i ==> #[trigger] export_fields(rows@[j]) is Some,
            records == seq![header_fields()] + rows@.take(i as int).map_values(
                |row: ProjectExportRow| export_fields(row)->Some_0,
            ),
            csv_written(writer) == csv_document(records),
            csv_record_width(writer) == Some(12nat),
    {
        let record = match export_record(&rows[i]) {
            Some(record) => record,
            None => return Err(ExportError::UnrepresentableTimestamp),
        };
        assert(record@.len() == texts_of(record@).len());
        writer = match csv_write_record(writer, &record) {
            Ok(written) => written,
            Err(_) => return Err(ExportError::Csv),
        };
        let ghost previous = records;
        proof {
            records = records.push(texts_of(record@));
            assert(records.drop_last() =~= previous);
            assert(rows@.take(i + 1).map_values(|row: ProjectExportRow| export_fields(row)->Some_0)
                =~= rows@.take(i as int).map_values(|row: ProjectExportRow| export_fields(row)->Some_0).push(
                texts_of(record@),
            ));
        }
    }
    assert(rows@.take(n as int) =~= rows@);
    match csv_into_bytes(writer) {
        Some(bytes) => Ok(bytes),
        None => Err(ExportError::Csv),
    }
}

/// The bytes of the header line of an export.
pub open spec fn export_header_bytes() -> Seq<u8> {
    encode_utf8(csv_record_text(header_fields()))
}

/// The bytes of a sequence of records are those of its parts, one after the
/// other.
proof fn lemma_csv_document_append(x: Seq<Seq<Seq<char>>>, y: Seq<Seq<Seq<char>>>)
    ensures
        csv_document(x + y) == csv_document(x) + csv_document(y),
    decreases y.len(),
{
    if y.len() == 0 {
        assert(x + y =~= x);
        assert(csv_document(x) + csv_document(y) =~= csv_document(x));
    } else {
        lemma_csv_document_append(x, y.drop_last());
        assert((x + y).drop_last() =~= x + y.drop_last());
        assert((x + y).last() == y.last());
        assert(csv_document(x + y) =~= csv_document(x) + csv_document(y));
    }
}

/// An export is its header line followed by one record per row, in order:
/// exporting two lists of rows one after the other gives the export of the
/// first, then the export of the second without its header line.
pub proof fn lemma_export_of_concatenation(a: Seq<ProjectExportRow>, b: Seq<ProjectExportRow>)
    ensures
        csv_document(export_records(b)).len() >= export_header_bytes().len(),
        csv_document(export_records(a + b)) == csv_document(export_records(a)) + csv_document(
            export_records(b),
        ).skip(export_header_bytes().len() as int),
{
    let f = |row: ProjectExportRow| export_fields(row)->Some_0;
    let h: Seq<Seq<Seq<char>>> = seq![header_fields()];
    assert((a + b).map_values(f) =~= a.map_values(f) + b.map_values(f));
    assert(export_records(a + b) =~= (h + a.map_values(f)) + b.map_values(f));
    lemma_csv_document_append(h + a.map_values(f), b.map_values(f));
    lemma_csv_document_append(h, b.map_values(f));
    assert(h.drop_last() =~= Seq::<Seq<Seq<char>>>::empty());
    assert(csv_document(h.drop_last()) == Seq::<u8>::empty());
    assert(csv_document(h) =~= export_header_bytes());
    let rest = csv_document(b.map_values(f));
    assert((export_header_bytes() + rest).skip(export_header_bytes().len() as int) =~= rest);
}

/// Where a CSV reader stands in the text it reads.
pub enum CsvReadMode {
    /// At the start of a field.
    FieldStart,
    /// Inside a field that is not quoted.
    Unquoted,
    /// Inside a quoted field.
    Quoted,
    /// Just after a quote inside a quoted field.
    AfterQuote,
}

/// Reads CSV text as the writer's configuration defines it: fields separated
/// by commas, records ended by line feeds, quoted fields with quotes doubled.
/// `field` and `fields` are the field and the record being read, `records`
/// the records read so far.
pub open spec fn csv_read_from(
    rest: Seq<char>,
    mode: CsvReadMode,
    field: Seq<char>,
    fields: Seq<Seq<char>>,
    records: Seq<Seq<Seq<char>>>,
) -> Seq<Seq<Seq<char>>>
    decreases rest.len(),
{
    if rest.len() == 0 {
        if mode is FieldStart && fields.len() == 0 && field.len() == 0 {
            records
        } else {
            records.push(fields.push(field))
        }
    } else {
        let c = rest[0];
        let tail = rest.drop_first();
        match mode {
            CsvReadMode::FieldStart => if c == '"' {
                csv_read_from(tail, CsvReadMode::Quoted, Seq::empty(), fields, records)
            } else if c == ',' {
                csv_read_from(tail, CsvReadMode::FieldStart, Seq::empty(), fields.push(field), records)
            } else if c == '\n' {
                csv_read_from(
                    tail,
                    CsvReadMode::FieldStart,
                    Seq::empty(),
                    Seq::empty(),
                    records.push(fields.push(field)),
                )
            } else {
                csv_read_from(tail, CsvReadMode::Unquoted, seq![c], fields, records)
            },
            CsvReadMode::Unquoted | CsvReadMode::AfterQuote => if c == ',' {
                csv_read_from(tail, CsvReadMode::FieldStart, Seq::empty(), fields.push(field), records)
            } else if c == '\n' {
                csv_read_from(
                    tail,
                    CsvReadMode::FieldStart,
                    Seq::empty(),
                    Seq::empty(),
                    records.push(fields.push(field)),
                )
            } else if c == '"' && mode is AfterQuote {
                csv_read_from(tail, CsvReadMode::Quoted, field.push('"'), fields, records)
            } else {
                csv_read_from(tail, CsvReadMode::Unquoted, field.push(c), fields, records)
            },
            CsvReadMode::Quoted => if c == '"' {
                csv_read_from(tail, CsvReadMode::AfterQuote, field, fields, records)
            } else {
                csv_read_from(tail, CsvReadMode::Quoted, field.push(c), fields, records)
            },
        }
    }
}

/// The records of a CSV text.
pub open spec fn csv_read(text: Seq<char>) -> Seq<Seq<Seq<char>>> {
    csv_read_from(text, CsvReadMode::FieldStart, Seq::empty(), Seq::empty(), Seq::empty())
}

/// The text of a sequence of records.
pub open spec fn csv_text(records: Seq<Seq<Seq<char>>>) -> Seq<char>
    decreases records.len(),
{
    if records.len() == 0 {
        Seq::empty()
    } else {
        csv_text(records.drop_last()) + csv_record_text(records.last())
    }
}

/// What the reader does at a comma or a line feed that ends the field `f`.
pub open spec fn csv_read_after_field(
    t: Seq<char>,
    f: Seq<char>,
    fields: Seq<Seq<char>>,
    records: Seq<Seq<Seq<char>>>,
) -> Seq<Seq<Seq<char>>> {
    if t[0] == ',' {
        csv_read_from(t.drop_first(), CsvReadMode::FieldStart, Seq::empty(), fields.push(f), records)
    } else {
        csv_read_from(
            t.drop_first(),
            CsvReadMode::FieldStart,
            Seq::empty(),
            Seq::empty(),
            records.push(fields.push(f)),
        )
    }
}

proof fn lemma_encode_utf8_append(x: Seq<char>, y: Seq<char>)
    ensures
        encode_utf8(x + y) == encode_utf8(x) + encode_utf8(y),
    decreases x.len(),
{
    if x.len() == 0 {
        assert(x + y =~= y);
        assert(encode_utf8(x) + encode_utf8(y) =~= encode_utf8(y));
    } else {
        lemma_encode_utf8_append(x.drop_first(), y);
        assert((x + y).drop_first() =~= x.drop_first() + y);
        assert((x + y)[0] == x[0]);
        assert(encode_utf8(x + y) =~= encode_utf8(x) + encode_utf8(y));
    }
}

proof fn lemma_document_is_encoded_text(records: Seq<Seq<Seq<char>>>)
    ensures
        csv_document(records) == encode_utf8(csv_text(records)),
    decreases records.len(),
{
    if records.len() > 0 {
        lemma_document_is_encoded_text(records.drop_last());
        lemma_encode_utf8_append(csv_text(records.drop_last()), csv_record_text(records.last()));
    }
}

/// Escaping a field takes its characters from the front.
proof fn lemma_escape_quotes_front(g: Seq<char>)
    requires
        g.len() > 0,
    ensures
        escape_quotes(g) == escape_quotes(seq![g[0]]) + escape_quotes(g.drop_first()),
    decreases g.len(),
{
    if g.len() == 1 {
        assert(g.drop_first() =~= Seq::<char>::empty());
        assert(seq![g[0]] =~= g);
        assert(escape_quotes(seq![g[0]]) + escape_quotes(g.drop_first()) =~= escape_quotes(g));
    } else {
        lemma_escape_quotes_front(g.drop_last());
        assert(g.drop_last().drop_first() =~= g.drop_first().drop_last());
        assert(g.drop_first().last() == g.last());
        assert(g.drop_last()[0] == g[0]);
        assert(escape_quotes(g) =~= escape_quotes(seq![g[0]]) + escape_quotes(g.drop_first()));
    }
}

/// Reading the escaped characters of a quoted field adds them to the field.
proof fn lemma_read_escaped(
    g: Seq<char>,
    s: Seq<char>,
    field: Seq<char>,
    fields: Seq<Seq<char>>,
    records: Seq<Seq<Seq<char>>>,
)
    ensures
        csv_read_from(escape_quotes(g) + s, CsvReadMode::Quoted, field, fields, records)
            == csv_read_from(s, CsvReadMode::Quoted, field + g, fields, records),
    decreases g.len(),
{
    if g.len() == 0 {
        assert(escape_quotes(g) + s =~= s);
        assert(field + g =~= field);
    } else {
        lemma_escape_quotes_front(g);
        let c = g[0];
        let rest = g.drop_first();
        assert(seq![c].drop_last() =~= Seq::<char>::empty());
        assert(escape_quotes(seq![c].drop_last()) =~= Seq::<char>::empty());
        assert(seq![c].last() == c);
        lemma_read_escaped(rest, s, field.push(c), fields, records);
        assert(field.push(c) + rest =~= field + g);
        let text = escape_quotes(g) + s;
        let after = escape_quotes(rest) + s;
        if c == '"' {
            assert(escape_quotes(seq![c]) =~= seq!['"', '"']);
            assert(text =~= seq!['"', '"'] + after);
            assert(text[0] == '"');
            assert(text.drop_first()[0] == '"');
            assert(text.drop_first().drop_first() =~= after);
            assert(csv_read_from(text, CsvReadMode::Quoted, field, fields, records) == csv_read_from(
                text.drop_first(),
                CsvReadMode::AfterQuote,
                field,
                fields,
                records,
            ));
            assert(csv_read_from(text.drop_first(), CsvReadMode::AfterQuote, field, fields, records)
                == csv_read_from(after, CsvReadMode::Quoted, field.push('"'), fields, records));
        } else {
            assert(escape_quotes(seq![c]) =~= seq![c]);
            assert(text =~= seq![c] + after);
            assert(text[0] == c);
            assert(text.drop_first() =~= after);
        }
    }
}

/// Reading characters that end no field adds them to an unquoted field.
proof fn lemma_read_plain(
    g: Seq<char>,
    t: Seq<char>,
    field: Seq<char>,
    fields: Seq<Seq<char>>,
    records: Seq<Seq<Seq<char>>>,
)
    requires
        forall|k: int| 0 <= k < g.len() ==> #[trigger] g[k] != ',' && g[k] != '\n',
    ensures
        csv_read_from(g + t, CsvReadMode::Unquoted, field, fields, records) == csv_read_from(
            t,
            CsvReadMode::Unquoted,
            field + g,
            fields,
            records,
        ),
    decreases g.len(),
{
    if g.len() == 0 {
        assert(g + t =~= t);
        assert(field + g =~= field);
    } else {
        let rest = g.drop_first();
        lemma_read_plain(rest, t, field.push(g[0]), fields, records);
        assert((g + t).drop_first() =~= rest + t);
        assert((g + t)[0] == g[0]);
        assert(field.push(g[0]) + rest =~= field + g);
    }
}

/// Reading a field as written, then the comma or line feed after it.
proof fn lemma_read_field(
    f: Seq<char>,
    t: Seq<char>,
    fields: Seq<Seq<char>>,
    records: Seq<Seq<Seq<char>>>,
)
    requires
        t.len() > 0,
        t[0] == ',' || t[0] == '\n',
    ensures
        csv_read_from(csv_field_text(f) + t, CsvReadMode::FieldStart, Seq::empty(), fields, records)
            == csv_read_after_field(t, f, fields, records),
{
    let empty = Seq::<char>::empty();
    if needs_quotes(f) {
        let text = csv_field_text(f) + t;
        let closing = seq!['"'] + t;
        assert(text =~= seq!['"'] + (escape_quotes(f) + closing));
        assert(text[0] == '"');
        assert(text.drop_first() =~= escape_quotes(f) + closing);
        assert(csv_read_from(text, CsvReadMode::FieldStart, empty, fields, records) == csv_read_from(
            escape_quotes(f) + closing,
            CsvReadMode::Quoted,
            empty,
            fields,
            records,
        ));
        lemma_read_escaped(f, closing, empty, fields, records);
        assert(empty + f =~= f);
        assert(closing[0] == '"');
        assert(closing.drop_first() =~= t);
        assert(csv_read_from(closing, CsvReadMode::Quoted, f, fields, records) == csv_read_from(
            t,
            CsvReadMode::AfterQuote,
            f,
            fields,
            records,
        ));
    } else if f.len() == 0 {
        assert(csv_field_text(f) + t =~= t);
        assert(f =~= empty);
    } else {
        assert(!(f[0] == ',' || f[0] == '"' || f[0] == '\n' || f[0] == '\r')) by {
            if f[0] == ',' || f[0] == '"' || f[0] == '\n' || f[0] == '\r' {
                assert(needs_quotes(f));
            }
        }
        assert forall|k: int| 0 <= k < f.drop_first().len() implies #[trigger] f.drop_first()[k]
            != ',' && f.drop_first()[k] != '\n' by {
            assert(f.drop_first()[k] == f[k + 1]);
            if f[k + 1] == ',' || f[k + 1] == '\n' {
                assert(needs_quotes(f));
            }
        }
        let text = f + t;
        assert(csv_field_text(f) == f);
        assert(text.drop_first() =~= f.drop_first() + t);
        assert(text[0] == f[0]);
        assert(csv_read_from(text, CsvReadMode::FieldStart, empty, fields, records) == csv_read_from(
            f.drop_first() + t,
            CsvReadMode::Unquoted,
            seq![f[0]],
            fields,
            records,
        ));
        lemma_read_plain(f.drop_first(), t, seq![f[0]], fields, records);
        assert(seq![f[0]] + f.drop_first() =~= f);
    }
}

/// Reading the fields of a record as written, then the comma or line feed
/// after them.
proof fn lemma_read_fields(
    fs: Seq<Seq<char>>,
    t: Seq<char>,
    fields: Seq<Seq<char>>,
    records: Seq<Seq<Seq<char>>>,
)
    requires
        fs.len() > 0,
        t.len() > 0,
        t[0] == ',' || t[0] == '\n',
    ensures
        csv_read_from(csv_fields_text(fs) + t, CsvReadMode::FieldStart, Seq::empty(), fields, records)
            == csv_read_after_field(t, fs.last(), fields + fs.drop_last(), records),
    decreases fs.len(),
{
    if fs.len() == 1 {
        lemma_read_field(fs[0], t, fields, records);
        assert(fields + fs.drop_last() =~= fields);
    } else {
        let front = fs.drop_last();
        let t2 = seq![','] + (csv_field_text(fs.last()) + t);
        assert(csv_fields_text(fs) + t =~= csv_fields_text(front) + t2);
        lemma_read_fields(front, t2, fields, records);
        assert(t2.drop_first() =~= csv_field_text(fs.last()) + t);
        lemma_read_field(fs.last(), t, (fields + front.drop_last()).push(front.last()), records);
        assert((fields + front.drop_last()).push(front.last()) =~= fields + fs.drop_last());
    }
}

/// Reading a record as written.
proof fn lemma_read_record(fs: Seq<Seq<char>>, rest: Seq<char>, records: Seq<Seq<Seq<char>>>)
    requires
        fs.len() > 0,
    ensures
        csv_read_from(
            csv_record_text(fs) + rest,
            CsvReadMode::FieldStart,
            Seq::empty(),
            Seq::empty(),
            records,
        ) == csv_read_from(rest, CsvReadMode::FieldStart, Seq::empty(), Seq::empty(), records.push(fs)),
{
    let empty = Seq::<char>::empty();
    let no_fields = Seq::<Seq<char>>::empty();
    let t = seq!['\n'] + rest;
    assert(t.drop_first() =~= rest);
    if csv_fields_text(fs).len() == 0 {
        // Only a single empty field is written as nothing; it is read back
        // from `""`.
        if fs.len() > 1 {
            assert(csv_fields_text(fs) =~= csv_fields_text(fs.drop_last()) + seq![','] + csv_field_text(
                fs.last(),
            ));
        }
        assert(fs.len() == 1);
        assert(csv_fields_text(fs) == csv_field_text(fs[0]));
        assert(!needs_quotes(fs[0]));
        assert(fs[0] =~= empty);
        let text = csv_record_text(fs) + rest;
        assert(text =~= seq!['"', '"', '\n'] + rest);
        assert(text[0] == '"');
        assert(text.drop_first() =~= seq!['"', '\n'] + rest);
        assert(text.drop_first()[0] == '"');
        assert(text.drop_first().drop_first() =~= t);
        assert(t[0] == '\n');
        assert(csv_read_from(text, CsvReadMode::FieldStart, empty, no_fields, records) == csv_read_from(
            text.drop_first(),
            CsvReadMode::Quoted,
            empty,
            no_fields,
            records,
        ));
        assert(csv_read_from(text.drop_first(), CsvReadMode::Quoted, empty, no_fields, records)
            == csv_read_from(t, CsvReadMode::AfterQuote, empty, no_fields, records));
        assert(csv_read_from(t, CsvReadMode::AfterQuote, empty, no_fields, records) == csv_read_from(
            rest,
            CsvReadMode::FieldStart,
            empty,
            no_fields,
            records.push(no_fields.push(empty)),
        ));
        assert(no_fields.push(empty) =~= fs);
    } else {
        assert(csv_record_text(fs) == csv_fields_text(fs) + seq!['\n']);
        assert(csv_record_text(fs) + rest =~= csv_fields_text(fs) + t);
        lemma_read_fields(fs, t, no_fields, records);
        assert(t[0] == '\n');
        assert((no_fields + fs.drop_last()).push(fs.last()) =~= fs);
    }
}

/// Reading records as written.
proof fn lemma_read_records(rs: Seq<Seq<Seq<char>>>, rest: Seq<char>, records: Seq<Seq<Seq<char>>>)
    requires
        forall|i: int| 0 <= i < rs.len() ==> #[trigger] rs[i].len() > 0,
    ensures
        csv_read_from(csv_text(rs) + rest, CsvReadMode::FieldStart, Seq::empty(), Seq::empty(), records)
            == csv_read_from(rest, CsvReadMode::FieldStart, Seq::empty(), Seq::empty(), records + rs),
    decreases rs.len(),
{
    if rs.len() == 0 {
        assert(csv_text(rs) + rest =~= rest);
        assert(records + rs =~= records);
    } else {
        let front = rs.drop_last();
        let rest2 = csv_record_text(rs.last()) + rest;
        assert(csv_text(rs) + rest =~= csv_text(front) + rest2);
        lemma_read_records(front, rest2, records);
        lemma_read_record(rs.last(), rest, records + front);
        assert((records + front).push(rs.last()) =~= records + rs);
    }
}

/// CSV text written from records whose every record has a field reads back
/// as those records.
pub proof fn lemma_csv_text_reads_back(rs: Seq<Seq<Seq<char>>>)
    requires
        forall|i: int| 0 <= i < rs.len() ==> #[trigger] rs[i].len() > 0,
    ensures
        csv_read(csv_text(rs)) == rs,
{
    let empty = Seq::<char>::empty();
    lemma_read_records(rs, empty, Seq::empty());
    assert(csv_text(rs) + empty =~= csv_text(rs));
    assert(Seq::<Seq<Seq<char>>>::empty() + rs =~= rs);
}

/// An export reads back, as CSV, into its header and the fields of each row:
/// its bytes are UTF-8, and reading their text gives one record more than
/// there are rows, the header first.
pub proof fn lemma_export_reads_back(rows: Seq<ProjectExportRow>)
    requires
        forall|i: int| 0 <= i < rows.len() ==> #[trigger] export_fields(rows[i]) is Some,
    ensures
        csv_read(decode_utf8(csv_document(export_records(rows)))) == export_records(rows),
        export_records(rows).len() == rows.len() + 1,
        export_records(rows)[0] == header_fields(),
        forall|i: int|
            0 <= i < rows.len() ==> Some(#[trigger] export_records(rows)[i + 1]) == export_fields(
                rows[i],
            ),
{
    let records = export_records(rows);
    lemma_document_is_encoded_text(records);
    vstd::utf8::encode_utf8_decode_utf8(csv_text(records));
    assert(header_fields().len() == 12);
    assert forall|i: int| 0 <= i < records.len() implies #[trigger] records[i].len() > 0 by {
        if i > 0 {
            assert(records[i] == export_fields(rows[i - 1])->Some_0);
        }
    }
    lemma_csv_text_reads_back(records);
}

/// The columns of an exported row, read from the row: a row is exported
/// exactly when chrono has a text for each of its timestamps; then the
/// identifiers and the use count read back as the row's numbers, the
/// activity column is `true` exactly when the code is active (and `false`
/// otherwise), texts are copied, timestamps are chrono's texts, and absent
/// redemption values are empty.
pub proof fn lemma_export_columns(row: ProjectExportRow)
    ensures
        (export_fields(row) is Some) <==> (naive_datetime_text(
            row.owner_created_at.secs,
            row.owner_created_at.nanos,
        ) is Some && naive_datetime_text(row.owner_updated_at.secs, row.owner_updated_at.nanos) is Some
            && naive_datetime_text(row.code_created_at.secs, row.code_created_at.nanos) is Some
            && naive_datetime_text(row.code_updated_at.secs, row.code_updated_at.nanos) is Some && (
        row.redemption_created_at matches Some(at) ==> naive_datetime_text(at.secs, at.nanos) is Some)),
        export_fields(row) matches Some(fields) ==> {
            &&& fields.len() == 12
            &&& signed_digits_value(fields[0]) == row.owner_id
            &&& fields[1] == row.owner_meta@
            &&& Some(fields[2]) == naive_datetime_text(
                row.owner_created_at.secs,
                row.owner_created_at.nanos,
            )
            &&& Some(fields[3]) == naive_datetime_text(
                row.owner_updated_at.secs,
                row.owner_updated_at.nanos,
            )
            &&& fields[4] == row.code@
            &&& (fields[5] == "true"@ <==> row.code_is_active)
            &&& (fields[5] == "false"@ <==> !row.code_is_active)
            &&& signed_digits_value(fields[6]) == row.code_use_count
            &&& Some(fields[7]) == naive_datetime_text(
                row.code_created_at.secs,
                row.code_created_at.nanos,
            )
            &&& Some(fields[8]) == naive_datetime_text(
                row.code_updated_at.secs,
                row.code_updated_at.nanos,
            )
            &&& (row.redemption_id is None <==> fields[9].len() == 0)
            &&& (row.redemption_id matches Some(id) ==> signed_digits_value(fields[9]) == id)
            &&& (row.redemption_meta matches Some(meta) ==> fields[10] == meta@)
            &&& (row.redemption_meta is None ==> fields[10].len() == 0)
            &&& (row.redemption_created_at is None ==> fields[11].len() == 0)
            &&& (row.redemption_created_at matches Some(at) ==> Some(fields[11])
                == naive_datetime_text(at.secs, at.nanos))
        },
{
    reveal_strlit("true");
    reveal_strlit("false");
    lemma_signed_decimal_text_reads_back(row.owner_id as int);
    lemma_signed_decimal_text_reads_back(row.code_use_count as int);
    if let Some(id) = row.redemption_id {
        lemma_signed_decimal_text_reads_back(id as int);
        crate::decimal::lemma_decimal_text_reads_back(if id < 0 { (-id) as nat } else { id as nat });
    }
    assert("true"@ != "false"@) by {
        assert("true"@.len() != "false"@.len());
    }
}

} // verus!
