//! Encoders: a record as delimited text or as structured text.

use vstd::prelude::*;
use vstd::string::*;
use crate::record::{texts, FieldValue, Record, RecordView};
use crate::text::same_text;

verus! {

/// The two encodings a generator can be built with.
#[derive(Clone, Copy, Debug, PartialEq, Eq, Structural)]
pub enum Format {
    /// Delimited text: a header row, then one data row.
    CSV,
    /// Structured text: one object per record.
    JSON,
}

/// Why a record could not be encoded. The text is the encoder's own message.
#[derive(Clone, Debug, PartialEq, Eq)]
pub enum EncodeError {
    Csv(String),
    Json(String),
}

#[verifier::external_type_specification]
#[verifier::external_body]
pub struct ExJsonValue(serde_json::Value);

#[verifier::external_type_specification]
#[verifier::external_body]
#[verifier::reject_recursive_types(K)]
#[verifier::reject_recursive_types(V)]
pub struct ExJsonMap<K, V>(serde_json::Map<K, V>);

/// What `csv::Writer` with its default settings writes for a header row
/// followed by one data row, as text; `None` where it reports an error.
pub uninterp spec fn csv_text(header: Seq<Seq<char>>, row: Seq<Seq<char>>) -> Option<Seq<char>>;

/// The members that a `serde_json::Map` holds, by name.
pub uninterp spec fn json_members(object: serde_json::Map<String, serde_json::Value>) -> Map<
    Seq<char>,
    FieldValue,
>;

/// The members of an object that has none.
pub open spec fn no_members() -> Map<Seq<char>, FieldValue> {
    Map::empty()
}

/// What `serde_json::to_string` writes for an object with the given members;
/// `None` where it reports an error.
pub uninterp spec fn json_text(members: Map<Seq<char>, FieldValue>) -> Option<Seq<char>>;

/// Calls `csv::Writer::from_writer` on an empty buffer, `write_record` for
/// the header and for the row, `into_inner`, and `String::from_utf8`.
/// Trusted: the outcome depends on the two rows alone; it is `csv_text` of
/// them, an error text standing for `None`.
#[verifier::external_body]
fn write_csv(header: &Vec<String>, row: &Vec<String>) -> (r: Result<String, String>)
    ensures
        match r {
            Ok(text) => csv_text(texts(header@), texts(row@)) == Some(text@),
            Err(_) => csv_text(texts(header@), texts(row@)) is None,
        },
{
    let mut writer = csv::Writer::from_writer(Vec::new());
    writer.write_record(header).map_err(|e| e.to_string())?;
    writer.write_record(row).map_err(|e| e.to_string())?;
    let bytes = writer.into_inner().map_err(|e| e.to_string())?;
    String::from_utf8(bytes).map_err(|e| e.to_string())
}

/// Calls `serde_json::Map::new`. Trusted: the new object has no members.
#[verifier::external_body]
fn json_object() -> (object: serde_json::Map<String, serde_json::Value>)
    ensures
        json_members(object) == no_members(),
{
    serde_json::Map::new()
}

/// Calls `serde_json::Map::insert` with a `Value::String`. Trusted: the
/// member `name` now holds the text, whether or not it was there before, and
/// the other members are as they were.
#[verifier::external_body]
fn json_put_text(object: &mut serde_json::Map<String, serde_json::Value>, name: &str, text: &str)
    ensures
        json_members(*final(object)) == json_members(*old(object)).insert(
            name@,
            FieldValue::Text(text@),
        ),
{
    object.insert(name.to_string(), serde_json::Value::String(text.to_string()));
}

/// Calls `serde_json::Map::insert` with the `Value` that `From<u64>` gives.
/// Trusted: the member `name` now holds the number, whether or not it was
/// there before, and the other members are as they were.
#[verifier::external_body]
fn json_put_number(
    object: &mut serde_json::Map<String, serde_json::Value>,
    name: &str,
    number: u64,
)
    ensures
        json_members(*final(object)) == json_members(*old(object)).insert(
            name@,
            FieldValue::Number(number as nat),
        ),
{
    object.insert(name.to_string(), serde_json::Value::from(number));
}

/// Calls `serde_json::to_string` on the object. Trusted: the outcome depends
/// on the members alone; it is `json_text` of them, an error text standing
/// for `None`.
#[verifier::external_body]
fn json_render(object: &serde_json::Map<String, serde_json::Value>) -> (r: Result<String, String>)
    ensures
        match r {
            Ok(text) => json_text(json_members(*object)) == Some(text@),
            Err(_) => json_text(json_members(*object)) is None,
        },
{
    serde_json::to_string(object).map_err(|e| e.to_string())
}

/// The delimited text of a record: a header row of its field names, then a
/// data row of its fields.
pub open spec fn csv_encoding(record: RecordView) -> Option<Seq<char>> {
    csv_text(record.field_names(), record.field_texts())
}

/// The structured text of a record: one object with the record's members.
pub open spec fn json_encoding(record: RecordView) -> Option<Seq<char>> {
    json_text(record.members())
}

impl Format {
    /// The text of a record in this format, `None` where the encoder fails.
    pub open spec fn encoding(self, record: RecordView) -> Option<Seq<char>> {
        match self {
            Format::CSV => csv_encoding(record),
            Format::JSON => json_encoding(record),
        }
    }

    /// The format that a selector names: `"CSV"` or `"JSON"`, nothing else.
    pub open spec fn named(name: Seq<char>) -> Option<Format> {
        if name == "CSV"@ {
            Some(Format::CSV)
        } else if name == "JSON"@ {
            Some(Format::JSON)
        } else {
            None
        }
    }

    /// Reads a format selector.
    pub fn from_name(name: &str) -> (r: Option<Format>)
        ensures
            r == Format::named(name@),
    {
        if same_text(name, "CSV") {
            Some(Format::CSV)
        } else if same_text(name, "JSON") {
            Some(Format::JSON)
        } else {
            None
        }
    }

    /// Encodes a record in this format.
    pub fn serialize(&self, record: &Record) -> (r: Result<String, EncodeError>)
        ensures
            encoded_as(*self, self.encoding(record@), r),
    {
        match self {
            Format::CSV => serialize_to_csv(record),
            Format::JSON => serialize_to_json(record),
        }
    }
}

/// How the result of an encoding call relates to the encoder's outcome: the
/// text where there is one, else an error of the format's kind.
pub open spec fn encoded_as(
    format: Format,
    outcome: Option<Seq<char>>,
    r: Result<String, EncodeError>,
) -> bool {
    match r {
        Ok(text) => outcome == Some(text@),
        Err(EncodeError::Csv(_)) => format == Format::CSV && outcome is None,
        Err(EncodeError::Json(_)) => format == Format::JSON && outcome is None,
    }
}

/// Turns the outcome of an encoder call into the result of the format: the
/// text as it is, an encoder message as the error of that format.
pub fn encode_result(format: Format, outcome: Result<String, String>) -> (r: Result<
    String,
    EncodeError,
>)
    ensures
        match outcome {
            Ok(text) => r == Ok::<String, EncodeError>(text),
            Err(message) => r == Err::<String, EncodeError>(
                match format {
                    Format::CSV => EncodeError::Csv(message),
                    Format::JSON => EncodeError::Json(message),
                },
            ),
        },
{
    match outcome {
        Ok(text) => Ok(text),
        Err(message) => match format {
            Format::CSV => Err(EncodeError::Csv(message)),
            Format::JSON => Err(EncodeError::Json(message)),
        },
    }
}

/// Encodes a record as delimited text: one header row, then one data row,
/// each call with its own header.
pub fn serialize_to_csv(record: &Record) -> (r: Result<String, EncodeError>)
    ensures
        encoded_as(Format::CSV, csv_encoding(record@), r),
{
    let header = record.field_names();
    let row = record.field_texts();
    encode_result(Format::CSV, write_csv(&header, &row))
}

/// Encodes a record as structured text: one object per call.
pub fn serialize_to_json(record: &Record) -> (r: Result<String, EncodeError>)
    ensures
        encoded_as(Format::JSON, json_encoding(record@), r),
{
    let mut object = json_object();
    match record {
        Record::Counter { time, count } => {
            json_put_text(&mut object, "time", time.as_str());
            json_put_number(&mut object, "count", *count);
        },
        Record::IdEvent { time, id, event } => {
            json_put_text(&mut object, "time", time.as_str());
            json_put_text(&mut object, "id", id.as_str());
            json_put_text(&mut object, "event", event.as_str());
        },
    }
    encode_result(Format::JSON, json_render(&object))
}

} // verus!
