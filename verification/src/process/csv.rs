//! Tables of comma-separated values, converted to JSON or YAML.

use crate::cli::csv::OutputFormat;
use crate::error::TextError;
use crate::process::base64::text_view;
use crate::utils::{pairs_view, strings_view};
use vstd::prelude::*;

verus! {

/// The header row that the csv crate reads from `input`, where it can.
pub uninterp spec fn csv_headers(input: Seq<u8>) -> Option<Seq<Seq<char>>>;

/// The records below the header row that the csv crate reads from `input`,
/// where it can.
pub uninterp spec fn csv_records(input: Seq<u8>) -> Option<Seq<Seq<Seq<char>>>>;

/// The text that serde_json writes, with line breaks and indentation, for
/// a list of objects, each given by its pairs of key and value.
pub uninterp spec fn json_text(objects: Seq<Seq<(Seq<char>, Seq<char>)>>) -> Option<Seq<char>>;

/// The text that serde_yaml writes for a list of objects, each given by
/// its pairs of key and value.
pub uninterp spec fn yaml_text(objects: Seq<Seq<(Seq<char>, Seq<char>)>>) -> Option<Seq<char>>;

/// An optional list of texts by their characters.
pub open spec fn option_strings_view(r: Option<Vec<String>>) -> Option<Seq<Seq<char>>> {
    match r {
        Some(texts) => Some(strings_view(texts)),
        None => None,
    }
}

/// A list of rows by their characters.
pub open spec fn rows_view(rows: Vec<Vec<String>>) -> Seq<Seq<Seq<char>>> {
    Seq::new(rows@.len(), |i: int| strings_view(rows@[i]))
}

/// An optional list of rows by their characters.
pub open spec fn option_rows_view(r: Option<Vec<Vec<String>>>) -> Option<Seq<Seq<Seq<char>>>> {
    match r {
        Some(rows) => Some(rows_view(rows)),
        None => None,
    }
}

/// A list of objects by their characters.
pub open spec fn objects_view(objects: Vec<Vec<(String, String)>>) -> Seq<
    Seq<(Seq<char>, Seq<char>)>,
> {
    Seq::new(objects@.len(), |i: int| pairs_view(objects@[i]))
}

/// An optional text by its characters.
pub open spec fn option_text_view(r: Option<String>) -> Option<Seq<char>> {
    match r {
        Some(text) => Some(text@),
        None => None,
    }
}

/// Calls `Reader::headers` of the csv crate on a reader over `input`,
/// which hands back the first row or refuses the input.
#[verifier::external_body]
fn read_headers(input: &[u8]) -> (r: Option<Vec<String>>)
    ensures
        option_strings_view(r) == csv_headers(input@),
{
    let mut reader = ::csv::Reader::from_reader(input);
    let headers = reader.headers().ok()?;
    Some(headers.iter().map(String::from).collect())
}

/// Calls `Reader::records` of the csv crate on a reader over `input`,
/// which hands back the rows below the first or refuses the input.
#[verifier::external_body]
fn read_records(input: &[u8]) -> (r: Option<Vec<Vec<String>>>)
    ensures
        option_rows_view(r) == csv_records(input@),
{
    let mut reader = ::csv::Reader::from_reader(input);
    let records: Result<Vec<::csv::StringRecord>, ::csv::Error> = reader.records().collect();
    Some(records.ok()?.iter().map(|record| record.iter().map(String::from).collect()).collect())
}

/// Calls `serde_json::to_string_pretty` on the objects made of the pairs.
#[verifier::external_body]
fn write_json(objects: &Vec<Vec<(String, String)>>) -> (r: Option<String>)
    ensures
        option_text_view(r) == json_text(objects_view(*objects)),
{
    let values: Vec<::serde_json::Value> =
        objects.iter().map(|object| object.iter().cloned().collect()).collect();
    ::serde_json::to_string_pretty(&values).ok()
}

/// Calls `serde_yaml::to_string` on the objects made of the pairs.
#[verifier::external_body]
fn write_yaml(objects: &Vec<Vec<(String, String)>>) -> (r: Option<String>)
    ensures
        option_text_view(r) == yaml_text(objects_view(*objects)),
{
    let values: Vec<::serde_json::Value> =
        objects.iter().map(|object| object.iter().cloned().collect()).collect();
    ::serde_yaml::to_string(&values).ok()
}

/// The fields of a record under their headers: as many pairs as both
/// have, in their order.
pub open spec fn zipped(headers: Seq<Seq<char>>, record: Seq<Seq<char>>) -> Seq<
    (Seq<char>, Seq<char>),
> {
    Seq::new(
        if headers.len() <= record.len() {
            headers.len()
        } else {
            record.len()
        },
        |i: int| (headers[i], record[i]),
    )
}

/// The objects of a table: each record's fields under the headers.
pub open spec fn objects_of(headers: Seq<Seq<char>>, records: Seq<Seq<Seq<char>>>) -> Seq<
    Seq<(Seq<char>, Seq<char>)>,
> {
    Seq::new(records.len(), |i: int| zipped(headers, records[i]))
}

/// What the text of a list of objects is in `format`.
pub open spec fn written(objects: Seq<Seq<(Seq<char>, Seq<char>)>>, format: OutputFormat) -> Option<
    Seq<char>,
> {
    match format {
        OutputFormat::Json => json_text(objects),
        OutputFormat::Yaml => yaml_text(objects),
    }
}

/// What converting the table in `input` comes to: the text of its objects
/// in `format`, or the refusal of an input that is no table.
pub open spec fn csv_outcome(input: Seq<u8>, format: OutputFormat) -> Result<Seq<char>, TextError> {
    match (csv_headers(input), csv_records(input)) {
        (Some(headers), Some(records)) => match written(objects_of(headers, records), format) {
            Some(text) => Ok(text),
            None => Err(TextError::Serialize),
        },
        _ => Err(TextError::Table),
    }
}

/// Pairs the fields of a record with their headers.
pub fn pair_up(headers: &Vec<String>, record: &Vec<String>) -> (pairs: Vec<(String, String)>)
    ensures
        pairs_view(pairs) == zipped(strings_view(*headers), strings_view(*record)),
{
    let n = if headers.len() <= record.len() {
        headers.len()
    } else {
        record.len()
    };
    let mut pairs: Vec<(String, String)> = Vec::new();
    let mut i: usize = 0;
    while i < n
        invariant
            i <= n,
            n <= headers@.len(),
            n <= record@.len(),
            pairs@.len() == i,
            forall|j: int| 0 <= j < i ==> pairs@[j].0@ == headers@[j]@ && pairs@[j].1@ == record@[j]@,
        decreases n - i,
    {
        pairs.push((headers[i].clone(), record[i].clone()));
        i = i + 1;
    }
    proof {
        assert(pairs_view(pairs) =~= zipped(strings_view(*headers), strings_view(*record)));
    }
    pairs
}

/// Makes an object of each record of a table.
pub fn objects_from(headers: &Vec<String>, records: &Vec<Vec<String>>) -> (objects: Vec<
    Vec<(String, String)>,
>)
    ensures
        objects_view(objects) == objects_of(strings_view(*headers), rows_view(*records)),
{
    let mut objects: Vec<Vec<(String, String)>> = Vec::new();
    let mut i: usize = 0;
    while i < records.len()
        invariant
            i <= records@.len(),
            objects@.len() == i,
            forall|j: int|
                0 <= j < i ==> pairs_view(#[trigger] objects@[j]) == zipped(
                    strings_view(*headers),
                    strings_view(records@[j]),
                ),
        decreases records@.len() - i,
    {
        objects.push(pair_up(headers, &records[i]));
        i = i + 1;
    }
    proof {
        assert(objects_view(objects) =~= objects_of(strings_view(*headers), rows_view(*records)));
    }
    objects
}

/// Converts the table in `input` to text in `format`: one object for each
/// record below the header row, with the headers as its keys.
pub fn process_csv(input: &[u8], format: OutputFormat) -> (r: Result<String, TextError>)
    ensures
        text_view(r) == csv_outcome(input@, format),
{
    let headers = match read_headers(input) {
        Some(headers) => headers,
        None => {
            return Err(TextError::Table);
        },
    };
    let records = match read_records(input) {
        Some(records) => records,
        None => {
            return Err(TextError::Table);
        },
    };
    let objects = objects_from(&headers, &records);
    let content = match format {
        OutputFormat::Json => write_json(&objects),
        OutputFormat::Yaml => write_yaml(&objects),
    };
    match content {
        Some(text) => Ok(text),
        None => Err(TextError::Serialize),
    }
}

} // verus!
