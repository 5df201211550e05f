//! The export of the node table as pretty-printed JSON: an array of
//! objects with the fields `publicKey`, `alias`, `capacity` and
//! `firstSeen`, each a JSON string.

use vstd::prelude::*;
use crate::node::{row_views, NodeExport, NodeExportView};

verus! {

/// Why an export could not be rendered.
#[derive(Debug, Clone, Copy, PartialEq, Eq, Structural)]
pub enum ExportError {
    /// The JSON encoder refused a column's text.
    Encoding,
}

/// The error of `serde_json`.
#[verifier::external_type_specification]
#[verifier::external_body]
pub struct ExJsonError(serde_json::Error);

/// The JSON string literal for `text`: quoted, with the escapes that
/// `serde_json` writes.
pub uninterp spec fn json_string(text: Seq<char>) -> Seq<char>;

/// `serde_json::to_string_pretty` on a string slice. It succeeds: a string
/// slice is serialised by writing its escaped text, which fails only where
/// the writer does, and the writer is a byte vector in memory. The output is
/// the JSON string literal for `text`, which depends on `text` alone.
#[verifier::external_body]
fn encode_json_string(text: &str) -> (encoded: Result<String, serde_json::Error>)
    ensures
        encoded is Ok,
        encoded matches Ok(literal) ==> literal@ == json_string(text@),
{
    serde_json::to_string_pretty(text)
}

/// One object of the export, as an element of the array, from the four
/// encoded values: indented by two spaces, one field per line, in the order
/// `publicKey`, `alias`, `capacity`, `firstSeen`.
pub open spec fn object_text(
    public_key: Seq<char>,
    alias: Seq<char>,
    capacity: Seq<char>,
    first_seen: Seq<char>,
) -> Seq<char> {
    "  {\n    \"publicKey\": "@ + public_key + ",\n    \"alias\": "@ + alias
        + ",\n    \"capacity\": "@ + capacity + ",\n    \"firstSeen\": "@ + first_seen
        + "\n  }"@
}

/// The object for one row: each of the four columns as a JSON string.
pub open spec fn row_text(row: NodeExportView) -> Seq<char> {
    object_text(
        json_string(row.public_key),
        json_string(row.alias),
        json_string(row.capacity),
        json_string(row.first_seen),
    )
}

/// `items` in order, with a comma and a line break between neighbours.
pub open spec fn joined(items: Seq<Seq<char>>) -> Seq<char>
    decreases items.len(),
{
    if items.len() == 0 {
        Seq::empty()
    } else if items.len() == 1 {
        items[0]
    } else {
        joined(items.drop_last()) + ",\n"@ + items.last()
    }
}

/// The array of `items`: `[]` where there is none, else one item after the
/// other between a bracket line and a bracket line.
pub open spec fn array_text(items: Seq<Seq<char>>) -> Seq<char> {
    if items.len() == 0 {
        "[]"@
    } else {
        "[\n"@ + joined(items) + "\n]"@
    }
}

/// The export of `rows`: the array of their objects, in the order of `rows`.
pub open spec fn export_text(rows: Seq<NodeExportView>) -> Seq<char> {
    array_text(rows.map_values(|row: NodeExportView| row_text(row)))
}

/// The export of an empty table is the empty array, `[]`.
pub proof fn lemma_empty_export(rows: Seq<NodeExportView>)
    requires
        rows.len() == 0,
    ensures
        export_text(rows) == "[]"@,
{
}

/// Every object of an export has exactly the four fields `publicKey`,
/// `alias`, `capacity` and `firstSeen`, in this order, and the value of each
/// is the JSON string of the row's column.
pub proof fn lemma_export_objects(rows: Seq<NodeExportView>, i: int)
    requires
        0 <= i < rows.len(),
    ensures
        rows.map_values(|row: NodeExportView| row_text(row))[i] == "  {\n    \"publicKey\": "@
            + json_string(rows[i].public_key) + ",\n    \"alias\": "@ + json_string(
            rows[i].alias,
        ) + ",\n    \"capacity\": "@ + json_string(rows[i].capacity)
            + ",\n    \"firstSeen\": "@ + json_string(rows[i].first_seen) + "\n  }"@,
{
}

/// What a sequence of strings holds.
pub open spec fn texts(items: Seq<String>) -> Seq<Seq<char>> {
    items.map_values(|item: String| item@)
}

/// Frames four encoded values as one object of the export.
pub fn frame_object(public_key: &str, alias: &str, capacity: &str, first_seen: &str) -> (object:
    String)
    ensures
        object@ == object_text(public_key@, alias@, capacity@, first_seen@),
{
    let mut out = String::new();
    out.append("  {\n    \"publicKey\": ");
    out.append(public_key);
    out.append(",\n    \"alias\": ");
    out.append(alias);
    out.append(",\n    \"capacity\": ");
    out.append(capacity);
    out.append(",\n    \"firstSeen\": ");
    out.append(first_seen);
    out.append("\n  }");
    assert(out@ =~= object_text(public_key@, alias@, capacity@, first_seen@));
    out
}

/// Frames the objects of an export as one array.
pub fn frame_array(objects: &Vec<String>) -> (array: String)
    ensures
        array@ == array_text(texts(objects@)),
{
    if objects.len() == 0 {
        return String::from_str("[]");
    }
    let ghost items = texts(objects@);
    let mut out = String::new();
    out.append("[\n");
    out.append(objects[0].as_str());
    assert(items.take(1) =~= seq![items[0]]);
    assert(out@ =~= "[\n"@ + joined(items.take(1)));
    let mut i: usize = 1;
    while i < objects.len()
        invariant
            1 <= i <= objects.len(),
            items == texts(objects@),
            out@ == "[\n"@ + joined(items.take(i as int)),
        decreases objects.len() - i,
    {
        out.append(",\n");
        out.append(objects[i].as_str());
        proof {
            let upto = items.take(i as int + 1);
            assert(upto.drop_last() =~= items.take(i as int));
            assert(upto.last() == objects@[i as int]@);
            assert(out@ =~= "[\n"@ + joined(upto));
        }
        i += 1;
    }
    assert(items.take(i as int) =~= items);
    out.append("\n]");
    out
}

/// The object of the export from what the encoder gave for the four
/// columns: the framed object where it encoded all four, else its refusal.
pub fn object_from_encoded(
    public_key: Result<String, serde_json::Error>,
    alias: Result<String, serde_json::Error>,
    capacity: Result<String, serde_json::Error>,
    first_seen: Result<String, serde_json::Error>,
) -> (object: Result<String, ExportError>)
    ensures
        object is Ok <==> public_key is Ok && alias is Ok && capacity is Ok && first_seen is Ok,
        object matches Ok(text) ==> text@ == object_text(
            public_key->Ok_0@,
            alias->Ok_0@,
            capacity->Ok_0@,
            first_seen->Ok_0@,
        ),
        object matches Err(error) ==> error == ExportError::Encoding,
{
    match public_key {
        Ok(key_literal) => match alias {
            Ok(alias_literal) => match capacity {
                Ok(capacity_literal) => match first_seen {
                    Ok(seen_literal) => Ok(
                        frame_object(
                            key_literal.as_str(),
                            alias_literal.as_str(),
                            capacity_literal.as_str(),
                            seen_literal.as_str(),
                        ),
                    ),
                    Err(_) => Err(ExportError::Encoding),
                },
                Err(_) => Err(ExportError::Encoding),
            },
            Err(_) => Err(ExportError::Encoding),
        },
        Err(_) => Err(ExportError::Encoding),
    }
}

/// The object for `row`, with each column encoded as a JSON string. Every
/// row has one: the result is never an error.
pub fn render_row(row: &NodeExport) -> (object: Result<String, ExportError>)
    ensures
        object matches Ok(text) && text@ == row_text(row@),
{
    object_from_encoded(
        encode_json_string(row.public_key()),
        encode_json_string(row.alias()),
        encode_json_string(row.capacity()),
        encode_json_string(row.first_seen()),
    )
}

/// Renders the rows of a full scan as the export: a JSON array with one
/// object per row, in the order of the scan. An empty scan gives `[]`.
/// Every scan has an export: the result is never an error.
pub fn render_export(rows: &Vec<NodeExport>) -> (export: Result<String, ExportError>)
    ensures
        export matches Ok(text) && text@ == export_text(row_views(rows@)),
{
    let mut objects: Vec<String> = Vec::new();
    let mut i: usize = 0;
    while i < rows.len()
        invariant
            i <= rows.len(),
            objects@.len() == i,
            forall|j: int| 0 <= j < i ==> (#[trigger] objects@[j])@ == row_text(rows@[j]@),
        decreases rows.len() - i,
    {
        match render_row(&rows[i]) {
            Ok(object) => {
                objects.push(object);
            },
            Err(error) => {
                return Err(error);
            },
        }
        i += 1;
    }
    assert(texts(objects@) =~= row_views(rows@).map_values(|row: NodeExportView| row_text(row)));
    Ok(frame_array(&objects))
}

} // verus!
