use node_sync::export::{
    frame_array, frame_object, object_from_encoded, render_export, render_row, ExportError,
};
use node_sync::node::NodeExport;

fn row(key: &str, alias: &str, capacity: &str, first_seen: &str) -> NodeExport {
    NodeExport::new(
        key.to_string(),
        alias.to_string(),
        capacity.to_string(),
        first_seen.to_string(),
    )
}

#[test]
fn empty_export_is_empty_array() {
    assert_eq!(render_export(&Vec::new()).unwrap(), "[]");
}

#[test]
fn export_of_one_row() {
    let rows = vec![row("02ab", "ACINQ", "1.5", "2020-09-30T01:39:00Z")];
    let expected = "[\n  {\n    \"publicKey\": \"02ab\",\n    \"alias\": \"ACINQ\",\n    \"capacity\": \"1.5\",\n    \"firstSeen\": \"2020-09-30T01:39:00Z\"\n  }\n]";
    assert_eq!(render_export(&rows).unwrap(), expected);
}

#[test]
fn export_of_two_rows_keeps_scan_order() {
    let rows = vec![row("b", "x", "0", "t1"), row("a", "y", "1", "t2")];
    let expected = "[\n  {\n    \"publicKey\": \"b\",\n    \"alias\": \"x\",\n    \"capacity\": \"0\",\n    \"firstSeen\": \"t1\"\n  },\n  {\n    \"publicKey\": \"a\",\n    \"alias\": \"y\",\n    \"capacity\": \"1\",\n    \"firstSeen\": \"t2\"\n  }\n]";
    assert_eq!(render_export(&rows).unwrap(), expected);
}

#[test]
fn export_escapes_column_text() {
    let object = render_row(&row("k", "say \"hi\"\n\\", "1", "t")).unwrap();
    assert_eq!(
        object,
        "  {\n    \"publicKey\": \"k\",\n    \"alias\": \"say \\\"hi\\\"\\n\\\\\",\n    \"capacity\": \"1\",\n    \"firstSeen\": \"t\"\n  }"
    );
}

#[test]
fn export_objects_have_four_string_fields() {
    let rows = vec![
        row("k1", "caf\u{e9} \u{1F600}", "1.5", "2020-09-30T01:39:00Z"),
        row("k2", "tab\there", "0", "1970-01-01T00:00:00Z"),
    ];
    let text = render_export(&rows).unwrap();
    let parsed: serde_json::Value = serde_json::from_str(&text).unwrap();
    let array = parsed.as_array().unwrap();
    assert_eq!(array.len(), 2);
    for (i, object) in array.iter().enumerate() {
        let fields = object.as_object().unwrap();
        assert_eq!(fields.len(), 4);
        assert_eq!(fields["publicKey"].as_str().unwrap(), rows[i].public_key());
        assert_eq!(fields["alias"].as_str().unwrap(), rows[i].alias());
        assert_eq!(fields["capacity"].as_str().unwrap(), rows[i].capacity());
        assert_eq!(fields["firstSeen"].as_str().unwrap(), rows[i].first_seen());
    }
}

#[test]
fn export_matches_the_encoder_on_whole_values() {
    let rows = vec![row("k1", "a\"b", "1.5", "t"), row("k2", "c", "2", "u")];
    let text = render_export(&rows).unwrap();
    let parsed: serde_json::Value = serde_json::from_str(&text).unwrap();
    let keys: Vec<&str> =
        parsed.as_array().unwrap().iter().map(|o| o["publicKey"].as_str().unwrap()).collect();
    assert_eq!(keys, vec!["k1", "k2"]);
    assert_eq!(parsed[0]["alias"].as_str().unwrap(), "a\"b");
}

#[test]
fn frame_object_lays_out_encoded_values() {
    assert_eq!(
        frame_object("\"k\"", "\"a\"", "\"1\"", "\"t\""),
        "  {\n    \"publicKey\": \"k\",\n    \"alias\": \"a\",\n    \"capacity\": \"1\",\n    \"firstSeen\": \"t\"\n  }"
    );
}

#[test]
fn frame_array_joins_objects() {
    assert_eq!(frame_array(&Vec::new()), "[]");
    assert_eq!(frame_array(&vec!["  1".to_string()]), "[\n  1\n]");
    assert_eq!(
        frame_array(&vec!["  1".to_string(), "  2".to_string(), "  3".to_string()]),
        "[\n  1,\n  2,\n  3\n]"
    );
}

fn encoder_refusal() -> serde_json::Error {
    serde_json::from_str::<serde_json::Value>("{").unwrap_err()
}

#[test]
fn object_from_encoded_frames_four_literals() {
    let object = object_from_encoded(
        Ok("\"k\"".to_string()),
        Ok("\"a\"".to_string()),
        Ok("\"1\"".to_string()),
        Ok("\"t\"".to_string()),
    );
    assert_eq!(
        object,
        Ok("  {\n    \"publicKey\": \"k\",\n    \"alias\": \"a\",\n    \"capacity\": \"1\",\n    \"firstSeen\": \"t\"\n  }".to_string())
    );
}

#[test]
fn object_from_encoded_passes_on_a_refusal() {
    let ok = || Ok("\"x\"".to_string());
    assert_eq!(object_from_encoded(Err(encoder_refusal()), ok(), ok(), ok()), Err(ExportError::Encoding));
    assert_eq!(object_from_encoded(ok(), Err(encoder_refusal()), ok(), ok()), Err(ExportError::Encoding));
    assert_eq!(object_from_encoded(ok(), ok(), Err(encoder_refusal()), ok()), Err(ExportError::Encoding));
    assert_eq!(object_from_encoded(ok(), ok(), ok(), Err(encoder_refusal())), Err(ExportError::Encoding));
}

#[test]
fn export_succeeds_on_awkward_text() {
    let rows = vec![
        row("", "", "", ""),
        row("\u{0}\u{1}\u{1f}\u{7f}", "\u{8}\u{c}\r\n\t", "\"\\/", "\u{2028}\u{10FFFF}"),
        row("k", "plain", "21000000", "+262142-12-31T23:59:59Z"),
    ];
    let text = render_export(&rows).unwrap();
    let parsed: serde_json::Value = serde_json::from_str(&text).unwrap();
    let array = parsed.as_array().unwrap();
    assert_eq!(array.len(), rows.len());
    for (i, object) in array.iter().enumerate() {
        assert_eq!(object["publicKey"].as_str().unwrap(), rows[i].public_key());
        assert_eq!(object["alias"].as_str().unwrap(), rows[i].alias());
        assert_eq!(object["capacity"].as_str().unwrap(), rows[i].capacity());
        assert_eq!(object["firstSeen"].as_str().unwrap(), rows[i].first_seen());
    }
    assert!(render_row(&rows[1]).is_ok());
}
