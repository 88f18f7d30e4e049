use rcli::{
    convert_records, pair_row, process_csv, rows_from_records, ConvertError, OutputFormat,
};

fn strings(v: &[&str]) -> Vec<String> {
    v.iter().map(|s| s.to_string()).collect()
}

#[test]
fn two_players_to_json() {
    let data = b"Name,Position\nAlice,Forward\nBob,Keeper\n";
    let doc = process_csv(data, b',', OutputFormat::Json).unwrap();
    let value: serde_json::Value = serde_json::from_str(&doc).unwrap();
    let items = value.as_array().unwrap();
    assert_eq!(items.len(), 2);
    let first = items[0].as_object().unwrap();
    let keys: Vec<&String> = first.keys().collect();
    assert_eq!(keys, vec!["Name", "Position"]);
    assert_eq!(first["Name"], "Alice");
    assert_eq!(first["Position"], "Forward");
    let second = items[1].as_object().unwrap();
    assert_eq!(second["Name"], "Bob");
    assert_eq!(second["Position"], "Keeper");
}

#[test]
fn one_row_per_record_in_header_order() {
    let records = vec![
        strings(&["b", "a", "c"]),
        strings(&["1", "2", "3"]),
        strings(&["4", "5", "6"]),
        strings(&["7", "8", "9"]),
    ];
    let rows = rows_from_records(&records);
    assert_eq!(rows.len(), 3);
    for (i, row) in rows.iter().enumerate() {
        let names: Vec<&str> = row.iter().map(|(k, _)| k.as_str()).collect();
        assert_eq!(names, vec!["b", "a", "c"]);
        let values: Vec<&str> = row.iter().map(|(_, v)| v.as_str()).collect();
        assert_eq!(values, records[i + 1].iter().map(|s| s.as_str()).collect::<Vec<_>>());
    }
}

#[test]
fn header_only_json_is_empty_array() {
    let doc = process_csv(b"Name,Position\n", b',', OutputFormat::Json).unwrap();
    assert_eq!(doc, "[]");
}

#[test]
fn header_only_yaml_is_empty_sequence() {
    let doc = process_csv(b"Name,Position\n", b',', OutputFormat::Yaml).unwrap();
    let value: serde_yaml::Value = serde_yaml::from_str(&doc).unwrap();
    assert_eq!(value.as_sequence().unwrap().len(), 0);
}

#[test]
fn no_records_at_all_is_empty() {
    let rows = rows_from_records(&Vec::new());
    assert!(rows.is_empty());
    assert_eq!(process_csv(b"", b',', OutputFormat::Json).unwrap(), "[]");
}

#[test]
fn json_round_trip_keeps_fields() {
    let records = vec![
        strings(&["id", "city", "note"]),
        strings(&["1", "Oslo", ""]),
        strings(&["2", "Lima", "a \"quoted\" word"]),
    ];
    let doc = convert_records(&records, OutputFormat::Json).unwrap();
    let back: Vec<serde_json::Map<String, serde_json::Value>> = serde_json::from_str(&doc).unwrap();
    let rows = rows_from_records(&records);
    assert_eq!(back.len(), rows.len());
    for (obj, row) in back.iter().zip(rows.iter()) {
        let pairs: Vec<(String, String)> = obj
            .iter()
            .map(|(k, v)| (k.clone(), v.as_str().unwrap().to_string()))
            .collect();
        assert_eq!(&pairs, row);
    }
}

#[test]
fn yaml_document_lists_rows() {
    let data = b"Name,Position\nAlice,Forward\nBob,Keeper\n";
    let doc = process_csv(data, b',', OutputFormat::Yaml).unwrap();
    let back: Vec<std::collections::BTreeMap<String, String>> = serde_yaml::from_str(&doc).unwrap();
    assert_eq!(back.len(), 2);
    assert_eq!(back[0]["Name"], "Alice");
    assert_eq!(back[1]["Position"], "Keeper");
    assert!(doc.find("Alice").unwrap() < doc.find("Bob").unwrap());
}

#[test]
fn other_delimiter() {
    let doc = process_csv(b"a;b\n1;2\n", b';', OutputFormat::Json).unwrap();
    let value: serde_json::Value = serde_json::from_str(&doc).unwrap();
    assert_eq!(value[0]["a"], "1");
    assert_eq!(value[0]["b"], "2");
}

#[test]
fn ragged_record_is_a_data_error() {
    let r = process_csv(b"a,b\n1,2,3\n", b',', OutputFormat::Json);
    assert!(matches!(r, Err(ConvertError::Data(_))));
}

#[test]
fn invalid_utf8_is_a_data_error() {
    let r = process_csv(b"a,b\n\xff,2\n", b',', OutputFormat::Json);
    assert!(matches!(r, Err(ConvertError::Data(_))));
}

#[test]
fn pairing_stops_at_shorter_side() {
    let row = pair_row(&strings(&["a", "b", "c"]), &strings(&["1", "2"]));
    assert_eq!(row, vec![("a".to_string(), "1".to_string()), ("b".to_string(), "2".to_string())]);
    let row = pair_row(&strings(&["a"]), &strings(&["1", "2"]));
    assert_eq!(row, vec![("a".to_string(), "1".to_string())]);
}
