use creational_patterns::factory_method::{
    parse_u16, CsvProcessor, DocError, DocumentEditorFactory, DocumentProcessor, DocumentType,
    JsonProcessor,
};

#[test]
fn csv_reader_returns_only_the_first_data_row() {
    let text = "name,age\nAlice,30\nBob,40\nCarol,50\n";
    let record = CsvProcessor {}.read_data(text).unwrap();
    assert_eq!(record.name, "Alice");
    assert_eq!(record.age, 30);
}

#[test]
fn csv_reader_maps_fields_by_header_not_position() {
    let text = "age,name,city\n30,Alice,Paris\n";
    let record = CsvProcessor {}.read_data(text).unwrap();
    assert_eq!(record.name, "Alice");
    assert_eq!(record.age, 30);
}

#[test]
fn csv_reader_handles_quoted_fields() {
    let text = "name,age\n\"Smith, John\",42\n";
    let record = CsvProcessor {}.read_data(text).unwrap();
    assert_eq!(record.name, "Smith, John");
    assert_eq!(record.age, 42);
}

#[test]
fn csv_reader_ignores_malformed_later_rows() {
    let text = "name,age\nAlice,30\nBob\n";
    let record = CsvProcessor {}.read_data(text).unwrap();
    assert_eq!(record.name, "Alice");
    assert_eq!(record.age, 30);
}

#[test]
fn csv_reader_fails_on_header_only_file() {
    assert!(matches!(
        CsvProcessor {}.read_data("name,age\n"),
        Err(DocError::RecordNotFound)
    ));
    assert!(matches!(
        CsvProcessor {}.read_data("name,age"),
        Err(DocError::RecordNotFound)
    ));
    assert!(matches!(CsvProcessor {}.read_data(""), Err(DocError::RecordNotFound)));
}

#[test]
fn csv_reader_fails_on_missing_column() {
    assert!(matches!(CsvProcessor {}.read_data("name\nAlice\n"), Err(DocError::Parse)));
    assert!(matches!(CsvProcessor {}.read_data("age\n30\n"), Err(DocError::Parse)));
}

#[test]
fn csv_reader_fails_on_bad_age_field() {
    assert!(matches!(
        CsvProcessor {}.read_data("name,age\nAlice,abc\n"),
        Err(DocError::Parse)
    ));
    assert!(matches!(
        CsvProcessor {}.read_data("name,age\nAlice,70000\n"),
        Err(DocError::Parse)
    ));
}

#[test]
fn csv_reader_fails_on_short_first_row() {
    assert!(matches!(
        CsvProcessor {}.read_data("name,age\nAlice\n"),
        Err(DocError::Parse)
    ));
}

#[test]
fn json_reader_round_trips_record() {
    let record = JsonProcessor {}.read_data("{\"name\":\"Alice\",\"age\":30}").unwrap();
    assert_eq!(record.name, "Alice");
    assert_eq!(record.age, 30);
}

#[test]
fn json_reader_rejects_malformed_documents() {
    let texts = [
        "",
        "not json",
        "[1,2]",
        "{\"name\":\"Alice\"}",
        "{\"age\":30}",
        "{\"name\":7,\"age\":30}",
        "{\"name\":\"Alice\",\"age\":\"30\"}",
        "{\"name\":\"Alice\",\"age\":70000}",
        "{\"name\":\"Alice\",\"age\":-1}",
        "{\"name\":\"Alice\",\"age\":30.5}",
    ];
    for text in texts {
        assert!(matches!(JsonProcessor {}.read_data(text), Err(DocError::Parse)), "{}", text);
    }
}

#[test]
fn editor_factory_builds_csv_editor() {
    let editor = DocumentEditorFactory::create_editor(String::from("data.csv"), DocumentType::Csv);
    assert_eq!(editor.file_name, "data.csv");
    let record = editor.read_data("name,age\nAlice,30\nBob,40\n").unwrap();
    assert_eq!(record.name, "Alice");
    assert_eq!(record.age, 30);
}

#[test]
fn editor_factory_builds_json_editor() {
    let editor =
        DocumentEditorFactory::create_editor(String::from("data.json"), DocumentType::Json);
    assert_eq!(editor.file_name, "data.json");
    let record = editor.read_data("{\"name\":\"Bob\",\"age\":41}").unwrap();
    assert_eq!(record.name, "Bob");
    assert_eq!(record.age, 41);
}

#[test]
fn parse_u16_reads_exactly_decimal_u16() {
    assert_eq!(parse_u16("0"), Some(0));
    assert_eq!(parse_u16("30"), Some(30));
    assert_eq!(parse_u16("+30"), Some(30));
    assert_eq!(parse_u16("65535"), Some(65535));
    assert_eq!(parse_u16("65536"), None);
    assert_eq!(parse_u16("99999999999999999999"), None);
    assert_eq!(parse_u16(""), None);
    assert_eq!(parse_u16("+"), None);
    assert_eq!(parse_u16(" 30"), None);
    assert_eq!(parse_u16("30 "), None);
    assert_eq!(parse_u16("3.5"), None);
    assert_eq!(parse_u16("-1"), None);
}
