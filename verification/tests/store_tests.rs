use asthobin::paste::prepare_document;
use asthobin::store::upload_row;

#[test]
fn the_row_of_an_upload_holds_its_text_language_and_time() {
    let document = prepare_document(b"x = \xff\n", Some(b"python")).unwrap();
    let row = upload_row("ABCDEFGH23", &document, 1_700_000_000);
    assert_eq!(row.id, "ABCDEFGH23");
    assert_eq!(row.content, "x = \u{fffd}\n");
    assert_eq!(row.language, "python");
    assert_eq!(row.time, 1_700_000_000);
}
