use pdfg_rs::markup::{emit_events, format_xml, MarkupError};

#[test]
fn nested_elements_are_indented_and_empty_ones_shortened() {
    let text = format_xml(b"<a><b></b></a>").unwrap();
    assert_eq!(text, "<?xml version=\"1.0\" encoding=\"UTF-8\"?>\n<a>\n  <b />\n</a>");
}

#[test]
fn surrounding_whitespace_is_trimmed_and_text_stays_inline() {
    let text = format_xml(b"<a>\n    <b>   hello  </b>\n\n</a>").unwrap();
    assert_eq!(text, "<?xml version=\"1.0\" encoding=\"UTF-8\"?>\n<a>\n  <b>hello</b>\n</a>");
}

#[test]
fn comments_are_kept() {
    let text = format_xml(b"<a><!--note--><b/></a>").unwrap();
    assert_eq!(
        text,
        "<?xml version=\"1.0\" encoding=\"UTF-8\"?>\n<a>\n  <!-- note -->\n  <b />\n</a>"
    );
}

#[test]
fn attributes_and_escapes_survive() {
    let text = format_xml(b"<a href=\"x&amp;y\">1 &lt; 2</a>").unwrap();
    assert_eq!(text, "<?xml version=\"1.0\" encoding=\"UTF-8\"?>\n<a href=\"x&amp;y\">1 &lt; 2</a>");
}

#[test]
fn serializing_twice_gives_the_same_bytes() {
    let source = b"<rss version=\"2.0\"><channel><title>T</title><item><guid>g</guid></item></channel></rss>";
    let first = format_xml(source).unwrap();
    let second = format_xml(source).unwrap();
    assert_eq!(first.as_bytes(), second.as_bytes());
    assert_eq!(
        first,
        "<?xml version=\"1.0\" encoding=\"UTF-8\"?>\n<rss version=\"2.0\">\n  <channel>\n    \
         <title>T</title>\n    <item>\n      <guid>g</guid>\n    </item>\n  </channel>\n</rss>"
    );
}

#[test]
fn canonical_output_is_its_own_canonical_form() {
    let once = format_xml(b"<a><b>x</b><c></c></a>").unwrap();
    let twice = format_xml(once.as_bytes()).unwrap();
    assert_eq!(once, twice);
}

#[test]
fn mismatched_tags_are_malformed() {
    match format_xml(b"<a><b></a>") {
        Err(MarkupError::Malformed(report)) => {
            assert!(report.starts_with("1:"));
            assert!(report.contains("Unexpected closing tag"));
        },
        other => panic!("expected a malformed-markup error, got {:?}", other),
    }
}

#[test]
fn an_unclosed_root_is_malformed() {
    assert!(matches!(format_xml(b"<a><b></b>"), Err(MarkupError::Malformed(_))));
}

#[test]
fn empty_input_is_malformed() {
    assert!(matches!(format_xml(b""), Err(MarkupError::Malformed(_))));
}

#[test]
fn bytes_that_are_no_utf8_are_malformed() {
    assert!(matches!(format_xml(b"<a>\xff\xfe</a>"), Err(MarkupError::Malformed(_))));
}

#[test]
fn emitting_parsed_events_gives_the_canonical_text() {
    let steps: Vec<_> = xml::reader::EventReader::new(&b"<a><b></b></a>"[..]).into_iter().collect();
    assert_eq!(
        emit_events(&steps),
        Ok("<?xml version=\"1.0\" encoding=\"UTF-8\"?>\n<a>\n  <b />\n</a>".to_string())
    );
}

#[test]
fn emitting_stops_at_the_first_fault() {
    let steps: Vec<_> = xml::reader::EventReader::new(&b"<a></b>"[..]).into_iter().collect();
    assert!(steps.last().unwrap().is_err());
    assert!(matches!(emit_events(&steps), Err(MarkupError::Malformed(_))));
}

#[test]
fn emitting_nothing_gives_the_empty_text() {
    assert_eq!(emit_events(&Vec::new()), Ok(String::new()));
}

#[test]
fn an_end_tag_without_its_start_is_rejected_by_the_writer() {
    let mut steps: Vec<_> =
        xml::reader::EventReader::new(&b"<a></a>"[..]).into_iter().collect();
    steps.remove(1);
    assert_eq!(emit_events(&steps), Err(MarkupError::Rejected));
}
