use pdfg_rs::assembler::generate_xmls_at;
use pdfg_rs::config::{Episode, Logo, Podcast};
use pdfg_rs::generator::serialize_feeds;
use pdfg_rs::markup::MarkupError;
use pdfg_rs::render::{decimal_text, explicit_text, render_raw, serialize};

fn rendered_show(files: &[&str], transcript: Option<&str>) -> Podcast {
    Podcast {
        title: "The Show".to_string(),
        description: "A show & more".to_string(),
        subtitle: "Sub".to_string(),
        author: "Ann Author".to_string(),
        author_email: "ann@show.example".to_string(),
        website: "https://show.example".to_string(),
        language: "en".to_string(),
        copyright: "CC0".to_string(),
        webmaster: "web@show.example".to_string(),
        managing_editor: "ed@show.example".to_string(),
        formats: vec!["mp3".to_string()],
        hosting_base_url: "https://media.example/show".to_string(),
        keywords: vec!["one".to_string(), "two".to_string()],
        explicit: false,
        logo: Logo {
            url: "https://show.example/logo.png".to_string(),
            title: "Logo".to_string(),
            link: "https://show.example".to_string(),
        },
        category: "Technology".to_string(),
        episodes: vec![Episode {
            title: "one".to_string(),
            url: "https://show.example/one".to_string(),
            description: "About one".to_string(),
            subtitle: "In short".to_string(),
            files: files.iter().map(|file| file.to_string()).collect(),
            duration: "00:10:00".to_string(),
            publish_date: "Tue, 01 Jul 2003 10:52:37 +0200".to_string(),
            keywords: vec!["talk".to_string()],
            length_bytes: 12345,
            transcript_url: transcript.map(|address| address.to_string()),
        }],
    }
}

#[test]
fn a_document_is_serialized_as_indented_feed_markup() {
    let pod = rendered_show(&["ep1.mp3"], None);
    let generation = generate_xmls_at(&pod, "Tue, 1 Jul 2003 10:52:37 +0000").unwrap();
    let expected = [
        "<?xml version=\"1.0\" encoding=\"utf-8\"?>",
        "<rss xmlns:atom=\"http://www.w3.org/2005/Atom\" xmlns:itunes=\"https://podcastindex.org/dtds/podcast-1.0.dtd\" xmlns:podcast=\"https://podcastindex.org/namespace/1.0\" version=\"2.0\">",
        "  <channel>",
        "    <title>The Show</title>",
        "    <link>https://show.example</link>",
        "    <description>A show &amp; more</description>",
        "    <language>en</language>",
        "    <copyright>CC0</copyright>",
        "    <managingEditor>ed@show.example</managingEditor>",
        "    <pubDate>Tue, 1 Jul 2003 10:52:37 +0000</pubDate>",
        "    <lastBuildDate>Tue, 1 Jul 2003 10:52:37 +0000</lastBuildDate>",
        "    <generator>pdfg-rs</generator>",
        "    <image>",
        "      <url>https://show.example/logo.png</url>",
        "      <title>The Show</title>",
        "      <link>https://show.example</link>",
        "    </image>",
        "    <itunes:author>Ann Author</itunes:author>",
        "    <itunes:category text=\"Technology\" />",
        "    <itunes:image href=\"https://show.example/logo.png\" />",
        "    <itunes:explicit>false</itunes:explicit>",
        "    <itunes:owner>",
        "      <itunes:name>Ann Author</itunes:name>",
        "      <itunes:email>ann@show.example</itunes:email>",
        "    </itunes:owner>",
        "    <itunes:subtitle>Sub</itunes:subtitle>",
        "    <itunes:summary>A show &amp; more</itunes:summary>",
        "    <itunes:keywords>one, two</itunes:keywords>",
        "    <item>",
        "      <title>one</title>",
        "      <link>https://show.example/one</link>",
        "      <description><![CDATA[About one]]></description>",
        "      <author>ann@show.example</author>",
        "      <enclosure url=\"https://media.example/show/ep1.mp3\" length=\"12345\" type=\"audio/mpeg\" />",
        "      <guid>https://media.example/show/ep1.mp3</guid>",
        "      <pubDate>Tue, 01 Jul 2003 10:52:37 +0200</pubDate>",
        "      <itunes:author>Ann Author</itunes:author>",
        "      <itunes:image href=\"https://show.example/logo.png\" />",
        "      <itunes:duration>00:10:00</itunes:duration>",
        "      <itunes:explicit>false</itunes:explicit>",
        "      <itunes:subtitle>In short</itunes:subtitle>",
        "      <itunes:keywords>talk</itunes:keywords>",
        "    </item>",
        "  </channel>",
        "</rss>",
    ];
    assert_eq!(serialize(&generation.documents[0]), Ok(expected.join("\n")));
}

#[test]
fn a_document_without_items_is_serialized_too() {
    let pod = rendered_show(&["ep1.wav"], None);
    let generation = generate_xmls_at(&pod, "Tue, 1 Jul 2003 10:52:37 +0000").unwrap();
    let text = serialize(&generation.documents[0]).unwrap();
    assert!(text.starts_with("<?xml version=\"1.0\" encoding=\"utf-8\"?>\n<rss "));
    assert!(text.contains("\n    <generator>pdfg-rs</generator>\n"));
    assert!(!text.contains("<item>"));
    assert!(text.ends_with("\n  </channel>\n</rss>"));
}

#[test]
fn raw_markup_holds_the_fields_of_the_document() {
    let pod = rendered_show(&["ep1.mp3"], Some("t/one.vtt"));
    let generation = generate_xmls_at(&pod, "Tue, 1 Jul 2003 10:52:37 +0000").unwrap();
    let raw = render_raw(&generation.documents[0]);
    assert!(raw.starts_with("<?xml version=\"1.0\" encoding=\"utf-8\"?><rss "));
    assert!(raw.contains("<title>The Show</title><link>https://show.example</link>"));
    assert!(raw.contains("<itunes:explicit>false</itunes:explicit>"));
    assert!(raw.contains(
        "<enclosure url=\"https://media.example/show/ep1.mp3\" length=\"12345\" type=\"audio/mpeg\"/>"
    ));
    assert!(raw.contains("<guid>https://media.example/show/ep1.mp3</guid>"));
    assert!(raw.contains("<podcast:transcript type=\"text/vtt\" url=\"t/one.vtt\">"));
    assert!(raw.ends_with("</item></channel></rss>"));
}

#[test]
fn an_explicit_show_is_flagged_in_channel_and_items() {
    let mut pod = rendered_show(&["ep1.mp3"], None);
    pod.explicit = true;
    let generation = generate_xmls_at(&pod, "now").unwrap();
    let raw = render_raw(&generation.documents[0]);
    assert_eq!(raw.matches("<itunes:explicit>true</itunes:explicit>").count(), 2);
    assert_eq!(raw.matches("<itunes:explicit>false</itunes:explicit>").count(), 0);
}

#[test]
fn a_transcript_reference_is_serialized_inside_its_item() {
    let pod = rendered_show(&["ep1.mp3"], Some("t/one.vtt"));
    let generation = generate_xmls_at(&pod, "Tue, 1 Jul 2003 10:52:37 +0000").unwrap();
    let text = serialize(&generation.documents[0]).unwrap();
    assert!(text.contains(" xmlns:podcast=\"https://podcastindex.org/namespace/1.0\""));
    assert!(text.contains(
        "\n      <pubDate>Tue, 01 Jul 2003 10:52:37 +0200</pubDate>\n      \
         <podcast:transcript type=\"text/vtt\" url=\"t/one.vtt\" />\n      \
         <itunes:author>Ann Author</itunes:author>\n"
    ));
    assert_eq!(text.matches("<podcast:transcript ").count(), 1);
}

#[test]
fn a_transcript_element_without_its_namespace_is_refused() {
    let pod = rendered_show(&["ep1.mp3"], Some("t/one.vtt"));
    let mut generation = generate_xmls_at(&pod, "Tue, 1 Jul 2003 10:52:37 +0000").unwrap();
    let dropped = generation.documents[0].namespaces.pop().unwrap();
    assert_eq!(dropped.prefix, "podcast");
    match serialize(&generation.documents[0]) {
        Err(MarkupError::Malformed(report)) => {
            assert!(report.ends_with("Element podcast:transcript prefix is unbound"));
        },
        other => panic!("expected a malformed-markup error, got {:?}", other),
    }
}

#[test]
fn serializing_a_document_twice_gives_the_same_bytes() {
    let pod = rendered_show(&["ep1.mp3"], None);
    let generation = generate_xmls_at(&pod, "Tue, 1 Jul 2003 10:52:37 +0000").unwrap();
    let first = serialize(&generation.documents[0]).unwrap();
    let second = serialize(&generation.documents[0]).unwrap();
    assert_eq!(first.as_bytes(), second.as_bytes());
}

#[test]
fn one_failing_document_does_not_keep_the_others_from_their_files() {
    let mut pod = rendered_show(&["ep1.mp3", "ep1.flac"], None);
    pod.formats = vec!["mp3".to_string(), "flac".to_string(), "m4a".to_string()];
    let mut generation = generate_xmls_at(&pod, "Tue, 1 Jul 2003 10:52:37 +0000").unwrap();
    generation.documents[1].items[0].transcript = Some(pdfg_rs::feed::Transcript {
        url: "t/one.vtt".to_string(),
        kind: "text/vtt".to_string(),
    });
    generation.documents[1].namespaces.pop();
    let files = serialize_feeds(&generation.documents);
    assert_eq!(files.len(), 3);
    assert_eq!(files[0].name, "podcast-feed-mp3.xml");
    assert_eq!(files[1].name, "podcast-feed-flac.xml");
    assert_eq!(files[2].name, "podcast-feed-m4a.xml");
    assert_eq!(files[0].content, serialize(&generation.documents[0]));
    assert!(files[0].content.is_ok());
    assert!(matches!(files[1].content, Err(MarkupError::Malformed(_))));
    assert!(files[2].content.is_ok());
    assert!(!files[2].content.as_ref().unwrap().contains("<item>"));
}

#[test]
fn no_documents_no_files() {
    assert!(serialize_feeds(&Vec::new()).is_empty());
}

#[test]
fn decimal_numerals() {
    assert_eq!(decimal_text(0), "0");
    assert_eq!(decimal_text(7), "7");
    assert_eq!(decimal_text(10), "10");
    assert_eq!(decimal_text(4096), "4096");
    assert_eq!(decimal_text(1234567890), "1234567890");
    assert_eq!(decimal_text(usize::MAX), usize::MAX.to_string());
}

#[test]
fn explicit_flag_texts() {
    assert_eq!(explicit_text(true), "true");
    assert_eq!(explicit_text(false), "false");
}
