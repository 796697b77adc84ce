//! The markup serializer: re-parses rendered feed markup event by event and
//! re-emits it indented, with empty elements in their short form.
//!
//! Parsing and emitting are the work of the `xml` crate. What this module
//! decides, and proves, is the pass over the events: the first parse fault
//! ends it, an event without a written form is passed over, every other
//! event is written in order, and the bytes written are returned as text.

use vstd::prelude::*;
use vstd::utf8::{decode_utf8, valid_utf8};

verus! {

/// An event of the `xml` parser. It is handed on as it comes; nothing in
/// this crate looks into it.
#[verifier::external_type_specification]
#[verifier::external_body]
pub struct ExReaderEvent(xml::reader::XmlEvent);

/// A fault of the `xml` parser.
#[verifier::external_type_specification]
#[verifier::external_body]
pub struct ExReaderError(xml::reader::Error);

/// A refusal of the `xml` writer.
#[verifier::external_type_specification]
#[verifier::external_body]
pub struct ExEmitterError(xml::writer::Error);

/// The `xml` writer over a sink.
#[verifier::external_type_specification]
#[verifier::external_body]
#[verifier::reject_recursive_types(W)]
pub struct ExEventWriter<W>(xml::writer::EventWriter<W>);

/// Why a document could not be re-serialised.
#[derive(Debug, PartialEq, Eq)]
pub enum MarkupError {
    /// The markup is malformed; the text is the parser's report of where
    /// and why.
    Malformed(String),
    /// The writer refused an event that the parser had produced.
    Rejected,
    /// The bytes written are not UTF-8 text.
    NotText,
}

/// Mathematical model of a [`MarkupError`].
pub enum MarkupErrorView {
    Malformed(Seq<char>),
    Rejected,
    NotText,
}

impl View for MarkupError {
    type V = MarkupErrorView;

    open spec fn view(&self) -> MarkupErrorView {
        match self {
            MarkupError::Malformed(report) => MarkupErrorView::Malformed(report@),
            MarkupError::Rejected => MarkupErrorView::Rejected,
            MarkupError::NotText => MarkupErrorView::NotText,
        }
    }
}

/// What the parser yields for `src`, in order: events, and a fault where
/// the markup is malformed.
pub uninterp spec fn parsed_events(
    src: Seq<u8>,
    trim_whitespace: bool,
    ignore_comments: bool,
) -> Seq<Result<xml::reader::XmlEvent, xml::reader::Error>>;

/// The parser's report of a fault, as text.
pub uninterp spec fn fault_report(fault: xml::reader::Error) -> Seq<char>;

/// A writer that has written nothing yet.
pub uninterp spec fn blank_writer(indent: bool, normalize_empty: bool) -> xml::writer::EventWriter<
    Vec<u8>,
>;

/// What handing `event` to `writer` leads to: `None` where the event has no
/// written form, `Some(Err(()))` where the writer refuses it, and otherwise
/// the writer after it has written the event.
pub uninterp spec fn forwarded(
    writer: xml::writer::EventWriter<Vec<u8>>,
    event: xml::reader::XmlEvent,
) -> Option<Result<xml::writer::EventWriter<Vec<u8>>, ()>>;

/// The bytes that `writer` has written.
pub uninterp spec fn written(writer: xml::writer::EventWriter<Vec<u8>>) -> Seq<u8>;

/// The writer after the steps from `at` on, or the error that ends the pass.
pub open spec fn replay(
    writer: xml::writer::EventWriter<Vec<u8>>,
    steps: Seq<Result<xml::reader::XmlEvent, xml::reader::Error>>,
    at: int,
) -> Result<xml::writer::EventWriter<Vec<u8>>, MarkupErrorView>
    decreases steps.len() - at,
{
    if at < 0 || at >= steps.len() {
        Ok(writer)
    } else {
        match steps[at] {
            Err(fault) => Err(MarkupErrorView::Malformed(fault_report(fault))),
            Ok(event) => match forwarded(writer, event) {
                None => replay(writer, steps, at + 1),
                Some(Err(_)) => Err(MarkupErrorView::Rejected),
                Some(Ok(next)) => replay(next, steps, at + 1),
            },
        }
    }
}

/// The text that a pass over `steps` emits, or the error that ends it.
pub open spec fn emitted(steps: Seq<Result<xml::reader::XmlEvent, xml::reader::Error>>) -> Result<
    Seq<char>,
    MarkupErrorView,
> {
    match replay(blank_writer(true, true), steps, 0) {
        Err(error) => Err(error),
        Ok(writer) => if valid_utf8(written(writer)) {
            Ok(decode_utf8(written(writer)))
        } else {
            Err(MarkupErrorView::NotText)
        },
    }
}

/// The canonical form of the markup `src`: parsed with surrounding
/// whitespace trimmed and comments kept, then emitted.
pub open spec fn canonical(src: Seq<u8>) -> Result<Seq<char>, MarkupErrorView> {
    emitted(parsed_events(src, true, false))
}

/// Whether `outcome` is `expected`, each side taken by its view.
pub open spec fn is_outcome(
    outcome: Result<String, MarkupError>,
    expected: Result<Seq<char>, MarkupErrorView>,
) -> bool {
    match outcome {
        Ok(text) => expected == Ok::<Seq<char>, MarkupErrorView>(text@),
        Err(error) => expected == Err::<Seq<char>, MarkupErrorView>(error@),
    }
}

/// Serialising the same markup twice ends alike: with the same text,
/// character for character, or with the same error.
pub proof fn law_serializer_is_stable(
    src: Seq<u8>,
    first: Result<String, MarkupError>,
    second: Result<String, MarkupError>,
)
    requires
        is_outcome(first, canonical(src)),
        is_outcome(second, canonical(src)),
    ensures
        first is Ok <==> second is Ok,
        first is Ok ==> first->Ok_0@ == second->Ok_0@,
        first is Err ==> first->Err_0@ == second->Err_0@,
{
}

/// Runs the parser of the `xml` crate over `src`, with the two settings
/// given, and collects what it yields. The parser reads nothing but `src`,
/// so the contract names the result; it claims nothing else of it.
#[verifier::external_body]
fn read_events(src: &[u8], trim_whitespace: bool, ignore_comments: bool) -> (steps: Vec<
    Result<xml::reader::XmlEvent, xml::reader::Error>,
>)
    ensures
        steps@ == parsed_events(src@, trim_whitespace, ignore_comments),
{
    xml::reader::ParserConfig::new()
        .trim_whitespace(trim_whitespace)
        .ignore_comments(ignore_comments)
        .create_reader(src)
        .into_iter()
        .collect()
}

/// Renders a parse fault of the `xml` crate with its `Display`: position,
/// then reason. The contract names the text.
#[verifier::external_body]
fn report_fault(fault: &xml::reader::Error) -> (report: String)
    ensures
        report@ == fault_report(*fault),
{
    fault.to_string()
}

/// Creates a writer of the `xml` crate over an empty buffer, with the two
/// settings given. The contract names the writer.
#[verifier::external_body]
fn open_writer(indent: bool, normalize_empty: bool) -> (writer: xml::writer::EventWriter<Vec<u8>>)
    ensures
        writer == blank_writer(indent, normalize_empty),
{
    xml::writer::EmitterConfig::new()
        .perform_indent(indent)
        .normalize_empty_elements(normalize_empty)
        .create_writer(Vec::new())
}

/// Takes the written form of a parsed event (`as_writer_event`) and, where
/// there is one, hands it to the writer (`write`). The outcome is `None`
/// where the event has no written form, in which case the writer is left as
/// it was; otherwise it is what the writer answered. The contract names the
/// outcome and the writer afterwards as determined by the writer before and
/// the event.
#[verifier::external_body]
fn forward(
    writer: &mut xml::writer::EventWriter<Vec<u8>>,
    event: &xml::reader::XmlEvent,
) -> (outcome: Option<Result<(), xml::writer::Error>>)
    ensures
        match forwarded(*old(writer), *event) {
            None => outcome is None && *final(writer) == *old(writer),
            Some(Err(_)) => outcome matches Some(Err(_)),
            Some(Ok(next)) => outcome matches Some(Ok(_)) && *final(writer) == next,
        },
{
    event.as_writer_event().map(|form| writer.write(form))
}

/// Takes the buffer out of a writer of the `xml` crate (`into_inner`): the
/// bytes written so far.
#[verifier::external_body]
fn into_bytes(writer: xml::writer::EventWriter<Vec<u8>>) -> (bytes: Vec<u8>)
    ensures
        bytes@ == written(writer),
{
    writer.into_inner()
}

/// Calls `String::from_utf8`: the text that the bytes encode, where they
/// are valid UTF-8, and `None` where they are not.
#[verifier::external_body]
fn text_from_utf8(bytes: Vec<u8>) -> (text: Option<String>)
    ensures
        text is Some <==> valid_utf8(bytes@),
        text matches Some(decoded) ==> decoded@ == decode_utf8(bytes@),
{
    String::from_utf8(bytes).ok()
}

/// Emits parsed markup: writes the events of `steps` in order, indented and
/// with empty elements in their short form, and returns the text written.
/// The first fault among the steps ends the pass with
/// [`MarkupError::Malformed`]; an event without a written form is passed
/// over.
pub fn emit_events(steps: &Vec<Result<xml::reader::XmlEvent, xml::reader::Error>>) -> (outcome:
    Result<String, MarkupError>)
    ensures
        is_outcome(outcome, emitted(steps@)),
{
    let mut writer = open_writer(true, true);
    let mut at: usize = 0;
    while at < steps.len()
        invariant
            0 <= at <= steps.len(),
            replay(blank_writer(true, true), steps@, 0) == replay(writer, steps@, at as int),
        decreases steps.len() - at,
    {
        match &steps[at] {
            Err(fault) => {
                return Err(MarkupError::Malformed(report_fault(fault)));
            },
            Ok(event) => {
                match forward(&mut writer, event) {
                    Some(Err(_)) => {
                        return Err(MarkupError::Rejected);
                    },
                    _ => {},
                }
            },
        }
        at = at + 1;
    }
    match text_from_utf8(into_bytes(writer)) {
        Some(text) => Ok(text),
        None => Err(MarkupError::NotText),
    }
}

/// Re-serialises the markup `src` into its canonical form: parsed with
/// surrounding whitespace trimmed and comments kept, then emitted indented
/// with empty elements in their short form. The result is a function of
/// `src` alone, so the same markup always gives the same text.
pub fn format_xml(src: &[u8]) -> (outcome: Result<String, MarkupError>)
    ensures
        is_outcome(outcome, canonical(src@)),
{
    let steps = read_events(src, true, false);
    emit_events(&steps)
}

} // verus!
