//! The token source: `quick_xml`'s pull reader over a byte slice, and the
//! conversion of what it delivers into [`XmlEvent`]s.
//!
//! Nothing in this module is proved. Each item states what the rest of the
//! library assumes of the outside code.
use crate::event::{XmlAttribute, XmlEvent, XmlEventView};
use quick_xml::events::Event;
use quick_xml::Reader;
use vstd::prelude::*;
use vstd::utf8::*;

verus! {

/// `quick_xml::Reader`, held as it comes. What the library assumes of a
/// reader over a byte slice is said through [`pending_events`].
#[verifier::external_type_specification]
#[verifier::external_body]
#[verifier::reject_recursive_types(R)]
pub struct ExReader<R>(Reader<R>);

/// The outcomes of reading `input` event by event with a reader configured by
/// the three switches, from the first event up to and including the first
/// failure or the end of the input. A failure is `None`.
pub uninterp spec fn xml_events(
    input: Seq<u8>,
    trim_text: bool,
    check_end_names: bool,
    check_comments: bool,
) -> Seq<Option<XmlEventView>>;

/// The outcomes that a reader has yet to deliver, up to and including the
/// first failure or the end of the input. It says nothing of a reader that
/// has delivered a failure or the end of the input.
pub uninterp spec fn pending_events(reader: Reader<&[u8]>) -> Seq<Option<XmlEventView>>;

/// An outcome after which nothing more is read: a failure or the end of the
/// input.
pub open spec fn is_final(outcome: Option<XmlEventView>) -> bool {
    outcome.is_none() || outcome == Some(XmlEventView::Eof)
}

/// A stream of outcomes that ends with its only final outcome.
pub open spec fn is_complete(outcomes: Seq<Option<XmlEventView>>) -> bool {
    &&& outcomes.len() > 0
    &&& is_final(outcomes.last())
    &&& forall|i: int| 0 <= i < outcomes.len() - 1 ==> !is_final(#[trigger] outcomes[i])
}

/// `quick_xml::Reader::from_reader` on a byte slice, followed by the three
/// configuration calls `trim_text`, `check_end_names` and `check_comments`.
///
/// Assumed: what the new reader will deliver is a function of the input and
/// the three switches alone, and it is a finite stream that ends with the
/// first failure or with the end of the input. (Every event but the end of
/// the input consumes at least one byte of the slice.)
#[verifier::external_body]
pub(crate) fn open_reader(
    input: &[u8],
    trim_text: bool,
    check_end_names: bool,
    check_comments: bool,
) -> (reader: Reader<&[u8]>)
    ensures
        pending_events(reader) == xml_events(input@, trim_text, check_end_names, check_comments),
        is_complete(pending_events(reader)),
{
    let mut reader = Reader::from_reader(input);
    reader.trim_text(trim_text).check_end_names(check_end_names).check_comments(check_comments);
    reader
}

/// `quick_xml::Reader::read_event`, with the event converted: the tag name
/// and the raw key and value of each attribute of an opening or self-closing
/// tag (`BytesStart::name`, `BytesStart::attributes`), the name of a closing
/// tag (`BytesEnd::name`), the unescaped content of a text run
/// (`BytesText::unescape`). Comments, declarations, processing instructions,
/// document types and CDATA sections all become `XmlEvent::Other`.
///
/// Assumed: the call delivers the first pending outcome, and after an event
/// that is not the end of the input it leaves the others pending. It fails
/// where the reader fails, where an attribute is malformed or repeated, and
/// where a text run cannot be decoded or unescaped. Nothing is assumed of
/// the reader after a failure or the end of the input.
#[verifier::external_body]
pub(crate) fn next_event(reader: &mut Reader<&[u8]>) -> (outcome: Result<
    XmlEvent,
    quick_xml::Error,
>)
    ensures
        pending_events(*old(reader)).len() > 0 ==> match outcome {
            Ok(event) => {
                &&& pending_events(*old(reader)).first() == Some(event.deep_view())
                &&& !is_final(Some(event.deep_view())) ==> pending_events(*final(reader))
                    == pending_events(*old(reader)).drop_first()
            },
            Err(_) => pending_events(*old(reader)).first().is_none(),
        },
{
    let event = reader.read_event()?;
    let empty = matches!(event, Event::Empty(_));
    Ok(match event {
        Event::Start(e) | Event::Empty(e) => XmlEvent::Open {
            name: e.name().0.to_vec(),
            attributes: e.attributes()
                .map(|a| a.map(|a| XmlAttribute { key: a.key.0.to_vec(), value: a.value.to_vec() }))
                .collect::<Result<_, _>>()?,
            empty,
        },
        Event::End(e) => XmlEvent::Close { name: e.name().0.to_vec() },
        Event::Text(e) => XmlEvent::Text { text: e.unescape()?.into_owned() },
        Event::Eof => XmlEvent::Eof,
        _ => XmlEvent::Other,
    })
}

/// `String::from_utf8`.
///
/// Assumed: the call succeeds exactly on well-formed UTF-8, and the string
/// then holds the characters that the bytes encode.
#[verifier::external_body]
pub(crate) fn utf8_string(bytes: Vec<u8>) -> (decoded: Option<String>)
    ensures
        match decoded {
            Some(text) => valid_utf8(bytes@) && text@ == decode_utf8(bytes@),
            None => !valid_utf8(bytes@),
        },
{
    String::from_utf8(bytes).ok()
}

} // verus!
