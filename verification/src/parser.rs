//! The entry points: a document's bytes in, the document model or one error
//! out.
use crate::context::{
    advance, finish, initial_context, lenient_options, ContextView, ParseContext, ParseOptions,
};
use crate::error::{ErrorView, Result, XtabMLError};
use crate::event::{XmlEvent, XmlEventView};
use crate::laws::{conversion_is_sound, document_sound};
use crate::reader::{
    is_complete, is_final, next_event, open_reader, pending_events, xml_events,
};
use crate::types::{XtabML, XtabMLView};
use vstd::prelude::*;
use vstd::string::*;
use vstd::utf8::*;

verus! {

/// The result of walking a stream of reader outcomes from a context: the
/// first error met, be it the reader's or the converter's, or else the
/// document as it stands at the end of the input.
pub open spec fn run(
    c: ContextView,
    outcomes: Seq<Option<XmlEventView>>,
    options: ParseOptions,
) -> std::result::Result<XtabMLView, ErrorView>
    decreases outcomes.len(),
{
    if outcomes.len() == 0 {
        finish(c)
    } else {
        match outcomes.first() {
            None => Err(ErrorView::XmlParse),
            Some(XmlEventView::Eof) => finish(c),
            Some(event) => match advance(c, event, options) {
                Err(error) => Err(error),
                Ok(next) => run(next, outcomes.drop_first(), options),
            },
        }
    }
}

/// What the conversion of `input` yields: the walk, from the initial
/// context, over what a reader delivers that trims text and checks closing
/// names and comments.
pub open spec fn conversion(input: Seq<u8>, options: ParseOptions) -> std::result::Result<
    XtabMLView,
    ErrorView,
> {
    run(initial_context(), xml_events(input, true, true, true), options)
}

/// The result of a conversion, seen mathematically.
pub open spec fn result_view(outcome: Result<XtabML>) -> std::result::Result<
    XtabMLView,
    ErrorView,
> {
    match outcome {
        Ok(document) => Ok(document.deep_view()),
        Err(error) => Err(error.deep_view()),
    }
}

/// Parser for XtabML documents.
pub struct XtabMLParser;

impl XtabMLParser {
    /// Parses an XtabML document from a string, with the default options.
    pub fn parse_str(content: &str) -> (outcome: Result<XtabML>)
        ensures
            result_view(outcome) == conversion(encode_utf8(content@), lenient_options()),
            outcome matches Ok(document) ==> document_sound(document.deep_view()),
    {
        Self::parse_bytes(content.as_bytes())
    }

    /// Parses an XtabML document from bytes, with the default options.
    pub fn parse_bytes(bytes: &[u8]) -> (outcome: Result<XtabML>)
        ensures
            result_view(outcome) == conversion(bytes@, lenient_options()),
            outcome matches Ok(document) ==> document_sound(document.deep_view()),
    {
        let options = ParseOptions::default();
        Self::parse_bytes_with(bytes, &options)
    }

    /// Parses an XtabML document from bytes.
    ///
    /// The events of the input are taken one by one, from the initial
    /// context, until the input ends or an error ends the conversion. A
    /// document that is returned is sound: the rows of each table divide
    /// evenly among its statistics, every row has one series for each
    /// statistic of its table, no missing cell carries a value, and the
    /// elements of each group are numbered in order.
    pub fn parse_bytes_with(bytes: &[u8], options: &ParseOptions) -> (outcome: Result<XtabML>)
        ensures
            result_view(outcome) == conversion(bytes@, *options),
            outcome matches Ok(document) ==> document_sound(document.deep_view()),
    {
        let mut reader = open_reader(bytes, true, true, true);
        let mut context = ParseContext::new();
        loop
            invariant
                is_complete(pending_events(reader)),
                run(context.deep_view(), pending_events(reader), *options) == conversion(
                    bytes@,
                    *options,
                ),
            decreases pending_events(reader).len(),
        {
            let ghost pending = pending_events(reader);
            match next_event(&mut reader) {
                Err(error) => {
                    return Err(XtabMLError::XmlParse(error));
                },
                Ok(XmlEvent::Eof) => {
                    proof {
                        conversion_is_sound(bytes@, *options);
                    }
                    return context.finish();
                },
                Ok(event) => {
                    assert(pending.first() == Some(event.deep_view()));
                    assert(pending.len() > 1);
                    assert(is_complete(pending.drop_first())) by {
                        assert forall|i: int|
                            0 <= i < pending.drop_first().len() - 1 implies !is_final(
                            #[trigger] pending.drop_first()[i],
                        ) by {
                            assert(pending.drop_first()[i] == pending[i + 1]);
                        }
                        assert(pending.drop_first().last() == pending.last());
                    }
                    match context.advance(event, options) {
                        Err(error) => {
                            return Err(error);
                        },
                        Ok(next) => {
                            context = next;
                        },
                    }
                },
            }
        }
    }
}

/// Parses an XtabML document from a string, with the default options.
pub fn parse_str(content: &str) -> (outcome: Result<XtabML>)
    ensures
        result_view(outcome) == conversion(encode_utf8(content@), lenient_options()),
        outcome matches Ok(document) ==> document_sound(document.deep_view()),
{
    XtabMLParser::parse_str(content)
}

} // verus!
