//! The corpus document as a stream of markup events.
//!
//! Reading the markup is the work of the `xml` crate. This module hands its
//! events on as plain values, one at a time; everything in it is believed,
//! not proved.

use vstd::prelude::*;
use xml::reader::{EventReader, Events, XmlEvent};

verus! {

/// One attribute of an element: its local name and its value.
#[derive(Debug)]
pub struct Attribute {
    pub name: String,
    pub value: String,
}

/// What an `Attribute` stands for.
pub struct AttributeModel {
    pub name: Seq<char>,
    pub value: Seq<char>,
}

impl DeepView for Attribute {
    type V = AttributeModel;

    open spec fn deep_view(&self) -> AttributeModel {
        AttributeModel { name: self.name@, value: self.value@ }
    }
}

/// One event of a document, as far as the corpus needs it.
#[derive(Debug)]
pub enum Markup {
    /// The start of an element, with its local name and its attributes in
    /// document order.
    Open { name: String, attributes: Vec<Attribute> },
    /// Anything else: text, comments, the end of an element or of the document.
    Other,
}

/// What one step of a stream stands for.
pub enum MarkupItem {
    Open { name: Seq<char>, attributes: Seq<AttributeModel> },
    Other,
    /// The document is not well formed at this point.
    Broken,
}

impl DeepView for Markup {
    type V = MarkupItem;

    open spec fn deep_view(&self) -> MarkupItem {
        match self {
            Markup::Open { name, attributes } => MarkupItem::Open {
                name: name@,
                attributes: attributes.deep_view(),
            },
            Markup::Other => MarkupItem::Other,
        }
    }
}

/// `xml::reader::Error`: what `xml` reports where a document is not well formed.
#[verifier::external_type_specification]
#[verifier::external_body]
pub struct ExMarkupError(xml::reader::Error);

/// The events of one document that are still to come. It holds the iterator
/// `xml::reader::Events` over the document's bytes, a type whose parameter is
/// bound by `std::io::Read`.
#[verifier::external_body]
pub struct MarkupStream<'a> {
    events: Events<&'a [u8]>,
}

/// The steps still to come from `stream`, in order.
pub uninterp spec fn pending(stream: MarkupStream) -> Seq<MarkupItem>;

/// The steps that reading the document `bytes` takes, in order.
pub uninterp spec fn markup_of(bytes: Seq<u8>) -> Seq<MarkupItem>;

/// What a step that the stream handed out stands for.
pub open spec fn item_of(step: Result<Markup, xml::reader::Error>) -> MarkupItem {
    match step {
        Ok(event) => event.deep_view(),
        Err(_) => MarkupItem::Broken,
    }
}

/// `xml::reader::EventReader::new`, then `into_iter`: a reader with the
/// default configuration on `bytes`, as an iterator. The steps to come are
/// those of the document.
#[verifier::external_body]
pub(crate) fn open_markup(bytes: &[u8]) -> (stream: MarkupStream)
    ensures
        pending(stream) == markup_of(bytes@),
{
    MarkupStream { events: EventReader::new(bytes).into_iter() }
}

/// `Iterator::next` of `xml::reader::Events`: hands out the next step and
/// leaves the rest, or `None` when no step is left. An error is a step like
/// any other.
#[verifier::external_body]
pub(crate) fn next_markup(stream: &mut MarkupStream) -> (step: Option<
    Result<Markup, xml::reader::Error>,
>)
    ensures
        pending(*old(stream)).len() == 0 ==> step is None && pending(*final(stream)).len() == 0,
        pending(*old(stream)).len() > 0 ==> step is Some && item_of(step.unwrap()) == pending(
            *old(stream),
        )[0] && pending(*final(stream)) == pending(*old(stream)).skip(1),
{
    Some(
        match stream.events.next()? {
            Ok(XmlEvent::StartElement { name, attributes, .. }) => Ok(
                Markup::Open {
                    name: name.local_name,
                    attributes: attributes.into_iter().map(
                        |a| Attribute { name: a.name.local_name, value: a.value },
                    ).collect(),
                },
            ),
            Ok(_) => Ok(Markup::Other),
            Err(error) => Err(error),
        },
    )
}

/// `Display` of `xml::reader::Error`: the error in words.
#[verifier::external_body]
pub(crate) fn describe_markup_error(error: &xml::reader::Error) -> (text: String) {
    error.to_string()
}

} // verus!
