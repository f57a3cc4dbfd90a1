//! Structural events of a markup document, as the converter consumes them,
//! and the element vocabulary of the format.
use vstd::prelude::*;
use vstd::string::*;
use vstd::utf8::*;

verus! {

/// One attribute of a tag, as raw bytes.
#[derive(Debug, Clone)]
pub struct XmlAttribute {
    pub key: Vec<u8>,
    pub value: Vec<u8>,
}

/// One structural event of a document.
#[derive(Debug, Clone)]
pub enum XmlEvent {
    /// An opening tag, or a self-closing one where `empty` is set.
    Open { name: Vec<u8>, attributes: Vec<XmlAttribute>, empty: bool },
    /// A closing tag.
    Close { name: Vec<u8> },
    /// A run of character data, entities already replaced.
    Text { text: String },
    /// Markup that carries no structure: comments, declarations, processing
    /// instructions, document types and CDATA sections.
    Other,
    /// The end of the input.
    Eof,
}

/// The mathematical counterpart of [`XmlAttribute`].
pub struct XmlAttributeView {
    pub key: Seq<u8>,
    pub value: Seq<u8>,
}

/// The mathematical counterpart of [`XmlEvent`].
pub enum XmlEventView {
    Open { name: Seq<u8>, attributes: Seq<XmlAttributeView>, empty: bool },
    Close { name: Seq<u8> },
    Text { text: Seq<char> },
    Other,
    Eof,
}

impl DeepView for XmlAttribute {
    type V = XmlAttributeView;

    open spec fn deep_view(&self) -> XmlAttributeView {
        XmlAttributeView { key: self.key@, value: self.value@ }
    }
}

impl DeepView for XmlEvent {
    type V = XmlEventView;

    open spec fn deep_view(&self) -> XmlEventView {
        match self {
            XmlEvent::Open { name, attributes, empty } => XmlEventView::Open {
                name: name@,
                attributes: attributes.deep_view(),
                empty: *empty,
            },
            XmlEvent::Close { name } => XmlEventView::Close { name: name@ },
            XmlEvent::Text { text } => XmlEventView::Text { text: text@ },
            XmlEvent::Other => XmlEventView::Other,
            XmlEvent::Eof => XmlEventView::Eof,
        }
    }
}

/// The elements of the format that the converter tells apart.
#[derive(Debug, Clone, Copy)]
pub enum ElementKind {
    /// `xtab`, the root.
    Root,
    /// `t`, the generic text holder.
    TextHolder,
    /// `control`.
    Control,
    /// `table`.
    Table,
    /// `edge`.
    Edge,
    /// `group`.
    Group,
    /// `element`.
    Element,
    /// `summary`.
    Summary,
    /// `statistic`.
    Statistic,
    /// `r`, a data row.
    Row,
    /// `c`, a cell group.
    CellGroup,
    /// `v`, a value.
    Value,
    /// `x`, the missing marker.
    Missing,
    /// `controltype`.
    ControlType,
    /// `statistictype`.
    StatisticType,
    /// Any other element.
    Other,
}

/// The bytes of a word of ASCII characters.
pub open spec fn ascii(word: Seq<char>) -> Seq<u8> {
    Seq::new(word.len(), |i: int| word[i] as u8)
}

/// `name` is the ASCII word `word`, byte for byte.
pub open spec fn spells(name: Seq<u8>, word: Seq<char>) -> bool {
    is_ascii_chars(word) && name == ascii(word)
}

/// The element that a tag name denotes. Names are case-sensitive and taken
/// as written, prefix included.
pub open spec fn element_kind(name: Seq<u8>) -> ElementKind {
    if spells(name, "xtab"@) {
        ElementKind::Root
    } else if spells(name, "t"@) {
        ElementKind::TextHolder
    } else if spells(name, "control"@) {
        ElementKind::Control
    } else if spells(name, "table"@) {
        ElementKind::Table
    } else if spells(name, "edge"@) {
        ElementKind::Edge
    } else if spells(name, "group"@) {
        ElementKind::Group
    } else if spells(name, "element"@) {
        ElementKind::Element
    } else if spells(name, "summary"@) {
        ElementKind::Summary
    } else if spells(name, "statistic"@) {
        ElementKind::Statistic
    } else if spells(name, "r"@) {
        ElementKind::Row
    } else if spells(name, "c"@) {
        ElementKind::CellGroup
    } else if spells(name, "v"@) {
        ElementKind::Value
    } else if spells(name, "x"@) {
        ElementKind::Missing
    } else if spells(name, "controltype"@) {
        ElementKind::ControlType
    } else if spells(name, "statistictype"@) {
        ElementKind::StatisticType
    } else {
        ElementKind::Other
    }
}

/// The value of the attribute named `word`: that of the last attribute with
/// this key, if there is one.
pub open spec fn attribute_value(attributes: Seq<XmlAttributeView>, word: Seq<char>) -> Option<
    Seq<u8>,
>
    decreases attributes.len(),
{
    if attributes.len() == 0 {
        None
    } else if spells(attributes.last().key, word) {
        Some(attributes.last().value)
    } else {
        attribute_value(attributes.drop_last(), word)
    }
}

/// Whether two byte strings are equal.
pub fn bytes_equal(a: &[u8], b: &[u8]) -> (same: bool)
    ensures
        same == (a@ == b@),
{
    if a.len() != b.len() {
        return false;
    }
    let mut i: usize = 0;
    while i < a.len()
        invariant
            a@.len() == b@.len(),
            i <= a@.len(),
            forall|j: int| 0 <= j < i ==> a@[j] == b@[j],
        decreases a@.len() - i,
    {
        if a[i] != b[i] {
            return false;
        }
        i += 1;
    }
    assert(a@ =~= b@);
    true
}

/// Whether `name` is the ASCII word `word`.
pub fn name_is(name: &[u8], word: &str) -> (same: bool)
    ensures
        same == spells(name@, word@),
{
    if !word.is_ascii() {
        return false;
    }
    proof {
        is_ascii_spec_bytes(word);
    }
    bytes_equal(name, word.as_bytes())
}

/// Classifies a tag name.
pub fn classify(name: &[u8]) -> (kind: ElementKind)
    ensures
        kind == element_kind(name@),
{
    if name_is(name, "xtab") {
        ElementKind::Root
    } else if name_is(name, "t") {
        ElementKind::TextHolder
    } else if name_is(name, "control") {
        ElementKind::Control
    } else if name_is(name, "table") {
        ElementKind::Table
    } else if name_is(name, "edge") {
        ElementKind::Edge
    } else if name_is(name, "group") {
        ElementKind::Group
    } else if name_is(name, "element") {
        ElementKind::Element
    } else if name_is(name, "summary") {
        ElementKind::Summary
    } else if name_is(name, "statistic") {
        ElementKind::Statistic
    } else if name_is(name, "r") {
        ElementKind::Row
    } else if name_is(name, "c") {
        ElementKind::CellGroup
    } else if name_is(name, "v") {
        ElementKind::Value
    } else if name_is(name, "x") {
        ElementKind::Missing
    } else if name_is(name, "controltype") {
        ElementKind::ControlType
    } else if name_is(name, "statistictype") {
        ElementKind::StatisticType
    } else {
        ElementKind::Other
    }
}

/// Looks an attribute up by its key.
pub fn find_attribute<'a>(attributes: &'a Vec<XmlAttribute>, word: &str) -> (found: Option<
    &'a Vec<u8>,
>)
    ensures
        match found {
            Some(value) => attribute_value(attributes.deep_view(), word@) == Some(value@),
            None => attribute_value(attributes.deep_view(), word@).is_none(),
        },
{
    let mut i: usize = attributes.len();
    assert(attributes.deep_view().take(i as int) =~= attributes.deep_view());
    while i > 0
        invariant
            i <= attributes@.len(),
            attribute_value(attributes.deep_view(), word@) == attribute_value(
                attributes.deep_view().take(i as int),
                word@,
            ),
        decreases i,
    {
        let ghost prefix = attributes.deep_view().take(i as int);
        assert(prefix.last() == attributes@[i - 1].deep_view());
        assert(prefix.drop_last() =~= attributes.deep_view().take(i - 1));
        if name_is(attributes[i - 1].key.as_slice(), word) {
            return Some(&attributes[i - 1].value);
        }
        i -= 1;
    }
    None
}

} // verus!
