//! Parse events delivered by an event source, and the errors that can halt
//! the pipeline: fatal document malformation reported by the source, and
//! structural anomalies found while rebuilding the element tree.

use vstd::prelude::*;

verus! {

/// One event of the flat parse stream produced by an event source.
pub enum ParseEvent {
    /// An opening tag. Attributes are carried through but play no part in
    /// tree reconstruction: an element records only its name and children.
    StartTag { name: String, attributes: Vec<(String, String)> },
    /// A closing tag.
    EndTag { name: String },
    /// Character data.
    Text { content: String },
    /// A CDATA section.
    CData { content: String },
    /// A comment.
    Comment { content: String },
    /// A fatal tokenizer error at the given position.
    Error { line: u32, column: u32, message: String },
}

/// The mathematical value of a [`ParseEvent`].
pub ghost enum EventValue {
    StartTag { name: Seq<char>, attributes: Seq<(Seq<char>, Seq<char>)> },
    EndTag { name: Seq<char> },
    Text { content: Seq<char> },
    CData { content: Seq<char> },
    Comment { content: Seq<char> },
    Error { line: u32, column: u32, message: Seq<char> },
}

impl View for ParseEvent {
    type V = EventValue;

    open spec fn view(&self) -> EventValue {
        match *self {
            ParseEvent::StartTag { name, attributes } => EventValue::StartTag {
                name: name@,
                attributes: attributes@.map_values(|p: (String, String)| (p.0@, p.1@)),
            },
            ParseEvent::EndTag { name } => EventValue::EndTag { name: name@ },
            ParseEvent::Text { content } => EventValue::Text { content: content@ },
            ParseEvent::CData { content } => EventValue::CData { content: content@ },
            ParseEvent::Comment { content } => EventValue::Comment { content: content@ },
            ParseEvent::Error { line, column, message } => EventValue::Error {
                line,
                column,
                message: message@,
            },
        }
    }
}

/// A structural anomaly in the event stream. Mismatched tags and text outside
/// any element indicate a genuinely malformed document, so both are treated
/// as fatal: the builder reports them and the pipeline stops consuming.
pub enum StructuralError {
    /// A closing tag did not match the innermost open element. An end tag
    /// arriving with no element open at all is reported with an empty
    /// `expected` name.
    MismatchedTag { expected: String, found: String },
    /// Text, CDATA or a comment arrived with no enclosing element.
    TextOutsideElement,
}

/// A fatal error reported by the event source itself.
pub struct DocumentParseError {
    pub line: u32,
    pub column: u32,
    pub message: String,
}

/// Everything that can halt tree reconstruction.
pub enum BuildError {
    Structure(StructuralError),
    Document(DocumentParseError),
}

/// The mathematical value of a [`StructuralError`].
pub ghost enum StructuralErrorValue {
    MismatchedTag { expected: Seq<char>, found: Seq<char> },
    TextOutsideElement,
}

impl View for StructuralError {
    type V = StructuralErrorValue;

    open spec fn view(&self) -> StructuralErrorValue {
        match *self {
            StructuralError::MismatchedTag { expected, found } => {
                StructuralErrorValue::MismatchedTag { expected: expected@, found: found@ }
            },
            StructuralError::TextOutsideElement => StructuralErrorValue::TextOutsideElement,
        }
    }
}

/// The mathematical value of a [`DocumentParseError`].
pub ghost struct DocumentParseErrorValue {
    pub line: u32,
    pub column: u32,
    pub message: Seq<char>,
}

impl View for DocumentParseError {
    type V = DocumentParseErrorValue;

    open spec fn view(&self) -> DocumentParseErrorValue {
        DocumentParseErrorValue { line: self.line, column: self.column, message: self.message@ }
    }
}

/// The mathematical value of a [`BuildError`].
pub ghost enum BuildErrorValue {
    Structure(StructuralErrorValue),
    Document(DocumentParseErrorValue),
}

impl View for BuildError {
    type V = BuildErrorValue;

    open spec fn view(&self) -> BuildErrorValue {
        match *self {
            BuildError::Structure(e) => BuildErrorValue::Structure(e@),
            BuildError::Document(e) => BuildErrorValue::Document(e@),
        }
    }
}

} // verus!
