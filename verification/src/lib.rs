//! Decoding of Salesforce-style Profile metadata documents.
//!
//! A flat stream of XML parse events ([`events::ParseEvent`]) is reassembled
//! into element trees by the stack-based [`builder::ElementBuilder`];
//! completed trees are decoded by the schema mappers in [`mapper`] into the
//! typed records of [`profile`], which accumulate in a [`profile::Profile`]
//! aggregate. [`pipeline::process_events`] runs the whole chain over a
//! delivered event sequence. Producing the events from document text, and
//! all I/O, stay outside this crate.

pub mod builder;
pub mod events;
pub mod laws;
pub mod mapper;
pub mod pipeline;
pub mod profile;
pub mod text;
pub mod tree;

pub use builder::ElementBuilder;
pub use events::{BuildError, DocumentParseError, ParseEvent, StructuralError};
pub use mapper::{handle_element, handle_root};
pub use pipeline::{process_events, ParseOutcome};
pub use profile::{FieldPermission, ObjectPermission, Profile, RecordTypeVisibility};
pub use text::{parse_bool_literal, str_eq};
pub use tree::{get_element_value, ChildNode, ElementNode};
