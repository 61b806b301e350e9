//! Whole-pipeline tests: event streams in, decoded profiles, diagnostics and
//! errors out.

use profiler::events::{BuildError, ParseEvent, StructuralError};
use profiler::pipeline::process_events;
use profiler::ElementBuilder;

fn start(name: &str) -> ParseEvent {
    ParseEvent::StartTag { name: name.to_string(), attributes: Vec::new() }
}

fn end(name: &str) -> ParseEvent {
    ParseEvent::EndTag { name: name.to_string() }
}

fn text(content: &str) -> ParseEvent {
    ParseEvent::Text { content: content.to_string() }
}

fn leaf(name: &str, value: &str) -> Vec<ParseEvent> {
    vec![start(name), text(value), end(name)]
}

#[test]
fn scenario_gold_license_one_field_perm() {
    let mut events = vec![start("Profile")];
    events.extend(leaf("userLicense", "Gold"));
    events.push(start("fieldPermissions"));
    events.extend(leaf("field", "Account.Name"));
    events.extend(leaf("readable", "true"));
    events.extend(leaf("editable", "false"));
    events.push(end("fieldPermissions"));
    events.push(end("Profile"));

    let out = process_events(events);
    assert!(out.error.is_none());
    assert_eq!(out.profiles.len(), 1);
    let p = &out.profiles[0];
    assert_eq!(p.user_license, "Gold");
    assert_eq!(p.field_permissions.len(), 1);
    assert_eq!(p.field_permissions[0].field, "Account.Name");
    assert!(p.field_permissions[0].readable);
    assert!(!p.field_permissions[0].editable);
    assert!(p.object_permissions.is_empty());
    assert!(p.record_type_visibilities.is_empty());
}

#[test]
fn object_permissions_all_true() {
    let mut events = vec![start("Profile"), start("objectPermissions")];
    events.extend(leaf("object", "Account"));
    for flag in [
        "allowRead",
        "allowCreate",
        "allowEdit",
        "allowDelete",
        "viewAllRecords",
        "modifyAllRecords",
    ] {
        events.extend(leaf(flag, "true"));
    }
    events.push(end("objectPermissions"));
    events.push(end("Profile"));

    let out = process_events(events);
    assert!(out.error.is_none());
    assert_eq!(out.profiles.len(), 1);
    let op = &out.profiles[0].object_permissions[0];
    assert_eq!(op.object, "Account");
    assert!(op.allow_read);
    assert!(op.allow_create);
    assert!(op.allow_edit);
    assert!(op.allow_delete);
    assert!(op.view_all_records);
    assert!(op.modify_all_records);
}

#[test]
fn record_type_visibility_omitted_visible_defaults_false() {
    let mut events = vec![start("Profile"), start("recordTypeVisibilities")];
    events.extend(leaf("recordType", "Account.Business"));
    events.extend(leaf("default", "true"));
    events.push(end("recordTypeVisibilities"));
    events.push(end("Profile"));

    let out = process_events(events);
    assert!(out.error.is_none());
    let rtv = &out.profiles[0].record_type_visibilities[0];
    assert_eq!(rtv.record_type, "Account.Business");
    assert!(rtv.default);
    assert!(!rtv.visible);
}

#[test]
fn last_nonempty_user_license_wins() {
    let mut events = vec![start("Profile")];
    events.extend(leaf("userLicense", "Gold"));
    events.extend(leaf("userLicense", "Platinum"));
    events.push(end("Profile"));

    let out = process_events(events);
    assert!(out.error.is_none());
    assert_eq!(out.profiles[0].user_license, "Platinum");
}

#[test]
fn empty_user_license_does_not_overwrite() {
    let mut events = vec![start("Profile")];
    events.extend(leaf("userLicense", "Gold"));
    events.push(start("userLicense"));
    events.push(end("userLicense"));
    events.push(end("Profile"));

    let out = process_events(events);
    assert_eq!(out.profiles[0].user_license, "Gold");
}

#[test]
fn document_error_halts_with_position_and_keeps_partial() {
    let mut events = vec![start("Profile")];
    events.extend(leaf("userLicense", "Gold"));
    events.push(end("Profile"));
    // A second document whose root never closes: the tokenizer reports the
    // unclosed tag as a fatal error at its position.
    events.push(start("Profile"));
    events.push(ParseEvent::Error {
        line: 7,
        column: 3,
        message: "unclosed tag".to_string(),
    });
    // Anything after the fatal error is never folded in.
    events.extend(leaf("userLicense", "Ignored"));
    events.push(end("Profile"));

    let out = process_events(events);
    match out.error {
        Some(BuildError::Document(err)) => {
            assert_eq!(err.line, 7);
            assert_eq!(err.column, 3);
            assert_eq!(err.message, "unclosed tag");
        },
        _ => panic!("expected a fatal document error"),
    }
    assert_eq!(out.profiles.len(), 1);
    assert_eq!(out.profiles[0].user_license, "Gold");
}

#[test]
fn mismatched_tag_is_fatal() {
    let events = vec![start("Profile"), start("userLicense"), end("Profile")];
    let out = process_events(events);
    match out.error {
        Some(BuildError::Structure(StructuralError::MismatchedTag { expected, found })) => {
            assert_eq!(expected, "userLicense");
            assert_eq!(found, "Profile");
        },
        _ => panic!("expected a mismatched tag error"),
    }
    assert!(out.profiles.is_empty());
}

#[test]
fn text_outside_element_is_fatal() {
    let out = process_events(vec![text("stray")]);
    match out.error {
        Some(BuildError::Structure(StructuralError::TextOutsideElement)) => {},
        _ => panic!("expected a text-outside-element error"),
    }
}

#[test]
fn end_tag_without_open_element_is_fatal() {
    let out = process_events(vec![end("Profile")]);
    match out.error {
        Some(BuildError::Structure(StructuralError::MismatchedTag { expected, found })) => {
            assert_eq!(expected, "");
            assert_eq!(found, "Profile");
        },
        _ => panic!("expected a mismatched tag error"),
    }
}

#[test]
fn empty_stream_yields_nothing() {
    let out = process_events(Vec::new());
    assert!(out.profiles.is_empty());
    assert!(out.diagnostics.is_empty());
    assert!(out.error.is_none());
}

#[test]
fn two_top_level_profiles_both_decoded() {
    let mut events = vec![start("Profile")];
    events.extend(leaf("userLicense", "Gold"));
    events.push(end("Profile"));
    events.push(start("Profile"));
    events.extend(leaf("userLicense", "Silver"));
    events.push(end("Profile"));

    let out = process_events(events);
    assert!(out.error.is_none());
    assert_eq!(out.profiles.len(), 2);
    assert_eq!(out.profiles[0].user_license, "Gold");
    assert_eq!(out.profiles[1].user_license, "Silver");
}

#[test]
fn non_profile_top_level_yields_diagnostics_only() {
    let mut events = vec![start("Settings")];
    events.extend(leaf("option", "on"));
    events.push(end("Settings"));

    let out = process_events(events);
    assert!(out.error.is_none());
    assert!(out.profiles.is_empty());
    assert_eq!(
        out.diagnostics,
        vec![
            "Element Name: Settings".to_string(),
            "Element Name: option".to_string(),
            "Charnode: on".to_string(),
        ],
    );
}

#[test]
fn builder_emits_nested_tree() {
    let mut b = ElementBuilder::new();
    assert!(matches!(b.push_event(start("outer")), Ok(None)));
    assert!(matches!(b.push_event(start("inner")), Ok(None)));
    assert!(matches!(b.push_event(text("hi")), Ok(None)));
    assert!(matches!(b.push_event(end("inner")), Ok(None)));
    let node = match b.push_event(end("outer")) {
        Ok(Some(node)) => node,
        _ => panic!("expected a completed element"),
    };
    assert_eq!(node.name, "outer");
    assert_eq!(node.children.len(), 1);
    match &node.children[0] {
        profiler::ChildNode::Element(inner) => {
            assert_eq!(inner.name, "inner");
            assert_eq!(inner.children.len(), 1);
            match &inner.children[0] {
                profiler::ChildNode::Text(t) => assert_eq!(t, "hi"),
                _ => panic!("expected a text child"),
            }
        },
        _ => panic!("expected a nested element"),
    }
}

#[test]
fn rendered_profile_does_not_reparse_to_same_profile() {
    let mut events = vec![start("Profile")];
    events.extend(leaf("userLicense", "Gold"));
    events.push(start("fieldPermissions"));
    events.extend(leaf("field", "Account.Name"));
    events.extend(leaf("readable", "true"));
    events.push(end("fieldPermissions"));
    events.push(end("Profile"));
    let out = process_events(events);
    let original = &out.profiles[0];

    // Render the profile and feed the text back through a real tokenizer:
    // the rendering is for inspection and no round trip is promised.
    let rendered = original.to_str();
    let mut parser = xml::Parser::new();
    parser.feed_str(&rendered);
    let mut reparse_events: Vec<ParseEvent> = Vec::new();
    for tokenized in parser {
        match tokenized {
            Ok(xml::Event::ElementStart(tag)) => reparse_events.push(start(&tag.name)),
            Ok(xml::Event::ElementEnd(tag)) => reparse_events.push(end(&tag.name)),
            Ok(xml::Event::Characters(c)) => reparse_events.push(text(&c)),
            Ok(xml::Event::CDATA(c)) => {
                reparse_events.push(ParseEvent::CData { content: c })
            },
            Ok(xml::Event::Comment(c)) => {
                reparse_events.push(ParseEvent::Comment { content: c })
            },
            Ok(xml::Event::PI(_)) => {},
            Err(e) => {
                reparse_events.push(ParseEvent::Error {
                    line: e.line,
                    column: e.col,
                    message: e.msg.to_string(),
                });
                break;
            },
        }
    }
    let reparsed = process_events(reparse_events);
    let reproduced = reparsed.error.is_none() && reparsed.profiles.len() == 1 && {
        let q = &reparsed.profiles[0];
        q.user_license == original.user_license && q.field_permissions.len()
            == original.field_permissions.len()
    };
    assert!(!reproduced, "the rendering is not an input format");
}
