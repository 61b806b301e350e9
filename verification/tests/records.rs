//! Tests of the typed records, the boolean coercion, the aggregate's
//! append-only operations, and the rendering.

use profiler::profile::{FieldPermission, ObjectPermission, Profile, RecordTypeVisibility};
use profiler::tree::{get_element_value, ChildNode, ElementNode};
use profiler::parse_bool_literal;

fn elem(name: &str, children: Vec<ChildNode>) -> ElementNode {
    ElementNode { name: name.to_string(), children }
}

fn leaf(name: &str, value: &str) -> ChildNode {
    ChildNode::Element(elem(name, vec![ChildNode::Text(value.to_string())]))
}

#[test]
fn boolean_coercion_is_strict_with_permissive_default() {
    assert!(parse_bool_literal("true"));
    assert!(!parse_bool_literal("false"));
    assert!(!parse_bool_literal("1"));
    assert!(!parse_bool_literal(""));
    assert!(!parse_bool_literal("TRUE"));
    assert!(!parse_bool_literal("True"));
    assert!(!parse_bool_literal(" true"));
}

#[test]
fn setters_coerce_booleans() {
    let mut fp = FieldPermission::new();
    assert!(fp.set_readable("true".to_string()));
    assert!(!fp.set_editable("TRUE".to_string()));
    assert!(fp.readable);
    assert!(!fp.editable);
    assert!(!fp.set_readable("1".to_string()));
    assert!(!fp.readable);

    let mut rtv = RecordTypeVisibility::new();
    assert!(rtv.set_default("true".to_string()));
    assert!(!rtv.set_visible("false".to_string()));

    let mut op = ObjectPermission::new();
    assert!(op.set_allow_read("true".to_string()));
    assert!(!op.set_allow_create("no".to_string()));
}

#[test]
fn field_perm_from_xml_skips_unknown_and_non_elements() {
    let e = elem(
        "fieldPermissions",
        vec![
            ChildNode::Comment("ignored".to_string()),
            leaf("field", "Account.Industry"),
            leaf("surprise", "true"),
            ChildNode::Text("stray".to_string()),
            leaf("editable", "true"),
        ],
    );
    let fp = FieldPermission::from_xml(&e);
    assert_eq!(fp.field, "Account.Industry");
    assert!(!fp.readable);
    assert!(fp.editable);
}

#[test]
fn later_duplicate_child_overwrites_earlier() {
    let e = elem(
        "fieldPermissions",
        vec![leaf("field", "First"), leaf("field", "Second")],
    );
    let fp = FieldPermission::from_xml(&e);
    assert_eq!(fp.field, "Second");
}

#[test]
fn element_value_concatenates_texts_and_excludes_cdata() {
    let e = elem(
        "userLicense",
        vec![
            ChildNode::Text("Go".to_string()),
            ChildNode::CData("ignored".to_string()),
            ChildNode::Comment("also ignored".to_string()),
            ChildNode::Element(elem("nested", Vec::new())),
            ChildNode::Text("ld".to_string()),
        ],
    );
    assert_eq!(get_element_value(&e), "Gold");
}

#[test]
fn pushes_with_empty_input_change_nothing() {
    let mut p = Profile::new();
    p.set_user_license("Gold".to_string());
    let mut fps = Vec::new();
    fps.push({
        let mut fp = FieldPermission::new();
        fp.set_field("Account.Name".to_string());
        fp
    });
    assert_eq!(p.push_field_perms(fps), 1);

    assert_eq!(p.push_field_perms(Vec::new()), 0);
    assert_eq!(p.push_object_perms(Vec::new()), 0);
    assert_eq!(p.push_record_types(Vec::new()), 0);
    assert_eq!(p.user_license, "Gold");
    assert_eq!(p.field_permissions.len(), 1);
    assert_eq!(p.field_permissions[0].field, "Account.Name");
    assert!(p.object_permissions.is_empty());
    assert!(p.record_type_visibilities.is_empty());
}

#[test]
fn pushes_append_in_order() {
    let mut p = Profile::new();
    let mut first = FieldPermission::new();
    first.set_field("A".to_string());
    let mut second = FieldPermission::new();
    second.set_field("B".to_string());
    assert_eq!(p.push_field_perms(vec![first]), 1);
    assert_eq!(p.push_field_perms(vec![second]), 1);
    assert_eq!(p.field_permissions.len(), 2);
    assert_eq!(p.field_permissions[0].field, "A");
    assert_eq!(p.field_permissions[1].field, "B");
}

#[test]
fn set_user_license_last_nonempty_wins() {
    let mut p = Profile::new();
    p.set_user_license("Gold".to_string());
    p.set_user_license("".to_string());
    assert_eq!(p.user_license, "Gold");
    p.set_user_license("Platinum".to_string());
    assert_eq!(p.user_license, "Platinum");
}

#[test]
fn render_empty_profile_is_banner_only() {
    let p = Profile::new();
    assert_eq!(p.to_str(), "Profile: \n");
}

#[test]
fn render_matches_fixed_field_order() {
    let mut p = Profile::new();
    p.set_user_license("Gold".to_string());
    let mut fp = FieldPermission::new();
    fp.set_field("Account.Name".to_string());
    fp.set_readable("true".to_string());
    p.push_field_perms(vec![fp]);
    let mut rtv = RecordTypeVisibility::new();
    rtv.set_record_type("Account.Business".to_string());
    rtv.set_visible("true".to_string());
    p.push_record_types(vec![rtv]);

    let expected = "Profile: \n\
                    UserLicense: Gold\n\
                    FieldPermission: \n\
                    \tField: Account.Name\n\
                    \tReadable: true\n\
                    \tEditable: false\n\
                    RecordTypeVisibility: \n\
                    \tRecordType: Account.Business\n\
                    \tDefault: false\n\
                    \tVisible: true\n";
    assert_eq!(p.to_str(), expected);
}

#[test]
fn render_object_permission_block() {
    let mut p = Profile::new();
    let mut op = ObjectPermission::new();
    op.set_object("Account".to_string());
    op.set_allow_read("true".to_string());
    op.set_modify_all("true".to_string());
    p.push_object_perms(vec![op]);

    let expected = "Profile: \n\
                    ObjectPermission: \n\
                    \tObject: Account\n\
                    \tAllowRead: true\n\
                    \tAllowCreate: false\n\
                    \tAllowEdit: false\n\
                    \tAllowDelete: false\n\
                    \tViewAllRecords: false\n\
                    \tModifyAllRecords: true\n";
    assert_eq!(p.to_str(), expected);
}

#[test]
fn handle_root_buffers_and_appends_per_kind() {
    let root = elem(
        "Profile",
        vec![
            leaf("userLicense", "Gold"),
            ChildNode::Element(elem(
                "fieldPermissions",
                vec![leaf("field", "F1"), leaf("readable", "true")],
            )),
            ChildNode::Element(elem(
                "objectPermissions",
                vec![leaf("object", "O1"), leaf("allowEdit", "true")],
            )),
            ChildNode::Element(elem(
                "recordTypeVisibilities",
                vec![leaf("recordType", "R1"), leaf("visible", "true")],
            )),
            ChildNode::Element(elem("unknownThing", Vec::new())),
        ],
    );
    let p = profiler::handle_root(&root);
    assert_eq!(p.user_license, "Gold");
    assert_eq!(p.field_permissions.len(), 1);
    assert_eq!(p.field_permissions[0].field, "F1");
    assert!(p.field_permissions[0].readable);
    assert_eq!(p.object_permissions.len(), 1);
    assert_eq!(p.object_permissions[0].object, "O1");
    assert!(p.object_permissions[0].allow_edit);
    assert_eq!(p.record_type_visibilities.len(), 1);
    assert_eq!(p.record_type_visibilities[0].record_type, "R1");
    assert!(p.record_type_visibilities[0].visible);
}

#[test]
fn handle_element_reports_names_values_and_content() {
    let e = elem(
        "outer",
        vec![
            ChildNode::Text("hello".to_string()),
            ChildNode::Element(elem(
                "fieldPermissions",
                vec![ChildNode::Text("inline value".to_string())],
            )),
            ChildNode::Element(elem("inner", vec![ChildNode::CData("raw".to_string())])),
            ChildNode::Comment("note".to_string()),
        ],
    );
    let lines = profiler::handle_element(&e);
    assert_eq!(
        lines,
        vec![
            "Element Name: outer".to_string(),
            "Charnode: hello".to_string(),
            "inline value".to_string(),
            "Element Name: inner".to_string(),
            "CDATAnode: raw".to_string(),
            "Comment: note".to_string(),
        ],
    );
}
