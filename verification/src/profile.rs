//! The typed access-control records decoded from a profile document, and the
//! Profile aggregate that accumulates them with append-only semantics.

use vstd::prelude::*;
use crate::text::{bool_text, coerce_bool, lemma_concat_assoc, parse_bool_literal, spec_bool_text, str_eq};
use crate::tree::{
    elem_text, elem_value_of, lemma_children_values_index, lemma_children_values_len, ChildNode,
    ChildValue, ElementNode,
};
use crate::tree::get_element_value;

verus! {

/// Access granted on one field.
pub struct FieldPermission {
    pub field: String,
    pub readable: bool,
    pub editable: bool,
}

/// The mathematical value of a [`FieldPermission`].
#[verifier::ext_equal]
pub ghost struct FieldPermValue {
    pub field: Seq<char>,
    pub readable: bool,
    pub editable: bool,
}

impl View for FieldPermission {
    type V = FieldPermValue;

    open spec fn view(&self) -> FieldPermValue {
        FieldPermValue { field: self.field@, readable: self.readable, editable: self.editable }
    }
}

/// The record every converter starts from: empty name, every flag false.
pub open spec fn default_field_perm() -> FieldPermValue {
    FieldPermValue { field: Seq::empty(), readable: false, editable: false }
}

/// How one child element updates a field permission: `field`, `readable` and
/// `editable` each set their target; any other child is skipped, as are
/// children that are not elements.
pub open spec fn field_perm_step(fp: FieldPermValue, c: ChildValue) -> FieldPermValue {
    match c {
        ChildValue::Element(e) => {
            if e.name == "field"@ {
                FieldPermValue { field: elem_text(e), ..fp }
            } else if e.name == "readable"@ {
                FieldPermValue { readable: coerce_bool(elem_text(e)), ..fp }
            } else if e.name == "editable"@ {
                FieldPermValue { editable: coerce_bool(elem_text(e)), ..fp }
            } else {
                fp
            }
        },
        _ => fp,
    }
}

/// The field permission decoded from an element's children, in order.
pub open spec fn field_perm_of_children(cs: Seq<ChildValue>) -> FieldPermValue
    decreases cs.len(),
{
    if cs.len() == 0 {
        default_field_perm()
    } else {
        field_perm_step(field_perm_of_children(cs.drop_last()), cs.last())
    }
}

impl FieldPermission {
    /// An empty record: no field name, nothing readable or editable.
    pub fn new() -> (fp: FieldPermission)
        ensures
            fp@ == default_field_perm(),
    {
        let fp = FieldPermission { field: String::new(), readable: false, editable: false };
        proof {
            assert(fp@ =~= default_field_perm());
        }
        fp
    }

    /// Decodes one `fieldPermissions` element. Conversion cannot fail: an
    /// unexpected shape only leaves fields at their defaults.
    pub fn from_xml(e: &ElementNode) -> (fp: FieldPermission)
        ensures
            fp@ == field_perm_of_children(elem_value_of(*e).children),
    {
        let ghost cs = elem_value_of(*e).children;
        proof {
            lemma_children_values_len(e.children@);
        }
        let mut fp = FieldPermission::new();
        let mut i: usize = 0;
        while i < e.children.len()
            invariant
                cs == elem_value_of(*e).children,
                cs.len() == e.children@.len(),
                i <= e.children@.len(),
                fp@ == field_perm_of_children(cs.take(i as int)),
            decreases e.children@.len() - i,
        {
            match &e.children[i] {
                ChildNode::Element(child) => {
                    if str_eq(child.name.as_str(), "field") {
                        fp.set_field(get_element_value(child));
                    } else if str_eq(child.name.as_str(), "readable") {
                        fp.set_readable(get_element_value(child));
                    } else if str_eq(child.name.as_str(), "editable") {
                        fp.set_editable(get_element_value(child));
                    }
                },
                _ => {},
            }
            proof {
                lemma_children_values_index(e.children@, i as int);
                assert(cs.take(i + 1).drop_last() =~= cs.take(i as int));
                assert(cs.take(i + 1).last() == cs[i as int]);
            }
            i = i + 1;
        }
        proof {
            assert(cs.take(e.children@.len() as int) =~= cs);
        }
        fp
    }

    /// Sets the field name.
    pub fn set_field(&mut self, f: String)
        ensures
            final(self)@ == (FieldPermValue { field: f@, ..old(self)@ }),
    {
        self.field = f;
    }

    /// Coerces the text and sets `readable`; returns the stored flag.
    pub fn set_readable(&mut self, rd: String) -> (r: bool)
        ensures
            final(self)@ == (FieldPermValue { readable: coerce_bool(rd@), ..old(self)@ }),
            r == coerce_bool(rd@),
    {
        self.readable = parse_bool_literal(rd.as_str());
        self.readable
    }

    /// Coerces the text and sets `editable`; returns the stored flag.
    pub fn set_editable(&mut self, ed: String) -> (r: bool)
        ensures
            final(self)@ == (FieldPermValue { editable: coerce_bool(ed@), ..old(self)@ }),
            r == coerce_bool(ed@),
    {
        self.editable = parse_bool_literal(ed.as_str());
        self.editable
    }
}

/// Access granted on one object.
pub struct ObjectPermission {
    pub object: String,
    pub allow_read: bool,
    pub allow_create: bool,
    pub allow_edit: bool,
    pub allow_delete: bool,
    pub view_all_records: bool,
    pub modify_all_records: bool,
}

/// The mathematical value of an [`ObjectPermission`].
#[verifier::ext_equal]
pub ghost struct ObjectPermValue {
    pub object: Seq<char>,
    pub allow_read: bool,
    pub allow_create: bool,
    pub allow_edit: bool,
    pub allow_delete: bool,
    pub view_all_records: bool,
    pub modify_all_records: bool,
}

impl View for ObjectPermission {
    type V = ObjectPermValue;

    open spec fn view(&self) -> ObjectPermValue {
        ObjectPermValue {
            object: self.object@,
            allow_read: self.allow_read,
            allow_create: self.allow_create,
            allow_edit: self.allow_edit,
            allow_delete: self.allow_delete,
            view_all_records: self.view_all_records,
            modify_all_records: self.modify_all_records,
        }
    }
}

/// The record every converter starts from: empty name, every flag false.
pub open spec fn default_object_perm() -> ObjectPermValue {
    ObjectPermValue {
        object: Seq::empty(),
        allow_read: false,
        allow_create: false,
        allow_edit: false,
        allow_delete: false,
        view_all_records: false,
        modify_all_records: false,
    }
}

/// How one child element updates an object permission.
pub open spec fn object_perm_step(op: ObjectPermValue, c: ChildValue) -> ObjectPermValue {
    match c {
        ChildValue::Element(e) => {
            if e.name == "object"@ {
                ObjectPermValue { object: elem_text(e), ..op }
            } else if e.name == "allowCreate"@ {
                ObjectPermValue { allow_create: coerce_bool(elem_text(e)), ..op }
            } else if e.name == "allowRead"@ {
                ObjectPermValue { allow_read: coerce_bool(elem_text(e)), ..op }
            } else if e.name == "allowEdit"@ {
                ObjectPermValue { allow_edit: coerce_bool(elem_text(e)), ..op }
            } else if e.name == "allowDelete"@ {
                ObjectPermValue { allow_delete: coerce_bool(elem_text(e)), ..op }
            } else if e.name == "viewAllRecords"@ {
                ObjectPermValue { view_all_records: coerce_bool(elem_text(e)), ..op }
            } else if e.name == "modifyAllRecords"@ {
                ObjectPermValue { modify_all_records: coerce_bool(elem_text(e)), ..op }
            } else {
                op
            }
        },
        _ => op,
    }
}

/// The object permission decoded from an element's children, in order.
pub open spec fn object_perm_of_children(cs: Seq<ChildValue>) -> ObjectPermValue
    decreases cs.len(),
{
    if cs.len() == 0 {
        default_object_perm()
    } else {
        object_perm_step(object_perm_of_children(cs.drop_last()), cs.last())
    }
}

impl ObjectPermission {
    /// An empty record: no object name, every flag false.
    pub fn new() -> (op: ObjectPermission)
        ensures
            op@ == default_object_perm(),
    {
        let op = ObjectPermission {
            object: String::new(),
            allow_read: false,
            allow_create: false,
            allow_edit: false,
            allow_delete: false,
            view_all_records: false,
            modify_all_records: false,
        };
        proof {
            assert(op@ =~= default_object_perm());
        }
        op
    }

    /// Decodes one `objectPermissions` element. Conversion cannot fail: an
    /// unexpected shape only leaves fields at their defaults.
    pub fn from_xml(e: &ElementNode) -> (op: ObjectPermission)
        ensures
            op@ == object_perm_of_children(elem_value_of(*e).children),
    {
        let ghost cs = elem_value_of(*e).children;
        proof {
            lemma_children_values_len(e.children@);
        }
        let mut op = ObjectPermission::new();
        let mut i: usize = 0;
        while i < e.children.len()
            invariant
                cs == elem_value_of(*e).children,
                cs.len() == e.children@.len(),
                i <= e.children@.len(),
                op@ == object_perm_of_children(cs.take(i as int)),
            decreases e.children@.len() - i,
        {
            match &e.children[i] {
                ChildNode::Element(child) => {
                    if str_eq(child.name.as_str(), "object") {
                        op.set_object(get_element_value(child));
                    } else if str_eq(child.name.as_str(), "allowCreate") {
                        op.set_allow_create(get_element_value(child));
                    } else if str_eq(child.name.as_str(), "allowRead") {
                        op.set_allow_read(get_element_value(child));
                    } else if str_eq(child.name.as_str(), "allowEdit") {
                        op.set_allow_edit(get_element_value(child));
                    } else if str_eq(child.name.as_str(), "allowDelete") {
                        op.set_allow_delete(get_element_value(child));
                    } else if str_eq(child.name.as_str(), "viewAllRecords") {
                        op.set_view_all(get_element_value(child));
                    } else if str_eq(child.name.as_str(), "modifyAllRecords") {
                        op.set_modify_all(get_element_value(child));
                    }
                },
                _ => {},
            }
            proof {
                lemma_children_values_index(e.children@, i as int);
                assert(cs.take(i + 1).drop_last() =~= cs.take(i as int));
                assert(cs.take(i + 1).last() == cs[i as int]);
            }
            i = i + 1;
        }
        proof {
            assert(cs.take(e.children@.len() as int) =~= cs);
        }
        op
    }

    /// Sets the object name.
    pub fn set_object(&mut self, o: String)
        ensures
            final(self)@ == (ObjectPermValue { object: o@, ..old(self)@ }),
    {
        self.object = o;
    }

    /// Coerces the text and sets `allow_read`; returns the stored flag.
    pub fn set_allow_read(&mut self, ar: String) -> (r: bool)
        ensures
            final(self)@ == (ObjectPermValue { allow_read: coerce_bool(ar@), ..old(self)@ }),
            r == coerce_bool(ar@),
    {
        self.allow_read = parse_bool_literal(ar.as_str());
        self.allow_read
    }

    /// Coerces the text and sets `allow_create`; returns the stored flag.
    pub fn set_allow_create(&mut self, ac: String) -> (r: bool)
        ensures
            final(self)@ == (ObjectPermValue { allow_create: coerce_bool(ac@), ..old(self)@ }),
            r == coerce_bool(ac@),
    {
        self.allow_create = parse_bool_literal(ac.as_str());
        self.allow_create
    }

    /// Coerces the text and sets `allow_edit`; returns the stored flag.
    pub fn set_allow_edit(&mut self, ae: String) -> (r: bool)
        ensures
            final(self)@ == (ObjectPermValue { allow_edit: coerce_bool(ae@), ..old(self)@ }),
            r == coerce_bool(ae@),
    {
        self.allow_edit = parse_bool_literal(ae.as_str());
        self.allow_edit
    }

    /// Coerces the text and sets `allow_delete`; returns the stored flag.
    pub fn set_allow_delete(&mut self, ad: String) -> (r: bool)
        ensures
            final(self)@ == (ObjectPermValue { allow_delete: coerce_bool(ad@), ..old(self)@ }),
            r == coerce_bool(ad@),
    {
        self.allow_delete = parse_bool_literal(ad.as_str());
        self.allow_delete
    }

    /// Coerces the text and sets `view_all_records`; returns the stored flag.
    pub fn set_view_all(&mut self, va: String) -> (r: bool)
        ensures
            final(self)@ == (ObjectPermValue {
                view_all_records: coerce_bool(va@),
                ..old(self)@
            }),
            r == coerce_bool(va@),
    {
        self.view_all_records = parse_bool_literal(va.as_str());
        self.view_all_records
    }

    /// Coerces the text and sets `modify_all_records`; returns the stored flag.
    pub fn set_modify_all(&mut self, ma: String) -> (r: bool)
        ensures
            final(self)@ == (ObjectPermValue {
                modify_all_records: coerce_bool(ma@),
                ..old(self)@
            }),
            r == coerce_bool(ma@),
    {
        self.modify_all_records = parse_bool_literal(ma.as_str());
        self.modify_all_records
    }
}

/// Visibility of one record type.
pub struct RecordTypeVisibility {
    pub record_type: String,
    pub default: bool,
    pub visible: bool,
}

/// The mathematical value of a [`RecordTypeVisibility`].
#[verifier::ext_equal]
pub ghost struct RecordTypeVisValue {
    pub record_type: Seq<char>,
    pub default: bool,
    pub visible: bool,
}

impl View for RecordTypeVisibility {
    type V = RecordTypeVisValue;

    open spec fn view(&self) -> RecordTypeVisValue {
        RecordTypeVisValue {
            record_type: self.record_type@,
            default: self.default,
            visible: self.visible,
        }
    }
}

/// The record every converter starts from: empty name, every flag false.
pub open spec fn default_record_type_vis() -> RecordTypeVisValue {
    RecordTypeVisValue { record_type: Seq::empty(), default: false, visible: false }
}

/// How one child element updates a record type visibility.
pub open spec fn record_type_vis_step(rtv: RecordTypeVisValue, c: ChildValue) -> RecordTypeVisValue {
    match c {
        ChildValue::Element(e) => {
            if e.name == "recordType"@ {
                RecordTypeVisValue { record_type: elem_text(e), ..rtv }
            } else if e.name == "default"@ {
                RecordTypeVisValue { default: coerce_bool(elem_text(e)), ..rtv }
            } else if e.name == "visible"@ {
                RecordTypeVisValue { visible: coerce_bool(elem_text(e)), ..rtv }
            } else {
                rtv
            }
        },
        _ => rtv,
    }
}

/// The record type visibility decoded from an element's children, in order.
pub open spec fn record_type_vis_of_children(cs: Seq<ChildValue>) -> RecordTypeVisValue
    decreases cs.len(),
{
    if cs.len() == 0 {
        default_record_type_vis()
    } else {
        record_type_vis_step(record_type_vis_of_children(cs.drop_last()), cs.last())
    }
}

impl RecordTypeVisibility {
    /// An empty record: no record type, not default, not visible.
    pub fn new() -> (rtv: RecordTypeVisibility)
        ensures
            rtv@ == default_record_type_vis(),
    {
        let rtv = RecordTypeVisibility {
            record_type: String::new(),
            default: false,
            visible: false,
        };
        proof {
            assert(rtv@ =~= default_record_type_vis());
        }
        rtv
    }

    /// Decodes one `recordTypeVisibilities` element. Conversion cannot fail:
    /// an unexpected shape only leaves fields at their defaults.
    pub fn from_xml(e: &ElementNode) -> (rtv: RecordTypeVisibility)
        ensures
            rtv@ == record_type_vis_of_children(elem_value_of(*e).children),
    {
        let ghost cs = elem_value_of(*e).children;
        proof {
            lemma_children_values_len(e.children@);
        }
        let mut rtv = RecordTypeVisibility::new();
        let mut i: usize = 0;
        while i < e.children.len()
            invariant
                cs == elem_value_of(*e).children,
                cs.len() == e.children@.len(),
                i <= e.children@.len(),
                rtv@ == record_type_vis_of_children(cs.take(i as int)),
            decreases e.children@.len() - i,
        {
            match &e.children[i] {
                ChildNode::Element(child) => {
                    if str_eq(child.name.as_str(), "recordType") {
                        rtv.set_record_type(get_element_value(child));
                    } else if str_eq(child.name.as_str(), "default") {
                        rtv.set_default(get_element_value(child));
                    } else if str_eq(child.name.as_str(), "visible") {
                        rtv.set_visible(get_element_value(child));
                    }
                },
                _ => {},
            }
            proof {
                lemma_children_values_index(e.children@, i as int);
                assert(cs.take(i + 1).drop_last() =~= cs.take(i as int));
                assert(cs.take(i + 1).last() == cs[i as int]);
            }
            i = i + 1;
        }
        proof {
            assert(cs.take(e.children@.len() as int) =~= cs);
        }
        rtv
    }

    /// Sets the record type name.
    pub fn set_record_type(&mut self, rt: String)
        ensures
            final(self)@ == (RecordTypeVisValue { record_type: rt@, ..old(self)@ }),
    {
        self.record_type = rt;
    }

    /// Coerces the text and sets `default`; returns the stored flag.
    pub fn set_default(&mut self, def: String) -> (r: bool)
        ensures
            final(self)@ == (RecordTypeVisValue { default: coerce_bool(def@), ..old(self)@ }),
            r == coerce_bool(def@),
    {
        self.default = parse_bool_literal(def.as_str());
        self.default
    }

    /// Coerces the text and sets `visible`; returns the stored flag.
    pub fn set_visible(&mut self, vis: String) -> (r: bool)
        ensures
            final(self)@ == (RecordTypeVisValue { visible: coerce_bool(vis@), ..old(self)@ }),
            r == coerce_bool(vis@),
    {
        self.visible = parse_bool_literal(vis.as_str());
        self.visible
    }
}

/// The aggregate decoded from one document: scalar metadata and the three
/// record collections, each kept in document order.
pub struct Profile {
    pub name: String,
    pub field_permissions: Vec<FieldPermission>,
    pub object_permissions: Vec<ObjectPermission>,
    pub record_type_visibilities: Vec<RecordTypeVisibility>,
    pub user_license: String,
}

/// The mathematical value of a [`Profile`].
#[verifier::ext_equal]
pub ghost struct ProfileValue {
    pub name: Seq<char>,
    pub field_permissions: Seq<FieldPermValue>,
    pub object_permissions: Seq<ObjectPermValue>,
    pub record_type_visibilities: Seq<RecordTypeVisValue>,
    pub user_license: Seq<char>,
}

impl View for Profile {
    type V = ProfileValue;

    open spec fn view(&self) -> ProfileValue {
        ProfileValue {
            name: self.name@,
            field_permissions: self.field_permissions@.map_values(|fp: FieldPermission| fp@),
            object_permissions: self.object_permissions@.map_values(|op: ObjectPermission| op@),
            record_type_visibilities: self.record_type_visibilities@.map_values(
                |rtv: RecordTypeVisibility| rtv@,
            ),
            user_license: self.user_license@,
        }
    }
}

/// The rendered text of one field permission.
pub open spec fn render_field_perm(fp: FieldPermValue) -> Seq<char> {
    "FieldPermission: \n"@ + "\tField: "@ + fp.field + "\n"@ + "\tReadable: "@ + spec_bool_text(
        fp.readable,
    ) + "\n"@ + "\tEditable: "@ + spec_bool_text(fp.editable) + "\n"@
}

/// The rendered text of a sequence of field permissions, in order.
pub open spec fn render_field_perms(fps: Seq<FieldPermValue>) -> Seq<char>
    decreases fps.len(),
{
    if fps.len() == 0 {
        Seq::empty()
    } else {
        render_field_perms(fps.drop_last()) + render_field_perm(fps.last())
    }
}

/// The rendered text of one object permission.
pub open spec fn render_object_perm(op: ObjectPermValue) -> Seq<char> {
    "ObjectPermission: \n"@ + "\tObject: "@ + op.object + "\n"@ + "\tAllowRead: "@
        + spec_bool_text(op.allow_read) + "\n"@ + "\tAllowCreate: "@ + spec_bool_text(
        op.allow_create,
    ) + "\n"@ + "\tAllowEdit: "@ + spec_bool_text(op.allow_edit) + "\n"@ + "\tAllowDelete: "@
        + spec_bool_text(op.allow_delete) + "\n"@ + "\tViewAllRecords: "@ + spec_bool_text(
        op.view_all_records,
    ) + "\n"@ + "\tModifyAllRecords: "@ + spec_bool_text(op.modify_all_records) + "\n"@
}

/// The rendered text of a sequence of object permissions, in order.
pub open spec fn render_object_perms(ops: Seq<ObjectPermValue>) -> Seq<char>
    decreases ops.len(),
{
    if ops.len() == 0 {
        Seq::empty()
    } else {
        render_object_perms(ops.drop_last()) + render_object_perm(ops.last())
    }
}

/// The rendered text of one record type visibility.
pub open spec fn render_record_type_vis(rtv: RecordTypeVisValue) -> Seq<char> {
    "RecordTypeVisibility: \n"@ + "\tRecordType: "@ + rtv.record_type + "\n"@ + "\tDefault: "@
        + spec_bool_text(rtv.default) + "\n"@ + "\tVisible: "@ + spec_bool_text(rtv.visible)
        + "\n"@
}

/// The rendered text of a sequence of record type visibilities, in order.
pub open spec fn render_record_type_vises(rtvs: Seq<RecordTypeVisValue>) -> Seq<char>
    decreases rtvs.len(),
{
    if rtvs.len() == 0 {
        Seq::empty()
    } else {
        render_record_type_vises(rtvs.drop_last()) + render_record_type_vis(rtvs.last())
    }
}

/// The header of a rendered profile: the banner, then the name and the user
/// license, each only when non-empty.
pub open spec fn render_header(p: ProfileValue) -> Seq<char> {
    "Profile: \n"@ + (if p.name.len() > 0 {
        "Name: "@ + p.name + "\n"@
    } else {
        Seq::<char>::empty()
    }) + (if p.user_license.len() > 0 {
        "UserLicense: "@ + p.user_license + "\n"@
    } else {
        Seq::<char>::empty()
    })
}

/// The full rendered text of a profile: header, then each collection in a
/// fixed field order. The rendering is meant for inspection; it is not an
/// input format and no round trip back through parsing is promised.
pub open spec fn render_profile(p: ProfileValue) -> Seq<char> {
    render_header(p) + render_field_perms(p.field_permissions) + render_object_perms(
        p.object_permissions,
    ) + render_record_type_vises(p.record_type_visibilities)
}

/// The mathematical values of a sequence of decoded profiles, pointwise.
pub open spec fn profile_values(ps: Seq<Profile>) -> Seq<ProfileValue> {
    ps.map_values(|p: Profile| p@)
}

/// A profile with no metadata and no records.
pub open spec fn empty_profile() -> ProfileValue {
    ProfileValue {
        name: Seq::empty(),
        field_permissions: Seq::empty(),
        object_permissions: Seq::empty(),
        record_type_visibilities: Seq::empty(),
        user_license: Seq::empty(),
    }
}

/// Appends the rendering of one field permission.
fn append_field_perm(s: &mut String, fp: &FieldPermission)
    ensures
        final(s)@ == old(s)@ + render_field_perm(fp@),
{
    s.append("FieldPermission: \n");
    s.append("\tField: ");
    s.append(fp.field.as_str());
    s.append("\n");
    s.append("\tReadable: ");
    s.append(bool_text(fp.readable));
    s.append("\n");
    s.append("\tEditable: ");
    s.append(bool_text(fp.editable));
    s.append("\n");
    proof {
        assert(s@ =~= old(s)@ + render_field_perm(fp@));
    }
}

/// Appends the rendering of one object permission. The proof tracks the
/// rendered part one segment at a time, reassociating each concatenation.
fn append_object_perm(s: &mut String, op: &ObjectPermission)
    ensures
        final(s)@ == old(s)@ + render_object_perm(op@),
{
    let ghost t = old(s)@;
    let ghost mut part: Seq<char> = Seq::empty();
    proof {
        assert(s@ == t + part) by {
            assert(t + part =~= t);
        }
    }
    s.append("ObjectPermission: \n");
    proof {
        lemma_concat_assoc(t, part, "ObjectPermission: \n"@);
        part = part + "ObjectPermission: \n"@;
    }
    s.append("\tObject: ");
    proof {
        lemma_concat_assoc(t, part, "\tObject: "@);
        part = part + "\tObject: "@;
    }
    s.append(op.object.as_str());
    proof {
        lemma_concat_assoc(t, part, op.object@);
        part = part + op.object@;
    }
    s.append("\n");
    proof {
        lemma_concat_assoc(t, part, "\n"@);
        part = part + "\n"@;
    }
    s.append("\tAllowRead: ");
    proof {
        lemma_concat_assoc(t, part, "\tAllowRead: "@);
        part = part + "\tAllowRead: "@;
    }
    s.append(bool_text(op.allow_read));
    proof {
        lemma_concat_assoc(t, part, spec_bool_text(op.allow_read));
        part = part + spec_bool_text(op.allow_read);
    }
    s.append("\n");
    proof {
        lemma_concat_assoc(t, part, "\n"@);
        part = part + "\n"@;
    }
    s.append("\tAllowCreate: ");
    proof {
        lemma_concat_assoc(t, part, "\tAllowCreate: "@);
        part = part + "\tAllowCreate: "@;
    }
    s.append(bool_text(op.allow_create));
    proof {
        lemma_concat_assoc(t, part, spec_bool_text(op.allow_create));
        part = part + spec_bool_text(op.allow_create);
    }
    s.append("\n");
    proof {
        lemma_concat_assoc(t, part, "\n"@);
        part = part + "\n"@;
    }
    s.append("\tAllowEdit: ");
    proof {
        lemma_concat_assoc(t, part, "\tAllowEdit: "@);
        part = part + "\tAllowEdit: "@;
    }
    s.append(bool_text(op.allow_edit));
    proof {
        lemma_concat_assoc(t, part, spec_bool_text(op.allow_edit));
        part = part + spec_bool_text(op.allow_edit);
    }
    s.append("\n");
    proof {
        lemma_concat_assoc(t, part, "\n"@);
        part = part + "\n"@;
    }
    s.append("\tAllowDelete: ");
    proof {
        lemma_concat_assoc(t, part, "\tAllowDelete: "@);
        part = part + "\tAllowDelete: "@;
    }
    s.append(bool_text(op.allow_delete));
    proof {
        lemma_concat_assoc(t, part, spec_bool_text(op.allow_delete));
        part = part + spec_bool_text(op.allow_delete);
    }
    s.append("\n");
    proof {
        lemma_concat_assoc(t, part, "\n"@);
        part = part + "\n"@;
    }
    s.append("\tViewAllRecords: ");
    proof {
        lemma_concat_assoc(t, part, "\tViewAllRecords: "@);
        part = part + "\tViewAllRecords: "@;
    }
    s.append(bool_text(op.view_all_records));
    proof {
        lemma_concat_assoc(t, part, spec_bool_text(op.view_all_records));
        part = part + spec_bool_text(op.view_all_records);
    }
    s.append("\n");
    proof {
        lemma_concat_assoc(t, part, "\n"@);
        part = part + "\n"@;
    }
    s.append("\tModifyAllRecords: ");
    proof {
        lemma_concat_assoc(t, part, "\tModifyAllRecords: "@);
        part = part + "\tModifyAllRecords: "@;
    }
    s.append(bool_text(op.modify_all_records));
    proof {
        lemma_concat_assoc(t, part, spec_bool_text(op.modify_all_records));
        part = part + spec_bool_text(op.modify_all_records);
    }
    s.append("\n");
    proof {
        lemma_concat_assoc(t, part, "\n"@);
        part = part + "\n"@;
        assert(part == render_object_perm(op@)) by {
            assert(Seq::<char>::empty() + "ObjectPermission: \n"@ =~= "ObjectPermission: \n"@);
        }
    }
}

/// Appends the rendering of one record type visibility.
fn append_record_type_vis(s: &mut String, rtv: &RecordTypeVisibility)
    ensures
        final(s)@ == old(s)@ + render_record_type_vis(rtv@),
{
    s.append("RecordTypeVisibility: \n");
    s.append("\tRecordType: ");
    s.append(rtv.record_type.as_str());
    s.append("\n");
    s.append("\tDefault: ");
    s.append(bool_text(rtv.default));
    s.append("\n");
    s.append("\tVisible: ");
    s.append(bool_text(rtv.visible));
    s.append("\n");
    proof {
        assert(s@ =~= old(s)@ + render_record_type_vis(rtv@));
    }
}

impl Profile {
    /// An empty aggregate.
    pub fn new() -> (p: Profile)
        ensures
            p@ == empty_profile(),
    {
        let p = Profile {
            name: String::new(),
            field_permissions: Vec::new(),
            object_permissions: Vec::new(),
            record_type_visibilities: Vec::new(),
            user_license: String::new(),
        };
        proof {
            assert(p@ =~= empty_profile());
        }
        p
    }

    /// Overwrites the user license, unless the text is empty: the last
    /// non-empty occurrence wins.
    pub fn set_user_license(&mut self, lic: String)
        ensures
            final(self)@ == (if lic@.len() > 0 {
                ProfileValue { user_license: lic@, ..old(self)@ }
            } else {
                old(self)@
            }),
    {
        if !lic.as_str().is_empty() {
            self.user_license = lic;
            proof {
                assert(self@ =~= (ProfileValue { user_license: lic@, ..old(self)@ }));
            }
        }
    }

    /// Appends field permissions in order; an empty input changes nothing.
    /// Returns the number of records appended.
    pub fn push_field_perms(&mut self, fps: Vec<FieldPermission>) -> (count: usize)
        ensures
            final(self)@ == (ProfileValue {
                field_permissions: old(self)@.field_permissions + fps@.map_values(
                    |fp: FieldPermission| fp@,
                ),
                ..old(self)@
            }),
            count == fps@.len(),
    {
        let count = fps.len();
        if count > 0 {
            let mut incoming = fps;
            self.field_permissions.append(&mut incoming);
        }
        proof {
            assert(self@.field_permissions =~= old(self)@.field_permissions + fps@.map_values(
                |fp: FieldPermission| fp@,
            ));
            assert(self@ =~= (ProfileValue {
                field_permissions: old(self)@.field_permissions + fps@.map_values(
                    |fp: FieldPermission| fp@,
                ),
                ..old(self)@
            }));
        }
        count
    }

    /// Appends object permissions in order; an empty input changes nothing.
    /// Returns the number of records appended.
    pub fn push_object_perms(&mut self, ops: Vec<ObjectPermission>) -> (count: usize)
        ensures
            final(self)@ == (ProfileValue {
                object_permissions: old(self)@.object_permissions + ops@.map_values(
                    |op: ObjectPermission| op@,
                ),
                ..old(self)@
            }),
            count == ops@.len(),
    {
        let count = ops.len();
        if count > 0 {
            let mut incoming = ops;
            self.object_permissions.append(&mut incoming);
        }
        proof {
            assert(self@.object_permissions =~= old(self)@.object_permissions + ops@.map_values(
                |op: ObjectPermission| op@,
            ));
            assert(self@ =~= (ProfileValue {
                object_permissions: old(self)@.object_permissions + ops@.map_values(
                    |op: ObjectPermission| op@,
                ),
                ..old(self)@
            }));
        }
        count
    }

    /// Appends record type visibilities in order; an empty input changes
    /// nothing. Returns the number of records appended.
    pub fn push_record_types(&mut self, rtvs: Vec<RecordTypeVisibility>) -> (count: usize)
        ensures
            final(self)@ == (ProfileValue {
                record_type_visibilities: old(self)@.record_type_visibilities + rtvs@.map_values(
                    |rtv: RecordTypeVisibility| rtv@,
                ),
                ..old(self)@
            }),
            count == rtvs@.len(),
    {
        let count = rtvs.len();
        if count > 0 {
            let mut incoming = rtvs;
            self.record_type_visibilities.append(&mut incoming);
        }
        proof {
            assert(self@.record_type_visibilities =~= old(
                self,
            )@.record_type_visibilities + rtvs@.map_values(|rtv: RecordTypeVisibility| rtv@));
            assert(self@ =~= (ProfileValue {
                record_type_visibilities: old(self)@.record_type_visibilities + rtvs@.map_values(
                    |rtv: RecordTypeVisibility| rtv@,
                ),
                ..old(self)@
            }));
        }
        count
    }

    /// Renders the aggregate as a deterministic, human-oriented text block:
    /// header, then each populated collection in a fixed field order. The
    /// text is for inspection, not a machine-consumable export: it is not
    /// promised to parse back into the same profile.
    pub fn to_str(&self) -> (r: String)
        ensures
            r@ == render_profile(self@),
    {
        let mut s = String::new();
        s.append("Profile: \n");
        if !self.name.as_str().is_empty() {
            s.append("Name: ");
            s.append(self.name.as_str());
            s.append("\n");
        }
        if !self.user_license.as_str().is_empty() {
            s.append("UserLicense: ");
            s.append(self.user_license.as_str());
            s.append("\n");
        }
        proof {
            assert(s@ =~= render_header(self@));
        }
        let ghost fps = self@.field_permissions;
        let mut i: usize = 0;
        while i < self.field_permissions.len()
            invariant
                fps == self@.field_permissions,
                fps.len() == self.field_permissions@.len(),
                i <= fps.len(),
                s@ == render_header(self@) + render_field_perms(fps.take(i as int)),
            decreases fps.len() - i,
        {
            append_field_perm(&mut s, &self.field_permissions[i]);
            proof {
                assert(fps.take(i + 1).drop_last() =~= fps.take(i as int));
                assert(fps.take(i + 1).last() == fps[i as int]);
                assert(s@ =~= render_header(self@) + render_field_perms(fps.take(i + 1)));
            }
            i = i + 1;
        }
        proof {
            assert(fps.take(fps.len() as int) =~= fps);
        }
        let ghost ops = self@.object_permissions;
        let mut j: usize = 0;
        while j < self.object_permissions.len()
            invariant
                fps == self@.field_permissions,
                ops == self@.object_permissions,
                ops.len() == self.object_permissions@.len(),
                j <= ops.len(),
                s@ == render_header(self@) + render_field_perms(fps) + render_object_perms(
                    ops.take(j as int),
                ),
            decreases ops.len() - j,
        {
            append_object_perm(&mut s, &self.object_permissions[j]);
            proof {
                assert(ops.take(j + 1).drop_last() =~= ops.take(j as int));
                assert(ops.take(j + 1).last() == ops[j as int]);
                assert(s@ =~= render_header(self@) + render_field_perms(fps) + render_object_perms(
                    ops.take(j + 1),
                ));
            }
            j = j + 1;
        }
        proof {
            assert(ops.take(ops.len() as int) =~= ops);
        }
        let ghost rtvs = self@.record_type_visibilities;
        let mut k: usize = 0;
        while k < self.record_type_visibilities.len()
            invariant
                fps == self@.field_permissions,
                ops == self@.object_permissions,
                rtvs == self@.record_type_visibilities,
                rtvs.len() == self.record_type_visibilities@.len(),
                k <= rtvs.len(),
                s@ == render_header(self@) + render_field_perms(fps) + render_object_perms(ops)
                    + render_record_type_vises(rtvs.take(k as int)),
            decreases rtvs.len() - k,
        {
            append_record_type_vis(&mut s, &self.record_type_visibilities[k]);
            proof {
                assert(rtvs.take(k + 1).drop_last() =~= rtvs.take(k as int));
                assert(rtvs.take(k + 1).last() == rtvs[k as int]);
                assert(s@ =~= render_header(self@) + render_field_perms(fps) + render_object_perms(
                    ops,
                ) + render_record_type_vises(rtvs.take(k + 1)));
            }
            k = k + 1;
        }
        proof {
            assert(rtvs.take(rtvs.len() as int) =~= rtvs);
        }
        s
    }
}

} // verus!
