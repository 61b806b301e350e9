//! The schema mapper: dispatches completed elements by name, decodes the
//! recognized containers into typed records, and aggregates them into a
//! Profile. Unrecognized elements are tolerated: they only yield diagnostic
//! lines, never an error.

use vstd::prelude::*;
use crate::profile::{
    field_perm_of_children, object_perm_of_children, record_type_vis_of_children, FieldPermission,
    ObjectPermission, Profile, ProfileValue, RecordTypeVisibility,
};
use crate::profile::{FieldPermValue, ObjectPermValue, RecordTypeVisValue};
use crate::text::{lemma_concat_assoc, str_eq};
use crate::tree::{
    elem_text, elem_value_of, lemma_children_values_index, lemma_children_values_len, ChildNode,
    ChildValue, ElemValue, ElementNode,
};
use crate::tree::get_element_value;

verus! {

broadcast use vstd::std_specs::vec::group_vec_axioms;

/// How one direct child of a `Profile` element updates the aggregate:
/// recognized containers append their decoded record, `userLicense` stages
/// its text for last-non-empty-wins, and anything else is skipped.
pub open spec fn root_step(p: ProfileValue, c: ChildValue) -> ProfileValue {
    match c {
        ChildValue::Element(e) => {
            if e.name == "fieldPermissions"@ {
                ProfileValue {
                    field_permissions: p.field_permissions.push(
                        field_perm_of_children(e.children),
                    ),
                    ..p
                }
            } else if e.name == "objectPermissions"@ {
                ProfileValue {
                    object_permissions: p.object_permissions.push(
                        object_perm_of_children(e.children),
                    ),
                    ..p
                }
            } else if e.name == "recordTypeVisibilities"@ {
                ProfileValue {
                    record_type_visibilities: p.record_type_visibilities.push(
                        record_type_vis_of_children(e.children),
                    ),
                    ..p
                }
            } else if e.name == "userLicense"@ {
                if elem_text(e).len() > 0 {
                    ProfileValue { user_license: elem_text(e), ..p }
                } else {
                    p
                }
            } else {
                p
            }
        },
        _ => p,
    }
}

/// The profile decoded from the children of a `Profile` element, in document
/// order, starting from the empty aggregate.
pub open spec fn profile_of_children(cs: Seq<ChildValue>) -> ProfileValue
    decreases cs.len(),
{
    if cs.len() == 0 {
        crate::profile::empty_profile()
    } else {
        root_step(profile_of_children(cs.drop_last()), cs.last())
    }
}

/// Decodes a completed `Profile` element: recognized containers are decoded
/// and buffered per kind, then bulk-appended once each; the user license
/// takes the last non-empty occurrence.
pub fn handle_root(e: &ElementNode) -> (p: Profile)
    ensures
        p@ == profile_of_children(elem_value_of(*e).children),
{
    let ghost cs = elem_value_of(*e).children;
    proof {
        lemma_children_values_len(e.children@);
    }
    let mut p = Profile::new();
    let mut fperms: Vec<FieldPermission> = Vec::new();
    let mut operms: Vec<ObjectPermission> = Vec::new();
    let mut rtvis: Vec<RecordTypeVisibility> = Vec::new();
    let mut i: usize = 0;
    while i < e.children.len()
        invariant
            cs == elem_value_of(*e).children,
            cs.len() == e.children@.len(),
            i <= e.children@.len(),
            p@.name == Seq::<char>::empty(),
            p@.field_permissions == Seq::<FieldPermValue>::empty(),
            p@.object_permissions == Seq::<ObjectPermValue>::empty(),
            p@.record_type_visibilities == Seq::<RecordTypeVisValue>::empty(),
            profile_of_children(cs.take(i as int)).name == Seq::<char>::empty(),
            p@.user_license == profile_of_children(cs.take(i as int)).user_license,
            fperms@.map_values(|fp: FieldPermission| fp@) == profile_of_children(
                cs.take(i as int),
            ).field_permissions,
            operms@.map_values(|op: ObjectPermission| op@) == profile_of_children(
                cs.take(i as int),
            ).object_permissions,
            rtvis@.map_values(|rtv: RecordTypeVisibility| rtv@) == profile_of_children(
                cs.take(i as int),
            ).record_type_visibilities,
        decreases e.children@.len() - i,
    {
        let ghost fperms0 = fperms@;
        let ghost operms0 = operms@;
        let ghost rtvis0 = rtvis@;
        match &e.children[i] {
            ChildNode::Element(child) => {
                if str_eq(child.name.as_str(), "fieldPermissions") {
                    fperms.push(FieldPermission::from_xml(child));
                    proof {
                        assert(fperms@.map_values(|fp: FieldPermission| fp@) =~= fperms0.map_values(
                            |fp: FieldPermission| fp@,
                        ).push(fperms@.last()@));
                    }
                } else if str_eq(child.name.as_str(), "objectPermissions") {
                    operms.push(ObjectPermission::from_xml(child));
                    proof {
                        assert(operms@.map_values(|op: ObjectPermission| op@) =~= operms0.map_values(
                            |op: ObjectPermission| op@,
                        ).push(operms@.last()@));
                    }
                } else if str_eq(child.name.as_str(), "recordTypeVisibilities") {
                    rtvis.push(RecordTypeVisibility::from_xml(child));
                    proof {
                        assert(rtvis@.map_values(|rtv: RecordTypeVisibility| rtv@)
                            =~= rtvis0.map_values(|rtv: RecordTypeVisibility| rtv@).push(
                            rtvis@.last()@,
                        ));
                    }
                } else if str_eq(child.name.as_str(), "userLicense") {
                    p.set_user_license(get_element_value(child));
                }
            },
            _ => {},
        }
        proof {
            lemma_children_values_index(e.children@, i as int);
            assert(cs.take(i + 1).drop_last() =~= cs.take(i as int));
            assert(cs.take(i + 1).last() == cs[i as int]);
        }
        i = i + 1;
    }
    proof {
        assert(cs.take(e.children@.len() as int) =~= cs);
    }
    let ghost target = profile_of_children(cs);
    p.push_field_perms(fperms);
    p.push_object_perms(operms);
    p.push_record_types(rtvis);
    proof {
        assert(p@.field_permissions =~= target.field_permissions);
        assert(p@.object_permissions =~= target.object_permissions);
        assert(p@.record_type_visibilities =~= target.record_type_visibilities);
        assert(p@ =~= target);
    }
    p
}

/// The diagnostic lines of the generic traversal, for one child node.
pub open spec fn child_diag_lines(c: ChildValue) -> Seq<Seq<char>>
    decreases c,
{
    match c {
        ChildValue::Element(e) => {
            if e.name == "fieldPermissions"@ {
                seq![elem_text(e)]
            } else {
                elem_diag_lines(e)
            }
        },
        ChildValue::Text(t) => seq!["Charnode: "@ + t],
        ChildValue::CData(t) => seq!["CDATAnode: "@ + t],
        ChildValue::Comment(t) => seq!["Comment: "@ + t],
    }
}

/// The diagnostic lines of the generic traversal, over a children sequence.
pub open spec fn children_diag_lines(cs: Seq<ChildValue>) -> Seq<Seq<char>>
    decreases cs,
{
    if cs.len() == 0 {
        Seq::empty()
    } else {
        children_diag_lines(cs.drop_last()) + child_diag_lines(cs.last())
    }
}

/// The diagnostic lines of the generic traversal for one element: its name,
/// then each child's lines in order, recursing into nested elements.
pub open spec fn elem_diag_lines(e: ElemValue) -> Seq<Seq<char>>
    decreases e,
{
    seq!["Element Name: "@ + e.name] + children_diag_lines(e.children)
}

/// The generic diagnostic traversal: reports the element's name and the
/// content it holds, line by line, recursing into nested elements. This is
/// boundary behavior for anything the schema does not recognize; it never
/// fails.
pub fn handle_element(e: &ElementNode) -> (lines: Vec<String>)
    ensures
        lines.deep_view() == elem_diag_lines(elem_value_of(*e)),
    decreases *e,
{
    let ghost cs = elem_value_of(*e).children;
    let ghost head_line = "Element Name: "@ + e.name@;
    proof {
        lemma_children_values_len(e.children@);
    }
    let mut lines: Vec<String> = Vec::new();
    let mut head = String::new();
    head.append("Element Name: ");
    head.append(e.name.as_str());
    lines.push(head);
    proof {
        assert(lines.deep_view() =~= seq![head_line] + children_diag_lines(cs.take(0)));
    }
    let mut i: usize = 0;
    while i < e.children.len()
        invariant
            cs == elem_value_of(*e).children,
            cs.len() == e.children@.len(),
            i <= e.children@.len(),
            head_line == "Element Name: "@ + e.name@,
            lines.deep_view() == seq![head_line] + children_diag_lines(cs.take(i as int)),
        decreases e.children@.len() - i,
    {
        let ghost lines0 = lines.deep_view();
        proof {
            lemma_children_values_index(e.children@, i as int);
        }
        match &e.children[i] {
            ChildNode::Element(child) => {
                if str_eq(child.name.as_str(), "fieldPermissions") {
                    lines.push(get_element_value(child));
                    proof {
                        assert(lines.deep_view() =~= lines0 + child_diag_lines(cs[i as int]));
                    }
                } else {
                    let mut sub = handle_element(child);
                    let ghost subv = sub.deep_view();
                    lines.append(&mut sub);
                    proof {
                        assert(lines.deep_view() =~= lines0 + subv);
                    }
                }
            },
            ChildNode::Text(t) => {
                let mut line = String::new();
                line.append("Charnode: ");
                line.append(t.as_str());
                lines.push(line);
                proof {
                    assert(lines.deep_view() =~= lines0 + child_diag_lines(cs[i as int]));
                }
            },
            ChildNode::CData(t) => {
                let mut line = String::new();
                line.append("CDATAnode: ");
                line.append(t.as_str());
                lines.push(line);
                proof {
                    assert(lines.deep_view() =~= lines0 + child_diag_lines(cs[i as int]));
                }
            },
            ChildNode::Comment(t) => {
                let mut line = String::new();
                line.append("Comment: ");
                line.append(t.as_str());
                lines.push(line);
                proof {
                    assert(lines.deep_view() =~= lines0 + child_diag_lines(cs[i as int]));
                }
            },
        }
        proof {
            assert(cs.take(i + 1).drop_last() =~= cs.take(i as int));
            assert(cs.take(i + 1).last() == cs[i as int]);
            lemma_concat_assoc(
                seq![head_line],
                children_diag_lines(cs.take(i as int)),
                child_diag_lines(cs[i as int]),
            );
        }
        i = i + 1;
    }
    proof {
        assert(cs.take(e.children@.len() as int) =~= cs);
    }
    lines
}

} // verus!
