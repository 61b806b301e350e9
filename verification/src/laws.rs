//! Laws of the schema mapper, stated and proved over the decoding model:
//! what a lone `fieldPermissions` block yields, and how repeated
//! `userLicense` elements resolve.

use vstd::prelude::*;
use vstd::pervasive::arbitrary;
use crate::mapper::{profile_of_children, root_step};
use crate::profile::{field_perm_of_children, FieldPermValue};
use crate::tree::{children_text, elem_text, ChildValue, ElemValue};

verus! {

/// Whether a child is a `fieldPermissions` element.
pub open spec fn is_field_perm_block(c: ChildValue) -> bool {
    c matches ChildValue::Element(e) && e.name == "fieldPermissions"@
}

/// Whether a child is a `userLicense` element.
pub open spec fn is_user_license(c: ChildValue) -> bool {
    c matches ChildValue::Element(e) && e.name == "userLicense"@
}

/// The element inside a child known to be one.
pub open spec fn child_element(c: ChildValue) -> ElemValue
    recommends
        c is Element,
{
    match c {
        ChildValue::Element(e) => e,
        _ => arbitrary(),
    }
}

/// The children of a `fieldPermissions` block that names field `x`, sets
/// `readable` to the literal `true` and `editable` to the literal `false`.
pub open spec fn field_perm_block_children(x: Seq<char>) -> Seq<ChildValue> {
    seq![
        ChildValue::Element(ElemValue { name: "field"@, children: seq![ChildValue::Text(x)] }),
        ChildValue::Element(
            ElemValue { name: "readable"@, children: seq![ChildValue::Text("true"@)] },
        ),
        ChildValue::Element(
            ElemValue { name: "editable"@, children: seq![ChildValue::Text("false"@)] },
        ),
    ]
}

/// The text of a single-text-child element is that text.
proof fn lemma_single_text(t: Seq<char>)
    ensures
        children_text(seq![ChildValue::Text(t)]) == t,
{
    assert(seq![ChildValue::Text(t)].drop_last() =~= Seq::<ChildValue>::empty());
    assert(children_text(Seq::<ChildValue>::empty()) == Seq::<char>::empty());
    assert(children_text(seq![ChildValue::Text(t)]) =~= t);
}

/// Decoding a block with `field = x`, `readable = true`, `editable = false`
/// yields exactly that record.
pub proof fn lemma_field_perm_block_decodes(x: Seq<char>)
    ensures
        field_perm_of_children(field_perm_block_children(x)) == (FieldPermValue {
            field: x,
            readable: true,
            editable: false,
        }),
{
    reveal_strlit("field");
    reveal_strlit("readable");
    reveal_strlit("editable");
    reveal_strlit("true");
    reveal_strlit("false");
    assert("field"@.len() == 5);
    assert("readable"@.len() == 8);
    assert("editable"@.len() == 8);
    assert("true"@.len() == 4);
    assert("false"@.len() == 5);
    assert("readable"@[0] == 'r' && "editable"@[0] == 'e');
    assert("readable"@ != "field"@);
    assert("editable"@ != "field"@);
    assert("editable"@ != "readable"@);
    assert("false"@ != "true"@);
    lemma_single_text(x);
    lemma_single_text("true"@);
    lemma_single_text("false"@);
    let c_field = ChildValue::Element(
        ElemValue { name: "field"@, children: seq![ChildValue::Text(x)] },
    );
    let c_readable = ChildValue::Element(
        ElemValue { name: "readable"@, children: seq![ChildValue::Text("true"@)] },
    );
    let c_editable = ChildValue::Element(
        ElemValue { name: "editable"@, children: seq![ChildValue::Text("false"@)] },
    );
    let cs = field_perm_block_children(x);
    assert(field_perm_of_children(Seq::<ChildValue>::empty()) == crate::profile::default_field_perm());
    assert(seq![c_field].drop_last() =~= Seq::<ChildValue>::empty());
    assert(seq![c_field, c_readable].drop_last() =~= seq![c_field]);
    assert(cs.drop_last() =~= seq![c_field, c_readable]);
    assert(field_perm_of_children(seq![c_field]) =~= (FieldPermValue {
        field: x,
        readable: false,
        editable: false,
    }));
    assert(field_perm_of_children(seq![c_field, c_readable]) =~= (FieldPermValue {
        field: x,
        readable: true,
        editable: false,
    }));
    assert(field_perm_of_children(cs) =~= (FieldPermValue {
        field: x,
        readable: true,
        editable: false,
    }));
}

/// With no `fieldPermissions` block among the children, no field permission
/// is decoded.
pub proof fn lemma_no_field_perm_blocks(cs: Seq<ChildValue>)
    requires
        forall|j: int| 0 <= j < cs.len() ==> !is_field_perm_block(#[trigger] cs[j]),
    ensures
        profile_of_children(cs).field_permissions == Seq::<FieldPermValue>::empty(),
    decreases cs.len(),
{
    if cs.len() > 0 {
        lemma_no_field_perm_blocks(cs.drop_last());
    }
}

/// A document whose `Profile` children hold exactly one `fieldPermissions`
/// block, with `field = x`, `readable = true` and `editable = false`, decodes
/// to exactly one field permission, that record, in document order.
pub proof fn lemma_single_field_permissions_block(cs: Seq<ChildValue>, i: int, x: Seq<char>)
    requires
        0 <= i < cs.len(),
        cs[i] == ChildValue::Element(
            ElemValue { name: "fieldPermissions"@, children: field_perm_block_children(x) },
        ),
        forall|j: int| 0 <= j < cs.len() && j != i ==> !is_field_perm_block(#[trigger] cs[j]),
    ensures
        profile_of_children(cs).field_permissions == seq![
            FieldPermValue { field: x, readable: true, editable: false },
        ],
    decreases cs.len(),
{
    let pre = cs.drop_last();
    if i == cs.len() - 1 {
        lemma_no_field_perm_blocks(pre);
        lemma_field_perm_block_decodes(x);
        assert(profile_of_children(cs).field_permissions =~= seq![
            FieldPermValue { field: x, readable: true, editable: false },
        ]);
    } else {
        lemma_single_field_permissions_block(pre, i, x);
        assert(!is_field_perm_block(cs.last()));
    }
}

/// `userLicense` decoding: with exactly two `userLicense` elements among the
/// children, both with non-empty text, the decoded profile carries the text
/// of the later one — the last non-empty occurrence wins.
pub proof fn lemma_user_license_last_wins(cs: Seq<ChildValue>, i: int, j: int)
    requires
        0 <= i < j < cs.len(),
        is_user_license(cs[i]),
        is_user_license(cs[j]),
        elem_text(child_element(cs[i])).len() > 0,
        elem_text(child_element(cs[j])).len() > 0,
        forall|m: int| 0 <= m < cs.len() && m != i && m != j ==> !is_user_license(
            #[trigger] cs[m],
        ),
    ensures
        profile_of_children(cs).user_license == elem_text(child_element(cs[j])),
    decreases cs.len(),
{
    let pre = cs.drop_last();
    if j == cs.len() - 1 {
        reveal_strlit("userLicense");
        reveal_strlit("fieldPermissions");
        reveal_strlit("objectPermissions");
        reveal_strlit("recordTypeVisibilities");
        assert("userLicense"@.len() == 11);
        assert("fieldPermissions"@.len() == 16);
        assert("objectPermissions"@.len() == 17);
        assert("recordTypeVisibilities"@.len() == 22);
        assert(root_step(profile_of_children(pre), cs[j]).user_license == elem_text(
            child_element(cs[j]),
        ));
    } else {
        lemma_user_license_last_wins(pre, i, j);
        assert(!is_user_license(cs.last()));
    }
}

} // verus!
