//! The element tree: an element exclusively owns an ordered sequence of
//! child nodes, so the tree is acyclic by construction.

use vstd::prelude::*;

verus! {

broadcast use vstd::std_specs::vec::group_vec_axioms;

/// One child of an element: a nested element, character data, a CDATA
/// section, or a comment.
pub enum ChildNode {
    Element(ElementNode),
    Text(String),
    CData(String),
    Comment(String),
}

/// A reconstructed element: a name and its children in document order.
pub struct ElementNode {
    pub name: String,
    pub children: Vec<ChildNode>,
}

/// The mathematical value of a [`ChildNode`].
pub ghost enum ChildValue {
    Element(ElemValue),
    Text(Seq<char>),
    CData(Seq<char>),
    Comment(Seq<char>),
}

/// The mathematical value of an [`ElementNode`].
pub ghost struct ElemValue {
    pub name: Seq<char>,
    pub children: Seq<ChildValue>,
}

/// The mathematical value of a child node.
pub open spec fn child_value(c: ChildNode) -> ChildValue
    decreases c,
{
    match c {
        ChildNode::Element(e) => ChildValue::Element(elem_value_of(e)),
        ChildNode::Text(t) => ChildValue::Text(t@),
        ChildNode::CData(t) => ChildValue::CData(t@),
        ChildNode::Comment(t) => ChildValue::Comment(t@),
    }
}

/// The mathematical values of a sequence of child nodes, pointwise.
pub open spec fn children_values(cs: Seq<ChildNode>) -> Seq<ChildValue>
    decreases cs,
{
    if cs.len() == 0 {
        Seq::empty()
    } else {
        children_values(cs.drop_last()).push(child_value(cs.last()))
    }
}

/// The mathematical value of an element node.
pub open spec fn elem_value_of(e: ElementNode) -> ElemValue
    decreases e,
{
    ElemValue { name: e.name@, children: children_values(e.children@) }
}

/// `children_values` maps the sequence pointwise.
pub broadcast proof fn lemma_children_values_len(cs: Seq<ChildNode>)
    ensures
        (#[trigger] children_values(cs)).len() == cs.len(),
    decreases cs.len(),
{
    if cs.len() > 0 {
        lemma_children_values_len(cs.drop_last());
    }
}

/// The value of the `i`-th child node is the `i`-th value of the sequence.
pub broadcast proof fn lemma_children_values_index(cs: Seq<ChildNode>, i: int)
    requires
        0 <= i < cs.len(),
    ensures
        #[trigger] children_values(cs)[i] == child_value(cs[i]),
    decreases cs.len(),
{
    lemma_children_values_len(cs);
    if i < cs.len() - 1 {
        lemma_children_values_index(cs.drop_last(), i);
    }
}

/// Appending a child node appends its value.
pub proof fn lemma_children_values_push(cs: Seq<ChildNode>, c: ChildNode)
    ensures
        children_values(cs.push(c)) == children_values(cs).push(child_value(c)),
{
    assert(cs.push(c).drop_last() =~= cs);
}

/// The extracted text value of an element: the concatenation of its direct
/// `Text` children, in order. CDATA sections do not count toward the value.
pub open spec fn children_text(cs: Seq<ChildValue>) -> Seq<char>
    decreases cs.len(),
{
    if cs.len() == 0 {
        Seq::empty()
    } else {
        let tail = match cs.last() {
            ChildValue::Text(t) => t,
            _ => Seq::<char>::empty(),
        };
        children_text(cs.drop_last()) + tail
    }
}

/// The extracted text value of an element.
pub open spec fn elem_text(e: ElemValue) -> Seq<char> {
    children_text(e.children)
}

/// Concatenates the direct `Text` children of an element, in document order.
/// CDATA sections, comments and nested elements are skipped.
pub fn get_element_value(e: &ElementNode) -> (value: String)
    ensures
        value@ == elem_text(elem_value_of(*e)),
{
    let ghost cs = elem_value_of(*e).children;
    proof {
        lemma_children_values_len(e.children@);
    }
    let mut value = String::new();
    let mut i: usize = 0;
    while i < e.children.len()
        invariant
            cs == elem_value_of(*e).children,
            cs.len() == e.children@.len(),
            i <= e.children@.len(),
            value@ == children_text(cs.take(i as int)),
        decreases e.children@.len() - i,
    {
        match &e.children[i] {
            ChildNode::Text(t) => {
                value.append(t.as_str());
            },
            _ => {},
        }
        proof {
            lemma_children_values_index(e.children@, i as int);
            assert(cs.take(i + 1).drop_last() =~= cs.take(i as int));
            assert(cs.take(i + 1).last() == cs[i as int]);
        }
        i = i + 1;
    }
    proof {
        assert(cs.take(e.children@.len() as int) =~= cs);
    }
    value
}

} // verus!
