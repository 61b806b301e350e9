//! The element builder: a stack-based state machine that consumes parse
//! events in delivery order and emits completed top-level element subtrees.
//!
//! Structural anomalies (mismatched tags, text outside any element) indicate
//! a genuinely malformed document, so the builder reports them as errors and
//! the driver stops delivering events.

use vstd::prelude::*;
use crate::events::{BuildError, DocumentParseError, EventValue, ParseEvent, StructuralError};
use crate::events::{BuildErrorValue, StructuralErrorValue, DocumentParseErrorValue};
use crate::text::str_eq;
use crate::tree::{ChildNode, ChildValue, ElemValue, ElementNode};
use crate::tree::{child_value, elem_value_of, lemma_children_values_push};

verus! {

/// The mathematical values of a stack of open elements, bottom first.
pub open spec fn stack_values(s: Seq<ElementNode>) -> Seq<ElemValue> {
    s.map_values(|e: ElementNode| elem_value_of(e))
}

/// What one event does to the builder.
pub ghost enum StepResult {
    /// The stack changed; no subtree is complete yet.
    Continue { stack: Seq<ElemValue> },
    /// The closing tag of a top-level element arrived: the finished subtree
    /// is delivered and the stack (now empty) is ready for the next one.
    Complete { stack: Seq<ElemValue>, element: ElemValue },
    /// A fatal error; the stack is left as it was.
    Halt { stack: Seq<ElemValue>, error: BuildErrorValue },
}

/// Appends a child to the innermost open element.
pub open spec fn stack_add_child(stack: Seq<ElemValue>, c: ChildValue) -> Seq<ElemValue>
    recommends
        stack.len() > 0,
{
    stack.update(
        stack.len() - 1,
        ElemValue { name: stack.last().name, children: stack.last().children.push(c) },
    )
}

/// A content event (text, CDATA or a comment) joins the innermost open
/// element; with no element open it is a structural error.
pub open spec fn content_step(stack: Seq<ElemValue>, c: ChildValue) -> StepResult {
    if stack.len() == 0 {
        StepResult::Halt {
            stack,
            error: BuildErrorValue::Structure(StructuralErrorValue::TextOutsideElement),
        }
    } else {
        StepResult::Continue { stack: stack_add_child(stack, c) }
    }
}

/// The builder's transition relation, one event at a time.
pub open spec fn builder_step(stack: Seq<ElemValue>, ev: EventValue) -> StepResult {
    match ev {
        EventValue::StartTag { name, attributes } => StepResult::Continue {
            stack: stack.push(ElemValue { name, children: Seq::empty() }),
        },
        EventValue::Text { content } => content_step(stack, ChildValue::Text(content)),
        EventValue::CData { content } => content_step(stack, ChildValue::CData(content)),
        EventValue::Comment { content } => content_step(stack, ChildValue::Comment(content)),
        EventValue::EndTag { name } => {
            if stack.len() == 0 {
                StepResult::Halt {
                    stack,
                    error: BuildErrorValue::Structure(
                        StructuralErrorValue::MismatchedTag {
                            expected: Seq::empty(),
                            found: name,
                        },
                    ),
                }
            } else if stack.last().name != name {
                StepResult::Halt {
                    stack,
                    error: BuildErrorValue::Structure(
                        StructuralErrorValue::MismatchedTag {
                            expected: stack.last().name,
                            found: name,
                        },
                    ),
                }
            } else if stack.len() == 1 {
                StepResult::Complete { stack: Seq::empty(), element: stack.last() }
            } else {
                StepResult::Continue {
                    stack: stack_add_child(stack.drop_last(), ChildValue::Element(stack.last())),
                }
            }
        },
        EventValue::Error { line, column, message } => StepResult::Halt {
            stack,
            error: BuildErrorValue::Document(
                DocumentParseErrorValue { line, column, message },
            ),
        },
    }
}

/// A stack of open elements, each exclusively owning its children buffer.
pub struct ElementBuilder {
    stack: Vec<ElementNode>,
}

impl View for ElementBuilder {
    type V = Seq<ElemValue>;

    closed spec fn view(&self) -> Seq<ElemValue> {
        stack_values(self.stack@)
    }
}

impl ElementBuilder {
    /// A fresh builder with no open element.
    pub fn new() -> (b: ElementBuilder)
        ensures
            b@ == Seq::<ElemValue>::empty(),
    {
        let b = ElementBuilder { stack: Vec::new() };
        proof {
            assert(b@ =~= Seq::<ElemValue>::empty());
        }
        b
    }

    /// Consumes one event. `Ok(Some(..))` delivers a completed top-level
    /// element; `Ok(None)` means the event was folded into the stack; `Err`
    /// reports a fatal error and leaves the stack as it was.
    pub fn push_event(&mut self, event: ParseEvent) -> (r: Result<
        Option<ElementNode>,
        BuildError,
    >)
        ensures
            match builder_step(old(self)@, event@) {
                StepResult::Continue { stack } => {
                    &&& final(self)@ == stack
                    &&& r matches Ok(None)
                },
                StepResult::Complete { stack, element } => {
                    &&& final(self)@ == stack
                    &&& r matches Ok(Some(node)) && elem_value_of(node) == element
                },
                StepResult::Halt { stack, error } => {
                    &&& final(self)@ == stack
                    &&& r matches Err(e) && e@ == error
                },
            },
    {
        match event {
            ParseEvent::StartTag { name, attributes: _ } => {
                let node = ElementNode { name, children: Vec::new() };
                let ghost node_value = elem_value_of(node);
                proof {
                    assert(node_value.children =~= Seq::<ChildValue>::empty());
                }
                self.stack.push(node);
                proof {
                    assert(self@ =~= old(self)@.push(node_value));
                }
                Ok(None)
            },
            ParseEvent::Text { content } => self.add_child(ChildNode::Text(content)),
            ParseEvent::CData { content } => self.add_child(ChildNode::CData(content)),
            ParseEvent::Comment { content } => self.add_child(ChildNode::Comment(content)),
            ParseEvent::EndTag { name } => {
                if self.stack.len() == 0 {
                    Err(
                        BuildError::Structure(
                            StructuralError::MismatchedTag {
                                expected: String::new(),
                                found: name,
                            },
                        ),
                    )
                } else {
                    let top_idx = self.stack.len() - 1;
                    if !str_eq(self.stack[top_idx].name.as_str(), name.as_str()) {
                        let expected = self.stack[top_idx].name.clone();
                        Err(
                            BuildError::Structure(
                                StructuralError::MismatchedTag { expected, found: name },
                            ),
                        )
                    } else {
                        let node = self.stack.pop().unwrap();
                        if self.stack.len() == 0 {
                            proof {
                                assert(self@ =~= Seq::<ElemValue>::empty());
                            }
                            Ok(Some(node))
                        } else {
                            let ghost node_value = elem_value_of(node);
                            let mut parent = self.stack.pop().unwrap();
                            let ghost parent_children0 = parent.children@;
                            parent.children.push(ChildNode::Element(node));
                            self.stack.push(parent);
                            proof {
                                lemma_children_values_push(
                                    parent_children0,
                                    ChildNode::Element(node),
                                );
                                assert(self@ =~= stack_add_child(
                                    old(self)@.drop_last(),
                                    ChildValue::Element(node_value),
                                ));
                            }
                            Ok(None)
                        }
                    }
                }
            },
            ParseEvent::Error { line, column, message } => {
                Err(BuildError::Document(DocumentParseError { line, column, message }))
            },
        }
    }

    /// Appends a content child to the innermost open element.
    fn add_child(&mut self, c: ChildNode) -> (r: Result<Option<ElementNode>, BuildError>)
        ensures
            match content_step(old(self)@, child_value(c)) {
                StepResult::Continue { stack } => {
                    &&& final(self)@ == stack
                    &&& r matches Ok(None)
                },
                StepResult::Complete { stack, element } => false,
                StepResult::Halt { stack, error } => {
                    &&& final(self)@ == stack
                    &&& r matches Err(e) && e@ == error
                },
            },
    {
        if self.stack.len() == 0 {
            Err(BuildError::Structure(StructuralError::TextOutsideElement))
        } else {
            let ghost c_value = child_value(c);
            let mut top = self.stack.pop().unwrap();
            let ghost top_children0 = top.children@;
            top.children.push(c);
            self.stack.push(top);
            proof {
                lemma_children_values_push(top_children0, c);
                assert(self@ =~= stack_add_child(old(self)@, c_value));
            }
            Ok(None)
        }
    }
}

} // verus!
