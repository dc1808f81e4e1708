//! The checkbox matcher/extractor, with its bounded-depth fallback that
//! derives a label from a nested text node.

use vstd::prelude::*;
use crate::gen::checkbox::{CheckedType, ComponentCheckbox};
use crate::gen::component_generator::{
    get_bool_from_properties, get_text_from_properties, make_doc_link, opt_or_false, Component,
    ComponentGenerator, GeneratedComponent, spec_prop_bool, spec_prop_text,
};
use crate::schema::{Node, NodeType};
use crate::strutil::str_eq;

verus! {

/// A checkbox node: an instance named exactly `Checkbox`.
pub open spec fn spec_checkbox_accepts(node: Node) -> bool {
    node.node_type == NodeType::Instance && node.name@ == "Checkbox"@
}

/// The name of the first descendant of `node`, within `max - cur` levels
/// below it, whose kind is `node_type`; children are inspected before their
/// own subtrees, in document order.
pub open spec fn spec_name_from_children(
    node: Node,
    node_type: NodeType,
    cur: nat,
    max: nat,
) -> Option<String>
    decreases node,
{
    match node.children {
        Some(cs) => if cur + 1 <= max {
            spec_name_from_list(cs@, node_type, (cur + 1) as nat, max, 0)
        } else {
            None
        },
        None => None,
    }
}

pub open spec fn spec_name_from_list(
    cs: Seq<Node>,
    node_type: NodeType,
    cur: nat,
    max: nat,
    k: int,
) -> Option<String>
    decreases cs, cs.len() - k,
{
    if k < 0 || k >= cs.len() {
        None
    } else if cs[k].node_type == node_type {
        Some(cs[k].name)
    } else {
        match spec_name_from_children(cs[k], node_type, cur, max) {
            Some(v) => Some(v),
            None => spec_name_from_list(cs, node_type, cur, max, k + 1),
        }
    }
}

/// The literal text content of the first descendant of `node`, within
/// `max - cur` levels below it, whose kind is `node_type`; children are
/// inspected before their own subtrees, in document order. The first
/// matching descendant decides: a match without text content is "no value".
pub open spec fn spec_text_from_children(
    node: Node,
    node_type: NodeType,
    cur: nat,
    max: nat,
) -> Option<String>
    decreases node,
{
    match node.children {
        Some(cs) => if cur + 1 <= max {
            spec_text_from_list(cs@, node_type, (cur + 1) as nat, max, 0)
        } else {
            None
        },
        None => None,
    }
}

pub open spec fn spec_text_from_list(
    cs: Seq<Node>,
    node_type: NodeType,
    cur: nat,
    max: nat,
    k: int,
) -> Option<String>
    decreases cs, cs.len() - k,
{
    if k < 0 || k >= cs.len() {
        None
    } else if cs[k].node_type == node_type {
        cs[k].characters
    } else {
        match spec_text_from_children(cs[k], node_type, cur, max) {
            Some(v) => Some(v),
            None => spec_text_from_list(cs, node_type, cur, max, k + 1),
        }
    }
}

/// What the checkbox extractor reads: three flags and the tri-state checked
/// value from the declared properties, each defaulting when absent or
/// mistyped, and a label derived from the text content of the first nested
/// text node among the node's own children (one level only), when one is
/// there.
pub open spec fn spec_gen_checkbox(node: Node) -> ComponentCheckbox {
    ComponentCheckbox {
        has_label: opt_or_false(spec_prop_bool(node, "Label"@)),
        disabled: match spec_prop_text(node, "State"@) {
            Some(s) => s@ == "Disabled"@,
            None => false,
        },
        dismissable: false,
        checked: match spec_prop_text(node, "Checked"@) {
            Some(s) => CheckedType::spec_from_text(s@),
            None => CheckedType::False,
        },
        label: spec_text_from_children(node, NodeType::Text, 0, 1),
    }
}

pub struct CheckboxGenerator {}

impl CheckboxGenerator {
    pub fn new() -> (r: CheckboxGenerator) {
        CheckboxGenerator {  }
    }

    /// A bounded-depth search below `node` for the display name of the
    /// first descendant of the given kind. `max_depth` counts levels below
    /// `node`. Note that this reads the name, not the text content: the
    /// label fallback uses [`CheckboxGenerator::get_text_from_children`].
    pub fn get_name_from_children(
        node: &Node,
        node_type: NodeType,
        cur_depth: usize,
        max_depth: usize,
    ) -> (r: Option<String>)
        requires
            cur_depth < usize::MAX,
            max_depth < usize::MAX,
        ensures
            r == spec_name_from_children(*node, node_type, cur_depth as nat, max_depth as nat),
        decreases *node,
    {
        match &node.children {
            Some(children) => {
                let cur_depth = cur_depth + 1;
                if cur_depth <= max_depth {
                    name_from_list(children, node_type, cur_depth, max_depth, 0)
                } else {
                    None
                }
            },
            None => None,
        }
    }

    /// A bounded-depth search below `node` for the literal text content of
    /// the first descendant of the given kind. `max_depth` counts levels
    /// below `node`. This is the label fallback: the first matching
    /// descendant decides, and one without text content gives no value.
    pub fn get_text_from_children(
        node: &Node,
        node_type: NodeType,
        cur_depth: usize,
        max_depth: usize,
    ) -> (r: Option<String>)
        requires
            cur_depth < usize::MAX,
            max_depth < usize::MAX,
        ensures
            r == spec_text_from_children(*node, node_type, cur_depth as nat, max_depth as nat),
        decreases *node,
    {
        match &node.children {
            Some(children) => {
                let cur_depth = cur_depth + 1;
                if cur_depth <= max_depth {
                    text_from_list(children, node_type, cur_depth, max_depth, 0)
                } else {
                    None
                }
            },
            None => None,
        }
    }
}

fn text_from_list(
    cs: &Vec<Node>,
    node_type: NodeType,
    cur_depth: usize,
    max_depth: usize,
    k: usize,
) -> (r: Option<String>)
    requires
        cur_depth <= max_depth,
        max_depth < usize::MAX,
    ensures
        r == spec_text_from_list(cs@, node_type, cur_depth as nat, max_depth as nat, k as int),
    decreases cs@, cs@.len() - k,
{
    if k >= cs.len() {
        None
    } else {
        let child = &cs[k];
        if child.node_type == node_type {
            match &child.characters {
                Some(s) => Some(s.clone()),
                None => None,
            }
        } else {
            match CheckboxGenerator::get_text_from_children(
                child,
                node_type,
                cur_depth,
                max_depth,
            ) {
                Some(v) => Some(v),
                None => text_from_list(cs, node_type, cur_depth, max_depth, k + 1),
            }
        }
    }
}

fn name_from_list(
    cs: &Vec<Node>,
    node_type: NodeType,
    cur_depth: usize,
    max_depth: usize,
    k: usize,
) -> (r: Option<String>)
    requires
        cur_depth <= max_depth,
        max_depth < usize::MAX,
    ensures
        r == spec_name_from_list(cs@, node_type, cur_depth as nat, max_depth as nat, k as int),
    decreases cs@, cs@.len() - k,
{
    if k >= cs.len() {
        None
    } else {
        let child = &cs[k];
        if child.node_type == node_type {
            Some(child.name.clone())
        } else {
            match CheckboxGenerator::get_name_from_children(
                child,
                node_type,
                cur_depth,
                max_depth,
            ) {
                Some(v) => Some(v),
                None => name_from_list(cs, node_type, cur_depth, max_depth, k + 1),
            }
        }
    }
}

impl ComponentGenerator for CheckboxGenerator {
    open spec fn spec_accepts(&self, node: Node) -> bool {
        spec_checkbox_accepts(node)
    }

    open spec fn spec_extract(&self, node: Node) -> GeneratedComponent {
        GeneratedComponent::Checkbox(spec_gen_checkbox(node))
    }

    fn is_instance_type(&self, node: &Node) -> (r: bool) {
        node.node_type == NodeType::Instance
    }

    fn can_gen_component(&self, node: &Node) -> (r: bool) {
        self.is_instance_type(node) && str_eq(node.name.as_str(), "Checkbox")
    }

    fn gen_component(&self, node: &Node) -> (r: GeneratedComponent) {
        let mut checkbox = ComponentCheckbox::new();
        checkbox.has_label = match get_bool_from_properties(node, "Label") {
            Some(b) => b,
            None => false,
        };
        checkbox.disabled = match get_text_from_properties(node, "State") {
            Some(val) => str_eq(val.as_str(), "Disabled"),
            None => false,
        };
        // The upstream tool cannot express dismissability for checkboxes.
        checkbox.dismissable = false;
        checkbox.checked = match get_text_from_properties(node, "Checked") {
            Some(val) => CheckedType::from_text(val.as_str()),
            None => CheckedType::False,
        };
        checkbox.label = CheckboxGenerator::get_text_from_children(node, NodeType::Text, 0, 1);
        GeneratedComponent::Checkbox(checkbox)
    }
}

impl Component for ComponentCheckbox {
    open spec fn spec_name(&self) -> Seq<char> {
        "Checkbox"@
    }

    open spec fn spec_link(&self) -> Seq<char> {
        "/mui-components-checkbox--docs"@
    }

    fn name(&self) -> (r: String) {
        String::from_str("Checkbox")
    }

    fn link(&self) -> (r: String) {
        String::from_str("/mui-components-checkbox--docs")
    }

    fn doc_link(&self) -> (r: String) {
        make_doc_link("/mui-components-checkbox--docs")
    }
}

} // verus!
